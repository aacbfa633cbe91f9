//! Classifying probe output lines.
//!
//! The probe collaborator (outside the core) runs a `ping` subprocess with
//! timestamped output and reads it line by line; this module decides which
//! lines witness presence. A successful response line begins with the
//! timestamp bracket, and a line reporting an unreachable destination is
//! not a response, whatever else it carries.

use vstd::prelude::*;
use crate::minuterie::Heartbeat;
use crate::text::contains_seq;
use crate::text::str_contains;
use crate::text::str_starts_with;

verus! {

/// What counts as a successful probe response line.
pub open spec fn spec_ping_response(line: Seq<char>) -> bool {
    &&& line.len() >= 1
    &&& line.first() == '['
    &&& !contains_seq(line, "Destination Host Unreachable"@)
}

/// Returns if a probe output line witnesses a response from the host.
pub fn is_ping_response(line: &str) -> (r: bool)
    ensures
        r == spec_ping_response(line@),
{
    proof {
        reveal_strlit("[");
    }
    let bracketed = str_starts_with(line, "[");
    proof {
        if bracketed {
            assert(line@.subrange(0, 1)[0] == line@.first());
            assert("["@[0] == '[');
        } else {
            if line@.len() >= 1 && line@.first() == '[' {
                assert(line@.subrange(0, 1) =~= "["@);
            }
        }
    }
    bracketed && !str_contains(line, "Destination Host Unreachable")
}

/// The decision behind one probe output line: a response line read at
/// instant `now` is a heartbeat, any other line is not.
pub fn heartbeat_from_ping_line(line: &str, now: u64) -> (r: Option<Heartbeat>)
    ensures
        r == (if spec_ping_response(line@) {
            Some(Heartbeat { instant: now })
        } else {
            None::<Heartbeat>
        }),
{
    if is_ping_response(line) {
        Some(Heartbeat { instant: now })
    } else {
        None
    }
}

} // verus!
