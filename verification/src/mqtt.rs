//! Turning transport payloads into heartbeats.
//!
//! The transport collaborator (outside the core) subscribes to a heartbeat
//! topic and hands every received payload, as plain text, to this module;
//! a payload that looks like it is meant to be true counts as a presence
//! observation.

use vstd::prelude::*;
use crate::minuterie::Heartbeat;
use crate::text::str_eq;

verus! {

/// The configurable truthy set: exactly "1", "true", "True" and "On".
pub open spec fn spec_trueish(data: Seq<char>) -> bool {
    ||| data == "1"@
    ||| data == "true"@
    ||| data == "True"@
    ||| data == "On"@
}

/// Returns if a value looks like it is meant to be true.
pub fn is_trueish(data: &str) -> (r: bool)
    ensures
        r == spec_trueish(data@),
{
    str_eq(data, "1") || str_eq(data, "true") || str_eq(data, "True") || str_eq(data, "On")
}

/// The decision behind an incoming transport message: a truthy payload
/// observed at instant `now` is a heartbeat, any other payload is not.
pub fn heartbeat_from_payload(payload: &str, now: u64) -> (r: Option<Heartbeat>)
    ensures
        r == (if spec_trueish(payload@) {
            Some(Heartbeat { instant: now })
        } else {
            None::<Heartbeat>
        }),
{
    if is_trueish(payload) {
        Some(Heartbeat { instant: now })
    } else {
        None
    }
}

} // verus!
