//! Small verified text utilities.
//!
//! The producers classify raw text — transport payloads and probe output
//! lines — before turning it into heartbeats. These helpers give that
//! classification exact contracts over the strings' character sequences.

use vstd::prelude::*;
use vstd::string::StrSliceExecFns;

verus! {

/// Whether `needle` occurs in `hay` as a contiguous run of characters.
pub open spec fn contains_seq(hay: Seq<char>, needle: Seq<char>) -> bool {
    exists|k: int|
        0 <= k <= hay.len() - needle.len() && #[trigger] hay.subrange(k, k + needle.len())
            == needle
}

/// Character-for-character equality of two string slices.
pub fn str_eq(a: &str, b: &str) -> (r: bool)
    ensures
        r == (a@ == b@),
{
    let a_len = a.unicode_len();
    let b_len = b.unicode_len();
    if a_len != b_len {
        return false;
    }
    let mut i: usize = 0;
    while i < a_len
        invariant
            0 <= i <= a_len,
            a_len == a@.len(),
            b_len == b@.len(),
            a_len == b_len,
            forall|j: int| 0 <= j < i ==> a@[j] == b@[j],
        decreases a_len - i,
    {
        if a.get_char(i) != b.get_char(i) {
            return false;
        }
        i = i + 1;
    }
    proof {
        assert(a@ =~= b@);
    }
    true
}

/// Whether `needle` stands in `hay` exactly at position `at`.
fn matches_at(hay: &str, needle: &str, at: usize, needle_len: usize) -> (r: bool)
    requires
        needle_len == needle@.len(),
        at + needle_len <= hay@.len(),
        hay@.len() <= usize::MAX,
    ensures
        r == (hay@.subrange(at as int, at + needle@.len()) == needle@),
{
    let mut j: usize = 0;
    while j < needle_len
        invariant
            0 <= j <= needle_len,
            needle_len == needle@.len(),
            at + needle_len <= hay@.len(),
            hay@.len() <= usize::MAX,
            forall|t: int| 0 <= t < j ==> hay@[at + t] == needle@[t],
        decreases needle_len - j,
    {
        if hay.get_char(at + j) != needle.get_char(j) {
            proof {
                assert(hay@.subrange(at as int, at + needle@.len())[j as int] == hay@[at + j]);
            }
            return false;
        }
        j = j + 1;
    }
    proof {
        assert(hay@.subrange(at as int, at + needle@.len()) =~= needle@);
    }
    true
}

/// Whether `s` begins with `prefix`.
pub fn str_starts_with(s: &str, prefix: &str) -> (r: bool)
    ensures
        r == (prefix@.len() <= s@.len() && s@.subrange(0, prefix@.len() as int) == prefix@),
{
    let s_len = s.unicode_len();
    let prefix_len = prefix.unicode_len();
    if prefix_len > s_len {
        return false;
    }
    matches_at(s, prefix, 0, prefix_len)
}

/// Whether `needle` occurs anywhere in `hay`.
pub fn str_contains(hay: &str, needle: &str) -> (r: bool)
    ensures
        r == contains_seq(hay@, needle@),
{
    let hay_len = hay.unicode_len();
    let needle_len = needle.unicode_len();
    if needle_len > hay_len {
        return false;
    }
    if needle_len == 0 {
        proof {
            assert(hay@.subrange(0, 0 + needle@.len() as int) =~= needle@);
        }
        return true;
    }
    let mut at: usize = 0;
    while at <= hay_len - needle_len
        invariant
            1 <= needle_len <= hay_len,
            at <= hay_len - needle_len + 1,
            hay_len == hay@.len(),
            needle_len == needle@.len(),
            forall|k: int|
                0 <= k < at ==> #[trigger] hay@.subrange(k, k + needle@.len()) != needle@,
        decreases hay_len - at,
    {
        if matches_at(hay, needle, at, needle_len) {
            return true;
        }
        at = at + 1;
    }
    false
}

} // verus!
