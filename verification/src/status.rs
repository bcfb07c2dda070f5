//! The status reporter's one judgement.
//!
//! The version-control tool's terse status output lists one changed
//! path per line; a working directory is clean exactly when the
//! output holds nothing but whitespace.

use vstd::prelude::*;
use vstd::string::StrSliceExecFns;

verus! {

/// The whitespace characters that a terse status output can contain
/// without reporting a change.
pub open spec fn is_status_blank(c: char) -> bool {
    c == ' ' || c == '\t' || c == '\n' || c == '\r'
}

/// A status output reports a clean working directory exactly when
/// it holds nothing but whitespace.
pub open spec fn clean_status(s: Seq<char>) -> bool {
    forall|i: int| 0 <= i < s.len() ==> is_status_blank(#[trigger] s[i])
}

/// Whether the status output reports a clean working directory.
pub fn is_clean_status(s: &str) -> (b: bool)
    ensures
        b == clean_status(s@),
{
    let n = s.unicode_len();
    let mut i: usize = 0;
    while i < n
        invariant
            0 <= i <= n,
            n == s@.len(),
            forall|k: int| 0 <= k < i ==> is_status_blank(#[trigger] s@[k]),
        decreases n - i,
    {
        let c = s.get_char(i);
        if !(c == ' ' || c == '\t' || c == '\n' || c == '\r') {
            return false;
        }
        i = i + 1;
    }
    true
}

} // verus!
