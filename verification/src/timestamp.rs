//! Instants and RFC 3339 timestamp parsing.
//!
//! Instants are carried through the library as whole seconds since
//! the Unix epoch plus a nanosecond remainder, so that a spread
//! window divided among many commits keeps distinct commits at
//! distinct instants. Mathematically an instant is a single count of
//! nanoseconds since the epoch. Parsing an RFC 3339 anchor is
//! delegated to chrono and yields whole seconds.

use vstd::prelude::*;

verus! {

/// An instant: whole seconds since the Unix epoch, plus a nanosecond
/// remainder below one second.
#[derive(Clone, Copy, Debug, PartialEq, Eq, Structural)]
pub struct Timestamp {
    pub secs: i64,
    pub nanos: u32,
}

impl Timestamp {
    /// The nanosecond remainder stays below one second.
    pub open spec fn wf(self) -> bool {
        self.nanos < 1_000_000_000
    }
}

impl View for Timestamp {
    type V = int;

    /// The instant as nanoseconds since the Unix epoch.
    open spec fn view(&self) -> int {
        self.secs * 1_000_000_000 + self.nanos
    }
}

/// The instant that an RFC 3339 string denotes, as whole seconds
/// since the Unix epoch, or `None` where the string is not a valid
/// RFC 3339 date-and-time. Which of the two holds, and the instant
/// itself, depend on the characters alone.
pub uninterp spec fn rfc3339_parse(s: Seq<char>) -> Option<int>;

/// Relies on chrono's `DateTime::parse_from_rfc3339` to accept exactly
/// the valid RFC 3339 date-and-time strings, and on its
/// `DateTime::timestamp` to give the parsed instant as whole seconds
/// since the Unix epoch. Both results depend on the characters alone.
#[verifier::external_body]
pub(crate) fn parse_rfc3339(s: &str) -> (r: Option<i64>)
    ensures
        match r {
            Some(v) => rfc3339_parse(s@) == Some(v as int),
            None => rfc3339_parse(s@) is None,
        },
{
    match chrono::DateTime::parse_from_rfc3339(s) {
        Ok(dt) => Some(dt.timestamp()),
        Err(_) => None,
    }
}

} // verus!
