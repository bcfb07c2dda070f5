//! Commit scheduling and backdating engine.
//!
//! Given a request to produce `count` commits over a time window, the
//! planner computes each commit's timestamp and message; the sequencer
//! drives an external version-control tool to realize the schedule one
//! commit at a time, stopping at the first failure; the push decision
//! says whether the final push must be forced.

use vstd::prelude::*;

pub mod message;
pub mod planner;
pub mod push;
pub mod schedule;
pub mod sequencer;
pub mod status;
pub mod timestamp;

verus! {

/// Why a commit request could not be turned into a schedule.
#[derive(Clone, Copy, Debug, PartialEq, Eq, Structural)]
pub enum PlanError {
    /// The request itself is malformed: a commit count of zero.
    InvalidRequest,
    /// The start timestamp does not parse, or the derived
    /// timestamps do not fit in a 64-bit second count.
    InvalidTimestamp,
}

} // verus!
