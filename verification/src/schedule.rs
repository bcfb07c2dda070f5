//! Requests, planned commits and schedules.

use vstd::prelude::*;
use crate::timestamp::Timestamp;

verus! {

/// A request to produce `count` commits over a time window.
///
/// `count` must be at least 1 for planning to succeed. `spread_hours`
/// is the total window in hours over which the commits are spread;
/// when absent, multi-commit schedules default to a 24-hour window
/// behind the current time and a fixed one-hour step.
/// `start_timestamp`, when present, anchors the window's start to an
/// RFC 3339 instant. `force_empty` asks for commits that may carry no
/// new content.
#[derive(Debug, PartialEq, Eq)]
pub struct CommitRequest {
    pub base_message: String,
    pub count: u32,
    pub spread_hours: Option<u32>,
    pub start_timestamp: Option<String>,
    pub force_empty: bool,
}

/// The mathematical image of a `CommitRequest`.
#[verifier::ext_equal]
pub struct CommitRequestV {
    pub base_message: Seq<char>,
    pub count: nat,
    pub spread_hours: Option<nat>,
    pub start_timestamp: Option<Seq<char>>,
    pub force_empty: bool,
}

impl View for CommitRequest {
    type V = CommitRequestV;

    open spec fn view(&self) -> CommitRequestV {
        CommitRequestV {
            base_message: self.base_message@,
            count: self.count as nat,
            spread_hours: match self.spread_hours {
                Some(h) => Some(h as nat),
                None => None,
            },
            start_timestamp: match self.start_timestamp {
                Some(s) => Some(s@),
                None => None,
            },
            force_empty: self.force_empty,
        }
    }
}

/// One planned commit: its 0-based position in the schedule, its
/// message, and its author and committer instants. The two instants
/// are always equal in this design.
#[derive(Debug, PartialEq, Eq)]
pub struct PlannedCommit {
    pub index: u32,
    pub message: String,
    pub author_timestamp: Timestamp,
    pub committer_timestamp: Timestamp,
}

/// The mathematical image of a `PlannedCommit`: the instants as
/// nanoseconds since the Unix epoch.
#[verifier::ext_equal]
pub struct PlannedCommitV {
    pub index: nat,
    pub message: Seq<char>,
    pub author_timestamp: int,
    pub committer_timestamp: int,
}

impl View for PlannedCommit {
    type V = PlannedCommitV;

    open spec fn view(&self) -> PlannedCommitV {
        PlannedCommitV {
            index: self.index as nat,
            message: self.message@,
            author_timestamp: self.author_timestamp@,
            committer_timestamp: self.committer_timestamp@,
        }
    }
}

impl Clone for PlannedCommit {
    fn clone(&self) -> (r: Self)
        ensures
            r@ == self@,
    {
        PlannedCommit {
            index: self.index,
            message: self.message.clone(),
            author_timestamp: self.author_timestamp,
            committer_timestamp: self.committer_timestamp,
        }
    }
}

/// An ordered sequence of planned commits, immutable once produced by
/// the planner, together with whether each commit operation may
/// produce an empty commit.
#[derive(Debug, PartialEq, Eq)]
pub struct CommitSchedule {
    pub commits: Vec<PlannedCommit>,
    pub allow_empty: bool,
}

/// The mathematical image of a `CommitSchedule`.
#[verifier::ext_equal]
pub struct ScheduleV {
    pub commits: Seq<PlannedCommitV>,
    pub allow_empty: bool,
}

impl ScheduleV {
    /// Well-formedness: each commit's stored index is its position,
    /// committer and author timestamps agree, and timestamps are
    /// monotonically non-decreasing in index order.
    pub open spec fn wf(self) -> bool {
        &&& forall|i: int|
            0 <= i < self.commits.len() ==> (#[trigger] self.commits[i]).index == i
        &&& forall|i: int|
            0 <= i < self.commits.len() ==> (#[trigger] self.commits[i]).committer_timestamp
                == self.commits[i].author_timestamp
        &&& forall|i: int, j: int|
            0 <= i <= j < self.commits.len() ==> (#[trigger] self.commits[i]).author_timestamp
                <= (#[trigger] self.commits[j]).author_timestamp
    }
}

impl View for CommitSchedule {
    type V = ScheduleV;

    open spec fn view(&self) -> ScheduleV {
        ScheduleV {
            commits: self.commits@.map_values(|c: PlannedCommit| c@),
            allow_empty: self.allow_empty,
        }
    }
}

impl CommitSchedule {
    /// Every stored instant carries a nanosecond remainder below one
    /// second, so the second/nanosecond split is the canonical one.
    pub open spec fn normalized(&self) -> bool {
        forall|i: int|
            0 <= i < self.commits@.len() ==> (#[trigger] self.commits@[i]).author_timestamp.wf()
                && self.commits@[i].committer_timestamp.wf()
    }

    /// The number of planned commits.
    pub fn len(&self) -> (n: usize)
        ensures
            n == self@.commits.len(),
    {
        self.commits.len()
    }

    /// The planned commit at position `i`.
    pub fn get(&self, i: usize) -> (c: &PlannedCommit)
        requires
            i < self@.commits.len(),
        ensures
            c@ == self@.commits[i as int],
    {
        &self.commits[i]
    }

    /// Whether each commit operation may produce an empty commit.
    pub fn allow_empty(&self) -> (b: bool)
        ensures
            b == self@.allow_empty,
    {
        self.allow_empty
    }
}

} // verus!
