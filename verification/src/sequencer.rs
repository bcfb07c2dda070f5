//! The commit sequencer.
//!
//! The sequencer realizes a schedule one external-tool operation at a
//! time: one staging operation, then one commit operation per planned
//! commit, strictly in index order. The caller performs each
//! operation and reports its outcome back; the sequencer stops at the
//! first failure. The decision logic is a pure step function over the
//! sequencer's state, so a whole run is a fold of that function over
//! the sequence of reported outcomes.

use vstd::prelude::*;
use crate::schedule::{CommitSchedule, PlannedCommit, PlannedCommitV, ScheduleV};

verus! {

/// Where a run stands: staging, committing, or finished (fully
/// realized, stopped by a staging failure, or stopped by a commit
/// failure).
#[derive(Clone, Copy, Debug, PartialEq, Eq, Structural)]
pub enum Phase {
    Staging,
    Committing,
    Succeeded,
    StagingFailed,
    CommitFailed,
}

/// The next operation the caller is to perform: stage all changes,
/// create the commit at the given schedule index, or nothing (the
/// run is finished).
#[derive(Clone, Copy, Debug, PartialEq, Eq, Structural)]
pub enum Action {
    StageAll,
    Commit(usize),
    Done,
}

/// Why a run stopped early.
#[derive(Clone, Copy, Debug, PartialEq, Eq, Structural)]
pub enum SequenceError {
    StagingFailed,
    CommitFailed(usize),
}

/// The mathematical image of a `SequenceError`.
pub enum SequenceErrorV {
    StagingFailed,
    CommitFailed(int),
}

impl View for SequenceError {
    type V = SequenceErrorV;

    open spec fn view(&self) -> SequenceErrorV {
        match self {
            SequenceError::StagingFailed => SequenceErrorV::StagingFailed,
            SequenceError::CommitFailed(i) => SequenceErrorV::CommitFailed(*i as int),
        }
    }
}

/// The outcome of a run: the planned commits actually realized, in
/// index order; the index of the failing commit, if one failed; and
/// the error, if the run stopped early.
#[derive(Debug, PartialEq, Eq)]
pub struct SequenceResult {
    pub committed: Vec<PlannedCommit>,
    pub failed_at: Option<usize>,
    pub error: Option<SequenceError>,
}

/// The mathematical image of a `SequenceResult`.
#[verifier::ext_equal]
pub struct SequenceResultV {
    pub committed: Seq<PlannedCommitV>,
    pub failed_at: Option<int>,
    pub error: Option<SequenceErrorV>,
}

impl View for SequenceResult {
    type V = SequenceResultV;

    open spec fn view(&self) -> SequenceResultV {
        SequenceResultV {
            committed: self.committed@.map_values(|c: PlannedCommit| c@),
            failed_at: match self.failed_at {
                Some(i) => Some(i as int),
                None => None,
            },
            error: match self.error {
                Some(e) => Some(e@),
                None => None,
            },
        }
    }
}

/// The mathematical state of a sequencer: the schedule it realizes,
/// the phase, and the number of commits realized so far (when the
/// phase is `CommitFailed`, also the index of the failing commit).
#[verifier::ext_equal]
pub struct SequencerV {
    pub schedule: ScheduleV,
    pub phase: Phase,
    pub next: nat,
}

impl SequencerV {
    /// The counter never passes the schedule's length, and points at
    /// an existing commit while one is being attempted or has failed;
    /// a finished successful run has realized the whole schedule, and
    /// a staging failure realized nothing.
    pub open spec fn wf(self) -> bool {
        &&& self.next <= self.schedule.commits.len()
        &&& (self.phase is Committing ==> self.next < self.schedule.commits.len())
        &&& (self.phase is CommitFailed ==> self.next < self.schedule.commits.len())
        &&& (self.phase is Succeeded ==> self.next == self.schedule.commits.len())
        &&& (self.phase is Staging ==> self.next == 0)
        &&& (self.phase is StagingFailed ==> self.next == 0)
    }
}

/// The state a sequencer starts in: about to stage, nothing realized.
pub open spec fn init_v(schedule: ScheduleV) -> SequencerV {
    SequencerV { schedule, phase: Phase::Staging, next: 0 }
}

/// Whether a run is finished: no further operation will be asked for.
pub open spec fn done_v(s: SequencerV) -> bool {
    s.phase is Succeeded || s.phase is StagingFailed || s.phase is CommitFailed
}

/// One step of the run: how the state changes when the caller
/// reports the outcome `ok` of the operation the state was waiting
/// for. A finished state never changes.
pub open spec fn step_v(s: SequencerV, ok: bool) -> SequencerV {
    match s.phase {
        Phase::Staging => if !ok {
            SequencerV { schedule: s.schedule, phase: Phase::StagingFailed, next: 0 }
        } else if s.schedule.commits.len() == 0 {
            SequencerV { schedule: s.schedule, phase: Phase::Succeeded, next: 0 }
        } else {
            SequencerV { schedule: s.schedule, phase: Phase::Committing, next: 0 }
        },
        Phase::Committing => if !ok {
            SequencerV { schedule: s.schedule, phase: Phase::CommitFailed, next: s.next }
        } else if s.next + 1 == s.schedule.commits.len() {
            SequencerV { schedule: s.schedule, phase: Phase::Succeeded, next: s.next + 1 }
        } else {
            SequencerV { schedule: s.schedule, phase: Phase::Committing, next: s.next + 1 }
        },
        _ => s,
    }
}

/// A whole run: the step function folded over a sequence of reported
/// outcomes.
pub open spec fn run_v(s: SequencerV, events: Seq<bool>) -> SequencerV
    decreases events.len(),
{
    if events.len() == 0 {
        s
    } else {
        run_v(step_v(s, events[0]), events.drop_first())
    }
}

/// The outcome a state stands for: the prefix of the schedule
/// realized so far, and where and why the run stopped, if it did.
pub open spec fn result_v(s: SequencerV) -> SequenceResultV {
    SequenceResultV {
        committed: s.schedule.commits.take(s.next as int),
        failed_at: if s.phase is CommitFailed {
            Some(s.next as int)
        } else {
            None
        },
        error: match s.phase {
            Phase::StagingFailed => Some(SequenceErrorV::StagingFailed),
            Phase::CommitFailed => Some(SequenceErrorV::CommitFailed(s.next as int)),
            _ => None,
        },
    }
}

/// Drives the realization of one commit schedule. The caller asks
/// for the next operation with `next_action`, performs it, and
/// reports the outcome with `record`; `into_result` renders the
/// final outcome.
pub struct Sequencer {
    schedule: CommitSchedule,
    phase: Phase,
    next: usize,
}

impl View for Sequencer {
    type V = SequencerV;

    closed spec fn view(&self) -> SequencerV {
        SequencerV { schedule: self.schedule@, phase: self.phase, next: self.next as nat }
    }
}

impl Sequencer {
    /// Starts a run of the given schedule.
    pub fn new(schedule: CommitSchedule) -> (s: Sequencer)
        ensures
            s@ == init_v(schedule@),
            s@.wf(),
    {
        Sequencer { schedule, phase: Phase::Staging, next: 0 }
    }

    /// The schedule this run realizes.
    pub fn schedule(&self) -> (s: &CommitSchedule)
        ensures
            s@ == self@.schedule,
    {
        &self.schedule
    }

    /// Whether the run is finished.
    pub fn is_done(&self) -> (b: bool)
        ensures
            b == done_v(self@),
    {
        match self.phase {
            Phase::Staging => false,
            Phase::Committing => false,
            _ => true,
        }
    }

    /// The next operation to perform: staging first, then each
    /// commit in index order, and nothing once the run is finished.
    pub fn next_action(&self) -> (a: Action)
        ensures
            self@.phase is Staging ==> a == Action::StageAll,
            self@.phase is Committing ==> a == Action::Commit(self@.next as usize),
            done_v(self@) ==> a == Action::Done,
    {
        match self.phase {
            Phase::Staging => Action::StageAll,
            Phase::Committing => Action::Commit(self.next),
            _ => Action::Done,
        }
    }

    /// Reports the outcome of the operation `next_action` asked for.
    /// The state advances by exactly one step of the step function;
    /// a failure finishes the run at once.
    pub fn record(&mut self, ok: bool)
        requires
            old(self)@.wf(),
        ensures
            final(self)@ == step_v(old(self)@, ok),
            final(self)@.wf(),
    {
        match self.phase {
            Phase::Staging => {
                if !ok {
                    self.phase = Phase::StagingFailed;
                } else if self.schedule.len() == 0 {
                    self.phase = Phase::Succeeded;
                } else {
                    self.phase = Phase::Committing;
                }
            },
            Phase::Committing => {
                if !ok {
                    self.phase = Phase::CommitFailed;
                } else {
                    let len = self.schedule.len();
                    assert(self.next < len);
                    self.next = self.next + 1;
                    if self.next == len {
                        self.phase = Phase::Succeeded;
                    }
                }
            },
            _ => {
            },
        }
    }

    /// Renders the run's outcome: the realized prefix of the
    /// schedule, and where and why the run stopped, if it did.
    pub fn into_result(self) -> (r: SequenceResult)
        requires
            self@.wf(),
        ensures
            r@ == result_v(self@),
    {
        let ghost sv = self@;
        let next = self.next;
        let phase = self.phase;
        let mut committed = self.schedule.commits;
        let ghost pre = committed@;
        committed.truncate(next);
        let (failed_at, error): (Option<usize>, Option<SequenceError>) = match phase {
            Phase::StagingFailed => (None, Some(SequenceError::StagingFailed)),
            Phase::CommitFailed => (Some(next), Some(SequenceError::CommitFailed(next))),
            _ => (None, None),
        };
        let r = SequenceResult { committed, failed_at, error };
        proof {
            assert(r@.committed.len() == result_v(sv).committed.len());
            assert forall|j: int| 0 <= j < r@.committed.len() implies r@.committed[j] == result_v(
                sv,
            ).committed[j] by {
                assert(r.committed@[j] == pre[j]);
            }
            assert(r@.committed =~= result_v(sv).committed);
            assert(r@ =~= result_v(sv));
        }
        r
    }
}

/// Whether the caller should proceed from a run's outcome to the
/// push: only a run that stopped nowhere warrants it.
pub fn proceed_to_push(r: &SequenceResult) -> (b: bool)
    ensures
        b == (r@.failed_at is None && r@.error is None),
{
    r.failed_at.is_none() && r.error.is_none()
}

/// From a state that is about to attempt commit `s.next`, a run of
/// `k` successful outcomes followed by anything advances the counter
/// by `k` and stays committing, as long as the schedule is not
/// exhausted.
proof fn lemma_run_true_commits(s: SequencerV, k: int, rest: Seq<bool>)
    requires
        s.phase is Committing,
        0 <= k,
        s.next + k < s.schedule.commits.len(),
    ensures
        run_v(s, Seq::new(k as nat, |i: int| true) + rest) == run_v(
            SequencerV { schedule: s.schedule, phase: Phase::Committing, next: (s.next + k) as nat },
            rest,
        ),
    decreases k,
{
    let events = Seq::new(k as nat, |i: int| true) + rest;
    if k == 0 {
        assert(events =~= rest);
        assert(SequencerV {
            schedule: s.schedule,
            phase: Phase::Committing,
            next: (s.next + 0) as nat,
        } =~= s);
    } else {
        assert(events[0]);
        let s1 = step_v(s, true);
        assert(s1.phase is Committing && s1.next == s.next + 1);
        assert(events.drop_first() =~= Seq::new((k - 1) as nat, |i: int| true) + rest);
        lemma_run_true_commits(s1, k - 1, rest);
    }
}

/// Partial failure: when staging succeeds, the tool succeeds for the
/// commits at indices below `k` and fails at commit index `k`, the
/// run finishes at once with exactly the first `k` planned commits
/// realized and the failure reported at index `k`; no commit past
/// `k` is attempted, since the finished state asks for no further
/// operation.
pub proof fn lemma_partial_failure(schedule: ScheduleV, k: int)
    requires
        0 <= k < schedule.commits.len(),
    ensures
        ({
            let events = seq![true] + Seq::new(k as nat, |i: int| true) + seq![false];
            let s = run_v(init_v(schedule), events);
            &&& done_v(s)
            &&& s.phase is CommitFailed
            &&& result_v(s).committed == schedule.commits.take(k)
            &&& result_v(s).failed_at == Some(k)
            &&& result_v(s).error == Some(SequenceErrorV::CommitFailed(k))
        }),
{
    let events = seq![true] + Seq::new(k as nat, |i: int| true) + seq![false];
    let s0 = init_v(schedule);
    assert(events[0]);
    let s1 = step_v(s0, true);
    assert(s1.phase is Committing && s1.next == 0);
    assert(events.drop_first() =~= Seq::new(k as nat, |i: int| true) + seq![false]);
    lemma_run_true_commits(s1, k, seq![false]);
    let s2 = SequencerV { schedule, phase: Phase::Committing, next: k as nat };
    let tail = seq![false].drop_first();
    assert(tail.len() == 0);
    assert(seq![false][0] == false);
    assert(run_v(s2, seq![false]) == run_v(step_v(s2, false), tail));
    assert(run_v(step_v(s2, false), tail) == step_v(s2, false));
}

} // verus!
