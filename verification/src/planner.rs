//! The commit schedule planner.
//!
//! Pure computation: given a request and an injected current time (in
//! whole seconds since the Unix epoch), produce the ordered sequence
//! of planned commits, or reject the request. A spread window is
//! divided at nanosecond resolution — commit `i` sits at
//! `start + floor(i * window / count)` — so distinct commits receive
//! distinct instants whenever the window is nonzero.

use vstd::prelude::*;
use vstd::arithmetic::div_mod::{
    lemma_div_is_ordered, lemma_div_nonincreasing, lemma_div_pos_is_pos,
    lemma_fundamental_div_mod, lemma_hoist_over_denominator,
    lemma_mod_division_less_than_divisor,
};
use vstd::arithmetic::mul::{
    lemma_mul_inequality, lemma_mul_nonnegative, lemma_mul_strict_inequality,
};
use crate::message::{build_message, commit_message};
use crate::schedule::{
    CommitRequest, CommitRequestV, CommitSchedule, PlannedCommit, PlannedCommitV, ScheduleV,
};
use crate::timestamp::{parse_rfc3339, rfc3339_parse, Timestamp};
use crate::PlanError;

verus! {

/// Nanoseconds in one hour.
pub const NS_PER_HOUR: i128 = 3_600_000_000_000;

/// Nanoseconds in one second.
pub const NS_PER_SEC: i128 = 1_000_000_000;

/// The spread window in hours that the planner works with: the
/// requested one, or 24 hours for a multi-commit request with no
/// explicit window. A single-commit request degenerates to an
/// immediate commit, so its window is zero whatever was requested.
pub open spec fn effective_spread_hours(req: CommitRequestV) -> nat {
    if req.count <= 1 {
        0
    } else {
        match req.spread_hours {
            Some(h) => h,
            None => 24,
        }
    }
}

/// The window's start in whole seconds: the parsed start timestamp
/// when one was given (`None` here when it does not parse), else the
/// current time minus the spread window.
pub open spec fn plan_start(req: CommitRequestV, now: int) -> Option<int> {
    match req.start_timestamp {
        Some(s) => rfc3339_parse(s),
        None => Some(now - effective_spread_hours(req) * 3600),
    }
}

/// The offset in nanoseconds of commit `i` from the window's start:
/// the requested window divided evenly, `floor(i * window / count)`,
/// distributing the remainder; a fixed hour per commit when no
/// window was requested.
pub open spec fn plan_offset_ns(req: CommitRequestV, i: int) -> int {
    match req.spread_hours {
        Some(h) => (i * (h as int * NS_PER_HOUR as int)) / (req.count as int),
        None => i * NS_PER_HOUR as int,
    }
}

/// The planned sequence for a window starting at `start` (whole
/// seconds): commit `i` at `start` plus its offset, the base message
/// alone at index 0, a part suffix on every later commit.
pub open spec fn planned_commits(req: CommitRequestV, start: int) -> Seq<PlannedCommitV> {
    Seq::new(
        req.count,
        |i: int|
            PlannedCommitV {
                index: i as nat,
                message: commit_message(req.base_message, i as nat, req.count),
                author_timestamp: start * NS_PER_SEC as int + plan_offset_ns(req, i),
                committer_timestamp: start * NS_PER_SEC as int + plan_offset_ns(req, i),
            },
    )
}

/// What the planner returns, as a function of the request and the
/// injected current time alone. A zero commit count is rejected; a
/// start timestamp that does not parse, or a window whose commits'
/// whole-second parts do not fit in a 64-bit count, is rejected as
/// an invalid timestamp.
pub open spec fn plan_spec(req: CommitRequestV, now: int) -> Result<ScheduleV, PlanError> {
    if req.count == 0 {
        Err(PlanError::InvalidRequest)
    } else {
        match plan_start(req, now) {
            None => Err(PlanError::InvalidTimestamp),
            Some(start) => {
                let last_secs = start + plan_offset_ns(req, req.count - 1) / NS_PER_SEC as int;
                if start < i64::MIN as int || last_secs > i64::MAX as int {
                    Err(PlanError::InvalidTimestamp)
                } else {
                    Ok(
                        ScheduleV {
                            commits: planned_commits(req, start),
                            allow_empty: req.force_empty || req.count > 1,
                        },
                    )
                }
            },
        }
    }
}

/// Commit offsets are non-negative.
proof fn lemma_offset_nonneg(req: CommitRequestV, i: int)
    requires
        1 <= req.count,
        0 <= i,
    ensures
        0 <= plan_offset_ns(req, i),
{
    match req.spread_hours {
        Some(h) => {
            lemma_mul_nonnegative(i, h as int * NS_PER_HOUR as int);
            lemma_div_pos_is_pos(i * (h as int * NS_PER_HOUR as int), req.count as int);
        },
        None => {
            lemma_mul_nonnegative(i, NS_PER_HOUR as int);
        },
    }
}

/// Commit offsets are monotonically non-decreasing in the index.
proof fn lemma_offset_monotone(req: CommitRequestV, i: int, j: int)
    requires
        1 <= req.count,
        0 <= i <= j,
    ensures
        plan_offset_ns(req, i) <= plan_offset_ns(req, j),
{
    match req.spread_hours {
        Some(h) => {
            let t = h as int * NS_PER_HOUR as int;
            lemma_mul_inequality(i, j, t);
            lemma_div_is_ordered(i * t, j * t, req.count as int);
        },
        None => {
            lemma_mul_inequality(i, j, NS_PER_HOUR as int);
        },
    }
}

/// Commit offsets strictly increase in the index unless a zero
/// window was requested: an hour holds more nanoseconds than any
/// 32-bit count of commits, so the floored division never collapses
/// two indices onto one offset.
proof fn lemma_offset_strict(req: CommitRequestV, i: int, j: int)
    requires
        1 <= req.count <= 0xffff_ffff,
        req.spread_hours != Some(0nat),
        0 <= i < j,
    ensures
        plan_offset_ns(req, i) < plan_offset_ns(req, j),
{
    match req.spread_hours {
        Some(h) => {
            let t = h as int * NS_PER_HOUR as int;
            let c = req.count as int;
            lemma_mul_inequality(1, h as int, NS_PER_HOUR as int);
            assert(c <= t);
            lemma_hoist_over_denominator(i * t, 1, req.count);
            assert((i * t) / c + 1 == (i * t + c) / c);
            lemma_div_is_ordered(i * t + c, i * t + t, c);
            assert((i + 1) * t == i * t + t) by (nonlinear_arith);
            assert(plan_offset_ns(req, i) < plan_offset_ns(req, i + 1));
            lemma_offset_monotone(req, i + 1, j);
        },
        None => {
            lemma_mul_strict_inequality(i, j, NS_PER_HOUR as int);
        },
    }
}

/// The planned sequence is well-formed: indices are positions,
/// committer equals author, and instants are monotonically
/// non-decreasing.
proof fn lemma_planned_wf(req: CommitRequestV, start: int)
    requires
        1 <= req.count,
    ensures
        (ScheduleV { commits: planned_commits(req, start), allow_empty: true }).wf(),
        (ScheduleV { commits: planned_commits(req, start), allow_empty: false }).wf(),
{
    let s = planned_commits(req, start);
    assert forall|i: int, j: int| 0 <= i <= j < s.len() implies (#[trigger] s[i]).author_timestamp
        <= (#[trigger] s[j]).author_timestamp by {
        lemma_offset_monotone(req, i, j);
    }
}

/// Plans the commit schedule for `req`, with `now` the current time
/// in whole seconds since the Unix epoch. Pure and deterministic:
/// the result is exactly `plan_spec(req@, now)`.
pub fn plan(req: &CommitRequest, now: i64) -> (r: Result<CommitSchedule, PlanError>)
    ensures
        match r {
            Ok(s) => plan_spec(req@, now as int) == Ok::<ScheduleV, PlanError>(s@) && s@.wf()
                && s.normalized(),
            Err(e) => plan_spec(req@, now as int) == Err::<ScheduleV, PlanError>(e),
        },
{
    if req.count == 0 {
        return Err(PlanError::InvalidRequest);
    }
    let count: u32 = req.count;
    let spread: u32 = if count <= 1 {
        0
    } else {
        match req.spread_hours {
            Some(h) => h,
            None => 24,
        }
    };
    assert(spread as nat == effective_spread_hours(req@));
    let start128: i128 = match &req.start_timestamp {
        Some(s) => {
            match parse_rfc3339(s.as_str()) {
                Some(v) => v as i128,
                None => {
                    return Err(PlanError::InvalidTimestamp);
                },
            }
        },
        None => now as i128 - (spread as i128) * 3600,
    };
    assert(plan_start(req@, now as int) == Some(start128 as int));
    let ghost startg: int = start128 as int;
    let off_last: i128 = offset_ns(req, count - 1);
    proof {
        lemma_offset_nonneg(req@, count - 1);
        lemma_div_pos_is_pos(off_last as int, NS_PER_SEC as int);
        lemma_div_nonincreasing(off_last as int, NS_PER_SEC as int);
    }
    let ghost off_lastg: int = off_last as int;
    let last_secs128: i128 = start128 + off_last / NS_PER_SEC;
    if start128 < i64::MIN as i128 || last_secs128 > i64::MAX as i128 {
        return Err(PlanError::InvalidTimestamp);
    }
    let ghost target: Seq<PlannedCommitV> = planned_commits(req@, startg);
    let mut commits: Vec<PlannedCommit> = Vec::new();
    let mut i: u32 = 0;
    while i < count
        invariant
            0 <= i <= count,
            1 <= count == req.count,
            startg == start128 as int,
            off_lastg == plan_offset_ns(req@, count - 1),
            0 <= off_lastg,
            i64::MIN <= startg,
            startg + off_lastg / NS_PER_SEC as int <= i64::MAX,
            target == planned_commits(req@, startg),
            commits@.len() == i as int,
            forall|k: int| 0 <= k < i as int ==> (#[trigger] commits@[k])@ == target[k],
            forall|k: int|
                0 <= k < i as int ==> (#[trigger] commits@[k]).author_timestamp.wf()
                    && commits@[k].committer_timestamp.wf(),
        decreases count - i,
    {
        let msg = build_message(&req.base_message, i, count);
        let off: i128 = offset_ns(req, i);
        proof {
            lemma_offset_nonneg(req@, i as int);
            lemma_offset_monotone(req@, i as int, count - 1);
            lemma_div_is_ordered(off as int, off_lastg, NS_PER_SEC as int);
            lemma_div_pos_is_pos(off as int, NS_PER_SEC as int);
            lemma_mod_division_less_than_divisor(off as int, NS_PER_SEC as int);
            lemma_fundamental_div_mod(off as int, NS_PER_SEC as int);
        }
        let secs_off: i128 = off / NS_PER_SEC;
        let sub: i128 = off % NS_PER_SEC;
        let ts = Timestamp { secs: (start128 + secs_off) as i64, nanos: sub as u32 };
        commits.push(
            PlannedCommit { index: i, message: msg, author_timestamp: ts, committer_timestamp: ts },
        );
        proof {
            assert(commits@[i as int]@ =~= target[i as int]);
        }
        i = i + 1;
    }
    let schedule = CommitSchedule { commits, allow_empty: req.force_empty || count > 1 };
    proof {
        assert(schedule@.commits =~= target);
        lemma_planned_wf(req@, startg);
    }
    Ok(schedule)
}

/// The offset in nanoseconds of commit `i` from the window's start.
fn offset_ns(req: &CommitRequest, i: u32) -> (r: i128)
    requires
        1 <= req.count,
        i < req.count,
    ensures
        r as int == plan_offset_ns(req@, i as int),
{
    match req.spread_hours {
        Some(h) => {
            let t: i128 = (h as i128) * NS_PER_HOUR;
            proof {
                let ig: int = i as int;
                let tg: int = t as int;
                assert(0 <= ig * tg <= 0xffff_ffff * (0xffff_ffff * NS_PER_HOUR as int))
                    by (nonlinear_arith)
                    requires
                        0 <= ig <= 0xffff_ffff,
                        0 <= tg <= 0xffff_ffff * NS_PER_HOUR as int,
                ;
            }
            (i as i128) * t / (req.count as i128)
        },
        None => (i as i128) * NS_PER_HOUR,
    }
}

/// A request for exactly one commit yields a schedule with exactly
/// one planned commit, whose message is the base message verbatim,
/// with no part suffix.
pub proof fn lemma_single_commit_message(req: CommitRequestV, now: int, s: ScheduleV)
    requires
        req.count == 1,
        plan_spec(req, now) == Ok::<ScheduleV, PlanError>(s),
    ensures
        s.commits.len() == 1,
        s.commits[0].message == req.base_message,
{
}

/// A request for `count > 1` commits over an explicit spread window
/// yields `count` commits whose instant offsets divide the window
/// evenly, distributing the remainder: commit `i` sits at
/// `start + floor(i * window_ns / count)` nanoseconds. Instants are
/// monotonically non-decreasing, strictly increasing whenever the
/// window is nonzero; the base message stands verbatim at index 0
/// and a part suffix on every later commit.
pub proof fn lemma_spread_schedule(req: CommitRequestV, now: int, s: ScheduleV)
    requires
        1 < req.count <= 0xffff_ffff,
        req.spread_hours is Some,
        plan_spec(req, now) == Ok::<ScheduleV, PlanError>(s),
    ensures
        s.commits.len() == req.count,
        plan_start(req, now) is Some,
        forall|i: int|
            0 <= i < req.count ==> (#[trigger] s.commits[i]).author_timestamp == plan_start(
                req,
                now,
            )->Some_0 * 1_000_000_000 + (i * (req.spread_hours->Some_0 as int * 3_600_000_000_000))
                / (req.count as int),
        forall|i: int, j: int|
            0 <= i <= j < req.count ==> (#[trigger] s.commits[i]).author_timestamp <= (
            #[trigger] s.commits[j]).author_timestamp,
        req.spread_hours->Some_0 > 0 ==> forall|i: int, j: int|
            0 <= i < j < req.count ==> (#[trigger] s.commits[i]).author_timestamp < (
            #[trigger] s.commits[j]).author_timestamp,
        s.commits[0].message == req.base_message,
        forall|i: int|
            0 < i < req.count ==> (#[trigger] s.commits[i]).message == commit_message(
                req.base_message,
                i as nat,
                req.count,
            ),
{
    assert forall|i: int, j: int| 0 <= i <= j < req.count implies (
    #[trigger] s.commits[i]).author_timestamp <= (#[trigger] s.commits[j]).author_timestamp by {
        lemma_offset_monotone(req, i, j);
    }
    if req.spread_hours->Some_0 > 0 {
        assert forall|i: int, j: int| 0 <= i < j < req.count implies (
        #[trigger] s.commits[i]).author_timestamp < (#[trigger] s.commits[j]).author_timestamp by {
            lemma_offset_strict(req, i, j);
        }
    }
}

/// Within one planned schedule, two distinct commits share an
/// instant only when the requested spread window is zero; with any
/// nonzero window, and with the fixed hourly step of a windowless
/// request, instants strictly increase with the index. A zero
/// window places every commit at the window's start.
pub proof fn lemma_ties_only_for_zero_window(req: CommitRequestV, now: int, s: ScheduleV)
    requires
        req.count <= 0xffff_ffff,
        plan_spec(req, now) == Ok::<ScheduleV, PlanError>(s),
    ensures
        req.spread_hours != Some(0nat) ==> forall|i: int, j: int|
            0 <= i < j < s.commits.len() ==> (#[trigger] s.commits[i]).author_timestamp < (
            #[trigger] s.commits[j]).author_timestamp,
        req.spread_hours == Some(0nat) ==> forall|i: int|
            0 <= i < s.commits.len() ==> (#[trigger] s.commits[i]).author_timestamp == plan_start(
                req,
                now,
            )->Some_0 * 1_000_000_000,
{
    if req.spread_hours != Some(0nat) {
        assert forall|i: int, j: int| 0 <= i < j < s.commits.len() implies (
        #[trigger] s.commits[i]).author_timestamp < (#[trigger] s.commits[j]).author_timestamp by {
            lemma_offset_strict(req, i, j);
        }
    }
}

/// Planning is pure: the planner's result is a function of the
/// request and the injected current time alone, so two plans of
/// identical inputs are identical.
pub proof fn lemma_plan_deterministic(
    req: CommitRequestV,
    now: int,
    r1: Result<ScheduleV, PlanError>,
    r2: Result<ScheduleV, PlanError>,
)
    requires
        r1 == plan_spec(req, now),
        r2 == plan_spec(req, now),
    ensures
        r1 == r2,
{
}

} // verus!
