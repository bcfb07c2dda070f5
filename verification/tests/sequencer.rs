use repoflow::planner::plan;
use repoflow::schedule::CommitRequest;
use repoflow::sequencer::{proceed_to_push, Action, SequenceError, Sequencer};

// 2024-01-10T12:00:00Z in seconds since the Unix epoch.
const NOON: i64 = 1704888000;

fn three_commit_schedule() -> repoflow::schedule::CommitSchedule {
    let req = CommitRequest {
        base_message: "Sync".to_string(),
        count: 3,
        spread_hours: Some(6),
        start_timestamp: None,
        force_empty: false,
    };
    plan(&req, NOON).unwrap()
}

#[test]
fn scenario_c_partial_failure() {
    let mut seq = Sequencer::new(three_commit_schedule());
    assert_eq!(seq.next_action(), Action::StageAll);
    seq.record(true);
    assert_eq!(seq.next_action(), Action::Commit(0));
    seq.record(true);
    assert_eq!(seq.next_action(), Action::Commit(1));
    seq.record(false);
    // The failure finishes the run: commit 2 is never asked for.
    assert!(seq.is_done());
    assert_eq!(seq.next_action(), Action::Done);
    let r = seq.into_result();
    assert_eq!(r.committed.len(), 1);
    assert_eq!(r.committed[0].index, 0);
    assert_eq!(r.failed_at, Some(1));
    assert_eq!(r.error, Some(SequenceError::CommitFailed(1)));
    // The caller must not proceed to push.
    assert!(!proceed_to_push(&r));
}

#[test]
fn failure_at_first_commit() {
    let mut seq = Sequencer::new(three_commit_schedule());
    seq.record(true);
    seq.record(false);
    let r = seq.into_result();
    assert_eq!(r.committed.len(), 0);
    assert_eq!(r.failed_at, Some(0));
    assert_eq!(r.error, Some(SequenceError::CommitFailed(0)));
}

#[test]
fn staging_failure_realizes_nothing() {
    let mut seq = Sequencer::new(three_commit_schedule());
    assert_eq!(seq.next_action(), Action::StageAll);
    seq.record(false);
    assert!(seq.is_done());
    let r = seq.into_result();
    assert_eq!(r.committed.len(), 0);
    assert_eq!(r.failed_at, None);
    assert_eq!(r.error, Some(SequenceError::StagingFailed));
    assert!(!proceed_to_push(&r));
}

#[test]
fn full_success_realizes_all_in_order() {
    let mut seq = Sequencer::new(three_commit_schedule());
    seq.record(true);
    let mut attempted = Vec::new();
    while !seq.is_done() {
        match seq.next_action() {
            Action::Commit(i) => attempted.push(i),
            other => panic!("unexpected action {:?}", other),
        }
        seq.record(true);
    }
    assert_eq!(attempted, vec![0, 1, 2]);
    let r = seq.into_result();
    assert_eq!(r.committed.len(), 3);
    assert_eq!(r.committed[0].message, "Sync");
    assert_eq!(r.committed[2].message, "Sync (part 3/3)");
    assert_eq!(r.failed_at, None);
    assert_eq!(r.error, None);
    assert!(proceed_to_push(&r));
}

#[test]
fn schedule_is_readable_during_run() {
    let seq = Sequencer::new(three_commit_schedule());
    assert_eq!(seq.schedule().len(), 3);
    assert_eq!(seq.schedule().get(1).message, "Sync (part 2/3)");
    assert!(seq.schedule().allow_empty());
}
