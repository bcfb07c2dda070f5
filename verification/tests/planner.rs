use repoflow::planner::plan;
use repoflow::schedule::CommitRequest;
use repoflow::PlanError;

// 2024-01-10T12:00:00Z in seconds since the Unix epoch.
const NOON: i64 = 1704888000;

#[test]
fn scenario_a_single_immediate() {
    let req = CommitRequest {
        base_message: "Update".to_string(),
        count: 1,
        spread_hours: None,
        start_timestamp: None,
        force_empty: false,
    };
    let s = plan(&req, NOON).unwrap();
    assert_eq!(s.commits.len(), 1);
    assert_eq!(s.commits[0].index, 0);
    assert_eq!(s.commits[0].message, "Update");
    assert_eq!(s.commits[0].author_timestamp.secs, NOON);
    assert_eq!(s.commits[0].committer_timestamp.secs, NOON);
    assert!(!s.allow_empty);
}

#[test]
fn scenario_b_spread_three() {
    let req = CommitRequest {
        base_message: "Sync".to_string(),
        count: 3,
        spread_hours: Some(6),
        start_timestamp: None,
        force_empty: false,
    };
    let s = plan(&req, NOON).unwrap();
    assert_eq!(s.commits.len(), 3);
    // start = now - 6h = 06:00Z, step = 6h / 3 = 2h
    assert_eq!(s.commits[0].author_timestamp.secs, 1704866400);
    assert_eq!(s.commits[1].author_timestamp.secs, 1704873600);
    assert_eq!(s.commits[2].author_timestamp.secs, 1704880800);
    assert_eq!(s.commits[0].message, "Sync");
    assert_eq!(s.commits[1].message, "Sync (part 2/3)");
    assert_eq!(s.commits[2].message, "Sync (part 3/3)");
    assert!(s.allow_empty);
}

#[test]
fn plan_is_deterministic() {
    let req1 = CommitRequest {
        base_message: "Sync".to_string(),
        count: 3,
        spread_hours: Some(6),
        start_timestamp: Some("2024-01-10T06:00:00Z".to_string()),
        force_empty: true,
    };
    let req2 = CommitRequest {
        base_message: "Sync".to_string(),
        count: 3,
        spread_hours: Some(6),
        start_timestamp: Some("2024-01-10T06:00:00Z".to_string()),
        force_empty: true,
    };
    let s1 = plan(&req1, NOON).unwrap();
    let s2 = plan(&req2, NOON).unwrap();
    assert_eq!(s1, s2);
}

#[test]
fn zero_count_rejected() {
    let req = CommitRequest {
        base_message: "x".to_string(),
        count: 0,
        spread_hours: None,
        start_timestamp: None,
        force_empty: false,
    };
    assert_eq!(plan(&req, NOON), Err(PlanError::InvalidRequest));
}

#[test]
fn malformed_timestamp_rejected() {
    let req = CommitRequest {
        base_message: "x".to_string(),
        count: 1,
        spread_hours: None,
        start_timestamp: Some("yesterday at noon".to_string()),
        force_empty: false,
    };
    assert_eq!(plan(&req, NOON), Err(PlanError::InvalidTimestamp));
}

#[test]
fn anchored_start_timestamp() {
    let req = CommitRequest {
        base_message: "Sync".to_string(),
        count: 3,
        spread_hours: Some(6),
        start_timestamp: Some("2024-01-10T06:00:00Z".to_string()),
        force_empty: false,
    };
    let s = plan(&req, NOON).unwrap();
    assert_eq!(s.commits[0].author_timestamp.secs, 1704866400);
    assert_eq!(s.commits[1].author_timestamp.secs, 1704873600);
    assert_eq!(s.commits[2].author_timestamp.secs, 1704880800);
}

#[test]
fn offset_start_timestamp() {
    // 06:00 at +02:00 is 04:00Z.
    let req = CommitRequest {
        base_message: "x".to_string(),
        count: 1,
        spread_hours: None,
        start_timestamp: Some("2024-01-10T06:00:00+02:00".to_string()),
        force_empty: false,
    };
    let s = plan(&req, NOON).unwrap();
    assert_eq!(s.commits[0].author_timestamp.secs, 1704859200);
}

#[test]
fn zero_spread_same_instant() {
    let req = CommitRequest {
        base_message: "x".to_string(),
        count: 3,
        spread_hours: Some(0),
        start_timestamp: None,
        force_empty: false,
    };
    let s = plan(&req, NOON).unwrap();
    assert_eq!(s.commits.len(), 3);
    for c in &s.commits {
        assert_eq!(c.author_timestamp.secs, NOON);
    }
}

#[test]
fn default_window_multi() {
    let req = CommitRequest {
        base_message: "x".to_string(),
        count: 2,
        spread_hours: None,
        start_timestamp: None,
        force_empty: false,
    };
    let s = plan(&req, NOON).unwrap();
    // start = now - 24h, step fixed at 1h
    assert_eq!(s.commits[0].author_timestamp.secs, NOON - 24 * 3600);
    assert_eq!(s.commits[1].author_timestamp.secs, NOON - 23 * 3600);
    assert!(s.allow_empty);
}

#[test]
fn part_suffix_two_digit() {
    let req = CommitRequest {
        base_message: "M".to_string(),
        count: 12,
        spread_hours: Some(0),
        start_timestamp: None,
        force_empty: false,
    };
    let s = plan(&req, NOON).unwrap();
    assert_eq!(s.commits[0].message, "M");
    assert_eq!(s.commits[9].message, "M (part 10/12)");
    assert_eq!(s.commits[11].message, "M (part 12/12)");
}

#[test]
fn empty_base_message() {
    let req = CommitRequest {
        base_message: String::new(),
        count: 2,
        spread_hours: Some(2),
        start_timestamp: None,
        force_empty: false,
    };
    let s = plan(&req, NOON).unwrap();
    assert_eq!(s.commits[0].message, "");
    assert_eq!(s.commits[1].message, " (part 2/2)");
}

#[test]
fn window_below_representable_time_rejected() {
    let req = CommitRequest {
        base_message: "x".to_string(),
        count: 2,
        spread_hours: Some(1),
        start_timestamp: None,
        force_empty: false,
    };
    assert_eq!(plan(&req, i64::MIN), Err(PlanError::InvalidTimestamp));
}

#[test]
fn force_empty_single() {
    let req = CommitRequest {
        base_message: "x".to_string(),
        count: 1,
        spread_hours: None,
        start_timestamp: None,
        force_empty: true,
    };
    let s = plan(&req, NOON).unwrap();
    assert!(s.allow_empty);
}

#[test]
fn single_with_explicit_spread() {
    // A single-commit request degenerates to an immediate commit: a
    // requested window moves nothing when there is only one commit.
    let req = CommitRequest {
        base_message: "x".to_string(),
        count: 1,
        spread_hours: Some(6),
        start_timestamp: None,
        force_empty: false,
    };
    let s = plan(&req, NOON).unwrap();
    assert_eq!(s.commits.len(), 1);
    assert_eq!(s.commits[0].author_timestamp.secs, NOON);
    assert_eq!(s.commits[0].author_timestamp.nanos, 0);
}

#[test]
fn sub_second_steps() {
    // One hour over 7200 commits: half a second per commit.
    let req = CommitRequest {
        base_message: "x".to_string(),
        count: 7200,
        spread_hours: Some(1),
        start_timestamp: None,
        force_empty: false,
    };
    let s = plan(&req, NOON).unwrap();
    let start = NOON - 3600;
    assert_eq!(s.commits[0].author_timestamp.secs, start);
    assert_eq!(s.commits[0].author_timestamp.nanos, 0);
    assert_eq!(s.commits[1].author_timestamp.secs, start);
    assert_eq!(s.commits[1].author_timestamp.nanos, 500_000_000);
    assert_eq!(s.commits[2].author_timestamp.secs, start + 1);
    assert_eq!(s.commits[2].author_timestamp.nanos, 0);
}

#[test]
fn remainder_distributed_over_window() {
    // One hour over 1000 commits: 3.6 seconds per commit, with the
    // last commit 3.6 seconds short of the window's end, not shifted
    // by accumulated rounding.
    let req = CommitRequest {
        base_message: "x".to_string(),
        count: 1000,
        spread_hours: Some(1),
        start_timestamp: None,
        force_empty: false,
    };
    let s = plan(&req, NOON).unwrap();
    let start = NOON - 3600;
    assert_eq!(s.commits[1].author_timestamp.secs, start + 3);
    assert_eq!(s.commits[1].author_timestamp.nanos, 600_000_000);
    assert_eq!(s.commits[999].author_timestamp.secs, start + 3596);
    assert_eq!(s.commits[999].author_timestamp.nanos, 400_000_000);
}

#[test]
fn distinct_instants_for_nonzero_window() {
    // More commits than the window holds seconds: instants must
    // still be strictly increasing.
    let req = CommitRequest {
        base_message: "x".to_string(),
        count: 3601,
        spread_hours: Some(1),
        start_timestamp: None,
        force_empty: false,
    };
    let s = plan(&req, NOON).unwrap();
    assert_eq!(s.commits.len(), 3601);
    for w in s.commits.windows(2) {
        let a = (&w[0].author_timestamp.secs, &w[0].author_timestamp.nanos);
        let b = (&w[1].author_timestamp.secs, &w[1].author_timestamp.nanos);
        assert!(a < b, "instants must strictly increase: {:?} vs {:?}", a, b);
    }
}
