use repoflow::push::decide_push;
use repoflow::status::is_clean_status;

#[test]
fn force_on_backdate() {
    let d = decide_push(None, true, 1);
    assert!(d.force);
    assert_eq!(d.branch, "main");
}

#[test]
fn force_on_multiple_commits() {
    let d = decide_push(None, false, 3);
    assert!(d.force);
}

#[test]
fn no_force_on_plain_single_commit() {
    let d = decide_push(Some("dev".to_string()), false, 1);
    assert!(!d.force);
    assert_eq!(d.branch, "dev");
}

#[test]
fn force_on_backdate_and_multiple() {
    let d = decide_push(Some("release".to_string()), true, 5);
    assert!(d.force);
    assert_eq!(d.branch, "release");
}

#[test]
fn clean_status_on_empty_output() {
    assert!(is_clean_status(""));
}

#[test]
fn clean_status_on_whitespace_output() {
    assert!(is_clean_status(" \t\r\n \n"));
}

#[test]
fn dirty_status_on_changed_path() {
    assert!(!is_clean_status(" M src/lib.rs\n?? notes.txt\n"));
}
