use async_job::eligible;
use async_job::finish_job;
use async_job::Tracker;

#[test]
fn new_tracker_marks_nothing() {
    let t = Tracker::new();
    assert!(!t.running(&0));
    assert!(!t.running(&usize::MAX));
}

#[test]
fn start_marks_and_counts() {
    let mut t = Tracker::new();
    assert_eq!(t.start(&3), 1);
    assert!(t.running(&3));
    assert_eq!(t.start(&5), 2);
    assert!(t.running(&5));
    assert!(!t.running(&4));
}

#[test]
fn start_twice_is_idempotent() {
    let mut t = Tracker::new();
    assert_eq!(t.start(&7), 1);
    assert_eq!(t.start(&7), 1);
    assert!(t.running(&7));
}

#[test]
fn stop_unmarks_and_counts() {
    let mut t = Tracker::new();
    t.start(&1);
    t.start(&2);
    assert_eq!(t.stop(&1), 1);
    assert!(!t.running(&1));
    assert!(t.running(&2));
    assert_eq!(t.stop(&2), 0);
}

#[test]
fn stop_of_unmarked_slot_changes_nothing() {
    let mut t = Tracker::new();
    t.start(&9);
    assert_eq!(t.stop(&4), 1);
    assert!(t.running(&9));
}

#[test]
fn slots_track_independently() {
    // Two jobs with the same recurrence still have their own slots: marking
    // one leaves the other untouched.
    let mut t = Tracker::new();
    t.start(&0);
    assert!(t.running(&0));
    assert!(!t.running(&1));
    t.start(&1);
    t.stop(&0);
    assert!(!t.running(&0));
    assert!(t.running(&1));
}

#[test]
fn marked_slot_is_not_eligible_without_parallel_runs() {
    let mut t = Tracker::new();
    t.start(&0);
    assert!(!eligible(true, false, &t, &0));
    assert!(eligible(true, true, &t, &0));
    assert!(eligible(true, false, &t, &1));
    assert!(!eligible(false, true, &t, &0));
}

#[test]
fn marked_slot_stays_blocked_while_others_change() {
    let mut t = Tracker::new();
    t.start(&0);
    t.start(&1);
    assert!(!eligible(true, false, &t, &0));
    t.stop(&1);
    assert!(!eligible(true, false, &t, &0));
    t.stop(&0);
    assert!(eligible(true, false, &t, &0));
}

#[test]
fn finish_job_reports_whether_work_remains() {
    let mut t = Tracker::new();
    t.start(&0);
    t.start(&1);
    assert!(finish_job(&mut t, &0));
    assert!(!t.running(&0));
    assert!(!finish_job(&mut t, &1));
    assert!(!t.running(&1));
}

#[test]
fn default_tracker_marks_nothing() {
    let t = Tracker::default();
    assert!(!t.running(&0));
}
