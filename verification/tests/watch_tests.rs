//! Tests for the watch-session state machine: debounce, isolation,
//! cancellation, and the vanished-target policy.

use tatum::watch::{WatchAction, WatchSession};

#[test]
fn first_change_notifies() {
    let mut s = WatchSession::new(String::from("a.md"), 1, 10);
    assert_eq!(s.observe("a.md", 100, Some(2)), WatchAction::Reload);
}

#[test]
fn unchanged_signature_is_ignored() {
    let mut s = WatchSession::new(String::from("a.md"), 1, 10);
    assert_eq!(s.observe("a.md", 100, Some(1)), WatchAction::Ignore);
}

#[test]
fn three_events_in_one_window_notify_once() {
    // Three filesystem-change events inside one debounce window yield
    // exactly one reload notification.
    let mut s = WatchSession::new(String::from("a.md"), 1, 10);
    let mut reloads = 0;
    for (now, sig) in [(100u64, 2u64), (103, 3), (107, 4)] {
        if s.observe("a.md", now, Some(sig)) == WatchAction::Reload {
            reloads += 1;
        }
    }
    assert_eq!(reloads, 1);
}

#[test]
fn change_after_window_notifies_again() {
    let mut s = WatchSession::new(String::from("a.md"), 1, 10);
    assert_eq!(s.observe("a.md", 100, Some(2)), WatchAction::Reload);
    assert_eq!(s.observe("a.md", 105, Some(3)), WatchAction::Ignore);
    assert_eq!(s.observe("a.md", 120, Some(4)), WatchAction::Reload);
}

#[test]
fn sessions_on_different_paths_are_isolated() {
    // Changing one path's file notifies only that session's client.
    let mut sa = WatchSession::new(String::from("a.md"), 1, 10);
    let mut sb = WatchSession::new(String::from("b.md"), 1, 10);
    assert_eq!(sa.observe("a.md", 100, Some(2)), WatchAction::Reload);
    assert_eq!(sb.observe("a.md", 100, Some(2)), WatchAction::Ignore);
    // The other session still has its original signature armed.
    assert_eq!(sb.observe("b.md", 101, Some(1)), WatchAction::Ignore);
    assert_eq!(sb.observe("b.md", 102, Some(5)), WatchAction::Reload);
}

#[test]
fn cancellation_stops_polling() {
    let mut s = WatchSession::new(String::from("a.md"), 1, 10);
    s.cancel();
    assert!(s.is_cancelled());
    assert_eq!(s.observe("a.md", 100, Some(2)), WatchAction::Stop);
    assert_eq!(s.observe("a.md", 101, None), WatchAction::Stop);
}

#[test]
fn cancellation_is_idempotent() {
    let mut s = WatchSession::new(String::from("a.md"), 1, 10);
    s.cancel();
    s.cancel();
    assert!(s.is_cancelled());
    assert_eq!(s.observe("a.md", 100, Some(9)), WatchAction::Stop);
}

#[test]
fn vanished_target_notifies_once_then_stops() {
    let mut s = WatchSession::new(String::from("a.md"), 1, 10);
    assert_eq!(s.observe("a.md", 100, None), WatchAction::Reload);
    assert_eq!(s.observe("a.md", 101, None), WatchAction::Stop);
    assert_eq!(s.observe("a.md", 102, Some(7)), WatchAction::Stop);
}

#[test]
fn session_reports_its_path() {
    let s = WatchSession::new(String::from("dir/doc.md"), 0, 5);
    assert_eq!(s.path(), "dir/doc.md");
}
