use beautyshot::overlay::{OverlayCommand, OverlaySession};
use beautyshot::store::SnapshotStore;

#[test]
fn store_starts_empty() {
    let store = SnapshotStore::new();
    assert_eq!(store.get(), None);
}

#[test]
fn store_set_get_clear() {
    let mut store = SnapshotStore::new();
    store.set(vec![1, 2, 3]);
    assert_eq!(store.get(), Some(vec![1, 2, 3]));
    store.set(vec![9]);
    assert_eq!(store.get(), Some(vec![9]));
    store.clear();
    assert_eq!(store.get(), None);
    store.clear();
    assert_eq!(store.get(), None);
}

#[test]
fn capture_then_read_returns_capture() {
    let mut session = OverlaySession::new();
    let cmd = session.capture_and_show_overlay(Ok(vec![10, 20, 30])).unwrap();
    assert_eq!(cmd, OverlayCommand::CreateWindow);
    assert_eq!(session.get_screenshot_data(), Some(vec![10, 20, 30]));
}

#[test]
fn clear_then_read_returns_absent() {
    let mut session = OverlaySession::new();
    session.capture_and_show_overlay(Ok(vec![5])).unwrap();
    session.clear_screenshot_data();
    assert_eq!(session.get_screenshot_data(), None);
    session.clear_screenshot_data();
    assert_eq!(session.get_screenshot_data(), None);
}

#[test]
fn hide_never_errors_and_is_idempotent() {
    let mut session = OverlaySession::new();
    assert!(!session.hide_overlay_window());
    assert!(!session.hide_overlay_window());
    assert!(!session.close_overlay_window());
    session.capture_and_show_overlay(Ok(vec![1])).unwrap();
    session.overlay_surfaced(Ok(())).unwrap();
    assert!(session.hide_overlay_window());
    assert!(session.hide_overlay_window());
    assert!(session.close_overlay_window());
}

#[test]
fn recapture_overwrites_snapshot() {
    let mut session = OverlaySession::new();
    let first = session.capture_and_show_overlay(Ok(vec![1, 1, 1])).unwrap();
    assert_eq!(first, OverlayCommand::CreateWindow);
    session.overlay_surfaced(Ok(())).unwrap();
    let second = session.capture_and_show_overlay(Ok(vec![2, 2])).unwrap();
    assert_eq!(second, OverlayCommand::ReuseWindow);
    assert_eq!(session.get_screenshot_data(), Some(vec![2, 2]));
}

#[test]
fn capture_failure_changes_nothing() {
    let mut session = OverlaySession::new();
    session.capture_and_show_overlay(Ok(vec![7])).unwrap();
    let r = session.capture_and_show_overlay(Err(String::from("capture failed")));
    assert_eq!(r.unwrap_err(), "capture failed");
    assert_eq!(session.get_screenshot_data(), Some(vec![7]));
}

#[test]
fn surface_failure_rolls_back_snapshot() {
    let mut session = OverlaySession::new();
    let cmd = session.capture_and_show_overlay(Ok(vec![4, 4])).unwrap();
    assert_eq!(cmd, OverlayCommand::CreateWindow);
    let r = session.overlay_surfaced(Err(String::from("window build failed")));
    assert_eq!(r.unwrap_err(), "window build failed");
    assert_eq!(session.get_screenshot_data(), None);
}

#[test]
fn create_alias_matches_capture() {
    let mut session = OverlaySession::new();
    let cmd = session.create_overlay_window(Ok(vec![8])).unwrap();
    assert_eq!(cmd, OverlayCommand::CreateWindow);
    assert_eq!(session.get_screenshot_data(), Some(vec![8]));
}
