use break_reminder::config::{normalize_delay, DEFAULT_OVERLAY_DELAY_SECONDS};
use break_reminder::controller::{session_expiry_seconds, Controller, DisplaySize};
use break_reminder::error::SessionError;
use break_reminder::store::SessionStore;
use break_reminder::window::{
    close_overlay_window, close_window, hide_main_window, maximize_window, minimize_window,
    WindowAction,
};

const DISPLAY: DisplaySize = DisplaySize { width: 2560, height: 1440 };

#[test]
fn start_then_status_returns_inputs() {
    let mut c = Controller::new(false);
    let t = c
        .start_session(25, "Stretch".to_string(), 30, Some(1_700_000_000))
        .unwrap();
    assert_eq!(t.seconds, 1500);
    let s = c.get_session_status().unwrap();
    assert_eq!(s.duration, 25);
    assert_eq!(s.message, "Stretch");
    assert_eq!(s.delay, 30);
    assert_eq!(s.start_time, 1_700_000_000);
}

#[test]
fn start_with_empty_message() {
    let mut c = Controller::new(false);
    c.start_session(1, String::new(), 0, Some(5)).unwrap();
    assert_eq!(c.get_session_status().unwrap().message, "");
}

#[test]
fn start_without_clock_is_clock_error() {
    let mut c = Controller::new(false);
    let r = c.start_session(5, "x".to_string(), 1, None);
    assert!(matches!(r, Err(SessionError::Clock)));
    assert!(c.get_session_status().is_none());
}

#[test]
fn start_replaces_earlier_session() {
    let mut c = Controller::new(false);
    c.start_session(5, "first".to_string(), 1, Some(10)).unwrap();
    c.start_session(7, "second".to_string(), 2, Some(20)).unwrap();
    let s = c.get_session_status().unwrap();
    assert_eq!(s.duration, 7);
    assert_eq!(s.message, "second");
    assert_eq!(s.start_time, 20);
}

#[test]
fn stop_then_status_is_absent() {
    let mut c = Controller::new(false);
    c.start_session(5, "x".to_string(), 1, Some(10)).unwrap();
    c.stop_session();
    assert!(c.get_session_status().is_none());
}

#[test]
fn stop_twice_is_no_error() {
    let mut c = Controller::new(false);
    c.start_session(5, "x".to_string(), 1, Some(10)).unwrap();
    c.stop_session();
    c.stop_session();
    assert!(c.get_session_status().is_none());
}

#[test]
fn zero_delay_presents_default() {
    let mut c = Controller::new(false);
    let t = c.start_session(0, "Rest".to_string(), 0, Some(10)).unwrap();
    let plan = c.plan_overlay(&t, Some(DISPLAY)).unwrap().unwrap();
    assert_eq!(plan.delay, 5);
    let timer = c.overlay_shown(&plan);
    assert_eq!(timer.seconds, 5);
    let cfg = c.get_session_config().unwrap();
    assert_eq!(cfg.delay, 5);
    assert_eq!(cfg.message, "Rest");
}

#[test]
fn session_config_before_overlay_is_not_found() {
    let c = Controller::new(false);
    assert!(matches!(c.get_session_config(), Err(SessionError::NotFound)));
    let mut c2 = Controller::new(false);
    c2.start_session(3, "x".to_string(), 1, Some(1)).unwrap();
    assert!(matches!(c2.get_session_config(), Err(SessionError::NotFound)));
}

#[test]
fn end_to_end_take_a_break() {
    let mut c = Controller::new(false);
    let t = c
        .start_session(0, "Take a break".to_string(), 1, Some(100))
        .unwrap();
    assert_eq!(t.seconds, 0);
    let plan = c.plan_overlay(&t, Some(DISPLAY)).unwrap().unwrap();
    assert_eq!(plan.message, "Take a break");
    assert_eq!(plan.width, 2560);
    assert_eq!(plan.height, 1440);
    let timer = c.overlay_shown(&plan);
    assert_eq!(timer.seconds, 1);
    assert!(c.auto_close_elapsed(true, true).is_empty());
    assert_eq!(
        close_overlay_window(true, true),
        vec![WindowAction::CloseOverlay, WindowAction::ShowMain]
    );
}

#[test]
fn end_to_end_with_auto_close() {
    let mut c = Controller::new(true);
    let t = c
        .start_session(0, "Take a break".to_string(), 1, Some(100))
        .unwrap();
    let plan = c.plan_overlay(&t, Some(DISPLAY)).unwrap().unwrap();
    c.overlay_shown(&plan);
    assert_eq!(
        c.auto_close_elapsed(true, true),
        vec![WindowAction::CloseOverlay, WindowAction::ShowMain]
    );
    assert_eq!(c.auto_close_elapsed(true, false), vec![WindowAction::CloseOverlay]);
}

#[test]
fn stale_expiry_after_stop_does_nothing() {
    let mut c = Controller::new(false);
    let t = c.start_session(0, "x".to_string(), 1, Some(100)).unwrap();
    c.stop_session();
    assert!(c.plan_overlay(&t, Some(DISPLAY)).unwrap().is_none());
}

#[test]
fn stale_expiry_after_restart_does_nothing() {
    let mut c = Controller::new(false);
    let old = c.start_session(0, "old".to_string(), 1, Some(100)).unwrap();
    let new = c.start_session(0, "new".to_string(), 1, Some(101)).unwrap();
    assert!(c.plan_overlay(&old, Some(DISPLAY)).unwrap().is_none());
    assert!(c.plan_overlay(&new, Some(DISPLAY)).unwrap().is_some());
}

#[test]
fn expiry_without_display_is_display_error() {
    let mut c = Controller::new(false);
    let t = c.start_session(0, "x".to_string(), 1, Some(100)).unwrap();
    assert!(matches!(c.plan_overlay(&t, None), Err(SessionError::Display)));
    assert!(matches!(c.get_session_config(), Err(SessionError::NotFound)));
}

#[test]
fn expiry_seconds_saturates() {
    assert_eq!(session_expiry_seconds(0), 0);
    assert_eq!(session_expiry_seconds(2), 120);
    assert_eq!(session_expiry_seconds(u64::MAX / 60), (u64::MAX / 60) * 60);
    assert_eq!(session_expiry_seconds(u64::MAX / 60 + 1), u64::MAX);
    assert_eq!(session_expiry_seconds(u64::MAX), u64::MAX);
}

#[test]
fn delay_normalization() {
    assert_eq!(normalize_delay(0), DEFAULT_OVERLAY_DELAY_SECONDS);
    assert_eq!(normalize_delay(1), 1);
    assert_eq!(normalize_delay(u64::MAX), u64::MAX);
}

#[test]
fn maximize_twice_toggles() {
    let first = maximize_window(true, false).unwrap();
    assert_eq!(first, WindowAction::MaximizeMain);
    let second = maximize_window(true, true).unwrap();
    assert_eq!(second, WindowAction::UnmaximizeMain);
}

#[test]
fn main_window_commands_need_main_window() {
    assert_eq!(hide_main_window(true), Ok(WindowAction::HideMain));
    assert_eq!(minimize_window(true), Ok(WindowAction::MinimizeMain));
    assert_eq!(close_window(true), Ok(WindowAction::CloseMain));
    assert_eq!(hide_main_window(false), Err(SessionError::WindowNotFound));
    assert_eq!(minimize_window(false), Err(SessionError::WindowNotFound));
    assert_eq!(maximize_window(false, true), Err(SessionError::WindowNotFound));
    assert_eq!(close_window(false), Err(SessionError::WindowNotFound));
}

#[test]
fn close_overlay_actions_follow_existing_windows() {
    assert!(close_overlay_window(false, false).is_empty());
    assert_eq!(close_overlay_window(false, true), vec![WindowAction::ShowMain]);
    assert_eq!(close_overlay_window(true, false), vec![WindowAction::CloseOverlay]);
}

#[test]
fn controller_over_loaded_store() {
    let mut store = SessionStore::new();
    store.set_overlay(break_reminder::config::OverlayConfig { message: "m".to_string(), delay: 9 });
    let c = Controller::with_store(store, false);
    assert!(c.get_session_status().is_none());
    assert_eq!(c.get_session_config().unwrap().delay, 9);
}
