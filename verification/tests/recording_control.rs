use browser_capture::recording::control::{CapturePoll, RecordingControl};

#[test]
fn fresh_control_lets_the_capture_run() {
    let control = RecordingControl::default();
    assert!(!control.is_paused());
    assert!(control.capture_should_run());
    assert!(!control.is_capture_suspended());
    assert_eq!(control.screencast_session_id(), None);
}

#[test]
fn pause_and_resume() {
    let mut control = RecordingControl::default();
    control.pause();
    assert!(control.is_paused());
    control.resume();
    assert!(!control.is_paused());
}

#[test]
fn restart_request_is_taken_once() {
    let mut control = RecordingControl::default();
    assert!(!control.take_restart_requested());
    control.request_restart();
    assert!(control.take_restart_requested());
    assert!(!control.take_restart_requested());
}

#[test]
fn latest_target_request_is_taken_once() {
    let mut control = RecordingControl::default();
    control.switch_capture_target("a".to_string());
    control.switch_capture_target("b".to_string());
    assert_eq!(control.take_requested_target_id(), Some("b".to_string()));
    assert_eq!(control.take_requested_target_id(), None);
}

#[test]
fn session_is_named_and_forgotten() {
    let mut control = RecordingControl::default();
    control.set_screencast_session_id("s".to_string());
    assert_eq!(control.screencast_session_id(), Some("s".to_string()));
    control.clear_screencast_session_id();
    assert_eq!(control.screencast_session_id(), None);
}

#[test]
fn waiting_for_the_capture_to_stop() {
    let mut control = RecordingControl::default();
    control.suspend_capture();
    assert!(!control.capture_should_run());
    assert!(control.poll_suspended(false) == CapturePoll::Sleep(25));
    assert!(control.poll_suspended(true) == CapturePoll::Settled(false));
    control.set_capture_suspended(true);
    assert!(control.poll_suspended(false) == CapturePoll::Settled(true));
    assert!(control.poll_suspended(true) == CapturePoll::Settled(true));
}

#[test]
fn waiting_for_the_capture_to_go_on() {
    let mut control = RecordingControl::default();
    control.suspend_capture();
    control.set_capture_suspended(true);
    control.resume_capture();
    assert!(control.capture_should_run());
    assert!(control.poll_resumed(false) == CapturePoll::Sleep(25));
    assert!(control.poll_resumed(true) == CapturePoll::Settled(false));
    control.set_capture_suspended(false);
    assert!(control.poll_resumed(false) == CapturePoll::Settled(true));
}
