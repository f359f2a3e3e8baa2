use browser_capture::cdp::{CdpEvent, TargetInfo};
use browser_capture::recording::attach::Reply;
use browser_capture::recording::capture::{
    CaptureAction, CaptureInput, CaptureLoop, CaptureNext, CapturePhase,
};
use browser_capture::recording::commands::BrowserRequest;
use browser_capture::recording::control::RecordingControl;
use browser_capture::recording::frames::{screenshot_frame, Stamp};
use browser_capture::recording::screenshots::{ScreenshotInput, ScreenshotLoop, ScreenshotNext};
use serde_json::Value;

fn stamp() -> Stamp {
    Stamp { secs: Value::from(2.0), millis: 2000 }
}

fn event(method: &str, params: &str, session_id: Option<&str>) -> CaptureInput {
    CaptureInput::Event {
        event: CdpEvent {
            method: method.to_string(),
            params: serde_json::from_str(params).unwrap(),
            session_id: session_id.map(String::from),
        },
        own_millis: 7500,
    }
}

fn done() -> CaptureInput {
    CaptureInput::Reply(Reply::Document(Value::Null))
}

fn failed() -> CaptureInput {
    CaptureInput::Reply(Reply::Failed("timeout".to_string()))
}

/// A capture that watches the session "s" on the target "t".
fn watching() -> (CaptureLoop, RecordingControl) {
    let mut control = RecordingControl::default();
    control.set_capture_suspended(true);
    control.set_screencast_session_id("s".to_string());
    let (mut capture, next) = CaptureLoop::start("s".to_string(), Some("t".to_string()), None);
    assert!(matches!(next, CaptureNext::Subscribe));
    let action = capture.step(&mut control, CaptureInput::Subscribed, stamp());
    assert!(!control.is_capture_suspended());
    assert!(matches!(
        action.next,
        CaptureNext::Ask(BrowserRequest::StartScreencast { session_id }) if session_id == "s"
    ));
    let action = capture.step(&mut control, done(), stamp());
    assert!(matches!(action.next, CaptureNext::AwaitChangeOrEvent));
    (capture, control)
}

fn take(capture: &mut CaptureLoop, control: &mut RecordingControl, input: CaptureInput) -> CaptureAction {
    capture.step(control, input, stamp())
}

#[test]
fn images_are_acknowledged_and_handed_on() {
    let (mut capture, mut control) = watching();
    let image = event("Page.screencastFrame", r#"{"data":"AQ==","sessionId":9}"#, Some("s"));
    let action = take(&mut capture, &mut control, image);
    assert!(matches!(
        action.background,
        Some(BrowserRequest::Acknowledge { session_id, frame_session: 9 }) if session_id == "s"
    ));
    match action.next {
        CaptureNext::Emit(frame) => assert_eq!(frame.bytes, [1]),
        _ => panic!("the image is handed on"),
    }
    let action = take(&mut capture, &mut control, CaptureInput::Sent(true));
    assert!(matches!(action.next, CaptureNext::AwaitChangeOrEvent));

    let broken = event("Page.screencastFrame", r#"{"data":"?","sessionId":10}"#, None);
    let action = take(&mut capture, &mut control, broken);
    assert!(matches!(
        action.background,
        Some(BrowserRequest::Acknowledge { session_id, frame_session: 10 }) if session_id == "s"
    ));
    assert!(matches!(action.next, CaptureNext::AwaitChangeOrEvent));
}

#[test]
fn events_of_other_sessions_are_ignored() {
    let (mut capture, mut control) = watching();
    let image = event("Page.screencastFrame", r#"{"data":"AQ==","sessionId":9}"#, Some("x"));
    let action = take(&mut capture, &mut control, image);
    assert!(action.background.is_none());
    assert!(matches!(action.next, CaptureNext::AwaitChangeOrEvent));
    let action = take(&mut capture, &mut control, CaptureInput::Lagged);
    assert!(matches!(action.next, CaptureNext::AwaitChangeOrEvent));
}

#[test]
fn capture_ends_when_nobody_takes_images_or_sends_events() {
    let (mut capture, mut control) = watching();
    let image = event("Page.screencastFrame", r#"{"data":"AQ=="}"#, Some("s"));
    take(&mut capture, &mut control, image);
    let action = take(&mut capture, &mut control, CaptureInput::Sent(false));
    assert!(matches!(action.next, CaptureNext::Finish));

    let (mut capture, mut control) = watching();
    let action = take(&mut capture, &mut control, CaptureInput::Closed);
    assert!(matches!(action.next, CaptureNext::Finish));
    assert!(matches!(capture.phase, CapturePhase::Finished));
}

#[test]
fn loaded_page_gets_a_new_screencast_and_a_screenshot() {
    let (mut capture, mut control) = watching();
    let loaded = event("Page.loadEventFired", "{}", Some("s"));
    let action = take(&mut capture, &mut control, loaded);
    assert!(matches!(action.next, CaptureNext::Sleep(750)));
    let action = take(&mut capture, &mut control, CaptureInput::Elapsed);
    assert!(matches!(action.next, CaptureNext::Ask(BrowserRequest::StopScreencast { .. })));
    let action = take(&mut capture, &mut control, failed());
    assert!(matches!(action.next, CaptureNext::Ask(BrowserRequest::StartScreencast { .. })));
    let action = take(&mut capture, &mut control, done());
    assert!(matches!(action.next, CaptureNext::Ask(BrowserRequest::Screenshot { .. })));
    let shot = Reply::Document(serde_json::from_str(r#"{"data":"Ag=="}"#).unwrap());
    let action = take(&mut capture, &mut control, CaptureInput::Reply(shot));
    match action.next {
        CaptureNext::Emit(frame) => assert_eq!(frame.bytes, [2]),
        _ => panic!("the screenshot is handed on"),
    }
}

#[test]
fn suspended_capture_gives_up_its_session_and_opens_another() {
    let (mut capture, mut control) = watching();
    control.suspend_capture();
    let action = take(&mut capture, &mut control, CaptureInput::Changed);
    assert!(matches!(action.next, CaptureNext::Ask(BrowserRequest::SuspendScreencast { .. })));
    assert_eq!(control.screencast_session_id(), None);
    let action = take(&mut capture, &mut control, done());
    assert!(matches!(action.next, CaptureNext::Ask(BrowserRequest::Detach { .. })));
    let action = take(&mut capture, &mut control, failed());
    assert!(matches!(action.next, CaptureNext::Ask(BrowserRequest::AbandonSession { .. })));
    let action = take(&mut capture, &mut control, done());
    assert!(matches!(action.next, CaptureNext::Sleep(150)));
    assert!(!control.is_capture_suspended());
    let action = take(&mut capture, &mut control, CaptureInput::Elapsed);
    assert!(matches!(action.next, CaptureNext::AwaitChangeOrEvent));
    assert!(control.is_capture_suspended());

    let action = take(&mut capture, &mut control, CaptureInput::Lagged);
    assert!(matches!(action.next, CaptureNext::AwaitChangeOrEvent));
    assert!(control.is_capture_suspended());

    control.resume_capture();
    let action = take(&mut capture, &mut control, CaptureInput::Changed);
    assert!(matches!(
        action.next,
        CaptureNext::Ask(BrowserRequest::Attach { target_id }) if target_id == "t"
    ));
    take(&mut capture, &mut control, CaptureInput::Reply(Reply::Session("s2".to_string())));
    take(&mut capture, &mut control, done());
    let action = take(&mut capture, &mut control, done());
    assert!(matches!(action.next, CaptureNext::AwaitChangeOrEvent));
    assert_eq!(control.screencast_session_id(), Some("s2".to_string()));
    assert!(!control.is_capture_suspended());
}

#[test]
fn capture_follows_a_requested_target() {
    let (mut capture, mut control) = watching();
    control.switch_capture_target("t".to_string());
    let action = take(&mut capture, &mut control, CaptureInput::Changed);
    assert!(matches!(action.next, CaptureNext::AwaitChangeOrEvent));

    control.switch_capture_target("u".to_string());
    let action = take(&mut capture, &mut control, CaptureInput::Changed);
    assert!(matches!(action.next, CaptureNext::Ask(BrowserRequest::AbandonScreencast { .. })));
    assert_eq!(control.screencast_session_id(), None);
    let action = take(&mut capture, &mut control, failed());
    assert!(matches!(action.next, CaptureNext::Ask(BrowserRequest::AbandonSession { .. })));
    let action = take(&mut capture, &mut control, done());
    assert!(matches!(
        action.next,
        CaptureNext::Ask(BrowserRequest::Attach { target_id }) if target_id == "u"
    ));
    assert!(control.is_capture_suspended());
}

#[test]
fn lost_target_is_replaced() {
    let (mut capture, mut control) = watching();
    let lost = event("Target.targetDestroyed", r#"{"targetId":"t"}"#, None);
    let action = take(&mut capture, &mut control, lost);
    assert!(matches!(action.next, CaptureNext::Ask(BrowserRequest::ListTargets)));
    let targets = vec![TargetInfo {
        target_id: "u".to_string(),
        browser_context_id: None,
        trackable: true,
    }];
    take(&mut capture, &mut control, CaptureInput::Reply(Reply::Targets(targets)));
    take(&mut capture, &mut control, CaptureInput::Reply(Reply::Session("s3".to_string())));
    take(&mut capture, &mut control, done());
    let action = take(&mut capture, &mut control, done());
    assert!(matches!(action.next, CaptureNext::AwaitChangeOrEvent));
    assert_eq!(capture.target_id, Some("u".to_string()));
    assert_eq!(capture.session_id, Some("s3".to_string()));
    assert_eq!(control.screencast_session_id(), Some("s3".to_string()));
}

#[test]
fn failed_attempt_is_tried_again_later() {
    let (mut capture, mut control) = watching();
    control.switch_capture_target("u".to_string());
    take(&mut capture, &mut control, CaptureInput::Changed);
    take(&mut capture, &mut control, done());
    take(&mut capture, &mut control, done());
    take(&mut capture, &mut control, failed());
    let action = take(&mut capture, &mut control, failed());
    assert!(matches!(action.next, CaptureNext::AwaitChange(250)));
    assert!(control.is_capture_suspended());
    let action = take(&mut capture, &mut control, CaptureInput::Elapsed);
    assert!(matches!(
        action.next,
        CaptureNext::Ask(BrowserRequest::Attach { target_id }) if target_id == "u"
    ));
}

#[test]
fn screenshots_at_their_rate() {
    let (mut shots, next) = ScreenshotLoop::start("s".to_string());
    assert!(matches!(next, ScreenshotNext::AwaitTick));
    let next = shots.step(ScreenshotInput::Tick { paused: true }, stamp());
    assert!(matches!(next, ScreenshotNext::AwaitTick));
    let next = shots.step(ScreenshotInput::Tick { paused: false }, stamp());
    assert!(matches!(
        next,
        ScreenshotNext::Ask(BrowserRequest::Screenshot { session_id }) if session_id == "s"
    ));
    let next = shots.step(ScreenshotInput::Reply(Reply::Failed("slow".to_string())), stamp());
    assert!(matches!(next, ScreenshotNext::AwaitTick));
    shots.step(ScreenshotInput::Tick { paused: false }, stamp());
    let shot = Reply::Document(serde_json::from_str(r#"{"data":"Ag=="}"#).unwrap());
    match shots.step(ScreenshotInput::Reply(shot), stamp()) {
        ScreenshotNext::Emit(frame) => assert_eq!(frame.bytes, [2]),
        _ => panic!("the screenshot is handed on"),
    }
    assert!(matches!(shots.step(ScreenshotInput::Sent(true), stamp()), ScreenshotNext::AwaitTick));
    shots.step(ScreenshotInput::Tick { paused: false }, stamp());
    let shot = Reply::Document(serde_json::from_str(r#"{"data":"Ag=="}"#).unwrap());
    shots.step(ScreenshotInput::Reply(shot), stamp());
    assert!(matches!(shots.step(ScreenshotInput::Sent(false), stamp()), ScreenshotNext::Finish));
}

#[test]
fn images_of_a_capture_and_of_screenshots_are_handed_on() {
    let image = screenshot_frame(&serde_json::from_str(r#"{"data":"Ag=="}"#).unwrap(), stamp());
    let (mut capture, mut control) = watching();
    assert!(matches!(capture.hand_on(&mut control, image), CaptureNext::Emit(_)));
    assert!(matches!(capture.phase, CapturePhase::Sending));
    let (mut capture, mut control) = watching();
    assert!(matches!(capture.hand_on(&mut control, None), CaptureNext::AwaitChangeOrEvent));

    let (mut shots, _) = ScreenshotLoop::start("s".to_string());
    assert!(matches!(shots.hand_on(None), ScreenshotNext::AwaitTick));
}

#[test]
fn failed_start_does_not_end_the_capture() {
    let mut control = RecordingControl::default();
    let (mut capture, _) = CaptureLoop::start("s".to_string(), None, None);
    take(&mut capture, &mut control, CaptureInput::Subscribed);
    let action = take(&mut capture, &mut control, failed());
    assert!(matches!(action.next, CaptureNext::AwaitChangeOrEvent));
    let image = event(
        "Page.screencastFrame",
        r#"{"data":"AQ==","metadata":{"timestamp":7.5}}"#,
        Some("s"),
    );
    match take(&mut capture, &mut control, image).next {
        CaptureNext::Emit(frame) => {
            assert_eq!(frame.timestamp_secs, Value::from(7.5));
            assert_eq!(frame.metadata.timestamp, 7500);
        }
        _ => panic!("the image is handed on"),
    }
    take(&mut capture, &mut control, CaptureInput::Sent(true));
    let image = event("Page.screencastFrame", r#"{"data":"AQ=="}"#, Some("s"));
    match take(&mut capture, &mut control, image).next {
        CaptureNext::Emit(frame) => {
            assert_eq!(frame.timestamp_secs, Value::from(2.0));
            assert_eq!(frame.metadata.timestamp, 2000);
        }
        _ => panic!("the image is handed on"),
    }
}
