use browser_capture::cdp::CdpEvent;
use browser_capture::recording::attach::Reply;
use browser_capture::recording::commands::BrowserRequest;
use browser_capture::recording::control::RecordingControl;
use browser_capture::recording::frames::{screencast_frame, ScreencastFrame, Stamp};
use browser_capture::recording::task::{
    encoder_failed, encoder_has_no_input, encoder_not_started, spawn_recording_task, EncoderExit, RecordingTask,
    TaskAction, TaskInput, TaskNext,
};
use serde_json::Value;

fn stamp() -> Stamp {
    Stamp { secs: Value::from(2.0), millis: 2000 }
}

fn frame(data: &str) -> ScreencastFrame {
    let mut params = serde_json::Map::new();
    params.insert("data".to_string(), Value::from(data));
    let event = CdpEvent {
        method: "Page.screencastFrame".to_string(),
        params: Value::Object(params),
        session_id: None,
    };
    screencast_frame(&event, 0, stamp()).unwrap()
}

fn done() -> TaskInput {
    TaskInput::Reply(Reply::Document(Value::Null))
}

fn shot() -> TaskInput {
    TaskInput::Reply(Reply::Document(serde_json::from_str(r#"{"data":"AQ=="}"#).unwrap()))
}

fn take(task: &mut RecordingTask, control: &mut RecordingControl, input: TaskInput) -> TaskAction {
    task.step(control, input, stamp(), 0)
}

/// A recording that runs with the image 1 as its first.
fn running() -> (RecordingTask, RecordingControl) {
    let mut control = RecordingControl::default();
    let (mut task, next) =
        spawn_recording_task(Some("screenshot"), "s".to_string(), None, &mut control);
    assert!(matches!(next, TaskNext::Ask(BrowserRequest::StopScreencast { .. })));
    assert_eq!(control.screencast_session_id(), Some("s".to_string()));
    let action = take(&mut task, &mut control, done());
    assert!(matches!(action.next, TaskNext::Ask(BrowserRequest::Screenshot { .. })));
    let action = take(&mut task, &mut control, shot());
    assert!(matches!(action.next, TaskNext::WriteImage));
    assert_eq!(action.show.unwrap().base64_data, "AQ==");
    assert_eq!(task.writer.pending_image().unwrap(), &vec![1]);
    let action = take(&mut task, &mut control, TaskInput::Written(Ok(())));
    assert!(action.show.is_none());
    match action.next {
        TaskNext::Launch { session_id, screencast } => {
            assert_eq!(session_id, "s");
            assert!(!screencast);
        }
        _ => panic!("the collector starts"),
    }
    (task, control)
}

#[test]
fn screencast_is_recorded_in_a_session_of_its_own() {
    let mut control = RecordingControl::default();
    let (mut task, next) =
        spawn_recording_task(None, "s".to_string(), Some("t".to_string()), &mut control);
    assert!(matches!(
        next,
        TaskNext::Ask(BrowserRequest::Attach { target_id }) if target_id == "t"
    ));
    take(&mut task, &mut control, TaskInput::Reply(Reply::Session("own".to_string())));
    let action = take(&mut task, &mut control, done());
    assert!(matches!(
        action.next,
        TaskNext::Ask(BrowserRequest::StopScreencast { session_id }) if session_id == "own"
    ));
    assert_eq!(control.screencast_session_id(), Some("own".to_string()));
    take(&mut task, &mut control, done());
    let action = take(
        &mut task,
        &mut control,
        TaskInput::Reply(Reply::Failed("no shot".to_string())),
    );
    match action.next {
        TaskNext::Launch { session_id, screencast } => {
            assert_eq!(session_id, "own");
            assert!(screencast);
        }
        _ => panic!("the collector starts without an image"),
    }
}

#[test]
fn recording_without_a_session_of_its_own_uses_the_given_one() {
    let mut control = RecordingControl::default();
    let (mut task, _) =
        spawn_recording_task(None, "s".to_string(), Some("t".to_string()), &mut control);
    let action = take(
        &mut task,
        &mut control,
        TaskInput::Reply(Reply::Failed("no session".to_string())),
    );
    assert!(matches!(
        action.next,
        TaskNext::Ask(BrowserRequest::StopScreencast { session_id }) if session_id == "s"
    ));
    assert_eq!(control.screencast_session_id(), Some("s".to_string()));
}

#[test]
fn images_and_time_fill_the_video() {
    let (mut task, mut control) = running();
    let input = TaskInput::Frame { frame: frame("Ag=="), slot: 2 };
    let action = take(&mut task, &mut control, input);
    assert!(matches!(action.next, TaskNext::WriteImage));
    let action = take(&mut task, &mut control, TaskInput::Written(Ok(())));
    assert!(matches!(action.next, TaskNext::WriteImage));
    let shown = action.show.unwrap();
    assert_eq!(shown.base64_data, "AQ==");
    assert_eq!(shown.metadata.timestamp, 2000);
    let action = take(&mut task, &mut control, TaskInput::Written(Ok(())));
    assert!(matches!(action.next, TaskNext::Await));
    assert_eq!(task.writer.written, 3);

    let tick = TaskInput::Tick { slot: 3, timestamp_secs: Value::from(2.12) };
    let action = take(&mut task, &mut control, tick);
    assert!(matches!(action.next, TaskNext::WriteImage));
    assert_eq!(task.writer.pending_image().unwrap(), &vec![2]);
    let action = take(&mut task, &mut control, TaskInput::Written(Ok(())));
    assert!(matches!(action.next, TaskNext::Await));
    assert_eq!(task.writer.written, 4);
}

#[test]
fn suspended_recording_shows_its_last_image() {
    let (mut task, mut control) = running();
    control.set_capture_suspended(true);
    let tick = TaskInput::Tick { slot: 50, timestamp_secs: Value::from(4.0) };
    let action = take(&mut task, &mut control, tick);
    assert!(matches!(action.next, TaskNext::Await));
    assert_eq!(action.show.unwrap().base64_data, "AQ==");
    assert_eq!(task.writer.written, 1);
}

/// A recording that was cancelled, up to the end of the encoder.
fn closed(exit: EncoderExit) -> Result<(), String> {
    let (mut task, mut control) = running();
    let action = take(&mut task, &mut control, TaskInput::Cancelled);
    assert!(matches!(action.next, TaskNext::Abort));
    let action = take(&mut task, &mut control, TaskInput::Aborted);
    assert!(matches!(action.next, TaskNext::Ask(BrowserRequest::StopScreencast { .. })));
    let action = take(&mut task, &mut control, done());
    assert!(matches!(action.next, TaskNext::Ask(BrowserRequest::Detach { .. })));
    let action = take(
        &mut task,
        &mut control,
        TaskInput::Reply(Reply::Failed("busy".to_string())),
    );
    assert!(matches!(action.next, TaskNext::Ask(BrowserRequest::AbandonSession { .. })));
    assert_eq!(control.screencast_session_id(), Some("s".to_string()));
    let action = take(&mut task, &mut control, done());
    assert!(matches!(action.next, TaskNext::Measure { padding_ms: 1000 }));
    assert_eq!(control.screencast_session_id(), None);
    let end = TaskInput::End { slot: 1, timestamp_secs: Value::from(2.04) };
    let action = take(&mut task, &mut control, end);
    assert!(matches!(action.next, TaskNext::WriteImage));
    let action = take(&mut task, &mut control, TaskInput::Written(Ok(())));
    assert!(matches!(action.next, TaskNext::Close));
    match take(&mut task, &mut control, TaskInput::Closed(exit)).next {
        TaskNext::Finish(result) => result,
        _ => panic!("the recording is over"),
    }
}

#[test]
fn outcome_of_a_recording_is_that_of_its_encoder() {
    let report = "x".repeat(400).into_bytes();
    assert_eq!(closed(EncoderExit::Ended { success: true, report: report.clone() }), Ok(()));
    assert_eq!(
        closed(EncoderExit::Ended { success: false, report }),
        Err(format!("ffmpeg failed: {}", "x".repeat(300)))
    );
    assert_eq!(
        closed(EncoderExit::Ended { success: false, report: "\u{e4}bc".as_bytes().to_vec() }),
        Err("ffmpeg failed: \u{e4}bc".to_string())
    );
    assert_eq!(
        closed(EncoderExit::Ended { success: false, report: vec![b'a', 255, b'b'] }),
        Err("ffmpeg failed: a\u{fffd}b".to_string())
    );
    assert_eq!(
        closed(EncoderExit::Unknown("lost".to_string())),
        Err("ffmpeg wait failed: lost".to_string())
    );
}

#[test]
fn failed_writes_end_a_recording() {
    let (mut task, mut control) = running();
    let tick = TaskInput::Tick { slot: 1, timestamp_secs: Value::from(2.04) };
    take(&mut task, &mut control, tick);
    let failed = TaskInput::Written(Err("broken pipe".to_string()));
    let action = take(&mut task, &mut control, failed);
    assert!(matches!(action.next, TaskNext::Abort));

    let mut control = RecordingControl::default();
    let (mut task, _) = spawn_recording_task(Some(""), "s".to_string(), None, &mut control);
    take(&mut task, &mut control, done());
    take(&mut task, &mut control, shot());
    let failed = TaskInput::Written(Err("broken pipe".to_string()));
    match take(&mut task, &mut control, failed).next {
        TaskNext::Finish(result) => {
            assert_eq!(result, Err("ffmpeg stdin write failed: broken pipe".to_string()))
        }
        _ => panic!("the recording is over"),
    }
}

#[test]
fn encoder_that_does_not_start() {
    assert_eq!(
        encoder_not_started("no such file"),
        "ffmpeg not found or failed to execute: no such file. Install ffmpeg to enable recording."
    );
    assert_eq!(encoder_failed("why"), "ffmpeg failed: why");
    assert_eq!(encoder_has_no_input(), "Failed to open ffmpeg stdin");
}

#[test]
fn recording_begins_with_an_image_or_without() {
    let mut control = RecordingControl::default();
    let (mut task, _) = spawn_recording_task(Some(""), "s".to_string(), None, &mut control);
    let action = task.begin(&control, Some(frame("Ag==")), 7);
    assert!(matches!(action.next, TaskNext::WriteImage));
    assert_eq!(action.show.unwrap().base64_data, "Ag==");
    assert_eq!(task.writer.first_frame_received_at, Some(7));

    let (mut task, _) = spawn_recording_task(Some(""), "s".to_string(), None, &mut control);
    let action = task.begin(&control, None, 7);
    assert!(matches!(action.next, TaskNext::Launch { .. }));
    assert!(action.show.is_none());
}

#[test]
fn encoder_is_closed_once_the_last_slot_is_filled() {
    let (mut task, mut control) = running();
    control.clear_screencast_session_id();
    take(&mut task, &mut control, TaskInput::Cancelled);
    take(&mut task, &mut control, TaskInput::Aborted);
    let end = TaskInput::End { slot: 3, timestamp_secs: Value::from(2.12) };
    let mut next = take(&mut task, &mut control, end).next;
    for _ in 0..3 {
        assert!(matches!(next, TaskNext::WriteImage));
        next = take(&mut task, &mut control, TaskInput::Written(Ok(()))).next;
    }
    assert!(matches!(next, TaskNext::Close));
    assert_eq!(task.writer.written, 4);
    assert_eq!(task.writer.last_frame.as_ref().unwrap().frame_number, 3);
}
