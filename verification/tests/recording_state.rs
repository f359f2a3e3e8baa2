use browser_capture::recording::state::{
    recording_restart, recording_start, recording_stop, stop_recording_task, task_result,
    RecordingState, StopInput, StopNext, TaskHandles, TaskOutcome,
};

#[test]
fn test_recording_state_new() {
    let state = RecordingState::new();
    assert!(!state.active);
    assert!(state.output_path.is_empty());
    assert_eq!(state.frame_count, 0);
}

#[test]
fn test_recording_start_sets_active() {
    let mut state = RecordingState::new();
    let result = recording_start(&mut state, "/tmp/test.mp4");
    assert!(result.is_ok());
    assert!(state.active);
    assert_eq!(state.output_path, "/tmp/test.mp4");
    assert_eq!(state.frame_count, 0);
}

#[test]
fn test_recording_start_while_active() {
    let mut state = RecordingState::new();
    recording_start(&mut state, "/tmp/test1.mp4").unwrap();
    let result = recording_start(&mut state, "/tmp/test2.mp4");
    assert!(result.is_err());
    assert!(result.unwrap_err().contains("already active"));
}

#[test]
fn test_recording_stop_not_active() {
    let mut state = RecordingState::new();
    let result = recording_stop(&mut state);
    assert!(result.is_err());
    assert!(result.unwrap_err().contains("No recording"));
}

#[test]
fn test_recording_stop_no_frames() {
    let mut state = RecordingState::new();
    recording_start(&mut state, "/tmp/test.mp4").unwrap();
    let result = recording_stop(&mut state);
    assert!(result.is_err());
    assert!(result.unwrap_err().contains("No frames"));
    assert!(!state.active);
}

#[test]
fn test_recording_restart_while_inactive() {
    let mut state = RecordingState::new();
    let result = recording_restart(&mut state, "/tmp/new.webm");
    assert!(result.is_ok());
    assert!(state.active);
    assert_eq!(state.output_path, "/tmp/new.webm");
}

#[test]
fn test_recording_restart_while_active() {
    let mut state = RecordingState::new();
    recording_start(&mut state, "/tmp/old.webm").unwrap();
    state.frame_count = 10;
    let result = recording_restart(&mut state, "/tmp/new.webm").unwrap();
    assert!(state.active);
    assert_eq!(state.output_path, "/tmp/new.webm");
    assert_eq!(state.frame_count, 0);
    assert_eq!(result["previousPath"], "/tmp/old.webm");
}

#[test]
fn start_reports_the_path() {
    let mut state = RecordingState::new();
    let report = recording_start(&mut state, "/tmp/a.webm").unwrap();
    assert_eq!(report.to_string(), r#"{"path":"/tmp/a.webm","started":true}"#);
}

#[test]
fn refused_start_changes_nothing() {
    let mut state = RecordingState::new();
    recording_start(&mut state, "/tmp/a.webm").unwrap();
    state.frame_count = 3;
    let error = recording_start(&mut state, "/tmp/b.webm").unwrap_err();
    assert_eq!(error, "Recording already active");
    assert!(state.active);
    assert_eq!(state.output_path, "/tmp/a.webm");
    assert_eq!(state.frame_count, 3);
}

#[test]
fn stop_reports_path_and_frames() {
    let mut state = RecordingState::new();
    recording_start(&mut state, "/tmp/a.webm").unwrap();
    state.frame_count = 42;
    let report = recording_stop(&mut state).unwrap();
    assert_eq!(report.to_string(), r#"{"frames":42,"path":"/tmp/a.webm"}"#);
    assert!(!state.active);
    assert_eq!(recording_stop(&mut state).unwrap_err(), "No recording in progress");
    assert!(recording_start(&mut state, "/tmp/b.webm").is_ok());
}

#[test]
fn restart_of_an_empty_recording_names_no_path() {
    let mut state = RecordingState::new();
    recording_start(&mut state, "/tmp/old.webm").unwrap();
    let report = recording_restart(&mut state, "/tmp/new.webm").unwrap();
    assert!(report["previousPath"].is_null());
    assert_eq!(
        report.to_string(),
        r#"{"path":"/tmp/new.webm","previousPath":null,"restarted":true}"#
    );
}

const ALL: TaskHandles = TaskHandles { task: true, counter: true, cancel: true, control: true };
const NONE: TaskHandles =
    TaskHandles { task: false, counter: false, cancel: false, control: false };

#[test]
fn stopped_task_hands_over_its_count_and_result() {
    let mut state = RecordingState::new();
    assert!(state.handles == NONE);
    recording_start(&mut state, "/tmp/a.webm").unwrap();
    state.handles = ALL;
    let (mut stop, next) = stop_recording_task(&mut state);
    assert!(matches!(next, StopNext::Resume));
    assert!(matches!(stop.step(&mut state, StopInput::Resumed), StopNext::Cancel));
    assert!(matches!(stop.step(&mut state, StopInput::Cancelled), StopNext::Await));
    let failed = TaskOutcome::Finished(Err("ffmpeg failed: x".to_string()));
    assert!(matches!(stop.step(&mut state, StopInput::Ended(failed)), StopNext::Count));
    assert_eq!(state.frame_count, 0);
    match stop.step(&mut state, StopInput::Counted(7)) {
        StopNext::Finish(result) => assert_eq!(result, Err("ffmpeg failed: x".to_string())),
        _ => panic!("the task is stopped"),
    }
    assert_eq!(state.frame_count, 7);
    assert!(state.active);
    assert_eq!(state.output_path, "/tmp/a.webm");
    assert!(state.handles == NONE);

    let (_, next) = stop_recording_task(&mut state);
    assert!(matches!(next, StopNext::Finish(Ok(()))));
    assert_eq!(state.frame_count, 7);
    assert!(state.handles == NONE);
}

#[test]
fn parts_of_a_task_are_stopped_alone() {
    let mut state = RecordingState::new();
    state.frame_count = 3;
    state.handles = TaskHandles { task: true, ..NONE };
    let (mut stop, next) = stop_recording_task(&mut state);
    assert!(matches!(next, StopNext::Await));
    let ended = StopInput::Ended(TaskOutcome::Finished(Ok(())));
    assert!(matches!(stop.step(&mut state, ended), StopNext::Finish(Ok(()))));
    assert_eq!(state.frame_count, 3);

    state.handles = TaskHandles { counter: true, ..NONE };
    let (mut stop, next) = stop_recording_task(&mut state);
    assert!(matches!(next, StopNext::Count));
    assert!(matches!(stop.step(&mut state, StopInput::Counted(4)), StopNext::Finish(Ok(()))));
    assert_eq!(state.frame_count, 4);

    state.handles = TaskHandles { cancel: true, ..NONE };
    let (mut stop, next) = stop_recording_task(&mut state);
    assert!(matches!(next, StopNext::Cancel));
    assert!(matches!(stop.step(&mut state, StopInput::Cancelled), StopNext::Finish(Ok(()))));

    state.handles = TaskHandles { control: true, ..NONE };
    let (mut stop, next) = stop_recording_task(&mut state);
    assert!(matches!(next, StopNext::Resume));
    assert!(matches!(stop.step(&mut state, StopInput::Resumed), StopNext::Finish(Ok(()))));
    assert!(state.handles == NONE);
}

#[test]
fn results_of_a_task() {
    assert_eq!(task_result(TaskOutcome::Finished(Ok(()))), Ok(()));
    assert_eq!(
        task_result(TaskOutcome::Panicked("boom".to_string())),
        Err("Recording task panicked: boom".to_string())
    );
}

#[test]
fn start_and_restart_keep_the_task() {
    let mut state = RecordingState::new();
    state.handles = ALL;
    recording_start(&mut state, "a").unwrap();
    recording_restart(&mut state, "b").unwrap();
    assert!(state.handles == ALL);
}
