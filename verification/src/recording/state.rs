//! Whether a recording is running, and where it goes.
use crate::json::{self, json_of, JsonView};
use vstd::prelude::*;

verus! {

/// What there is of the task that captures the frames.
#[derive(PartialEq, Eq, Structural, Clone, Copy)]
pub struct TaskHandles {
    /// The task itself.
    pub task: bool,
    /// The count of the frames that it has written.
    pub counter: bool,
    /// The means to tell it to end.
    pub cancel: bool,
    /// Its switches.
    pub control: bool,
}

/// The state of the recorder.
pub struct RecordingState {
    pub active: bool,
    pub output_path: String,
    pub frame_count: u64,
    pub handles: TaskHandles,
}

/// How the task that captured the frames ended.
pub enum TaskOutcome {
    /// It ran to its end and reported this.
    Finished(Result<(), String>),
    /// It panicked; the text says how.
    Panicked(String),
}

/// The model of the state of the recorder.
pub struct RecordingStateView {
    pub active: bool,
    pub output_path: Seq<char>,
    pub frame_count: u64,
    pub handles: TaskHandles,
}

impl View for RecordingState {
    type V = RecordingStateView;

    open spec fn view(&self) -> RecordingStateView {
        RecordingStateView {
            active: self.active,
            output_path: self.output_path@,
            frame_count: self.frame_count,
            handles: self.handles,
        }
    }
}

/// There is no task.
pub open spec fn no_handles() -> TaskHandles {
    TaskHandles { task: false, counter: false, cancel: false, control: false }
}

/// What a report to the user says: the document of a success, or the text of a failure.
pub open spec fn report_of(result: Result<serde_json::Value, String>) -> Result<
    JsonView,
    Seq<char>,
> {
    match result {
        Ok(report) => Ok(json_of(report)),
        Err(message) => Err(message@),
    }
}

impl RecordingStateView {
    /// A recording to `path` that has just begun.
    pub open spec fn begun(self, path: Seq<char>) -> RecordingStateView {
        RecordingStateView { active: true, output_path: path, frame_count: 0, ..self }
    }

    /// The state after a start, and what is reported of it.
    pub open spec fn started(self, path: Seq<char>) -> (
        RecordingStateView,
        Result<JsonView, Seq<char>>,
    ) {
        if self.active {
            (self, Err("Recording already active"@))
        } else {
            (
                self.begun(path),
                Ok(
                    JsonView::Object(
                        map!["started"@ => JsonView::Bool(true), "path"@ => JsonView::Str(path)],
                    ),
                ),
            )
        }
    }

    /// The state after a stop, and what is reported of it.
    pub open spec fn stopped(self) -> (RecordingStateView, Result<JsonView, Seq<char>>) {
        (
            RecordingStateView { active: false, ..self },
            if !self.active {
                Err("No recording in progress"@)
            } else if self.frame_count == 0 {
                Err("No frames captured"@)
            } else {
                Ok(
                    JsonView::Object(
                        map!["path"@ => JsonView::Str(self.output_path),
                            "frames"@ => JsonView::Int(self.frame_count as int)],
                    ),
                )
            },
        )
    }

    /// What a restart reports as the recording before it: the path of one that had frames.
    pub open spec fn previous_path(self) -> JsonView {
        if self.active && self.frame_count != 0 {
            JsonView::Str(self.output_path)
        } else {
            JsonView::Null
        }
    }

    /// The state after a restart, and what is reported of it.
    pub open spec fn restarted(self, path: Seq<char>) -> (
        RecordingStateView,
        Result<JsonView, Seq<char>>,
    ) {
        (
            self.begun(path),
            Ok(
                JsonView::Object(
                    map!["restarted"@ => JsonView::Bool(true),
                        "previousPath"@ => self.previous_path(),
                        "path"@ => JsonView::Str(path)],
                ),
            ),
        )
    }
}

impl RecordingState {
    pub fn new() -> (state: Self)
        ensures
            !state.active,
            state.output_path@ == Seq::<char>::empty(),
            state.frame_count == 0,
            state.handles == no_handles(),
    {
        RecordingState {
            active: false,
            output_path: String::new(),
            frame_count: 0,
            handles: TaskHandles { task: false, counter: false, cancel: false, control: false },
        }
    }
}

/// Starts a recording to `path`, unless one is running.
pub fn recording_start(state: &mut RecordingState, path: &str) -> (result: Result<
    serde_json::Value,
    String,
>)
    ensures
        (final(state)@, report_of(result)) == old(state)@.started(path@),
        result is Err ==> *final(state) == *old(state),
{
    if state.active {
        return Err("Recording already active".to_owned());
    }
    state.active = true;
    state.output_path = path.to_owned();
    state.frame_count = 0;

    let mut report = json::new_object();
    json::insert(&mut report, "started", json::from_bool(true));
    json::insert(&mut report, "path", json::from_text(path));
    Ok(report)
}

/// Stops the running recording. One without frames is stopped too, but is no success.
pub fn recording_stop(state: &mut RecordingState) -> (result: Result<serde_json::Value, String>)
    ensures
        (final(state)@, report_of(result)) == old(state)@.stopped(),
        *final(state) == (RecordingState { active: false, ..*old(state) }),
{
    if !state.active {
        return Err("No recording in progress".to_owned());
    }
    state.active = false;

    if state.frame_count == 0 {
        return Err("No frames captured".to_owned());
    }
    let mut report = json::new_object();
    json::insert(&mut report, "path", json::from_text(state.output_path.as_str()));
    json::insert(&mut report, "frames", json::from_u64(state.frame_count));
    Ok(report)
}

/// Stops a running recording, whatever came of it, and starts one to `path`.
pub fn recording_restart(state: &mut RecordingState, path: &str) -> (result: Result<
    serde_json::Value,
    String,
>)
    ensures
        (final(state)@, report_of(result)) == old(state)@.restarted(path@),
{
    let mut previous = json::null();
    if state.active {
        assert("path"@ != "frames"@) by {
            reveal_strlit("path");
            reveal_strlit("frames");
            assert("path"@.len() != "frames"@.len());
        }
        if let Ok(stopped) = recording_stop(state) {
            if let Some(value) = json::member(&stopped, "path") {
                if let Some(text) = json::as_text(value) {
                    previous = json::from_text(text);
                }
            }
        }
    }
    match recording_start(state, path) {
        Ok(_) => {},
        Err(message) => return Err(message),
    }
    let mut report = json::new_object();
    json::insert(&mut report, "restarted", json::from_bool(true));
    json::insert(&mut report, "previousPath", previous);
    json::insert(&mut report, "path", json::from_text(path));
    Ok(report)
}

/// What the end of a task reports.
pub open spec fn outcome_report(outcome: TaskOutcome) -> Result<(), Seq<char>> {
    match outcome {
        TaskOutcome::Finished(Ok(_)) => Ok(()),
        TaskOutcome::Finished(Err(message)) => Err(message@),
        TaskOutcome::Panicked(panic) => Err("Recording task panicked: "@ + panic@),
    }
}

pub open spec fn result_of(result: Result<(), String>) -> Result<(), Seq<char>> {
    match result {
        Ok(_) => Ok(()),
        Err(message) => Err(message@),
    }
}

/// Says what the end of a task reports.
pub fn task_result(outcome: TaskOutcome) -> (result: Result<(), String>)
    ensures
        result_of(result) == outcome_report(outcome),
        outcome matches TaskOutcome::Finished(report) ==> result == report,
{
    match outcome {
        TaskOutcome::Finished(report) => report,
        TaskOutcome::Panicked(panic) => Err(
            "Recording task panicked: ".to_owned().concat(panic.as_str()),
        ),
    }
}

/// What the stop of a task waits for.
pub enum StopPhase {
    /// A pause of the recording to be lifted.
    Resuming,
    /// The task to be told to end.
    Cancelling,
    /// The task to end. `counted` says that its frames are counted.
    Awaiting { counted: bool },
    /// The count of its frames.
    Counting { result: Result<(), String> },
    Stopped,
}

/// What happened to the stop of a task.
pub enum StopInput {
    /// The pause is lifted.
    Resumed,
    /// The task was told to end.
    Cancelled,
    /// The task has ended.
    Ended(TaskOutcome),
    /// So many frames were written.
    Counted(u64),
}

/// What the stop of a task wants.
pub enum StopNext {
    /// Lift the pause of the recording, with `RecordingControl::resume`.
    Resume,
    /// Tell the task to end.
    Cancel,
    /// Wait for the task to end.
    Await,
    /// Tell how many frames were written.
    Count,
    /// The task is stopped, and reported this.
    Finish(Result<(), String>),
}

/// The model of what the stop of a task waits for.
pub enum StopPhaseView {
    Resuming,
    Cancelling,
    Awaiting { counted: bool },
    Counting { result: Result<(), Seq<char>> },
    Stopped,
}

/// The model of what the stop of a task wants.
pub enum StopNextView {
    Resume,
    Cancel,
    Await,
    Count,
    Finish(Result<(), Seq<char>>),
}

impl View for StopPhase {
    type V = StopPhaseView;

    open spec fn view(&self) -> StopPhaseView {
        match *self {
            StopPhase::Resuming => StopPhaseView::Resuming,
            StopPhase::Cancelling => StopPhaseView::Cancelling,
            StopPhase::Awaiting { counted } => StopPhaseView::Awaiting { counted },
            StopPhase::Counting { result } => StopPhaseView::Counting {
                result: result_of(result),
            },
            StopPhase::Stopped => StopPhaseView::Stopped,
        }
    }
}

impl View for StopNext {
    type V = StopNextView;

    open spec fn view(&self) -> StopNextView {
        match *self {
            StopNext::Resume => StopNextView::Resume,
            StopNext::Cancel => StopNextView::Cancel,
            StopNext::Await => StopNextView::Await,
            StopNext::Count => StopNextView::Count,
            StopNext::Finish(result) => StopNextView::Finish(result_of(result)),
        }
    }
}

/// The stop of a task.
pub struct TaskStop {
    pub phase: StopPhase,
}

/// Where the stop of a task stands: what it waits for, the recorder, and what it wants.
pub struct StopState {
    pub phase: StopPhaseView,
    pub state: RecordingStateView,
    pub next: StopNextView,
}

/// `input` is something that the stop of a task waits for in `phase`.
pub open spec fn awaited(phase: StopPhaseView, input: StopInput) -> bool {
    match phase {
        StopPhaseView::Resuming => input is Resumed,
        StopPhaseView::Cancelling => input is Cancelled,
        StopPhaseView::Awaiting { .. } => input is Ended,
        StopPhaseView::Counting { .. } => input is Counted,
        StopPhaseView::Stopped => false,
    }
}

impl RecordingStateView {
    /// The task is gone and has reported `result`.
    pub open spec fn task_gone(self, result: Result<(), Seq<char>>) -> StopState {
        StopState {
            phase: StopPhaseView::Stopped,
            state: RecordingStateView {
                handles: TaskHandles { control: false, ..self.handles },
                ..self
            },
            next: StopNextView::Finish(result),
        }
    }

    /// The task has ended: its frames are counted, where there is a count.
    pub open spec fn task_ended(self, counted: bool, result: Result<(), Seq<char>>) -> StopState {
        if counted {
            StopState {
                phase: StopPhaseView::Counting { result },
                state: self,
                next: StopNextView::Count,
            }
        } else {
            self.task_gone(result)
        }
    }

    /// The task was told to end: it is waited for, where there is one.
    pub open spec fn task_cancelled(self) -> StopState {
        let taken = RecordingStateView {
            handles: TaskHandles { task: false, counter: false, ..self.handles },
            ..self
        };
        if self.handles.task {
            StopState {
                phase: StopPhaseView::Awaiting { counted: self.handles.counter },
                state: taken,
                next: StopNextView::Await,
            }
        } else {
            taken.task_ended(self.handles.counter, Ok(()))
        }
    }

    /// The recording is not paused: its task is told to end, where that can be told.
    pub open spec fn task_resumed(self) -> StopState {
        if self.handles.cancel {
            StopState {
                phase: StopPhaseView::Cancelling,
                state: RecordingStateView {
                    handles: TaskHandles { cancel: false, ..self.handles },
                    ..self
                },
                next: StopNextView::Cancel,
            }
        } else {
            self.task_cancelled()
        }
    }

    /// The stop of the task begins: a pause is lifted, where there are switches.
    pub open spec fn task_stop_begun(self) -> StopState {
        if self.handles.control {
            StopState {
                phase: StopPhaseView::Resuming,
                state: self,
                next: StopNextView::Resume,
            }
        } else {
            self.task_resumed()
        }
    }

    /// What an input does to the stop of the task.
    pub open spec fn task_stop_stepped(self, phase: StopPhaseView, input: StopInput) -> StopState {
        match (phase, input) {
            (StopPhaseView::Resuming, _) => self.task_resumed(),
            (StopPhaseView::Cancelling, _) => self.task_cancelled(),
            (StopPhaseView::Awaiting { counted }, StopInput::Ended(outcome)) => self.task_ended(
                counted,
                outcome_report(outcome),
            ),
            (StopPhaseView::Counting { result }, StopInput::Counted(frames)) => (
            RecordingStateView { frame_count: frames, ..self }).task_gone(result),
            _ => self.task_gone(Ok(())),
        }
    }

    /// What the stop of the task has taken is not there any more.
    pub open spec fn stopping(self, phase: StopPhaseView) -> bool {
        match phase {
            StopPhaseView::Resuming => true,
            StopPhaseView::Cancelling => !self.handles.cancel,
            StopPhaseView::Awaiting { .. } | StopPhaseView::Counting { .. } => self.handles == (
            TaskHandles { control: self.handles.control, ..no_handles() }),
            StopPhaseView::Stopped => self.handles == no_handles(),
        }
    }
}

/// A part of the stop of a task has come out as `after` says.
pub open spec fn comes_to(
    phase: StopPhase,
    state: RecordingState,
    next: StopNext,
    after: StopState,
) -> bool {
    &&& phase@ == after.phase
    &&& state@ == after.state
    &&& next@ == after.next
}

fn finish_stop(state: &mut RecordingState, result: Result<(), String>) -> (stop: (
    TaskStop,
    StopNext,
))
    ensures
        comes_to(
            stop.0.phase,
            *final(state),
            stop.1,
            old(state)@.task_gone(result_of(result)),
        ),
{
    state.handles.control = false;
    (TaskStop { phase: StopPhase::Stopped }, StopNext::Finish(result))
}

fn count_frames(state: &mut RecordingState, counted: bool, result: Result<(), String>) -> (stop: (
    TaskStop,
    StopNext,
))
    ensures
        comes_to(
            stop.0.phase,
            *final(state),
            stop.1,
            old(state)@.task_ended(counted, result_of(result)),
        ),
{
    if counted {
        return (TaskStop { phase: StopPhase::Counting { result } }, StopNext::Count);
    }
    finish_stop(state, result)
}

fn await_task(state: &mut RecordingState) -> (stop: (TaskStop, StopNext))
    ensures
        comes_to(stop.0.phase, *final(state), stop.1, old(state)@.task_cancelled()),
{
    let task = state.handles.task;
    let counted = state.handles.counter;
    state.handles.task = false;
    state.handles.counter = false;
    if task {
        return (TaskStop { phase: StopPhase::Awaiting { counted } }, StopNext::Await);
    }
    count_frames(state, counted, Ok(()))
}

fn cancel_task(state: &mut RecordingState) -> (stop: (TaskStop, StopNext))
    ensures
        comes_to(stop.0.phase, *final(state), stop.1, old(state)@.task_resumed()),
{
    if state.handles.cancel {
        state.handles.cancel = false;
        return (TaskStop { phase: StopPhase::Cancelling }, StopNext::Cancel);
    }
    await_task(state)
}

/// Begins to stop the task of a recording: lifts a pause, tells the task to end, waits for it, and
/// takes over how many frames it wrote and what it reported.
pub fn stop_recording_task(state: &mut RecordingState) -> (stop: (TaskStop, StopNext))
    ensures
        comes_to(stop.0.phase, *final(state), stop.1, old(state)@.task_stop_begun()),
        final(state)@.stopping(stop.0.phase@),
{
    if state.handles.control {
        return (TaskStop { phase: StopPhase::Resuming }, StopNext::Resume);
    }
    cancel_task(state)
}

impl TaskStop {
    /// Takes what happened, and says what is wanted next.
    pub fn step(&mut self, state: &mut RecordingState, input: StopInput) -> (next: StopNext)
        requires
            awaited(old(self).phase@, input),
            old(state)@.stopping(old(self).phase@),
        ensures
            comes_to(
                final(self).phase,
                *final(state),
                next,
                old(state)@.task_stop_stepped(old(self).phase@, input),
            ),
            final(state)@.stopping(final(self).phase@),
    {
        let mut phase = StopPhase::Stopped;
        std::mem::swap(&mut phase, &mut self.phase);
        let (stop, next) = match (phase, input) {
            (StopPhase::Resuming, _) => cancel_task(state),
            (StopPhase::Cancelling, _) => await_task(state),
            (StopPhase::Awaiting { counted }, StopInput::Ended(outcome)) => count_frames(
                state,
                counted,
                task_result(outcome),
            ),
            (StopPhase::Counting { result }, StopInput::Counted(frames)) => {
                state.frame_count = frames;
                finish_stop(state, result)
            },
            _ => vstd::pervasive::unreached(),
        };
        self.phase = stop.phase;
        next
    }
}

/// A task that was stopped, whatever it reported, is gone: another stop is a success at once and
/// changes nothing.
pub proof fn law_second_stop_changes_nothing(
    state: RecordingStateView,
    phase: StopPhaseView,
    input: StopInput,
)
    requires
        awaited(phase, input),
        state.stopping(phase),
    ensures
        ({
            let first = state.task_stop_stepped(phase, input);
            let second = first.state.task_stop_begun();
            first.next is Finish ==> second.state == first.state && second.next
                == StopNextView::Finish(Ok(()))
        }),
        ({
            let first = state.task_stop_begun();
            let second = first.state.task_stop_begun();
            first.next is Finish ==> second.state == first.state && second.next
                == StopNextView::Finish(Ok(()))
        }),
{
}

/// A task is waited for only once it was told to end, where that could be told, and told to end
/// only once its pause was lifted, where it has switches.
pub proof fn law_task_is_resumed_and_cancelled_before_it_is_awaited(
    state: RecordingStateView,
    phase: StopPhaseView,
    input: StopInput,
)
    requires
        awaited(phase, input),
        state.stopping(phase),
    ensures
        state.handles.control ==> state.task_stop_begun().next is Resume,
        !state.handles.control && state.handles.cancel ==> state.task_stop_begun().next is Cancel,
        ({
            let after = state.task_stop_stepped(phase, input);
            &&& after.next is Cancel ==> phase is Resuming
            &&& after.next is Await ==> phase is Cancelling || phase is Resuming
                && !state.handles.cancel
            &&& phase is Resuming && state.handles.cancel ==> after.next is Cancel
            &&& phase is Cancelling && state.handles.task ==> after.next is Await
            &&& !(after.next is Resume)
        }),
{
}

/// The stop of a task changes nothing of the recorder but the count of its frames, which becomes
/// what was counted.
pub proof fn law_stop_of_a_task_keeps_the_recording(
    state: RecordingStateView,
    phase: StopPhaseView,
    input: StopInput,
)
    requires
        awaited(phase, input),
        state.stopping(phase),
    ensures
        ({
            let after = state.task_stop_stepped(phase, input).state;
            &&& after.active == state.active
            &&& after.output_path == state.output_path
            &&& after.frame_count == (match input {
                StopInput::Counted(frames) => frames,
                _ => state.frame_count,
            })
        }),
{
}

/// A recording can be started exactly when none is running, and a start that is refused changes
/// nothing.
pub proof fn law_one_recording_at_a_time(state: RecordingStateView, path: Seq<char>)
    ensures
        state.started(path).1 is Ok <==> !state.active,
        state.started(path).1 is Err ==> state.started(path).0 == state,
        state.started(path).0.active,
        state.stopped().0.started(path).1 is Ok,
        !state.stopped().0.active,
        state.stopped().0.stopped().1 is Err,
{
}

/// A recording that was started to a path and has written frames is reported with that path and
/// that many frames when it is stopped; one that has written none is reported as a failure.
pub proof fn law_stop_reports_what_was_recorded(
    state: RecordingStateView,
    path: Seq<char>,
    frames: u64,
)
    requires
        !state.active,
    ensures
        ({
            let recorded = RecordingStateView { frame_count: frames, ..state.started(path).0 };
            recorded.stopped().1 == (if frames == 0 {
                Err::<JsonView, Seq<char>>("No frames captured"@)
            } else {
                Ok(
                    JsonView::Object(
                        map!["path"@ => JsonView::Str(path),
                            "frames"@ => JsonView::Int(frames as int)],
                    ),
                )
            })
        }),
{
}

/// A restart leaves what a stop and a start leave, never fails, and names the path of the
/// recording before exactly where a stop would have reported it.
pub proof fn law_restart_is_stop_and_start(state: RecordingStateView, path: Seq<char>)
    ensures
        state.restarted(path).0 == state.stopped().0.started(path).0,
        state.restarted(path).1 is Ok,
        state.restarted(path).1->Ok_0.member("previousPath"@) == Some(
            match state.stopped().1 {
                Ok(report) => report.member("path"@)->0,
                Err(_) => JsonView::Null,
            },
        ),
{
    reveal_strlit("path");
    reveal_strlit("frames");
    reveal_strlit("previousPath");
    assert("path"@.len() == 4);
    assert("frames"@.len() == 6);
    assert("previousPath"@.len() == 12);
}

} // verus!
