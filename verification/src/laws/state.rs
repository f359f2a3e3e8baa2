//! What the user is told of a recording.
use crate::json::{json_of, JsonView};
use crate::laws::commands::{has_members, holds};
use crate::recording::control::{poll_until, CapturePoll};
use crate::recording::state::{
    awaited, comes_to, no_handles, outcome_report, report_of, result_of, RecordingState,
    RecordingStateView, StopInput, StopNext, StopNextView, StopPhase, StopPhaseView, StopState,
    TaskHandles, TaskOutcome,
};
use vstd::prelude::*;

verus! {

/// The names in the reports differ.
proof fn lemma_names_differ()
    ensures
        "path"@ != "frames"@,
        "path"@ != "started"@,
        "path"@ != "restarted"@,
        "path"@ != "previousPath"@,
        "restarted"@ != "previousPath"@,
{
    reveal_strlit("path");
    reveal_strlit("frames");
    reveal_strlit("started");
    reveal_strlit("restarted");
    reveal_strlit("previousPath");
    assert("path"@.len() == 4);
    assert("frames"@.len() == 6);
    assert("started"@.len() == 7);
    assert("restarted"@.len() == 9);
    assert("previousPath"@.len() == 12);
}

/// A recording that starts is reported with its path, is active, goes to that path and has no
/// frames yet; one that is refused is reported as such.
pub proof fn law_start_is_reported(state: RecordingStateView, path: Seq<char>)
    ensures
        ({
            let (after, report) = state.started(path);
            &&& !state.active ==> {
                &&& report is Ok
                &&& holds(report->Ok_0, "started"@, JsonView::Bool(true))
                &&& holds(report->Ok_0, "path"@, JsonView::Str(path))
                &&& has_members(report->Ok_0, 2)
                &&& after.active && after.output_path == path && after.frame_count == 0
                &&& after.handles == state.handles
            }
            &&& state.active ==> report == Err::<JsonView, Seq<char>>("Recording already active"@)
                && after == state
        }),
{
    lemma_names_differ();
    broadcast use vstd::set::group_set_axioms;

}

/// A recording that stops is reported with the path that it went to and the number of its frames;
/// one without frames, and a stop without a recording, are reported as such. Nothing but the
/// activity changes.
pub proof fn law_stop_is_reported(state: RecordingStateView)
    ensures
        ({
            let (after, report) = state.stopped();
            &&& !after.active && after.output_path == state.output_path && after.frame_count
                == state.frame_count && after.handles == state.handles
            &&& !state.active ==> report == Err::<JsonView, Seq<char>>("No recording in progress"@)
            &&& state.active && state.frame_count == 0 ==> report == Err::<JsonView, Seq<char>>(
                "No frames captured"@,
            )
            &&& state.active && state.frame_count > 0 ==> {
                &&& report is Ok
                &&& holds(report->Ok_0, "path"@, JsonView::Str(state.output_path))
                &&& holds(report->Ok_0, "frames"@, JsonView::Int(state.frame_count as int))
                &&& has_members(report->Ok_0, 2)
            }
        }),
{
    lemma_names_differ();
    broadcast use vstd::set::group_set_axioms;

}

/// A restart is always reported with its own path, and with the path of the recording before where
/// that was active and had frames, else with none; what it leaves is a recording that has begun.
pub proof fn law_restart_is_reported(state: RecordingStateView, path: Seq<char>)
    ensures
        ({
            let (after, report) = state.restarted(path);
            &&& report is Ok
            &&& holds(report->Ok_0, "restarted"@, JsonView::Bool(true))
            &&& holds(report->Ok_0, "path"@, JsonView::Str(path))
            &&& state.active && state.frame_count > 0 ==> holds(
                report->Ok_0,
                "previousPath"@,
                JsonView::Str(state.output_path),
            )
            &&& !state.active || state.frame_count == 0 ==> holds(
                report->Ok_0,
                "previousPath"@,
                JsonView::Null,
            )
            &&& has_members(report->Ok_0, 3)
            &&& after.active && after.output_path == path && after.frame_count == 0
            &&& after.handles == state.handles
        }),
{
    lemma_names_differ();
    broadcast use vstd::set::group_set_axioms;

}

/// The stop of a task that has all its parts lifts the pause, tells the task to end, waits for it,
/// takes the count, and reports what the task reported; what is left is the recorder with that
/// count and without a task.
pub proof fn law_stop_of_a_task_takes_over_its_result(
    state: RecordingStateView,
    outcome: TaskOutcome,
    frames: u64,
)
    requires
        state.handles == (TaskHandles { task: true, counter: true, cancel: true, control: true }),
    ensures
        ({
            let a = state.task_stop_begun();
            let b = a.state.task_stop_stepped(a.phase, StopInput::Resumed);
            let c = b.state.task_stop_stepped(b.phase, StopInput::Cancelled);
            let d = c.state.task_stop_stepped(c.phase, StopInput::Ended(outcome));
            let e = d.state.task_stop_stepped(d.phase, StopInput::Counted(frames));
            &&& a.next is Resume && awaited(a.phase, StopInput::Resumed)
            &&& b.next is Cancel && awaited(b.phase, StopInput::Cancelled)
            &&& c.next is Await && awaited(c.phase, StopInput::Ended(outcome))
            &&& d.next is Count && awaited(d.phase, StopInput::Counted(frames))
            &&& e.next == StopNextView::Finish(outcome_report(outcome))
            &&& e.state == (RecordingStateView {
                frame_count: frames,
                handles: TaskHandles {
                    task: false,
                    counter: false,
                    cancel: false,
                    control: false,
                },
                ..state
            })
        }),
{
}

/// Each part of a task that is there is dealt with, and only those: without a task nothing is
/// waited for and the stop is a success, and without a counter the frame count stays.
pub proof fn law_missing_parts_are_passed_over(
    state: RecordingStateView,
    outcome: TaskOutcome,
    frames: u64,
)
    requires
        !state.handles.control,
        !state.handles.cancel,
    ensures
        ({
            let a = state.task_stop_begun();
            let ended = a.state.task_stop_stepped(a.phase, StopInput::Ended(outcome));
            let counted = a.state.task_stop_stepped(a.phase, StopInput::Counted(frames));
            &&& state.handles.task ==> a.next is Await
            &&& state.handles.task && !state.handles.counter ==> ended.next == StopNextView::Finish(
                outcome_report(outcome),
            ) && ended.state.frame_count == state.frame_count
            &&& !state.handles.task && state.handles.counter ==> a.next is Count && counted.next
                == StopNextView::Finish(Ok(())) && counted.state.frame_count == frames
            &&& !state.handles.task && !state.handles.counter ==> a.next == StopNextView::Finish(
                Ok(()),
            ) && a.state == state
        }),
{
}

/// A task that ended reports what it reported itself; one that panicked reports that it did.
pub proof fn law_task_reports_its_end(message: String)
    ensures
        outcome_report(TaskOutcome::Finished(Ok(()))) == Ok::<(), Seq<char>>(()),
        outcome_report(TaskOutcome::Finished(Err(message))) == Err::<(), Seq<char>>(message@),
        outcome_report(TaskOutcome::Panicked(message)) == Err::<(), Seq<char>>(
            "Recording task panicked: "@ + message@,
        ),
{
}

/// A wait for the capture is over when the capture has got there, which is a success, or when the
/// time is up, which is one only where it has; else it looks again after a while.
pub proof fn law_wait_for_the_capture(reached: bool, deadline_passed: bool)
    ensures
        reached ==> poll_until(reached, deadline_passed) == CapturePoll::Settled(true),
        !reached && deadline_passed ==> poll_until(reached, deadline_passed)
            == CapturePoll::Settled(false),
        !reached && !deadline_passed ==> poll_until(reached, deadline_passed) == CapturePoll::Sleep(
            25,
        ),
{
}

/// What is left of a task where there is none: nothing.
pub proof fn law_no_task_leaves_nothing()
    ensures
        !no_handles().task && !no_handles().counter && !no_handles().cancel
            && !no_handles().control,
{
}

/// Whatever parts of a task are there, the stop goes from one to the next: a pause is lifted where
/// there are switches; then the task is told to end where that can be told; then it is waited for
/// where there is one; then its frames are counted where there is a count.
pub proof fn law_stop_goes_from_part_to_part(state: RecordingStateView)
    ensures
        ({
            let begun = state.task_stop_begun();
            let resumed = state.task_stop_stepped(StopPhaseView::Resuming, StopInput::Resumed);
            let told = state.task_stop_stepped(StopPhaseView::Cancelling, StopInput::Cancelled);
            let rest = RecordingStateView {
                handles: TaskHandles { task: false, counter: false, ..state.handles },
                ..state
            };
            let gone = RecordingStateView {
                handles: TaskHandles { control: false, ..rest.handles },
                ..state
            };
            &&& state.handles.control ==> begun.next is Resume && begun.phase is Resuming
                && begun.state == state
            &&& !state.handles.control ==> begun == resumed
            &&& state.handles.cancel ==> {
                &&& resumed.next is Cancel
                &&& resumed.phase is Cancelling
                &&& resumed.state == (RecordingStateView {
                    handles: TaskHandles { cancel: false, ..state.handles },
                    ..state
                })
            }
            &&& !state.handles.cancel ==> resumed == told
            &&& state.handles.task ==> {
                &&& told.next is Await
                &&& told.phase == (StopPhaseView::Awaiting { counted: state.handles.counter })
                &&& told.state == rest
            }
            &&& !state.handles.task && state.handles.counter ==> {
                &&& told.next is Count
                &&& told.phase == (StopPhaseView::Counting { result: Ok(()) })
                &&& told.state == rest
            }
            &&& !state.handles.task && !state.handles.counter ==> {
                &&& told.next == StopNextView::Finish(Ok(()))
                &&& told.phase is Stopped
                &&& told.state == gone
            }
        }),
{
}

/// The end of the task is followed by the count where there is one, and the count is the number of
/// frames from then on. In the end there are no switches left, and what the task reported is what
/// the stop reports.
pub proof fn law_result_is_kept_while_frames_are_counted(
    state: RecordingStateView,
    outcome: TaskOutcome,
    result: Result<(), Seq<char>>,
    frames: u64,
)
    ensures
        ({
            let counted = state.task_stop_stepped(
                StopPhaseView::Awaiting { counted: true },
                StopInput::Ended(outcome),
            );
            let uncounted = state.task_stop_stepped(
                StopPhaseView::Awaiting { counted: false },
                StopInput::Ended(outcome),
            );
            let done = state.task_stop_stepped(
                StopPhaseView::Counting { result },
                StopInput::Counted(frames),
            );
            let free = TaskHandles { control: false, ..state.handles };
            &&& counted.next is Count && counted.state == state && counted.phase == (
            StopPhaseView::Counting { result: outcome_report(outcome) })
            &&& uncounted.next == StopNextView::Finish(outcome_report(outcome)) && uncounted.phase
                is Stopped && uncounted.state == (RecordingStateView { handles: free, ..state })
            &&& done.next == StopNextView::Finish(result) && done.phase is Stopped && done.state
                == (RecordingStateView { frame_count: frames, handles: free, ..state })
        }),
{
}

/// The stop of a task takes the answer to what it asked for, and nothing else; once it is over it
/// takes nothing.
pub proof fn law_stop_takes_what_it_asked_for(
    counted: bool,
    result: Result<(), Seq<char>>,
    input: StopInput,
)
    ensures
        awaited(StopPhaseView::Resuming, input) <==> input is Resumed,
        awaited(StopPhaseView::Cancelling, input) <==> input is Cancelled,
        awaited(StopPhaseView::Awaiting { counted }, input) <==> input is Ended,
        awaited(StopPhaseView::Counting { result }, input) <==> input is Counted,
        !awaited(StopPhaseView::Stopped, input),
{
}

/// What the stop of a task has dealt with is not there any more: the means to tell it to end once
/// it is told, the task and its count once it is waited for, and all of it in the end.
pub proof fn law_dealt_with_parts_are_gone(
    state: RecordingStateView,
    counted: bool,
    result: Result<(), Seq<char>>,
)
    ensures
        state.stopping(StopPhaseView::Resuming),
        state.stopping(StopPhaseView::Cancelling) <==> !state.handles.cancel,
        state.stopping(StopPhaseView::Awaiting { counted }) <==> !state.handles.cancel
            && !state.handles.task && !state.handles.counter,
        state.stopping(StopPhaseView::Counting { result }) <==> !state.handles.cancel
            && !state.handles.task && !state.handles.counter,
        state.stopping(StopPhaseView::Stopped) <==> !state.handles.cancel && !state.handles.task
            && !state.handles.counter && !state.handles.control,
{
}

/// The model of the recorder is the recorder: each part stands under its own name, with the text
/// that it holds; and so it is with the stop of a task, and with what is reported.
pub proof fn law_model_of_the_recorder_is_the_recorder(
    state: RecordingState,
    report: serde_json::Value,
    message: String,
    counted: bool,
    result: Result<(), String>,
)
    ensures
        state@.active == state.active,
        state@.output_path == state.output_path@,
        state@.frame_count == state.frame_count,
        state@.handles == state.handles,
        report_of(Ok(report)) == Ok::<JsonView, Seq<char>>(json_of(report)),
        report_of(Err(message)) == Err::<JsonView, Seq<char>>(message@),
        result_of(Ok(())) == Ok::<(), Seq<char>>(()),
        result_of(Err(message)) == Err::<(), Seq<char>>(message@),
        StopPhase::Resuming@ is Resuming,
        StopPhase::Cancelling@ is Cancelling,
        (StopPhase::Awaiting { counted })@ == (StopPhaseView::Awaiting { counted }),
        (StopPhase::Counting { result })@ == (StopPhaseView::Counting {
            result: result_of(result),
        }),
        StopPhase::Stopped@ is Stopped,
        StopNext::Resume@ is Resume,
        StopNext::Cancel@ is Cancel,
        StopNext::Await@ is Await,
        StopNext::Count@ is Count,
        StopNext::Finish(result)@ == StopNextView::Finish(result_of(result)),
{
}

/// A part of the stop that has come out as it should has come out so in all: in what is waited for,
/// in the recorder, and in what is wanted.
pub proof fn law_part_of_a_stop_comes_out_in_all(
    phase: StopPhase,
    state: RecordingState,
    next: StopNext,
    after: StopState,
)
    ensures
        comes_to(phase, state, next, after) <==> {
            &&& phase@ == after.phase
            &&& next@ == after.next
            &&& state.active == after.state.active
            &&& state.output_path@ == after.state.output_path
            &&& state.frame_count == after.state.frame_count
            &&& state.handles == after.state.handles
        },
{
}

} // verus!
