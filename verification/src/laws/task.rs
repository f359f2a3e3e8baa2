//! What a recording does from its beginning to the end of its encoder.
use crate::json::json_of;
use crate::laws::frames::{is_image, law_images_are_what_is_sent};
use crate::recording::attach::Reply;
use crate::recording::commands::BrowserRequest;
use crate::recording::control::RecordingControl;
use crate::recording::frames::{ScreencastFrame, Stamp};
use crate::recording::task::{
    begun, exit_report, expects, seed_shown, shown_of, wish_of, EncoderExit, RecordingTask,
    ShownFrame, TaskInput, TaskNext, TaskPhase, TaskWish, WritePart,
};
use crate::recording::writer::{fresh_writer, Arrival};
use crate::text::lossy_text;
use vstd::prelude::*;

verus! {

/// The browser has answered, well or not.
pub open spec fn is_answer(input: TaskInput) -> bool {
    input matches TaskInput::Reply(reply) && (reply is Document || reply is Failed)
}

/// Whenever a recording starts to collect images, with or without a first one, it does so in its
/// own session, and by the screencast exactly where the screencast is its source. What its source
/// is is fixed when it begins.
pub proof fn law_collector_is_that_of_the_source(
    task: RecordingTask,
    control: RecordingControl,
    input: TaskInput,
    frame: Option<ScreencastFrame>,
    now: u64,
    source_is_screencast: bool,
    session: String,
    target_id: Option<String>,
)
    requires
        task.well_formed(),
        expects(task.phase, input),
    ensures
        ({
            let after = task.stepped(control, input, frame, now);
            &&& after.task.screencast == task.screencast
            &&& after.wish matches TaskWish::Launch { session_id, screencast } ==> screencast
                == task.screencast && session_id == task.session_id
            &&& !(task.phase is Attaching) ==> after.task.session_id == task.session_id
        }),
        ({
            let seeded = task.seeded(control, frame, now);
            &&& seeded.task.screencast == task.screencast
            &&& seeded.task.session_id == task.session_id
            &&& seeded.wish matches TaskWish::Launch { session_id, screencast } ==> screencast
                == task.screencast && session_id == task.session_id
        }),
        begun(source_is_screencast, session, target_id, control).task.screencast
            == source_is_screencast,
{
}

/// Images are collected from when the first image is written, or at once where there is none.
pub proof fn law_images_are_collected_after_the_first(
    task: RecordingTask,
    control: RecordingControl,
    answer: TaskInput,
    now: u64,
)
    requires
        task.well_formed(),
        is_answer(answer),
    ensures
        task.phase is SeedShot ==> expects(task.phase, answer) && task.stepped(
            control,
            answer,
            None,
            now,
        ).wish is Launch,
        task.phase == TaskPhase::Writing(WritePart::Seed) && task.writer.writes_left() == 1
            ==> task.stepped(control, TaskInput::Written(Ok(())), None, now).wish is Launch,
{
}

/// A recording of the screencast opens a session of its own on its target and has its page events
/// sent. That session is the one that is named, in which a screencast that was left running is
/// stopped, the first screenshot is taken and images are collected.
pub proof fn law_recording_begins_in_its_own_session(
    given: String,
    target_id: String,
    control: RecordingControl,
    own: String,
    enabled: serde_json::Value,
    stopped: TaskInput,
    now: u64,
)
    requires
        is_answer(stopped),
    ensures
        ({
            let a = begun(true, given, Some(target_id), control);
            let session = TaskInput::Reply(Reply::Session(own));
            let ready = TaskInput::Reply(Reply::Document(enabled));
            let b = a.task.stepped(control, session, None, now);
            let c = b.task.stepped(control, ready, None, now);
            let d = c.task.stepped(c.control, stopped, None, now);
            &&& a.wish == TaskWish::Ask(BrowserRequest::Attach { target_id })
            &&& a.control == control
            &&& expects(a.task.phase, session) && expects(b.task.phase, ready) && expects(
                c.task.phase,
                stopped,
            )
            &&& b.wish == TaskWish::Ask(BrowserRequest::EnablePage { session_id: own })
            &&& b.control == control
            &&& c.wish == TaskWish::Ask(BrowserRequest::StopScreencast { session_id: own })
            &&& c.control == (RecordingControl { screencast_session_id: Some(own), ..control })
            &&& d.wish == TaskWish::Ask(BrowserRequest::Screenshot { session_id: own })
            &&& d.control == c.control
            &&& d.task.session_id == own
            &&& d.task.phase is SeedShot
            &&& d.task.writer == fresh_writer()
        }),
{
}

/// A recording that has no target, does not record the screencast, or cannot open a session of its
/// own, names and uses the session that it was given.
pub proof fn law_recording_falls_back_on_the_given_session(
    screencast: bool,
    given: String,
    target_id: Option<String>,
    control: RecordingControl,
    own: String,
    why: String,
    stopped: TaskInput,
    now: u64,
)
    requires
        is_answer(stopped),
    ensures
        ({
            let a = begun(screencast, given, target_id, control);
            let named = RecordingControl { screencast_session_id: Some(given), ..control };
            let failed = TaskInput::Reply(Reply::Failed(why));
            let opened = a.task.stepped(control, TaskInput::Reply(Reply::Session(own)), None, now);
            let x = a.task.stepped(control, failed, None, now);
            let y = opened.task.stepped(control, failed, None, now);
            let stop = TaskWish::Ask(BrowserRequest::StopScreencast { session_id: given });
            &&& !screencast || target_id is None ==> {
                let b = a.task.stepped(named, stopped, None, now);
                &&& a.wish == stop && a.control == named && a.task.session_id == given
                &&& expects(a.task.phase, stopped)
                &&& b.wish == TaskWish::Ask(BrowserRequest::Screenshot { session_id: given })
                &&& b.control == named
            }
            &&& screencast && target_id is Some ==> {
                &&& x.wish == stop && x.control == named && x.task.session_id == given
                &&& y.wish == stop && y.control == named && y.task.session_id == given
                &&& x.task.phase is Clearing && y.task.phase is Clearing
            }
            &&& a.task.writer == fresh_writer()
        }),
{
}

/// The first screenshot, where it has an image, is shown to the viewers as it is and is the first
/// image of the video, arriving now.
pub proof fn law_first_image_is_the_screenshot(
    task: RecordingTask,
    control: RecordingControl,
    answer: TaskInput,
    frame: ScreencastFrame,
    now: u64,
    millis: u64,
)
    requires
        task.well_formed(),
        task.phase is SeedShot,
        is_answer(answer),
        task.writer == fresh_writer(),
    ensures
        ({
            let after = task.stepped(control, answer, Some(frame), now);
            let shown = task.shows(control, answer, Some(frame), millis);
            &&& after.wish is WriteImage
            &&& after.task.phase == TaskPhase::Writing(WritePart::Seed)
            &&& after.task.writer.pending() == Some(frame.bytes@)
            &&& after.task.writer.first_timestamp_secs == Some(frame.timestamp_secs)
            &&& after.task.writer.first_frame_received_at == Some(now)
            &&& after.control == control
            &&& shown matches Some(shown) && shown.base64_data == frame.base64_data@
                && shown.metadata == frame.metadata@
            &&& task.shows(control, answer, None, millis) is None
            &&& seed_shown(Some(frame)) == task.shows(control, answer, Some(frame), millis)
            &&& seed_shown(None) is None
            &&& task.seeded(control, Some(frame), now) == after
        }),
{
}

/// The image of the first screenshot is the one that the browser's reply carries.
pub proof fn law_first_image_is_the_replys(
    task: RecordingTask,
    document: serde_json::Value,
    why: String,
    now: Stamp,
    frame: Option<ScreencastFrame>,
)
    requires
        task.phase is SeedShot,
    ensures
        task.carries(TaskInput::Reply(Reply::Document(document)), now, frame) ==> is_image(
            frame,
            json_of(document),
            None,
            now.millis,
            json_of(now.secs),
        ),
        task.carries(TaskInput::Reply(Reply::Failed(why)), now, frame) ==> frame is None,
{
    law_images_are_what_is_sent(frame, json_of(document), 0, now);
}

/// The first screenshot is the first image that the writer gets. While a recording runs, it gets
/// each image that arrives, and the time that passes unless the capture is suspended, with the slot
/// that is theirs; at the end it gets the time of the end. A write that was reported is reported
/// to it. Nothing else reaches it.
pub proof fn law_writer_gets_what_arrives(
    task: RecordingTask,
    control: RecordingControl,
    input: TaskInput,
    frame: Option<ScreencastFrame>,
    now: u64,
)
    requires
        task.well_formed(),
        expects(task.phase, input),
    ensures
        ({
            let after = task.stepped(control, input, frame, now).task.writer;
            match input {
                TaskInput::Frame { frame, slot } => after == task.writer.begun(
                    Arrival::Frame { frame, now, slot },
                ),
                TaskInput::Tick { slot, timestamp_secs } => after == (if control.capture_suspended {
                    task.writer
                } else {
                    task.writer.begun(Arrival::Time { slot, timestamp_secs })
                }),
                TaskInput::End { slot, timestamp_secs } => after == task.writer.begun(
                    Arrival::Time { slot, timestamp_secs },
                ),
                TaskInput::Written(result) => after == task.writer.reported(result is Ok).0,
                _ => after == (if task.phase is SeedShot && frame is Some {
                    task.writer.begun(Arrival::Frame { frame: frame->0, now, slot: 0 })
                } else {
                    task.writer
                }),
            }
        }),
{
}

/// As long as the writer has something to write, that is what is wanted next, and the recording
/// stays in the part that it is in; otherwise it goes on with that part: it collects images after
/// the first one, waits while it runs, and closes the encoder at the end.
pub proof fn law_images_are_written_before_anything_else(
    task: RecordingTask,
    control: RecordingControl,
    input: TaskInput,
    frame: Option<ScreencastFrame>,
    now: u64,
    part: WritePart,
)
    requires
        task.well_formed(),
        expects(task.phase, input),
        match input {
            TaskInput::Frame { .. } | TaskInput::Tick { .. } => part == WritePart::Live,
            TaskInput::End { .. } => part == WritePart::End,
            TaskInput::Written(Ok(_)) => task.phase == TaskPhase::Writing(part),
            _ => false,
        },
    ensures
        ({
            let after = task.stepped(control, input, frame, now);
            &&& after.control == control
            &&& !(after.task.writer.job is Idle) ==> after.wish is WriteImage && after.task.phase
                == TaskPhase::Writing(part)
            &&& after.task.writer.job is Idle ==> match part {
                WritePart::Seed => after.wish is Launch && after.task.phase is Running,
                WritePart::Live => after.wish is Await && after.task.phase is Running,
                WritePart::End => after.wish is Close && after.task.phase is Closing,
            }
        }),
{
}

/// A write that failed while the recording runs ends the collecting of images; at its beginning or
/// its end it ends the recording, which then reports why.
pub proof fn law_failed_write_ends_the_recording(
    task: RecordingTask,
    control: RecordingControl,
    why: String,
    now: u64,
    part: WritePart,
)
    requires
        task.well_formed(),
        task.phase == TaskPhase::Writing(part),
    ensures
        ({
            let input = TaskInput::Written(Err(why));
            let after = task.stepped(control, input, None, now);
            &&& expects(task.phase, input)
            &&& after.control == control
            &&& part == WritePart::Live ==> after.wish is Abort && after.task.phase is Aborting
            &&& part != WritePart::Live ==> after.task.phase is Finished && after.wish
                == TaskWish::Finish(Err("ffmpeg stdin write failed: "@ + why@))
        }),
{
}

/// The viewers are shown the last image each time it was written once more, and each time that the
/// capture is suspended when an image would be due: that image, with the time of now. Otherwise
/// they are shown nothing.
pub proof fn law_viewers_see_what_is_repeated(
    task: RecordingTask,
    control: RecordingControl,
    input: TaskInput,
    frame: Option<ScreencastFrame>,
    millis: u64,
)
    requires
        task.well_formed(),
        expects(task.phase, input),
        !(task.phase is SeedShot),
    ensures
        ({
            let shown = task.shows(control, input, frame, millis);
            let repeated = (input matches TaskInput::Written(result) && result is Ok)
                && task.writer.job is Repeat;
            let held = input is Tick && control.capture_suspended;
            if (repeated || held) && task.writer.last_frame is Some {
                let last = task.writer.last_frame->0;
                &&& shown is Some
                &&& shown->0.base64_data == last.base64_data@
                &&& shown->0.metadata.timestamp == millis
                &&& shown->0.metadata.offset_top == last.metadata@.offset_top
                &&& shown->0.metadata.page_scale_factor == last.metadata@.page_scale_factor
                &&& shown->0.metadata.device_width == last.metadata@.device_width
                &&& shown->0.metadata.device_height == last.metadata@.device_height
                &&& shown->0.metadata.scroll_offset_x == last.metadata@.scroll_offset_x
                &&& shown->0.metadata.scroll_offset_y == last.metadata@.scroll_offset_y
            } else {
                shown is None
            }
        }),
{
}

/// A recording that is cancelled ends its collector, stops the screencast of the session that is
/// named, lets go of that session, once more where that failed, forgets it, and only then asks for
/// its end, one second from now. Where no session is named it asks at once.
pub proof fn law_cancelled_recording_lets_go(
    task: RecordingTask,
    control: RecordingControl,
    later: RecordingControl,
    session_id: String,
    stopped: TaskInput,
    detached: serde_json::Value,
    why: String,
    again: TaskInput,
    now: u64,
)
    requires
        task.well_formed(),
        task.phase is Running,
        is_answer(stopped),
        is_answer(again),
        later.screencast_session_id == Some(session_id),
    ensures
        ({
            let well = TaskInput::Reply(Reply::Document(detached));
            let badly = TaskInput::Reply(Reply::Failed(why));
            let gone = RecordingControl { screencast_session_id: None, ..later };
            let a = task.stepped(control, TaskInput::Cancelled, None, now);
            let b = a.task.stepped(later, TaskInput::Aborted, None, now);
            let n = a.task.stepped(gone, TaskInput::Aborted, None, now);
            let c = b.task.stepped(later, stopped, None, now);
            let d = c.task.stepped(later, well, None, now);
            let x = c.task.stepped(later, badly, None, now);
            let y = x.task.stepped(later, again, None, now);
            &&& expects(task.phase, TaskInput::Cancelled) && expects(
                a.task.phase,
                TaskInput::Aborted,
            ) && expects(b.task.phase, stopped) && expects(c.task.phase, well) && expects(
                c.task.phase,
                badly,
            ) && expects(x.task.phase, again)
            &&& a.wish is Abort && a.control == control
            &&& b.wish == TaskWish::Ask(BrowserRequest::StopScreencast { session_id })
            &&& b.control == later
            &&& n.wish == (TaskWish::Measure { padding_ms: 1000 }) && n.control == gone
            &&& c.wish == TaskWish::Ask(BrowserRequest::Detach { session_id })
            &&& c.control == later
            &&& d.wish == (TaskWish::Measure { padding_ms: 1000 })
            &&& d.control == gone
            &&& x.wish == TaskWish::Ask(BrowserRequest::AbandonSession { session_id })
            &&& x.control == later
            &&& y == d
            &&& n.task == d.task
            &&& d.task == (RecordingTask { phase: TaskPhase::Measuring, ..task })
        }),
{
}

/// A recording reports what came of its encoder: nothing where that was a success, else that it
/// failed and the first three hundred characters of what it said, or why it could not be waited
/// for.
pub proof fn law_report_is_of_the_encoder(
    task: RecordingTask,
    control: RecordingControl,
    report: Vec<u8>,
    why: String,
    now: u64,
)
    requires
        task.phase is Closing,
    ensures
        ({
            let well = TaskInput::Closed(EncoderExit::Ended { success: true, report });
            let badly = TaskInput::Closed(EncoderExit::Ended { success: false, report });
            let lost = TaskInput::Closed(EncoderExit::Unknown(why));
            let said = lossy_text(report@);
            &&& expects(task.phase, well) && expects(task.phase, badly) && expects(task.phase, lost)
            &&& task.stepped(control, well, None, now).wish == TaskWish::Finish(Ok(()))
            &&& said.len() <= 300 ==> task.stepped(control, badly, None, now).wish
                == TaskWish::Finish(Err("ffmpeg failed: "@ + said))
            &&& said.len() > 300 ==> task.stepped(control, badly, None, now).wish
                == TaskWish::Finish(Err("ffmpeg failed: "@ + said.subrange(0, 300)))
            &&& task.stepped(control, lost, None, now).wish == TaskWish::Finish(
                Err("ffmpeg wait failed: "@ + why@),
            )
            &&& exit_report(EncoderExit::Ended { success: true, report }) is Ok
        }),
{
}

/// A recording sets no switch but the session that it names.
pub proof fn law_recording_leaves_the_users_switches(
    task: RecordingTask,
    control: RecordingControl,
    input: TaskInput,
    frame: Option<ScreencastFrame>,
    now: u64,
)
    requires
        task.well_formed(),
        expects(task.phase, input),
    ensures
        ({
            let after = task.stepped(control, input, frame, now).control;
            after == (RecordingControl {
                screencast_session_id: after.screencast_session_id,
                ..control
            })
        }),
{
}

/// Whatever a recording asks for, it takes all that may come of it, well or not; it takes nothing
/// only once it is over.
pub proof fn law_recording_takes_what_it_asked_for(
    task: RecordingTask,
    control: RecordingControl,
    input: TaskInput,
    frame: Option<ScreencastFrame>,
    now: u64,
    session: String,
    document: serde_json::Value,
    why: String,
    image: ScreencastFrame,
    slot: u64,
    exit: EncoderExit,
    result: Result<(), String>,
    any: TaskInput,
)
    requires
        task.well_formed(),
        expects(task.phase, input),
    ensures
        ({
            let after = task.stepped(control, input, frame, now);
            let phase = after.task.phase;
            match after.wish {
                TaskWish::Ask(request) => {
                    &&& expects(phase, TaskInput::Reply(Reply::Failed(why)))
                    &&& request is Attach ==> expects(
                        phase,
                        TaskInput::Reply(Reply::Session(session)),
                    )
                    &&& !(request is Attach) && !(request is ListTargets) ==> expects(
                        phase,
                        TaskInput::Reply(Reply::Document(document)),
                    )
                },
                TaskWish::WriteImage => expects(phase, TaskInput::Written(result)),
                TaskWish::Launch { .. } | TaskWish::Await => {
                    &&& expects(phase, TaskInput::Frame { frame: image, slot })
                    &&& expects(phase, TaskInput::Tick { slot, timestamp_secs: document })
                    &&& expects(phase, TaskInput::Cancelled)
                },
                TaskWish::Abort => expects(phase, TaskInput::Aborted),
                TaskWish::Measure { .. } => expects(
                    phase,
                    TaskInput::End { slot, timestamp_secs: document },
                ),
                TaskWish::Close => expects(phase, TaskInput::Closed(exit)),
                TaskWish::Finish(_) => phase is Finished && !expects(phase, any),
            }
        }),
{
}

/// What a recording wants is what it says: each wish stands for itself, with the session, the
/// source, the time and the report that it names; and what is shown is the image itself.
pub proof fn law_wish_is_what_is_wanted(
    request: BrowserRequest,
    session_id: String,
    screencast: bool,
    padding_ms: u64,
    message: String,
    shown: ShownFrame,
)
    ensures
        wish_of(TaskNext::Ask(request)) == TaskWish::Ask(request),
        wish_of(TaskNext::WriteImage) is WriteImage,
        wish_of(TaskNext::Launch { session_id, screencast }) == (TaskWish::Launch {
            session_id,
            screencast,
        }),
        wish_of(TaskNext::Await) is Await,
        wish_of(TaskNext::Abort) is Abort,
        wish_of(TaskNext::Measure { padding_ms }) == (TaskWish::Measure { padding_ms }),
        wish_of(TaskNext::Close) is Close,
        wish_of(TaskNext::Finish(Ok(()))) == TaskWish::Finish(Ok(())),
        wish_of(TaskNext::Finish(Err(message))) == TaskWish::Finish(Err(message@)),
        shown_of(None) is None,
        shown_of(Some(shown)) is Some,
        shown_of(Some(shown))->0.base64_data == shown.base64_data@,
        shown_of(Some(shown))->0.metadata == shown.metadata@,
{
}

/// A recording writes exactly while its writer has something to write, and at its end that is the
/// last image once more.
pub proof fn law_recording_writes_while_its_writer_does(task: RecordingTask)
    ensures
        task.well_formed() <==> {
            &&& task.writer.well_formed()
            &&& task.phase is Writing ==> !(task.writer.job is Idle)
            &&& !(task.phase is Writing) ==> task.writer.job is Idle
            &&& task.phase matches TaskPhase::Writing(part) ==> part == WritePart::End
                ==> task.writer.job is Repeat
        },
{
}

} // verus!
