//! A recording from its first image to the end of the encoder.
use crate::recording::attach::{
    answers, request_of, Attach, AttachOutcome, AttachPhase, AttachStep, Reply,
};
use crate::recording::commands::BrowserRequest;
use crate::recording::control::RecordingControl;
use crate::recording::frames::{
    is_screenshot_frame, screenshot_frame, FrameMetadata, FrameMetadataView, ScreencastFrame, Stamp,
};
use crate::recording::settings::{end_padding_ms, records_screencast};
use crate::recording::writer::{fresh_writer, FrameWriter, WriteJob, WriteStep};
use crate::json::json_of;
use crate::text::{first_chars, from_utf8_lossy, lossy_text, slice_of};
use vstd::prelude::*;

verus! {

/// How much of what the encoder said is reported when it failed, in characters.
pub const ENCODER_REPORT_CHARS: usize = 300;

/// Which part of a recording writes an image.
#[derive(PartialEq, Eq, Structural, Clone, Copy)]
pub enum WritePart {
    /// The image that the recording begins with.
    Seed,
    /// What arrives while it runs.
    Live,
    /// The last second.
    End,
}

/// What a recording waits for.
pub enum TaskPhase {
    /// A session of its own.
    Attaching(Attach),
    /// The end of a screencast that was left running.
    Clearing,
    /// A screenshot to begin with.
    SeedShot,
    /// An image to be written.
    Writing(WritePart),
    /// An image, the time for one, or the end.
    Running,
    /// The collector of the images to end.
    Aborting,
    /// The end of the screencast.
    StoppingScreencast { session_id: String },
    /// The end of the session.
    Detaching { session_id: String },
    /// The end of the session, asked for once more.
    DetachingAbandon,
    /// The time at which the recording ends.
    Measuring,
    /// The encoder to end.
    Closing,
    Finished,
}

/// How the encoder ended.
pub enum EncoderExit {
    /// It could not be waited for; the text says why.
    Unknown(String),
    /// It ended, successfully or not, and said this.
    Ended { success: bool, report: Vec<u8> },
}

/// What happened to a recording.
pub enum TaskInput {
    /// The answer to a request.
    Reply(Reply),
    /// The image was written, or was not; the text says why.
    Written(Result<(), String>),
    /// The collector sent an image, and its time gives it this slot.
    Frame { frame: ScreencastFrame, slot: u64 },
    /// Time has passed up to this slot.
    Tick { slot: u64, timestamp_secs: serde_json::Value },
    /// The recording is to end.
    Cancelled,
    /// The collector has ended.
    Aborted,
    /// The recording ends at this slot.
    End { slot: u64, timestamp_secs: serde_json::Value },
    /// The encoder has ended.
    Closed(EncoderExit),
}

/// What a recording wants.
pub enum TaskNext {
    /// Ask the browser, and hand in the answer.
    Ask(BrowserRequest),
    /// Write the pending image to the encoder.
    WriteImage,
    /// Start to collect images in this session, by its screencast or by screenshots, and wait
    /// for one, for the time for one, or for the end.
    Launch { session_id: String, screencast: bool },
    /// Wait for an image, for the time for one, or for the end.
    Await,
    /// End the collector.
    Abort,
    /// Tell the slot that is due so many milliseconds from now, at which the recording ends.
    Measure { padding_ms: u64 },
    /// Close the input of the encoder and wait for its end.
    Close,
    /// The recording is over.
    Finish(Result<(), String>),
}

/// An image for the viewers.
pub struct ShownFrame {
    pub base64_data: String,
    pub metadata: FrameMetadata,
}

/// What a recording wants, and the image that it wants shown first.
pub struct TaskAction {
    pub show: Option<ShownFrame>,
    pub next: TaskNext,
}

/// The model of what a recording wants.
pub enum TaskWish {
    Ask(BrowserRequest),
    WriteImage,
    Launch { session_id: String, screencast: bool },
    Await,
    Abort,
    Measure { padding_ms: u64 },
    Close,
    Finish(Result<(), Seq<char>>),
}

/// The model of an image for the viewers.
pub struct ShownFrameView {
    pub base64_data: Seq<char>,
    pub metadata: FrameMetadataView,
}

/// A recording.
pub struct RecordingTask {
    pub phase: TaskPhase,
    /// The screencast of the browser is recorded, and no screenshots.
    pub screencast: bool,
    /// The session that is recorded first.
    pub session_id: String,
    pub writer: FrameWriter,
}

/// Where a recording stands: itself, the switches, and what it wants.
pub struct TaskState {
    pub task: RecordingTask,
    pub control: RecordingControl,
    pub wish: TaskWish,
}

pub open spec fn wish_of(next: TaskNext) -> TaskWish {
    match next {
        TaskNext::Ask(request) => TaskWish::Ask(request),
        TaskNext::WriteImage => TaskWish::WriteImage,
        TaskNext::Launch { session_id, screencast } => TaskWish::Launch { session_id, screencast },
        TaskNext::Await => TaskWish::Await,
        TaskNext::Abort => TaskWish::Abort,
        TaskNext::Measure { padding_ms } => TaskWish::Measure { padding_ms },
        TaskNext::Close => TaskWish::Close,
        TaskNext::Finish(Ok(_)) => TaskWish::Finish(Ok(())),
        TaskNext::Finish(Err(message)) => TaskWish::Finish(Err(message@)),
    }
}

pub open spec fn shown_of(show: Option<ShownFrame>) -> Option<ShownFrameView> {
    match show {
        Some(shown) => Some(
            ShownFrameView { base64_data: shown.base64_data@, metadata: shown.metadata@ },
        ),
        None => None,
    }
}

/// What the viewers are shown of the image that a recording begins with.
pub open spec fn seed_shown(frame: Option<ScreencastFrame>) -> Option<ShownFrameView> {
    match frame {
        Some(frame) => Some(
            ShownFrameView { base64_data: frame.base64_data@, metadata: frame.metadata@ },
        ),
        None => None,
    }
}

/// `input` is something that a recording waits for in `phase`.
pub open spec fn expects(phase: TaskPhase, input: TaskInput) -> bool {
    match phase {
        TaskPhase::Attaching(attempt) => input matches TaskInput::Reply(reply) && answers(
            attempt.phase,
            reply,
        ),
        TaskPhase::Clearing | TaskPhase::SeedShot | TaskPhase::StoppingScreencast { .. }
        | TaskPhase::Detaching { .. } | TaskPhase::DetachingAbandon => input
            matches TaskInput::Reply(reply) && (reply is Document || reply is Failed),
        TaskPhase::Writing(_) => input is Written,
        TaskPhase::Running => input is Frame || input is Tick || input is Cancelled,
        TaskPhase::Aborting => input is Aborted,
        TaskPhase::Measuring => input is End,
        TaskPhase::Closing => input is Closed,
        TaskPhase::Finished => false,
    }
}

/// What is reported when an image could not be written.
pub open spec fn write_failure(why: Seq<char>) -> Seq<char> {
    "ffmpeg stdin write failed: "@ + why
}

/// What is reported of an encoder that failed and said `report`: no more than its first
/// characters.
pub open spec fn failure_of(report: Seq<char>) -> Seq<char> {
    "ffmpeg failed: "@ + (if report.len() <= ENCODER_REPORT_CHARS {
        report
    } else {
        report.take(ENCODER_REPORT_CHARS as int)
    })
}

/// Says that the encoder failed.
pub fn encoder_failed(report: &str) -> (message: String)
    ensures
        message@ == failure_of(report@),
{
    let head = first_chars(report, ENCODER_REPORT_CHARS);
    "ffmpeg failed: ".to_owned().concat(head.as_str())
}

/// What a recording reports once the encoder has ended.
pub open spec fn exit_report(exit: EncoderExit) -> Result<(), Seq<char>> {
    match exit {
        EncoderExit::Unknown(why) => Err("ffmpeg wait failed: "@ + why@),
        EncoderExit::Ended { success, report } => if success {
            Ok(())
        } else {
            Err(failure_of(lossy_text(report@)))
        },
    }
}

/// Says that the encoder could not be started.
pub fn encoder_not_started(why: &str) -> (message: String)
    ensures
        message@ == "ffmpeg not found or failed to execute: "@ + why@
            + ". Install ffmpeg to enable recording."@,
{
    "ffmpeg not found or failed to execute: ".to_owned().concat(why).concat(
        ". Install ffmpeg to enable recording.",
    )
}

/// Says that the encoder takes no input.
pub fn encoder_has_no_input() -> (message: String)
    ensures
        message@ == "Failed to open ffmpeg stdin"@,
{
    "Failed to open ffmpeg stdin".to_owned()
}

impl RecordingTask {
    /// The last image is there while it is repeated, no job goes on between writes, and at the end
    /// only the last image is written.
    pub open spec fn well_formed(self) -> bool {
        &&& self.writer.well_formed()
        &&& self.phase is Writing <==> !(self.writer.job is Idle)
        &&& self.phase == TaskPhase::Writing(WritePart::End) ==> self.writer.job is Repeat
    }

    pub open spec fn at(
        self,
        phase: TaskPhase,
        control: RecordingControl,
        wish: TaskWish,
    ) -> TaskState {
        TaskState { task: RecordingTask { phase, ..self }, control, wish }
    }

    /// The recording has a session: it names it and ends a screencast that was left running.
    pub open spec fn with_session(self, control: RecordingControl, session_id: String) -> TaskState {
        (RecordingTask { session_id, ..self }).at(
            TaskPhase::Clearing,
            RecordingControl { screencast_session_id: Some(session_id), ..control },
            TaskWish::Ask(BrowserRequest::StopScreencast { session_id }),
        )
    }

    /// The images are collected from now on.
    pub open spec fn launched(self, control: RecordingControl) -> TaskState {
        self.at(
            TaskPhase::Running,
            control,
            TaskWish::Launch { session_id: self.session_id, screencast: self.screencast },
        )
    }

    /// How the recording goes on when the writer wants `step`; `why` is the reason where a
    /// write failed.
    pub open spec fn wrote(
        self,
        control: RecordingControl,
        part: WritePart,
        step: WriteStep,
        why: Seq<char>,
    ) -> TaskState {
        match step {
            WriteStep::Write => self.at(TaskPhase::Writing(part), control, TaskWish::WriteImage),
            WriteStep::Done => match part {
                WritePart::Seed => self.launched(control),
                WritePart::Live => self.at(TaskPhase::Running, control, TaskWish::Await),
                WritePart::End => self.at(TaskPhase::Closing, control, TaskWish::Close),
            },
            WriteStep::Failed => match part {
                WritePart::Live => self.at(TaskPhase::Aborting, control, TaskWish::Abort),
                _ => self.at(
                    TaskPhase::Finished,
                    control,
                    TaskWish::Finish(Err(write_failure(why))),
                ),
            },
        }
    }

    /// An image that arrives at `now` is taken.
    pub open spec fn frame_taken(
        self,
        control: RecordingControl,
        part: WritePart,
        frame: ScreencastFrame,
        now: u64,
        slot: u64,
    ) -> TaskState {
        let (writer, step) = self.writer.frame_begun(frame, now, slot);
        (RecordingTask { writer, ..self }).wrote(control, part, step, seq![])
    }

    /// The recording begins with an image, where there is one.
    pub open spec fn seeded(
        self,
        control: RecordingControl,
        frame: Option<ScreencastFrame>,
        now: u64,
    ) -> TaskState {
        match frame {
            Some(frame) => self.frame_taken(control, WritePart::Seed, frame, now, 0),
            None => self.launched(control),
        }
    }

    /// Time has passed up to `slot`.
    pub open spec fn time_passed(
        self,
        control: RecordingControl,
        part: WritePart,
        slot: u64,
        timestamp_secs: serde_json::Value,
    ) -> TaskState {
        let (writer, step) = self.writer.padding_begun(slot, timestamp_secs);
        (RecordingTask { writer, ..self }).wrote(control, part, step, seq![])
    }

    /// The session is let go of.
    pub open spec fn released(self, control: RecordingControl) -> TaskState {
        self.at(
            TaskPhase::Measuring,
            RecordingControl { screencast_session_id: None, ..control },
            TaskWish::Measure { padding_ms: 1000 },
        )
    }

    /// What an input does to the recording. `frame` is the image that the input carries as the
    /// answer to a screenshot, if it carries one.
    pub open spec fn stepped(
        self,
        control: RecordingControl,
        input: TaskInput,
        frame: Option<ScreencastFrame>,
        now: u64,
    ) -> TaskState {
        match (self.phase, input) {
            (TaskPhase::Attaching(attempt), TaskInput::Reply(reply)) => match attempt.outcome(
                reply,
            ) {
                AttachOutcome::Ask(next) => self.at(
                    TaskPhase::Attaching(next),
                    control,
                    TaskWish::Ask(request_of(next.phase)),
                ),
                AttachOutcome::Opened(opened) => self.with_session(control, opened.session_id),
                AttachOutcome::Failed => self.with_session(control, self.session_id),
            },
            (TaskPhase::Clearing, _) => self.at(
                TaskPhase::SeedShot,
                control,
                TaskWish::Ask(BrowserRequest::Screenshot { session_id: self.session_id }),
            ),
            (TaskPhase::SeedShot, _) => self.seeded(control, frame, now),
            (TaskPhase::Writing(part), TaskInput::Written(result)) => {
                let (writer, step) = self.writer.reported(result is Ok);
                (RecordingTask { writer, ..self }).wrote(
                    control,
                    part,
                    step,
                    match result {
                        Ok(_) => seq![],
                        Err(why) => why@,
                    },
                )
            },
            (TaskPhase::Running, TaskInput::Frame { frame, slot }) => self.frame_taken(
                control,
                WritePart::Live,
                frame,
                now,
                slot,
            ),
            (TaskPhase::Running, TaskInput::Tick { slot, timestamp_secs }) => {
                if control.capture_suspended {
                    self.at(TaskPhase::Running, control, TaskWish::Await)
                } else {
                    self.time_passed(control, WritePart::Live, slot, timestamp_secs)
                }
            },
            (TaskPhase::Running, _) => self.at(TaskPhase::Aborting, control, TaskWish::Abort),
            (TaskPhase::Aborting, _) => match control.screencast_session_id {
                Some(session_id) => self.at(
                    TaskPhase::StoppingScreencast { session_id },
                    control,
                    TaskWish::Ask(BrowserRequest::StopScreencast { session_id }),
                ),
                None => self.at(
                    TaskPhase::Measuring,
                    control,
                    TaskWish::Measure { padding_ms: 1000 },
                ),
            },
            (TaskPhase::StoppingScreencast { session_id }, _) => self.at(
                TaskPhase::Detaching { session_id },
                control,
                TaskWish::Ask(BrowserRequest::Detach { session_id }),
            ),
            (TaskPhase::Detaching { session_id }, TaskInput::Reply(Reply::Failed(_))) => self.at(
                TaskPhase::DetachingAbandon,
                control,
                TaskWish::Ask(BrowserRequest::AbandonSession { session_id }),
            ),
            (TaskPhase::Detaching { .. }, _) | (TaskPhase::DetachingAbandon, _) => self.released(
                control,
            ),
            (TaskPhase::Measuring, TaskInput::End { slot, timestamp_secs }) => self.time_passed(
                control,
                WritePart::End,
                slot,
                timestamp_secs,
            ),
            (TaskPhase::Closing, TaskInput::Closed(exit)) => self.at(
                TaskPhase::Finished,
                control,
                TaskWish::Finish(exit_report(exit)),
            ),
            _ => self.at(TaskPhase::Finished, control, TaskWish::Abort),
        }
    }

    /// The last image, made at another time.
    pub open spec fn last_shown(self, millis: u64) -> Option<ShownFrameView> {
        match self.writer.last_frame {
            Some(last) => Some(
                ShownFrameView {
                    base64_data: last.base64_data@,
                    metadata: FrameMetadataView { timestamp: millis, ..last.metadata@ },
                },
            ),
            None => None,
        }
    }

    /// The image that the viewers are shown: the one that the recording begins with, the last
    /// one each time it is repeated, and the last one while the capture is suspended.
    pub open spec fn shows(
        self,
        control: RecordingControl,
        input: TaskInput,
        frame: Option<ScreencastFrame>,
        millis: u64,
    ) -> Option<ShownFrameView> {
        match (self.phase, input) {
            (TaskPhase::SeedShot, _) => seed_shown(frame),
            (TaskPhase::Writing(_), TaskInput::Written(Ok(_))) => if self.writer.job is Repeat {
                self.last_shown(millis)
            } else {
                None
            },
            (TaskPhase::Running, TaskInput::Tick { .. }) => if control.capture_suspended {
                self.last_shown(millis)
            } else {
                None
            },
            _ => None,
        }
    }

    /// `frame` is the image that `input` carries as the answer to a screenshot, if it does.
    pub open spec fn carries(
        self,
        input: TaskInput,
        stamp: Stamp,
        frame: Option<ScreencastFrame>,
    ) -> bool {
        match (self.phase, input) {
            (TaskPhase::SeedShot, TaskInput::Reply(Reply::Document(document))) =>
                is_screenshot_frame(frame, json_of(document), stamp),
            _ => frame is None,
        }
    }
}

/// The recording as it begins: with an attempt to open a session of its own on the target
/// where the screencast is recorded, else with the given session.
pub open spec fn begun(
    screencast: bool,
    session_id: String,
    target_id: Option<String>,
    control: RecordingControl,
) -> TaskState {
    let task = RecordingTask {
        phase: TaskPhase::Clearing,
        screencast,
        session_id,
        writer: fresh_writer(),
    };
    match target_id {
        Some(target_id) => if screencast {
            let attempt = Attach {
                phase: AttachPhase::Attaching { target_id },
                start: false,
                fallback: false,
                current_target_id: None,
                browser_context_id: None,
            };
            task.at(
                TaskPhase::Attaching(attempt),
                control,
                TaskWish::Ask(request_of(attempt.phase)),
            )
        } else {
            task.with_session(control, session_id)
        },
        None => task.with_session(control, session_id),
    }
}

/// Begins a recording of a session. `source` is what the user set as the source of the images,
/// if anything.
pub fn spawn_recording_task(
    source: Option<&str>,
    session_id: String,
    target_id: Option<String>,
    control: &mut RecordingControl,
) -> (started: (RecordingTask, TaskNext))
    ensures
        begun(
            source is None || slice_of(source) == Some("screencast"@),
            session_id,
            target_id,
            *old(control),
        ) == (TaskState {
            task: started.0,
            control: *final(control),
            wish: wish_of(started.1),
        }),
        started.0.well_formed(),
{
    let screencast = records_screencast(source);
    let mut task = RecordingTask {
        phase: TaskPhase::Clearing,
        screencast,
        session_id,
        writer: FrameWriter::new(),
    };
    if screencast {
        if let Ok(begun) = Attach::attach_recording_session(target_id) {
            task.phase = TaskPhase::Attaching(begun.0);
            return (task, TaskNext::Ask(begun.1));
        }
    }
    let session_id = task.session_id.clone();
    let next = task.take_session(control, session_id);
    (task, next)
}

impl RecordingTask {
    fn take_session(&mut self, control: &mut RecordingControl, session_id: String) -> (next:
        TaskNext)
        ensures
            old(self).with_session(*old(control), session_id) == (TaskState {
                task: *final(self),
                control: *final(control),
                wish: wish_of(next),
            }),
    {
        control.set_screencast_session_id(session_id.clone());
        self.session_id = session_id.clone();
        self.phase = TaskPhase::Clearing;
        TaskNext::Ask(BrowserRequest::StopScreencast { session_id })
    }

    fn launch(&mut self, control: &RecordingControl) -> (next: TaskNext)
        ensures
            old(self).launched(*control) == (TaskState {
                task: *final(self),
                control: *control,
                wish: wish_of(next),
            }),
    {
        self.phase = TaskPhase::Running;
        TaskNext::Launch { session_id: self.session_id.clone(), screencast: self.screencast }
    }

    fn go_on(
        &mut self,
        control: &RecordingControl,
        part: WritePart,
        step: WriteStep,
        why: &str,
    ) -> (next: TaskNext)
        ensures
            old(self).wrote(*control, part, step, why@) == (TaskState {
                task: *final(self),
                control: *control,
                wish: wish_of(next),
            }),
    {
        match step {
            WriteStep::Write => {
                self.phase = TaskPhase::Writing(part);
                TaskNext::WriteImage
            },
            WriteStep::Done => match part {
                WritePart::Seed => self.launch(control),
                WritePart::Live => {
                    self.phase = TaskPhase::Running;
                    TaskNext::Await
                },
                WritePart::End => {
                    self.phase = TaskPhase::Closing;
                    TaskNext::Close
                },
            },
            WriteStep::Failed => match part {
                WritePart::Live => {
                    self.phase = TaskPhase::Aborting;
                    TaskNext::Abort
                },
                _ => {
                    self.phase = TaskPhase::Finished;
                    TaskNext::Finish(Err("ffmpeg stdin write failed: ".to_owned().concat(why)))
                },
            },
        }
    }

    /// The last image as it is shown at `millis`.
    fn show_last(&self, millis: u64) -> (show: Option<ShownFrame>)
        ensures
            shown_of(show) == self.last_shown(millis),
    {
        match &self.writer.last_frame {
            Some(last) => Some(
                ShownFrame {
                    base64_data: last.base64_data.clone(),
                    metadata: last.metadata.restamped(millis),
                },
            ),
            None => None,
        }
    }

    /// Shows and writes the image that the recording begins with, where there is one, and starts
    /// to collect images.
    pub fn begin(
        &mut self,
        control: &RecordingControl,
        frame: Option<ScreencastFrame>,
        now: u64,
    ) -> (action: TaskAction)
        requires
            old(self).writer.well_formed(),
            old(self).writer.job is Idle,
        ensures
            old(self).seeded(*control, frame, now) == (TaskState {
                task: *final(self),
                control: *control,
                wish: wish_of(action.next),
            }),
            shown_of(action.show) == seed_shown(frame),
            final(self).well_formed(),
    {
        proof {
            reveal_strlit("");
            assert(""@ =~= seq![]);
        }
        match frame {
            Some(frame) => {
                let show = ShownFrame {
                    base64_data: frame.base64_data.clone(),
                    metadata: frame.metadata.restamped(frame.metadata.timestamp),
                };
                let step = self.writer.begin_frame(frame, now, 0);
                let next = self.go_on(control, WritePart::Seed, step, "");
                TaskAction { show: Some(show), next }
            },
            None => TaskAction { show: None, next: self.launch(control) },
        }
    }

    /// What is reported once the encoder has ended.
    fn conclude(exit: EncoderExit) -> (next: TaskNext)
        ensures
            wish_of(next) == TaskWish::Finish(exit_report(exit)),
    {
        match exit {
            EncoderExit::Unknown(why) => TaskNext::Finish(
                Err("ffmpeg wait failed: ".to_owned().concat(why.as_str())),
            ),
            EncoderExit::Ended { success, report } => if success {
                TaskNext::Finish(Ok(()))
            } else {
                let report = from_utf8_lossy(&report);
                TaskNext::Finish(Err(encoder_failed(report.as_str())))
            },
        }
    }

    /// Takes what happened, and says what is wanted next. `stamp` is now, and `now` is now on
    /// the clock of the recording.
    pub fn step(
        &mut self,
        control: &mut RecordingControl,
        input: TaskInput,
        stamp: Stamp,
        now: u64,
    ) -> (action: TaskAction)
        requires
            old(self).well_formed(),
            expects(old(self).phase, input),
        ensures
            exists|frame: Option<ScreencastFrame>|
                {
                    &&& #[trigger] old(self).carries(input, stamp, frame)
                    &&& old(self).stepped(*old(control), input, frame, now) == (TaskState {
                        task: *final(self),
                        control: *final(control),
                        wish: wish_of(action.next),
                    })
                    &&& shown_of(action.show) == old(self).shows(
                        *old(control),
                        input,
                        frame,
                        stamp.millis,
                    )
                },
            final(self).well_formed(),
    {
        let ghost before = *self;
        let ghost given = input;
        let ghost mut image: Option<ScreencastFrame> = None;
        let mut show: Option<ShownFrame> = None;
        let mut phase = TaskPhase::Finished;
        std::mem::swap(&mut phase, &mut self.phase);
        let next = match phase {
            TaskPhase::Attaching(mut attempt) => match input {
                TaskInput::Reply(reply) => match attempt.reply(reply) {
                    AttachStep::Ask(request) => {
                        self.phase = TaskPhase::Attaching(attempt);
                        TaskNext::Ask(request)
                    },
                    AttachStep::Opened(opened) => self.take_session(control, opened.session_id),
                    AttachStep::Failed(_) => {
                        let session_id = self.session_id.clone();
                        self.take_session(control, session_id)
                    },
                },
                _ => vstd::pervasive::unreached(),
            },
            TaskPhase::Clearing => {
                self.phase = TaskPhase::SeedShot;
                TaskNext::Ask(BrowserRequest::Screenshot { session_id: self.session_id.clone() })
            },
            TaskPhase::SeedShot => {
                let frame = match input {
                    TaskInput::Reply(Reply::Document(document)) => screenshot_frame(
                        &document,
                        stamp,
                    ),
                    _ => None,
                };
                proof {
                    image = frame;
                }
                let action = self.begin(control, frame, now);
                show = action.show;
                action.next
            },
            TaskPhase::Writing(part) => match input {
                TaskInput::Written(Ok(_)) => {
                    let repeated = match &self.writer.job {
                        WriteJob::Repeat { .. } => true,
                        _ => false,
                    };
                    if repeated {
                        show = self.show_last(stamp.millis);
                    }
                    let step = self.writer.report(true);
                    self.go_on(control, part, step, "")
                },
                TaskInput::Written(Err(why)) => {
                    let step = self.writer.report(false);
                    self.go_on(control, part, step, why.as_str())
                },
                _ => vstd::pervasive::unreached(),
            },
            TaskPhase::Running => match input {
                TaskInput::Frame { frame, slot } => {
                    let step = self.writer.begin_frame(frame, now, slot);
                    self.go_on(control, WritePart::Live, step, "")
                },
                TaskInput::Tick { slot, timestamp_secs } => {
                    if control.is_capture_suspended() {
                        show = self.show_last(stamp.millis);
                        self.phase = TaskPhase::Running;
                        TaskNext::Await
                    } else {
                        let step = self.writer.begin_padding(slot, timestamp_secs);
                        self.go_on(control, WritePart::Live, step, "")
                    }
                },
                _ => {
                    self.phase = TaskPhase::Aborting;
                    TaskNext::Abort
                },
            },
            TaskPhase::Aborting => match control.screencast_session_id() {
                Some(session_id) => {
                    self.phase = TaskPhase::StoppingScreencast { session_id: session_id.clone() };
                    TaskNext::Ask(BrowserRequest::StopScreencast { session_id })
                },
                None => {
                    self.phase = TaskPhase::Measuring;
                    TaskNext::Measure { padding_ms: end_padding_ms() }
                },
            },
            TaskPhase::StoppingScreencast { session_id } => {
                self.phase = TaskPhase::Detaching { session_id: session_id.clone() };
                TaskNext::Ask(BrowserRequest::Detach { session_id })
            },
            TaskPhase::Detaching { session_id } => match input {
                TaskInput::Reply(Reply::Failed(_)) => {
                    self.phase = TaskPhase::DetachingAbandon;
                    TaskNext::Ask(BrowserRequest::AbandonSession { session_id })
                },
                _ => {
                    control.clear_screencast_session_id();
                    self.phase = TaskPhase::Measuring;
                    TaskNext::Measure { padding_ms: end_padding_ms() }
                },
            },
            TaskPhase::DetachingAbandon => {
                control.clear_screencast_session_id();
                self.phase = TaskPhase::Measuring;
                TaskNext::Measure { padding_ms: end_padding_ms() }
            },
            TaskPhase::Measuring => match input {
                TaskInput::End { slot, timestamp_secs } => {
                    let step = self.writer.begin_padding(slot, timestamp_secs);
                    self.go_on(control, WritePart::End, step, "")
                },
                _ => vstd::pervasive::unreached(),
            },
            TaskPhase::Closing => match input {
                TaskInput::Closed(exit) => Self::conclude(exit),
                _ => vstd::pervasive::unreached(),
            },
            TaskPhase::Finished => vstd::pervasive::unreached(),
        };
        proof {
            reveal_strlit("");
            assert(""@ =~= seq![]);
        }
        assert(before.carries(given, stamp, image));
        TaskAction { show, next }
    }
}

/// The count of a recording is the number of images that were written: it goes up by one with
/// each write that succeeded, and stays with everything else.
pub proof fn law_count_is_of_written_images(
    task: RecordingTask,
    control: RecordingControl,
    input: TaskInput,
    frame: Option<ScreencastFrame>,
    now: u64,
)
    requires
        task.well_formed(),
        expects(task.phase, input),
    ensures
        task.stepped(control, input, frame, now).task.writer.written == (if input
            matches TaskInput::Written(result) && result is Ok {
            task.writer.written.wrapping_add(1)
        } else {
            task.writer.written
        }),
{
}

/// As long as no write fails, a recording has exactly one image for each slot up to the one
/// that it has reached.
pub proof fn law_recording_keeps_pace(
    task: RecordingTask,
    control: RecordingControl,
    input: TaskInput,
    frame: Option<ScreencastFrame>,
    now: u64,
)
    requires
        task.well_formed(),
        expects(task.phase, input),
        task.writer.keeps_pace(),
        !(input matches TaskInput::Written(result) && result is Err),
    ensures
        task.stepped(control, input, frame, now).task.writer.keeps_pace(),
{
}

/// A recording that is over has let go of its session: once it measures its end, no session is
/// named any more.
pub proof fn law_session_is_let_go(
    task: RecordingTask,
    control: RecordingControl,
    input: TaskInput,
    frame: Option<ScreencastFrame>,
    now: u64,
)
    requires
        task.well_formed(),
        expects(task.phase, input),
        task.stepped(control, input, frame, now).wish is Measure,
    ensures
        task.stepped(control, input, frame, now).control.screencast_session_id is None,
{
}

/// The video ends with its last image for one second more: a recording ends at the slot that is
/// due a second from when it asks, and the encoder is closed only once time has passed up to
/// there.
pub proof fn law_video_ends_with_a_second_more(
    task: RecordingTask,
    control: RecordingControl,
    input: TaskInput,
    frame: Option<ScreencastFrame>,
    now: u64,
)
    requires
        task.well_formed(),
        expects(task.phase, input),
    ensures
        ({
            let after = task.stepped(control, input, frame, now);
            &&& after.wish is Measure <==> after.task.phase is Measuring
            &&& after.wish matches TaskWish::Measure { padding_ms } ==> padding_ms == 1000
            &&& after.wish is Close ==> task.phase is Measuring || task.phase
                == TaskPhase::Writing(WritePart::End)
            &&& after.task.phase == TaskPhase::Writing(WritePart::End) ==> task.phase is Measuring
                || task.phase == TaskPhase::Writing(WritePart::End)
            &&& input matches TaskInput::End { slot, .. } ==> {
                if after.wish is Close {
                    after.task.writer.reached() matches Some(at) ==> at >= slot
                } else {
                    &&& after.task.phase == TaskPhase::Writing(WritePart::End)
                    &&& after.task.writer.job matches WriteJob::Repeat { goal, .. } && goal == slot
                }
            }
            &&& task.phase == TaskPhase::Writing(WritePart::End) && input == TaskInput::Written(
                Ok(()),
            ) ==> {
                let goal = task.writer.job->goal;
                if after.wish is Close {
                    after.task.writer.reached() == Some(goal)
                } else {
                    &&& after.task.phase == TaskPhase::Writing(WritePart::End)
                    &&& after.task.writer.job matches WriteJob::Repeat { goal: still, .. } && still
                        == goal
                }
            }
        }),
{
}

/// A recording succeeds exactly when its encoder ended successfully.
pub proof fn law_success_is_the_encoders(
    task: RecordingTask,
    control: RecordingControl,
    input: TaskInput,
    frame: Option<ScreencastFrame>,
    now: u64,
)
    requires
        task.well_formed(),
        expects(task.phase, input),
    ensures
        task.stepped(control, input, frame, now).wish == TaskWish::Finish(Ok(())) <==> (
        task.phase is Closing && (input->Closed_0 matches EncoderExit::Ended {
            success,
            ..
        } && success)),
{
}

/// While the capture is suspended no time passes in the video: nothing is written, and the
/// viewers are shown the last image.
pub proof fn law_suspended_recording_stands_still(
    task: RecordingTask,
    control: RecordingControl,
    input: TaskInput,
    now: u64,
    millis: u64,
)
    requires
        task.well_formed(),
        task.phase is Running,
        input is Tick,
        control.capture_suspended,
    ensures
        ({
            let after = task.stepped(control, input, None, now);
            &&& after.task == task
            &&& after.wish is Await
            &&& task.shows(control, input, None, millis) == task.last_shown(millis)
        }),
{
}

} // verus!
