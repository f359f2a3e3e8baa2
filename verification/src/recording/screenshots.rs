//! Recording a page by screenshots at a fixed rate.
use crate::json::json_of;
use crate::recording::attach::Reply;
use crate::recording::commands::BrowserRequest;
use crate::recording::frames::{is_screenshot_frame, screenshot_frame, ScreencastFrame, Stamp};
use vstd::prelude::*;

verus! {

/// What the collector of screenshots waits for.
#[derive(PartialEq, Eq, Structural, Clone, Copy)]
pub enum ScreenshotPhase {
    /// The time for the next one.
    Waiting,
    /// The browser.
    Shooting,
    /// The recording to take one.
    Sending,
    Finished,
}

/// The collector of screenshots of a session.
pub struct ScreenshotLoop {
    pub phase: ScreenshotPhase,
    pub session_id: String,
}

/// What happened to the collector.
pub enum ScreenshotInput {
    /// It is time for the next screenshot, unless the recording is paused.
    Tick { paused: bool },
    /// The answer of the browser.
    Reply(Reply),
    /// A screenshot was taken by the recording, or was not because the recording is over.
    Sent(bool),
}

/// What the collector wants.
pub enum ScreenshotNext {
    /// Wait until it is time for the next screenshot.
    AwaitTick,
    Ask(BrowserRequest),
    /// Show the image to the viewers and hand it to the recording.
    Emit(ScreencastFrame),
    Finish,
}

/// `input` is something that the collector waits for.
pub open spec fn awaited(phase: ScreenshotPhase, input: ScreenshotInput) -> bool {
    match phase {
        ScreenshotPhase::Waiting => input is Tick,
        ScreenshotPhase::Shooting => input matches ScreenshotInput::Reply(reply) && (reply
            is Document || reply is Failed),
        ScreenshotPhase::Sending => input is Sent,
        ScreenshotPhase::Finished => false,
    }
}

/// What a screenshot does to the collector, where there is one.
pub open spec fn handed_on(frame: Option<ScreencastFrame>) -> (ScreenshotPhase, ScreenshotNext) {
    match frame {
        Some(frame) => (ScreenshotPhase::Sending, ScreenshotNext::Emit(frame)),
        None => (ScreenshotPhase::Waiting, ScreenshotNext::AwaitTick),
    }
}

impl ScreenshotLoop {
    /// What an input does to the collector. `frame` is the image that the input carries, if it
    /// carries one.
    pub open spec fn stepped(self, input: ScreenshotInput, frame: Option<ScreencastFrame>) -> (
        ScreenshotPhase,
        ScreenshotNext,
    ) {
        match input {
            ScreenshotInput::Tick { paused } => if paused {
                (ScreenshotPhase::Waiting, ScreenshotNext::AwaitTick)
            } else {
                (
                    ScreenshotPhase::Shooting,
                    ScreenshotNext::Ask(BrowserRequest::Screenshot { session_id: self.session_id }),
                )
            },
            ScreenshotInput::Reply(_) => handed_on(frame),
            ScreenshotInput::Sent(taken) => if taken {
                (ScreenshotPhase::Waiting, ScreenshotNext::AwaitTick)
            } else {
                (ScreenshotPhase::Finished, ScreenshotNext::Finish)
            },
        }
    }

    /// `frame` is the image that `input` carries, if it carries one.
    pub open spec fn carries(
        self,
        input: ScreenshotInput,
        stamp: Stamp,
        frame: Option<ScreencastFrame>,
    ) -> bool {
        match input {
            ScreenshotInput::Reply(Reply::Document(document)) => is_screenshot_frame(
                frame,
                json_of(document),
                stamp,
            ),
            _ => frame is None,
        }
    }

    /// Begins to collect screenshots of a session.
    pub fn start(session_id: String) -> (begun: (ScreenshotLoop, ScreenshotNext))
        ensures
            begun.0 == (ScreenshotLoop { phase: ScreenshotPhase::Waiting, session_id }),
            begun.1 == ScreenshotNext::AwaitTick,
    {
        (
            ScreenshotLoop { phase: ScreenshotPhase::Waiting, session_id },
            ScreenshotNext::AwaitTick,
        )
    }

    /// Hands on a screenshot, where there is one, and waits for the next where there is none.
    pub fn hand_on(&mut self, frame: Option<ScreencastFrame>) -> (next: ScreenshotNext)
        ensures
            (final(self).phase, next) == handed_on(frame),
            final(self).session_id == old(self).session_id,
    {
        match frame {
            Some(frame) => {
                self.phase = ScreenshotPhase::Sending;
                ScreenshotNext::Emit(frame)
            },
            None => {
                self.phase = ScreenshotPhase::Waiting;
                ScreenshotNext::AwaitTick
            },
        }
    }

    /// Takes what happened, and says what is wanted next. `stamp` is now.
    pub fn step(&mut self, input: ScreenshotInput, stamp: Stamp) -> (next: ScreenshotNext)
        requires
            awaited(old(self).phase, input),
        ensures
            exists|frame: Option<ScreencastFrame>|
                #[trigger] old(self).carries(input, stamp, frame) && old(self).stepped(input, frame)
                    == (final(self).phase, next),
            final(self).session_id == old(self).session_id,
    {
        let ghost before = *self;
        let ghost given = input;
        let next = match input {
            ScreenshotInput::Tick { paused } => {
                if paused {
                    ScreenshotNext::AwaitTick
                } else {
                    self.phase = ScreenshotPhase::Shooting;
                    ScreenshotNext::Ask(
                        BrowserRequest::Screenshot { session_id: self.session_id.clone() },
                    )
                }
            },
            ScreenshotInput::Reply(reply) => {
                let frame = match reply {
                    Reply::Document(document) => screenshot_frame(&document, stamp),
                    _ => None,
                };
                assert(before.carries(given, stamp, frame));
                return self.hand_on(frame);
            },
            ScreenshotInput::Sent(taken) => {
                if taken {
                    self.phase = ScreenshotPhase::Waiting;
                    ScreenshotNext::AwaitTick
                } else {
                    self.phase = ScreenshotPhase::Finished;
                    ScreenshotNext::Finish
                }
            },
        };
        assert(before.carries(given, stamp, None));
        next
    }
}

} // verus!
