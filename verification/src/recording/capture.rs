//! Following the screencast of a target, across targets that come and go.
use crate::cdp::CdpEvent;
use crate::json::{self, json_of, JsonView};
use crate::recording::attach::{
    answers, replacement_attempt, request_of, wanted_attempt, Attach, AttachOutcome, AttachStep,
    ReplacementTarget, Reply,
};
use crate::recording::commands::BrowserRequest;
use crate::recording::control::RecordingControl;
use crate::recording::frames::{
    is_screencast_frame, is_screenshot_frame, screencast_frame, screenshot_frame, ScreencastFrame,
    Stamp,
};
use crate::recording::targets::{
    is_main_frame_navigation_ready, navigation_ready, should_recover_recording_target, target_lost,
};
use crate::text::{as_slice, same_text, text_of};
use vstd::prelude::*;

verus! {

/// How long a session that was let go of is given to settle, in milliseconds.
pub const SUSPEND_SETTLE_MS: u64 = 150;

/// How long the capture waits before it tries again to open a session, in milliseconds.
pub const ATTACH_RETRY_MS: u64 = 250;

/// How long a page that has loaded is given to draw, in milliseconds.
pub const RELOAD_SETTLE_MS: u64 = 750;

/// What the capture waits for.
pub enum CapturePhase {
    /// The events of the browser to be listened to.
    Subscribing,
    /// The first start of the screencast.
    Starting,
    /// The end of the screencast of a session that is given up for another target.
    SwitchingStop { session_id: String, target_id: String },
    /// The end of that session.
    SwitchingDetach { target_id: String },
    /// The end of the screencast of a session that is given up because the capture is to stop.
    SuspendingStop { session_id: String },
    /// The end of that session.
    SuspendingDetach { session_id: String },
    /// The end of that session, asked for once more.
    SuspendingAbandon,
    /// The browser to settle.
    SuspendingSettle,
    /// A change of the switches; events are dropped.
    Suspended,
    /// A new session.
    Attaching(Attach),
    /// A while, before a new session is tried again.
    BackingOff,
    /// An event of the session.
    Watching,
    /// A session on another target, because the recorded one is gone.
    Recovering(Attach),
    /// A page that has loaded to draw.
    ReloadSettle,
    /// The end of the screencast of that page.
    ReloadStop,
    /// Its start.
    ReloadStart,
    /// A screenshot of that page.
    ReloadShot,
    /// The recording to take an image.
    Sending,
    Finished,
}

/// The capture of a screencast.
pub struct CaptureLoop {
    pub phase: CapturePhase,
    pub session_id: Option<String>,
    pub target_id: Option<String>,
    pub browser_context_id: Option<String>,
}

/// What happened to the capture.
pub enum CaptureInput {
    /// The events of the browser are listened to from now on.
    Subscribed,
    /// The answer to a request.
    Reply(Reply),
    /// The time that was asked for has passed.
    Elapsed,
    /// The switches were changed.
    Changed,
    /// The browser sent an event. Where it gives the event a time (see `frame_time`),
    /// `own_millis` is that time in whole milliseconds.
    Event { event: CdpEvent, own_millis: u64 },
    /// Events were lost.
    Lagged,
    /// There will be no more events.
    Closed,
    /// An image was taken by the recording, or was not because the recording is over.
    Sent(bool),
}

/// What the capture wants.
pub enum CaptureNext {
    /// Listen to the events of the browser.
    Subscribe,
    /// Ask the browser, and hand in the answer.
    Ask(BrowserRequest),
    /// Wait for so many milliseconds.
    Sleep(u64),
    /// Wait for a change of the switches or for an event.
    AwaitChangeOrEvent,
    /// Wait for a change of the switches, at most so many milliseconds.
    AwaitChange(u64),
    /// Show the image to the viewers and hand it to the recording.
    Emit(ScreencastFrame),
    /// The capture is over.
    Finish,
}

/// What the capture wants, and what it wants asked on the side first, without waiting.
pub struct CaptureAction {
    pub background: Option<BrowserRequest>,
    pub next: CaptureNext,
}

/// Where the capture stands: itself, the switches, and what it wants.
pub struct CaptureState {
    pub capture: CaptureLoop,
    pub control: RecordingControl,
    pub next: CaptureNext,
}

/// `input` is something that the capture waits for in `phase`.
pub open spec fn awaits(phase: CapturePhase, input: CaptureInput) -> bool {
    match phase {
        CapturePhase::Subscribing => input is Subscribed,
        CapturePhase::Starting | CapturePhase::SwitchingStop { .. }
        | CapturePhase::SwitchingDetach { .. } | CapturePhase::SuspendingStop { .. }
        | CapturePhase::SuspendingDetach { .. } | CapturePhase::SuspendingAbandon
        | CapturePhase::ReloadStop | CapturePhase::ReloadStart | CapturePhase::ReloadShot => {
            input matches CaptureInput::Reply(reply) && (reply is Document || reply is Failed)
        },
        CapturePhase::SuspendingSettle | CapturePhase::ReloadSettle => input is Elapsed,
        CapturePhase::Suspended | CapturePhase::Watching => input is Changed || input is Event
            || input is Lagged || input is Closed,
        CapturePhase::Attaching(attempt) | CapturePhase::Recovering(attempt) => input
            matches CaptureInput::Reply(reply) && answers(attempt.phase, reply),
        CapturePhase::BackingOff => input is Changed || input is Elapsed,
        CapturePhase::Sending => input is Sent,
        CapturePhase::Finished => false,
    }
}

/// The request that acknowledges an image of the screencast, where the browser numbers it.
pub open spec fn acknowledgement(event: CdpEvent, active: String) -> Option<BrowserRequest> {
    match event.document().member("sessionId"@) {
        Some(JsonView::Int(n)) => if i64::MIN <= n <= i64::MAX {
            Some(
                BrowserRequest::Acknowledge {
                    session_id: match event.session_id {
                        Some(session_id) => session_id,
                        None => active,
                    },
                    frame_session: n as i64,
                },
            )
        } else {
            None
        },
        _ => None,
    }
}

impl CaptureLoop {
    /// A session is there in exactly those phases that work with one, but for the end, which
    /// may come in any.
    pub open spec fn well_formed(self) -> bool {
        match self.phase {
            CapturePhase::Subscribing | CapturePhase::Starting | CapturePhase::Watching
            | CapturePhase::Recovering(_) | CapturePhase::ReloadSettle | CapturePhase::ReloadStop
            | CapturePhase::ReloadStart | CapturePhase::ReloadShot
            | CapturePhase::Sending => self.session_id is Some,
            CapturePhase::Finished => true,
            _ => self.session_id is None,
        }
    }

    /// The capture goes to `phase` and wants `next`.
    pub open spec fn at(
        self,
        phase: CapturePhase,
        control: RecordingControl,
        next: CaptureNext,
    ) -> CaptureState {
        CaptureState { capture: CaptureLoop { phase, ..self }, control, next }
    }

    /// With a session the capture watches its events; without one it opens one.
    pub open spec fn session_sought(self, control: RecordingControl) -> CaptureState {
        match self.session_id {
            Some(_) => self.at(CapturePhase::Watching, control, CaptureNext::AwaitChangeOrEvent),
            None => {
                let attempt = wanted_attempt(
                    self.target_id,
                    self.target_id,
                    self.browser_context_id,
                );
                self.at(
                    CapturePhase::Attaching(attempt),
                    control,
                    CaptureNext::Ask(request_of(attempt.phase)),
                )
            },
        }
    }

    /// A capture that is to stop gives up its session and reports that it has none.
    pub open spec fn switches_obeyed(self, control: RecordingControl) -> CaptureState {
        if control.capture_should_run {
            self.session_sought(control)
        } else {
            match self.session_id {
                Some(session_id) => (CaptureLoop { session_id: None, ..self }).at(
                    CapturePhase::SuspendingStop { session_id },
                    RecordingControl { screencast_session_id: None, ..control },
                    CaptureNext::Ask(BrowserRequest::SuspendScreencast { session_id }),
                ),
                None => self.at(
                    CapturePhase::Suspended,
                    RecordingControl { capture_suspended: true, ..control },
                    CaptureNext::AwaitChangeOrEvent,
                ),
            }
        }
    }

    /// The capture follows `target_id` from now on.
    pub open spec fn retargeted(self, control: RecordingControl, target_id: String) -> CaptureState {
        (CaptureLoop { target_id: Some(target_id), ..self }).switches_obeyed(
            RecordingControl { capture_suspended: true, ..control },
        )
    }

    /// What the capture does when nothing is pending: it takes a request for another target,
    /// for which it gives up its session, and obeys the switches.
    pub open spec fn idle(self, control: RecordingControl) -> CaptureState {
        let taken = RecordingControl { requested_target_id: None, ..control };
        match control.requested_target_id {
            Some(target_id) => if text_of(self.target_id) == Some(target_id@) {
                self.switches_obeyed(taken)
            } else {
                match self.session_id {
                    Some(session_id) => (CaptureLoop { session_id: None, ..self }).at(
                        CapturePhase::SwitchingStop { session_id, target_id },
                        RecordingControl { screencast_session_id: None, ..taken },
                        CaptureNext::Ask(BrowserRequest::AbandonScreencast { session_id }),
                    ),
                    None => self.retargeted(taken, target_id),
                }
            },
            None => self.switches_obeyed(taken),
        }
    }

    /// The capture is over.
    pub open spec fn over(self, control: RecordingControl) -> CaptureState {
        self.at(CapturePhase::Finished, control, CaptureNext::Finish)
    }

    /// The capture holds the session that was opened, and says so.
    pub open spec fn holding(self, opened: ReplacementTarget) -> CaptureLoop {
        CaptureLoop {
            session_id: Some(opened.session_id),
            target_id: Some(opened.target_id),
            ..self
        }
    }

    /// An image is handed on, where there is one.
    pub open spec fn handed_on(
        self,
        control: RecordingControl,
        frame: Option<ScreencastFrame>,
    ) -> CaptureState {
        match frame {
            Some(frame) => self.at(CapturePhase::Sending, control, CaptureNext::Emit(frame)),
            None => self.idle(control),
        }
    }

    /// What an event of the browser does to a capture that watches the session `active`.
    /// `frame` is the image that the event carries, if it carries one.
    pub open spec fn watched(
        self,
        control: RecordingControl,
        event: CdpEvent,
        active: String,
        frame: Option<ScreencastFrame>,
    ) -> CaptureState {
        if target_lost(event, active@, text_of(self.target_id)) {
            let attempt = replacement_attempt(self.target_id, self.browser_context_id);
            self.at(
                CapturePhase::Recovering(attempt),
                control,
                CaptureNext::Ask(request_of(attempt.phase)),
            )
        } else if is_foreign(event, active) {
            self.idle(control)
        } else if page_shown(event) {
            self.at(CapturePhase::ReloadSettle, control, CaptureNext::Sleep(RELOAD_SETTLE_MS))
        } else if event.method@ != "Page.screencastFrame"@ {
            self.idle(control)
        } else {
            self.handed_on(control, frame)
        }
    }

    /// What an input does to the capture. `frame` is the image that the input carries, if it
    /// carries one.
    pub open spec fn stepped(
        self,
        control: RecordingControl,
        input: CaptureInput,
        frame: Option<ScreencastFrame>,
    ) -> CaptureState {
        match self.phase {
            CapturePhase::Subscribing => self.at(
                CapturePhase::Starting,
                RecordingControl { capture_suspended: false, ..control },
                CaptureNext::Ask(BrowserRequest::StartScreencast { session_id: self.session_id->0 }),
            ),
            CapturePhase::Starting | CapturePhase::BackingOff => self.idle(control),
            CapturePhase::SwitchingStop { session_id, target_id } => self.at(
                CapturePhase::SwitchingDetach { target_id },
                control,
                CaptureNext::Ask(BrowserRequest::AbandonSession { session_id }),
            ),
            CapturePhase::SwitchingDetach { target_id } => self.retargeted(control, target_id),
            CapturePhase::SuspendingStop { session_id } => self.at(
                CapturePhase::SuspendingDetach { session_id },
                control,
                CaptureNext::Ask(BrowserRequest::Detach { session_id }),
            ),
            CapturePhase::SuspendingDetach { session_id } => if input
                matches CaptureInput::Reply(reply) && reply is Failed {
                self.at(
                    CapturePhase::SuspendingAbandon,
                    control,
                    CaptureNext::Ask(BrowserRequest::AbandonSession { session_id }),
                )
            } else {
                self.at(
                    CapturePhase::SuspendingSettle,
                    control,
                    CaptureNext::Sleep(SUSPEND_SETTLE_MS),
                )
            },
            CapturePhase::SuspendingAbandon => self.at(
                CapturePhase::SuspendingSettle,
                control,
                CaptureNext::Sleep(SUSPEND_SETTLE_MS),
            ),
            CapturePhase::SuspendingSettle => self.at(
                CapturePhase::Suspended,
                RecordingControl { capture_suspended: true, ..control },
                CaptureNext::AwaitChangeOrEvent,
            ),
            CapturePhase::Suspended => if input is Closed {
                self.over(control)
            } else {
                self.idle(control)
            },
            CapturePhase::Attaching(attempt) => match attempt.outcome(input->Reply_0) {
                AttachOutcome::Ask(next) => self.at(
                    CapturePhase::Attaching(next),
                    control,
                    CaptureNext::Ask(request_of(next.phase)),
                ),
                AttachOutcome::Opened(opened) => self.holding(opened).at(
                    CapturePhase::Watching,
                    RecordingControl {
                        screencast_session_id: Some(opened.session_id),
                        capture_suspended: false,
                        ..control
                    },
                    CaptureNext::AwaitChangeOrEvent,
                ),
                AttachOutcome::Failed => self.at(
                    CapturePhase::BackingOff,
                    RecordingControl { capture_suspended: true, ..control },
                    CaptureNext::AwaitChange(ATTACH_RETRY_MS),
                ),
            },
            CapturePhase::Watching => match input {
                CaptureInput::Closed => self.over(control),
                CaptureInput::Event { event, .. } => self.watched(
                    control,
                    event,
                    self.session_id->0,
                    frame,
                ),
                _ => self.idle(control),
            },
            CapturePhase::Recovering(attempt) => match attempt.outcome(input->Reply_0) {
                AttachOutcome::Ask(next) => self.at(
                    CapturePhase::Recovering(next),
                    control,
                    CaptureNext::Ask(request_of(next.phase)),
                ),
                AttachOutcome::Opened(opened) => self.holding(opened).idle(
                    RecordingControl {
                        screencast_session_id: Some(opened.session_id),
                        capture_suspended: false,
                        ..control
                    },
                ),
                AttachOutcome::Failed => self.idle(control),
            },
            CapturePhase::ReloadSettle => self.at(
                CapturePhase::ReloadStop,
                control,
                CaptureNext::Ask(BrowserRequest::StopScreencast { session_id: self.session_id->0 }),
            ),
            CapturePhase::ReloadStop => self.at(
                CapturePhase::ReloadStart,
                control,
                CaptureNext::Ask(BrowserRequest::StartScreencast { session_id: self.session_id->0 }),
            ),
            CapturePhase::ReloadStart => self.at(
                CapturePhase::ReloadShot,
                control,
                CaptureNext::Ask(BrowserRequest::Screenshot { session_id: self.session_id->0 }),
            ),
            CapturePhase::ReloadShot => self.handed_on(control, frame),
            CapturePhase::Sending => if input == CaptureInput::Sent(true) {
                self.idle(control)
            } else {
                self.over(control)
            },
            CapturePhase::Finished => self.over(control),
        }
    }

    /// What the capture wants asked on the side: that an image of its screencast is
    /// acknowledged.
    pub open spec fn on_the_side(self, input: CaptureInput) -> Option<BrowserRequest> {
        match (self.phase, input) {
            (CapturePhase::Watching, CaptureInput::Event { event, .. }) => if is_image_event(
                event,
                self.session_id->0,
                self.target_id,
            ) {
                acknowledgement(event, self.session_id->0)
            } else {
                None
            },
            _ => None,
        }
    }

    /// `frame` is the image that `input` carries for the capture, if it carries one: that of a
    /// screencast with the browser's own time, where it gives one, else with the time `now`.
    pub open spec fn carries(
        self,
        input: CaptureInput,
        now: Stamp,
        frame: Option<ScreencastFrame>,
    ) -> bool {
        match (self.phase, input) {
            (CapturePhase::Watching, CaptureInput::Event { event, own_millis }) => is_image_event(
                event,
                self.session_id->0,
                self.target_id,
            ) ==> is_screencast_frame(frame, event.document(), own_millis, now),
            (CapturePhase::ReloadShot, CaptureInput::Reply(Reply::Document(document))) =>
                is_screenshot_frame(frame, json_of(document), now),
            _ => frame is None,
        }
    }
}

/// The event comes from another session.
pub open spec fn is_foreign(event: CdpEvent, active: String) -> bool {
    event.session_id is Some && text_of(event.session_id) != Some(active@)
}

/// The event says that the page shows something new.
pub open spec fn page_shown(event: CdpEvent) -> bool {
    navigation_ready(event) || event.method@ == "Page.frameStoppedLoading"@
}

/// The event is an image of the screencast of the session `active`.
pub open spec fn is_image_event(event: CdpEvent, active: String, target_id: Option<String>) -> bool {
    &&& !target_lost(event, active@, text_of(target_id))
    &&& !is_foreign(event, active)
    &&& !page_shown(event)
    &&& event.method@ == "Page.screencastFrame"@
}

/// A capture as it begins, and what it wants first: to listen to the events. An idle page can
/// send its only image as soon as the screencast starts.
pub open spec fn begun_capture(
    session_id: String,
    target_id: Option<String>,
    browser_context_id: Option<String>,
) -> (CaptureLoop, CaptureNext) {
    (
        CaptureLoop {
            phase: CapturePhase::Subscribing,
            session_id: Some(session_id),
            target_id,
            browser_context_id,
        },
        CaptureNext::Subscribe,
    )
}

impl CaptureLoop {
    /// Begins to capture the screencast of a session.
    pub fn start(
        session_id: String,
        target_id: Option<String>,
        browser_context_id: Option<String>,
    ) -> (begun: (CaptureLoop, CaptureNext))
        ensures
            begun == begun_capture(session_id, target_id, browser_context_id),
            begun.0.well_formed(),
    {
        (
            CaptureLoop {
                phase: CapturePhase::Subscribing,
                session_id: Some(session_id),
                target_id,
                browser_context_id,
            },
            CaptureNext::Subscribe,
        )
    }

    fn seek_session(&mut self, control: &RecordingControl) -> (next: CaptureNext)
        ensures
            old(self).session_sought(*control) == (CaptureState {
                capture: *final(self),
                control: *control,
                next,
            }),
    {
        if self.session_id.is_some() {
            self.phase = CapturePhase::Watching;
            CaptureNext::AwaitChangeOrEvent
        } else {
            let (attempt, request) = Attach::attach_and_start_recording_session(
                self.target_id.clone(),
                self.target_id.clone(),
                self.browser_context_id.clone(),
            );
            self.phase = CapturePhase::Attaching(attempt);
            CaptureNext::Ask(request)
        }
    }

    fn obey_switches(&mut self, control: &mut RecordingControl) -> (next: CaptureNext)
        ensures
            old(self).switches_obeyed(*old(control)) == (CaptureState {
                capture: *final(self),
                control: *final(control),
                next,
            }),
    {
        if control.capture_should_run() {
            return self.seek_session(control);
        }
        match self.session_id.take() {
            Some(session_id) => {
                control.clear_screencast_session_id();
                self.phase = CapturePhase::SuspendingStop { session_id: session_id.clone() };
                CaptureNext::Ask(BrowserRequest::SuspendScreencast { session_id })
            },
            None => {
                control.set_capture_suspended(true);
                self.phase = CapturePhase::Suspended;
                CaptureNext::AwaitChangeOrEvent
            },
        }
    }

    fn retarget(&mut self, control: &mut RecordingControl, target_id: String) -> (next:
        CaptureNext)
        ensures
            old(self).retargeted(*old(control), target_id) == (CaptureState {
                capture: *final(self),
                control: *final(control),
                next,
            }),
    {
        self.target_id = Some(target_id);
        control.set_capture_suspended(true);
        self.obey_switches(control)
    }

    fn go_on(&mut self, control: &mut RecordingControl) -> (next: CaptureNext)
        ensures
            old(self).idle(*old(control)) == (CaptureState {
                capture: *final(self),
                control: *final(control),
                next,
            }),
    {
        match control.take_requested_target_id() {
            Some(target_id) => {
                let followed = match &self.target_id {
                    Some(current) => same_text(current.as_str(), target_id.as_str()),
                    None => false,
                };
                if followed {
                    return self.obey_switches(control);
                }
                match self.session_id.take() {
                    Some(session_id) => {
                        control.clear_screencast_session_id();
                        self.phase = CapturePhase::SwitchingStop {
                            session_id: session_id.clone(),
                            target_id,
                        };
                        CaptureNext::Ask(BrowserRequest::AbandonScreencast { session_id })
                    },
                    None => self.retarget(control, target_id),
                }
            },
            None => self.obey_switches(control),
        }
    }

    fn hold(&mut self, control: &mut RecordingControl, opened: ReplacementTarget)
        ensures
            *final(self) == old(self).holding(opened),
            *final(control) == (RecordingControl {
                screencast_session_id: Some(opened.session_id),
                capture_suspended: false,
                ..*old(control)
            }),
    {
        control.set_screencast_session_id(opened.session_id.clone());
        control.set_capture_suspended(false);
        self.session_id = Some(opened.session_id);
        self.target_id = Some(opened.target_id);
    }

    /// Hands on an image, where there is one, and goes on where there is none.
    pub fn hand_on(
        &mut self,
        control: &mut RecordingControl,
        frame: Option<ScreencastFrame>,
    ) -> (next: CaptureNext)
        ensures
            old(self).handed_on(*old(control), frame) == (CaptureState {
                capture: *final(self),
                control: *final(control),
                next,
            }),
    {
        match frame {
            Some(frame) => {
                self.phase = CapturePhase::Sending;
                CaptureNext::Emit(frame)
            },
            None => self.go_on(control),
        }
    }

    /// Begins to open a session on the target that takes over from the recorded one.
    fn recover(&mut self) -> (next: CaptureNext)
        ensures
            ({
                let attempt = replacement_attempt(
                    old(self).target_id,
                    old(self).browser_context_id,
                );
                &&& *final(self) == (CaptureLoop {
                    phase: CapturePhase::Recovering(attempt),
                    ..*old(self)
                })
                &&& next == CaptureNext::Ask(request_of(attempt.phase))
            }),
    {
        let (attempt, request) = Attach::attach_to_replacement_target(
            self.target_id.clone(),
            self.browser_context_id.clone(),
        );
        self.phase = CapturePhase::Recovering(attempt);
        CaptureNext::Ask(request)
    }

    /// Acts on an event while the session `active` is watched.
    fn watch(
        &mut self,
        control: &mut RecordingControl,
        event: CdpEvent,
        own_millis: u64,
        active: String,
        now: Stamp,
    ) -> (action: CaptureAction)
        requires
            old(self).phase is Watching,
            old(self).session_id == Some(active),
        ensures
            exists|frame: Option<ScreencastFrame>|
                #[trigger] old(self).carries(
                    CaptureInput::Event { event, own_millis },
                    now,
                    frame,
                ) && old(self).watched(*old(control), event, active, frame) == (CaptureState {
                    capture: *final(self),
                    control: *final(control),
                    next: action.next,
                }),
            action.background == old(self).on_the_side(CaptureInput::Event { event, own_millis }),
    {
        let ghost before = *self;
        let ghost input = CaptureInput::Event { event, own_millis };
        let mut frame: Option<ScreencastFrame> = None;
        let mut background: Option<BrowserRequest> = None;
        let foreign = match &event.session_id {
            Some(session_id) => !same_text(session_id.as_str(), active.as_str()),
            None => false,
        };
        let shown = is_main_frame_navigation_ready(&event) || same_text(
            event.method.as_str(),
            "Page.frameStoppedLoading",
        );
        let next = if should_recover_recording_target(
            &event,
            active.as_str(),
            as_slice(&self.target_id),
        ) {
            assert(before.carries(input, now, None));
            self.recover()
        } else if foreign {
            assert(before.carries(input, now, None));
            self.go_on(control)
        } else if shown {
            assert(before.carries(input, now, None));
            self.phase = CapturePhase::ReloadSettle;
            CaptureNext::Sleep(RELOAD_SETTLE_MS)
        } else if !same_text(event.method.as_str(), "Page.screencastFrame") {
            assert(before.carries(input, now, None));
            self.go_on(control)
        } else {
            if let Some(number) = json::member(&event.params, "sessionId") {
                if let Some(frame_session) = json::as_i64(number) {
                    background = Some(
                        BrowserRequest::Acknowledge {
                            session_id: match &event.session_id {
                                Some(session_id) => session_id.clone(),
                                None => active,
                            },
                            frame_session,
                        },
                    );
                }
            }
            frame = screencast_frame(&event, own_millis, now);
            assert(before.carries(input, now, frame));
            self.hand_on(control, frame)
        };
        CaptureAction { background, next }
    }

    /// Takes what happened, and says what is wanted next.
    pub fn step(
        &mut self,
        control: &mut RecordingControl,
        input: CaptureInput,
        now: Stamp,
    ) -> (action: CaptureAction)
        requires
            old(self).well_formed(),
            awaits(old(self).phase, input),
        ensures
            exists|frame: Option<ScreencastFrame>|
                #[trigger] old(self).carries(input, now, frame) && old(self).stepped(
                    *old(control),
                    input,
                    frame,
                ) == (CaptureState {
                    capture: *final(self),
                    control: *final(control),
                    next: action.next,
                }),
            action.background == old(self).on_the_side(input),
            final(self).well_formed(),
    {
        let ghost before = *self;
        let ghost given = input;
        let ghost mut image: Option<ScreencastFrame> = None;
        let mut phase = CapturePhase::Finished;
        std::mem::swap(&mut phase, &mut self.phase);
        let next = match phase {
            CapturePhase::Subscribing => {
                control.set_capture_suspended(false);
                self.phase = CapturePhase::Starting;
                match self.session_id.clone() {
                    Some(session_id) => CaptureNext::Ask(
                        BrowserRequest::StartScreencast { session_id },
                    ),
                    None => vstd::pervasive::unreached(),
                }
            },
            CapturePhase::Starting | CapturePhase::BackingOff => self.go_on(control),
            CapturePhase::SwitchingStop { session_id, target_id } => {
                self.phase = CapturePhase::SwitchingDetach { target_id };
                CaptureNext::Ask(BrowserRequest::AbandonSession { session_id })
            },
            CapturePhase::SwitchingDetach { target_id } => self.retarget(control, target_id),
            CapturePhase::SuspendingStop { session_id } => {
                self.phase = CapturePhase::SuspendingDetach { session_id: session_id.clone() };
                CaptureNext::Ask(BrowserRequest::Detach { session_id })
            },
            CapturePhase::SuspendingDetach { session_id } => match input {
                CaptureInput::Reply(Reply::Failed(_)) => {
                    self.phase = CapturePhase::SuspendingAbandon;
                    CaptureNext::Ask(BrowserRequest::AbandonSession { session_id })
                },
                _ => {
                    self.phase = CapturePhase::SuspendingSettle;
                    CaptureNext::Sleep(SUSPEND_SETTLE_MS)
                },
            },
            CapturePhase::SuspendingAbandon => {
                self.phase = CapturePhase::SuspendingSettle;
                CaptureNext::Sleep(SUSPEND_SETTLE_MS)
            },
            CapturePhase::SuspendingSettle => {
                control.set_capture_suspended(true);
                self.phase = CapturePhase::Suspended;
                CaptureNext::AwaitChangeOrEvent
            },
            CapturePhase::Suspended => match input {
                CaptureInput::Closed => CaptureNext::Finish,
                _ => self.go_on(control),
            },
            CapturePhase::Attaching(mut attempt) => match input {
                CaptureInput::Reply(reply) => match attempt.reply(reply) {
                    AttachStep::Ask(request) => {
                        self.phase = CapturePhase::Attaching(attempt);
                        CaptureNext::Ask(request)
                    },
                    AttachStep::Opened(opened) => {
                        self.hold(control, opened);
                        self.phase = CapturePhase::Watching;
                        CaptureNext::AwaitChangeOrEvent
                    },
                    AttachStep::Failed(_) => {
                        control.set_capture_suspended(true);
                        self.phase = CapturePhase::BackingOff;
                        CaptureNext::AwaitChange(ATTACH_RETRY_MS)
                    },
                },
                _ => vstd::pervasive::unreached(),
            },
            CapturePhase::Watching => match input {
                CaptureInput::Closed => CaptureNext::Finish,
                CaptureInput::Event { event, own_millis } => {
                    self.phase = CapturePhase::Watching;
                    match self.session_id.clone() {
                        Some(active) => {
                            return self.watch(control, event, own_millis, active, now);
                        },
                        None => vstd::pervasive::unreached(),
                    }
                },
                _ => self.go_on(control),
            },
            CapturePhase::Recovering(mut attempt) => match input {
                CaptureInput::Reply(reply) => match attempt.reply(reply) {
                    AttachStep::Ask(request) => {
                        self.phase = CapturePhase::Recovering(attempt);
                        CaptureNext::Ask(request)
                    },
                    AttachStep::Opened(opened) => {
                        self.hold(control, opened);
                        self.go_on(control)
                    },
                    AttachStep::Failed(_) => self.go_on(control),
                },
                _ => vstd::pervasive::unreached(),
            },
            CapturePhase::ReloadSettle => {
                self.phase = CapturePhase::ReloadStop;
                match self.session_id.clone() {
                    Some(session_id) => CaptureNext::Ask(
                        BrowserRequest::StopScreencast { session_id },
                    ),
                    None => vstd::pervasive::unreached(),
                }
            },
            CapturePhase::ReloadStop => {
                self.phase = CapturePhase::ReloadStart;
                match self.session_id.clone() {
                    Some(session_id) => CaptureNext::Ask(
                        BrowserRequest::StartScreencast { session_id },
                    ),
                    None => vstd::pervasive::unreached(),
                }
            },
            CapturePhase::ReloadStart => {
                self.phase = CapturePhase::ReloadShot;
                match self.session_id.clone() {
                    Some(session_id) => CaptureNext::Ask(BrowserRequest::Screenshot { session_id }),
                    None => vstd::pervasive::unreached(),
                }
            },
            CapturePhase::ReloadShot => {
                let frame = match input {
                    CaptureInput::Reply(Reply::Document(document)) => screenshot_frame(
                        &document,
                        now,
                    ),
                    _ => None,
                };
                proof {
                    image = frame;
                }
                self.hand_on(control, frame)
            },
            CapturePhase::Sending => match input {
                CaptureInput::Sent(true) => self.go_on(control),
                _ => CaptureNext::Finish,
            },
            CapturePhase::Finished => CaptureNext::Finish,
        };
        assert(before.carries(given, now, image));
        CaptureAction { background: None, next }
    }
}

/// How many inputs a capture that gives up its session because it is to stop is from having
/// stopped.
pub open spec fn inputs_to_stop(phase: CapturePhase) -> Option<nat> {
    match phase {
        CapturePhase::SuspendingStop { .. } => Some(4),
        CapturePhase::SuspendingDetach { .. } => Some(3),
        CapturePhase::SuspendingAbandon => Some(2),
        CapturePhase::SuspendingSettle => Some(1),
        CapturePhase::Suspended => Some(0),
        _ => None,
    }
}

/// A capture listens to the events before it first starts the screencast, and a start that fails
/// does not end it: where it is to run and no other target is asked for, it then watches the
/// session that it was given, so that an image which the page sent at once is handed on.
pub proof fn law_capture_listens_before_it_starts(
    session_id: String,
    target_id: Option<String>,
    browser_context_id: Option<String>,
    control: RecordingControl,
    reply: Reply,
    later: RecordingControl,
    event: CdpEvent,
    own_millis: u64,
    frame: ScreencastFrame,
)
    requires
        reply is Document || reply is Failed,
        later.capture_should_run,
        later.requested_target_id is None,
        is_image_event(event, session_id, target_id),
    ensures
        ({
            let (begun, first) = begun_capture(session_id, target_id, browser_context_id);
            let listening = begun.stepped(control, CaptureInput::Subscribed, None);
            let started = listening.capture.stepped(later, CaptureInput::Reply(reply), None);
            let image = started.capture.stepped(
                later,
                CaptureInput::Event { event, own_millis },
                Some(frame),
            );
            &&& first is Subscribe
            &&& forall|input: CaptureInput| #[trigger]
                awaits(begun.phase, input) ==> input is Subscribed
            &&& listening.next == CaptureNext::Ask(BrowserRequest::StartScreencast { session_id })
            &&& !listening.control.capture_suspended
            &&& started.capture.phase is Watching
            &&& started.capture.session_id == Some(session_id)
            &&& started.next is AwaitChangeOrEvent
            &&& image.next == CaptureNext::Emit(frame)
        }),
{
}

/// A capture that is told to stop, and is not asked for another target at the same time, gives
/// up its session when it next looks.
pub proof fn law_capture_stops_when_told(capture: CaptureLoop, control: RecordingControl)
    requires
        !control.capture_should_run,
        control.requested_target_id is None,
    ensures
        ({
            let after = capture.idle(control);
            &&& inputs_to_stop(after.capture.phase) is Some
            &&& after.capture.session_id is None
            &&& capture.session_id is Some ==> after.control.screencast_session_id is None
            &&& after.capture.phase is Suspended ==> after.control.capture_suspended
        }),
{
}

/// Every input brings a capture that gives up its session nearer to having stopped, and one
/// that has stopped says so and holds no session.
pub proof fn law_stopping_capture_stops(
    capture: CaptureLoop,
    control: RecordingControl,
    input: CaptureInput,
)
    requires
        capture.well_formed(),
        awaits(capture.phase, input),
        inputs_to_stop(capture.phase) is Some,
        inputs_to_stop(capture.phase)->0 > 0,
    ensures
        ({
            let after = capture.stepped(control, input, None);
            &&& inputs_to_stop(after.capture.phase) is Some
            &&& inputs_to_stop(after.capture.phase)->0 < inputs_to_stop(capture.phase)->0
            &&& after.capture.session_id is None
            &&& after.capture.phase is Suspended ==> after.control.capture_suspended
        }),
{
}

/// A capture that has stopped and is told to go on opens a session on its target when it next
/// looks; and once the session is open, it holds and names that session and says that it goes
/// on.
pub proof fn law_capture_goes_on_when_told(
    capture: CaptureLoop,
    control: RecordingControl,
    attempt: Attach,
    reply: Reply,
    opened: ReplacementTarget,
)
    requires
        capture.phase is Suspended,
        capture.session_id is None,
        control.capture_should_run,
        control.requested_target_id is None,
        attempt.outcome(reply) == AttachOutcome::Opened(opened),
    ensures
        capture.stepped(control, CaptureInput::Changed, None).capture.phase
            == CapturePhase::Attaching(
            wanted_attempt(capture.target_id, capture.target_id, capture.browser_context_id),
        ),
        ({
            let attaching = CaptureLoop { phase: CapturePhase::Attaching(attempt), ..capture };
            let after = attaching.stepped(control, CaptureInput::Reply(reply), None);
            &&& after.capture.phase is Watching
            &&& after.capture.session_id == Some(opened.session_id)
            &&& after.control.screencast_session_id == Some(opened.session_id)
            &&& !after.control.capture_suspended
        }),
{
}

/// The session that the switches name is the one that the capture holds, whatever happens.
pub proof fn law_held_session_is_named(
    capture: CaptureLoop,
    control: RecordingControl,
    input: CaptureInput,
    frame: Option<ScreencastFrame>,
)
    requires
        capture.well_formed(),
        awaits(capture.phase, input),
        control.screencast_session_id == capture.session_id,
    ensures
        ({
            let after = capture.stepped(control, input, frame);
            &&& after.capture.well_formed()
            &&& after.control.screencast_session_id == after.capture.session_id
        }),
{
}

/// A capture that is asked to follow another target follows that one: it holds no session of
/// the target before, and the next session it seeks is on the target that was asked for.
pub proof fn law_requested_target_is_followed(
    capture: CaptureLoop,
    control: RecordingControl,
    target_id: String,
)
    requires
        control.requested_target_id == Some(target_id),
        text_of(capture.target_id) != Some(target_id@),
    ensures
        ({
            let after = capture.idle(control);
            &&& after.control.requested_target_id is None
            &&& after.capture.session_id is None
            &&& match capture.session_id {
                Some(session_id) => after.capture.phase == (CapturePhase::SwitchingStop {
                    session_id,
                    target_id,
                }),
                None => after.capture.target_id == Some(target_id),
            }
        }),
{
}

/// A capture that gives up its session for another target stops the screencast, lets go of the
/// session, and then follows the other target, whatever the browser answers.
pub proof fn law_switch_is_completed(
    capture: CaptureLoop,
    control: RecordingControl,
    stopped: CaptureInput,
    later: RecordingControl,
    detached: CaptureInput,
)
    requires
        capture.well_formed(),
        capture.phase is SwitchingStop,
        awaits(capture.phase, stopped),
        awaits(capture.stepped(control, stopped, None).capture.phase, detached),
    ensures
        ({
            let first = capture.stepped(control, stopped, None);
            let second = first.capture.stepped(later, detached, None);
            &&& first.next == CaptureNext::Ask(
                BrowserRequest::AbandonSession {
                    session_id: capture.phase->SwitchingStop_session_id,
                },
            )
            &&& second.capture.target_id == Some(capture.phase->SwitchingStop_target_id)
            &&& second.control.capture_suspended
            &&& second.capture.session_id is None
            &&& later.capture_should_run ==> second.capture.phase == CapturePhase::Attaching(
                wanted_attempt(
                    second.capture.target_id,
                    second.capture.target_id,
                    capture.browser_context_id,
                ),
            )
        }),
{
}

/// Images are handed on only while the capture holds a session, and only for the session that
/// it holds: an event of another session never gives one.
pub proof fn law_images_are_of_the_held_session(
    capture: CaptureLoop,
    control: RecordingControl,
    input: CaptureInput,
    frame: Option<ScreencastFrame>,
)
    requires
        capture.well_formed(),
        awaits(capture.phase, input),
        capture.stepped(control, input, frame).next is Emit,
    ensures
        capture.session_id is Some,
        input matches CaptureInput::Event { event, .. } ==> (event.session_id is None || text_of(
            event.session_id,
        ) == text_of(capture.session_id)),
        !(input is Event) ==> capture.phase is ReloadShot,
{
}

} // verus!
