//! The switches that a running recording is steered by.
use vstd::prelude::*;

verus! {

/// How often a caller that waits for the capture to stop or to go on looks again, in
/// milliseconds.
pub const CAPTURE_POLL_MS: u64 = 25;

/// The switches of a recording. The caller sets them; the capture obeys them and reports
/// back in `capture_suspended` and `screencast_session_id`.
pub struct RecordingControl {
    pub paused: bool,
    pub restart_requested: bool,
    pub capture_should_run: bool,
    pub capture_suspended: bool,
    pub screencast_session_id: Option<String>,
    pub requested_target_id: Option<String>,
}

/// What a caller does that waits for the capture to reach a state.
#[derive(PartialEq, Eq, Structural, Clone, Copy)]
pub enum CapturePoll {
    /// Wait for so many milliseconds and look again.
    Sleep(u64),
    /// The wait is over; the value says whether the state was reached.
    Settled(bool),
}

impl Default for RecordingControl {
    /// A recording that runs, with nothing asked of it yet.
    fn default() -> (control: Self)
        ensures
            control == (RecordingControl {
                paused: false,
                restart_requested: false,
                capture_should_run: true,
                capture_suspended: false,
                screencast_session_id: None,
                requested_target_id: None,
            }),
    {
        RecordingControl {
            paused: false,
            restart_requested: false,
            capture_should_run: true,
            capture_suspended: false,
            screencast_session_id: None,
            requested_target_id: None,
        }
    }
}

/// What a caller does next that waits until `reached` holds and gives up at a deadline.
pub open spec fn poll_until(reached: bool, deadline_passed: bool) -> CapturePoll {
    if reached || deadline_passed {
        CapturePoll::Settled(reached)
    } else {
        CapturePoll::Sleep(CAPTURE_POLL_MS)
    }
}

impl RecordingControl {
    /// The switches once a restart is asked for.
    pub open spec fn restart_asked(self) -> RecordingControl {
        RecordingControl { restart_requested: true, ..self }
    }

    /// Whether a restart is asked for, and the switches once that is taken.
    pub open spec fn restart_taken(self) -> (bool, RecordingControl) {
        (self.restart_requested, RecordingControl { restart_requested: false, ..self })
    }

    /// The switches once another target is asked for.
    pub open spec fn target_asked(self, target_id: String) -> RecordingControl {
        RecordingControl { requested_target_id: Some(target_id), ..self }
    }

    /// The target that is asked for, and the switches once that is taken.
    pub open spec fn target_taken(self) -> (Option<String>, RecordingControl) {
        (self.requested_target_id, RecordingControl { requested_target_id: None, ..self })
    }

    pub fn pause(&mut self)
        ensures
            *final(self) == (RecordingControl { paused: true, ..*old(self) }),
    {
        self.paused = true;
    }

    pub fn resume(&mut self)
        ensures
            *final(self) == (RecordingControl { paused: false, ..*old(self) }),
    {
        self.paused = false;
    }

    pub fn is_paused(&self) -> (paused: bool)
        ensures
            paused == self.paused,
    {
        self.paused
    }

    pub fn request_restart(&mut self)
        ensures
            *final(self) == old(self).restart_asked(),
    {
        self.restart_requested = true;
    }

    /// Tells whether a restart was requested, and forgets the request.
    pub fn take_restart_requested(&mut self) -> (requested: bool)
        ensures
            (requested, *final(self)) == old(self).restart_taken(),
    {
        let requested = self.restart_requested;
        self.restart_requested = false;
        requested
    }

    /// Asks the capture to stop. The caller wakes the capture, then follows
    /// `poll_suspended`.
    pub fn suspend_capture(&mut self)
        ensures
            *final(self) == (RecordingControl { capture_should_run: false, ..*old(self) }),
    {
        self.capture_should_run = false;
    }

    /// Asks the capture to go on. The caller wakes the capture, then follows `poll_resumed`.
    pub fn resume_capture(&mut self)
        ensures
            *final(self) == (RecordingControl { capture_should_run: true, ..*old(self) }),
    {
        self.capture_should_run = true;
    }

    /// One look of a caller that waits for the capture to have stopped.
    pub fn poll_suspended(&self, deadline_passed: bool) -> (poll: CapturePoll)
        ensures
            poll == poll_until(self.capture_suspended, deadline_passed),
    {
        if self.capture_suspended || deadline_passed {
            CapturePoll::Settled(self.capture_suspended)
        } else {
            CapturePoll::Sleep(CAPTURE_POLL_MS)
        }
    }

    /// One look of a caller that waits for the capture to have gone on.
    pub fn poll_resumed(&self, deadline_passed: bool) -> (poll: CapturePoll)
        ensures
            poll == poll_until(!self.capture_suspended, deadline_passed),
    {
        if !self.capture_suspended || deadline_passed {
            CapturePoll::Settled(!self.capture_suspended)
        } else {
            CapturePoll::Sleep(CAPTURE_POLL_MS)
        }
    }

    pub fn capture_should_run(&self) -> (should_run: bool)
        ensures
            should_run == self.capture_should_run,
    {
        self.capture_should_run
    }

    pub fn set_capture_suspended(&mut self, suspended: bool)
        ensures
            *final(self) == (RecordingControl { capture_suspended: suspended, ..*old(self) }),
    {
        self.capture_suspended = suspended;
    }

    pub fn is_capture_suspended(&self) -> (suspended: bool)
        ensures
            suspended == self.capture_suspended,
    {
        self.capture_suspended
    }

    /// Asks the capture to follow another target. The caller wakes the capture.
    pub fn switch_capture_target(&mut self, target_id: String)
        ensures
            *final(self) == old(self).target_asked(target_id),
    {
        self.requested_target_id = Some(target_id);
    }

    /// The target that was asked for last, if it was not taken yet.
    pub fn take_requested_target_id(&mut self) -> (target_id: Option<String>)
        ensures
            (target_id, *final(self)) == old(self).target_taken(),
    {
        self.requested_target_id.take()
    }

    pub fn set_screencast_session_id(&mut self, session_id: String)
        ensures
            *final(self) == (RecordingControl {
                screencast_session_id: Some(session_id),
                ..*old(self)
            }),
    {
        self.screencast_session_id = Some(session_id);
    }

    pub fn clear_screencast_session_id(&mut self)
        ensures
            *final(self) == (RecordingControl { screencast_session_id: None, ..*old(self) }),
    {
        self.screencast_session_id = None;
    }

    pub fn screencast_session_id(&self) -> (session_id: Option<String>)
        ensures
            session_id == self.screencast_session_id,
    {
        self.screencast_session_id.clone()
    }
}

/// What was asked of a recording is handed out once: a request for a restart or for another
/// target is there when it is taken first, and gone when it is taken again.
pub proof fn law_requests_are_taken_once(control: RecordingControl, target_id: String)
    ensures
        control.restart_asked().restart_taken().0,
        !control.restart_asked().restart_taken().1.restart_taken().0,
        control.target_asked(target_id).target_taken().0 == Some(target_id),
        control.target_asked(target_id).target_taken().1.target_taken().0 is None,
{
}

/// Of two targets that are asked for, the later one is followed.
pub proof fn law_latest_target_wins(
    control: RecordingControl,
    earlier: String,
    later: String,
)
    ensures
        control.target_asked(earlier).target_asked(later).target_taken().0 == Some(later),
{
}

} // verus!
