//! What is asked of a running recording.
use crate::recording::control::RecordingControl;
use vstd::prelude::*;

verus! {

/// To ask for a restart or for another target sets that request and no other switch; the target
/// that was asked for is the one that is noted.
pub proof fn law_request_sets_only_itself(control: RecordingControl, target_id: String)
    ensures
        ({
            let after = control.restart_asked();
            &&& after.restart_requested
            &&& after.paused == control.paused
            &&& after.capture_should_run == control.capture_should_run
            &&& after.capture_suspended == control.capture_suspended
            &&& after.screencast_session_id == control.screencast_session_id
            &&& after.requested_target_id == control.requested_target_id
        }),
        ({
            let after = control.target_asked(target_id);
            &&& after.requested_target_id == Some(target_id)
            &&& after.paused == control.paused
            &&& after.restart_requested == control.restart_requested
            &&& after.capture_should_run == control.capture_should_run
            &&& after.capture_suspended == control.capture_suspended
            &&& after.screencast_session_id == control.screencast_session_id
        }),
{
}

/// A request that is taken is handed out as it was noted, and is gone afterwards; no other switch
/// moves. Where nothing was asked for, nothing is handed out.
pub proof fn law_taken_request_is_gone(control: RecordingControl)
    ensures
        ({
            let (asked, after) = control.restart_taken();
            &&& asked == control.restart_requested
            &&& !after.restart_requested
            &&& after.paused == control.paused
            &&& after.capture_should_run == control.capture_should_run
            &&& after.capture_suspended == control.capture_suspended
            &&& after.screencast_session_id == control.screencast_session_id
            &&& after.requested_target_id == control.requested_target_id
        }),
        ({
            let (target_id, after) = control.target_taken();
            &&& target_id == control.requested_target_id
            &&& after.requested_target_id is None
            &&& after.paused == control.paused
            &&& after.restart_requested == control.restart_requested
            &&& after.capture_should_run == control.capture_should_run
            &&& after.capture_suspended == control.capture_suspended
            &&& after.screencast_session_id == control.screencast_session_id
        }),
{
}

} // verus!
