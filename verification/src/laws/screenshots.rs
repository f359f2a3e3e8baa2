//! What a collector of screenshots does.
use crate::json::json_of;
use crate::laws::frames::{is_image, law_images_are_what_is_sent};
use crate::recording::attach::Reply;
use crate::recording::commands::BrowserRequest;
use crate::recording::frames::{ScreencastFrame, Stamp};
use crate::recording::screenshots::{
    awaited, ScreenshotInput, ScreenshotLoop, ScreenshotNext, ScreenshotPhase,
};
use vstd::prelude::*;

verus! {

/// Each time it is due, and only while the recording is not paused, a screenshot is taken in the
/// session of the collector. One that has an image is handed on; with one that has none, or that
/// failed, the collector waits for the next time. It ends exactly when an image was not taken.
pub proof fn law_screenshots_are_taken_and_handed_on(
    shots: ScreenshotLoop,
    reply: Reply,
    frame: ScreencastFrame,
    taken: bool,
)
    ensures
        ({
            let paused = shots.stepped(ScreenshotInput::Tick { paused: true }, None);
            let due = shots.stepped(ScreenshotInput::Tick { paused: false }, None);
            let with = shots.stepped(ScreenshotInput::Reply(reply), Some(frame));
            let without = shots.stepped(ScreenshotInput::Reply(reply), None);
            let sent = shots.stepped(ScreenshotInput::Sent(taken), None);
            &&& paused == (ScreenshotPhase::Waiting, ScreenshotNext::AwaitTick)
            &&& due.0 is Shooting
            &&& due.1 == ScreenshotNext::Ask(
                BrowserRequest::Screenshot { session_id: shots.session_id },
            )
            &&& with == (ScreenshotPhase::Sending, ScreenshotNext::Emit(frame))
            &&& without == (ScreenshotPhase::Waiting, ScreenshotNext::AwaitTick)
            &&& taken ==> sent == (ScreenshotPhase::Waiting, ScreenshotNext::AwaitTick)
            &&& !taken ==> sent == (ScreenshotPhase::Finished, ScreenshotNext::Finish)
        }),
        awaited(ScreenshotPhase::Waiting, ScreenshotInput::Tick { paused: taken }),
        reply is Document || reply is Failed ==> awaited(
            ScreenshotPhase::Shooting,
            ScreenshotInput::Reply(reply),
        ),
        awaited(ScreenshotPhase::Sending, ScreenshotInput::Sent(taken)),
        !awaited(ScreenshotPhase::Finished, ScreenshotInput::Tick { paused: taken }),
        !awaited(ScreenshotPhase::Finished, ScreenshotInput::Reply(reply)),
        !awaited(ScreenshotPhase::Finished, ScreenshotInput::Sent(taken)),
{
}

/// The image that is handed on is the one that the browser's reply carries.
pub proof fn law_screenshot_is_the_replys(
    shots: ScreenshotLoop,
    document: serde_json::Value,
    why: String,
    now: Stamp,
    frame: Option<ScreencastFrame>,
)
    ensures
        shots.carries(ScreenshotInput::Reply(Reply::Document(document)), now, frame) ==> is_image(
            frame,
            json_of(document),
            None,
            now.millis,
            json_of(now.secs),
        ),
        shots.carries(ScreenshotInput::Reply(Reply::Failed(why)), now, frame) ==> frame is None,
{
    law_images_are_what_is_sent(frame, json_of(document), 0, now);
}

} // verus!
