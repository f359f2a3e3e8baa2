//! The commands that start and stop a screencast and keep it going.
use crate::cdp::{CdpCommand, Delivery};
use crate::json::{self, JsonView};
use crate::text::{slice_of, text_of};
use vstd::prelude::*;

verus! {

/// How long a screencast is given to start or to stop, in milliseconds.
pub const SCREENCAST_COMMAND_MS: u64 = 2000;

/// The parameters that start a screencast of every image.
pub open spec fn start_params(
    format: Seq<char>,
    quality: int,
    max_width: int,
    max_height: int,
) -> JsonView {
    JsonView::Object(
        map!["format"@ => JsonView::Str(format),
            "quality"@ => JsonView::Int(quality),
            "maxWidth"@ => JsonView::Int(max_width),
            "maxHeight"@ => JsonView::Int(max_height),
            "everyNthFrame"@ => JsonView::Int(1)],
    )
}

/// The parameters that acknowledge an image.
pub open spec fn ack_params(screencast_session_id: i64) -> JsonView {
    JsonView::Object(map!["sessionId"@ => JsonView::Int(screencast_session_id as int)])
}

/// An optional slice as an optional string.
fn owned(text: Option<&str>) -> (owned: Option<String>)
    ensures
        text_of(owned) == slice_of(text),
{
    match text {
        Some(text) => Some(text.to_owned()),
        None => None,
    }
}

fn start_command(
    session_id: Option<&str>,
    format: &str,
    quality: i64,
    max_width: i64,
    max_height: i64,
) -> (command: CdpCommand)
    ensures
        command.is(
            "Page.startScreencast"@,
            Some(start_params(format@, quality as int, max_width as int, max_height as int)),
            slice_of(session_id),
            Delivery::Within(SCREENCAST_COMMAND_MS),
        ),
{
    let mut params = json::new_object();
    json::insert(&mut params, "format", json::from_text(format));
    json::insert(&mut params, "quality", json::from_i64(quality));
    json::insert(&mut params, "maxWidth", json::from_i64(max_width));
    json::insert(&mut params, "maxHeight", json::from_i64(max_height));
    json::insert(&mut params, "everyNthFrame", json::from_i64(1));
    CdpCommand {
        method: "Page.startScreencast".to_owned(),
        params: Some(params),
        session_id: owned(session_id),
        delivery: Delivery::Within(SCREENCAST_COMMAND_MS),
    }
}

/// Starts a screencast of a session with images of the given kind and greatest size.
pub fn start_screencast(
    session_id: &str,
    format: &str,
    quality: i32,
    max_width: i32,
    max_height: i32,
) -> (command: CdpCommand)
    ensures
        command.is(
            "Page.startScreencast"@,
            Some(start_params(format@, quality as int, max_width as int, max_height as int)),
            Some(session_id@),
            Delivery::Within(SCREENCAST_COMMAND_MS),
        ),
{
    start_command(
        Some(session_id),
        format,
        quality as i64,
        max_width as i64,
        max_height as i64,
    )
}

/// Stops the screencast of a session.
pub fn stop_screencast(session_id: &str) -> (command: CdpCommand)
    ensures
        command.is(
            "Page.stopScreencast"@,
            None,
            Some(session_id@),
            Delivery::Within(SCREENCAST_COMMAND_MS),
        ),
{
    stop_preview_screencast(Some(session_id))
}

/// Acknowledges an image of the screencast of a session, so that the browser sends the next.
pub fn ack_screencast_frame(session_id: &str, screencast_session_id: i64) -> (command: CdpCommand)
    ensures
        command.is(
            "Page.screencastFrameAck"@,
            Some(ack_params(screencast_session_id)),
            Some(session_id@),
            Delivery::NoWait,
        ),
{
    ack_preview_screencast_frame(Some(session_id), screencast_session_id)
}

/// Starts the screencast that the viewers see, in images no larger than the viewport.
pub fn start_preview_screencast(session_id: Option<&str>, width: u32, height: u32) -> (command:
    CdpCommand)
    ensures
        command.is(
            "Page.startScreencast"@,
            Some(start_params("jpeg"@, 80, width as int, height as int)),
            slice_of(session_id),
            Delivery::Within(SCREENCAST_COMMAND_MS),
        ),
{
    start_command(session_id, "jpeg", 80, width as i64, height as i64)
}

/// Stops the screencast that the viewers see.
pub fn stop_preview_screencast(session_id: Option<&str>) -> (command: CdpCommand)
    ensures
        command.is(
            "Page.stopScreencast"@,
            None,
            slice_of(session_id),
            Delivery::Within(SCREENCAST_COMMAND_MS),
        ),
{
    CdpCommand {
        method: "Page.stopScreencast".to_owned(),
        params: None,
        session_id: owned(session_id),
        delivery: Delivery::Within(SCREENCAST_COMMAND_MS),
    }
}

/// Acknowledges an image of the screencast that the viewers see.
pub fn ack_preview_screencast_frame(session_id: Option<&str>, screencast_session_id: i64) -> (command:
    CdpCommand)
    ensures
        command.is(
            "Page.screencastFrameAck"@,
            Some(ack_params(screencast_session_id)),
            slice_of(session_id),
            Delivery::NoWait,
        ),
{
    let mut params = json::new_object();
    json::insert(&mut params, "sessionId", json::from_i64(screencast_session_id));
    CdpCommand {
        method: "Page.screencastFrameAck".to_owned(),
        params: Some(params),
        session_id: owned(session_id),
        delivery: Delivery::NoWait,
    }
}

} // verus!
