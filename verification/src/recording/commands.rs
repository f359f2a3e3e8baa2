//! The commands of a recording.
use crate::cdp::{CdpCommand, Delivery};
use crate::json::{self, JsonView};
use crate::recording::settings::ScreencastSettings;
use vstd::prelude::*;

verus! {

/// What a recording asks of the browser.
pub enum BrowserRequest {
    /// Start the screencast of a session.
    StartScreencast { session_id: String },
    /// Stop the screencast of a session.
    StopScreencast { session_id: String },
    /// Stop the screencast of a session that is about to be given up.
    SuspendScreencast { session_id: String },
    /// Stop the screencast of a session without waiting.
    AbandonScreencast { session_id: String },
    /// Let go of a session.
    Detach { session_id: String },
    /// Let go of a session without waiting.
    AbandonSession { session_id: String },
    /// Have the page events of a session sent.
    EnablePage { session_id: String },
    /// List the targets.
    ListTargets,
    /// Open a session on a target.
    Attach { target_id: String },
    /// Take a screenshot in a session.
    Screenshot { session_id: String },
    /// Acknowledge an image of the screencast of a session.
    Acknowledge { session_id: String, frame_session: i64 },
}

/// The parameters that start a recorded screencast.
pub open spec fn screencast_params(settings: ScreencastSettings) -> JsonView {
    JsonView::Object(
        map!["format"@ => JsonView::Str("jpeg"@),
            "quality"@ => JsonView::Int(settings.quality as int),
            "everyNthFrame"@ => JsonView::Int(settings.every_nth_frame as int),
            "maxWidth"@ => JsonView::Int(settings.max_width as int),
            "maxHeight"@ => JsonView::Int(settings.max_height as int)],
    )
}

/// The parameters that name a session.
pub open spec fn session_params(session_id: Seq<char>) -> JsonView {
    JsonView::Object(map!["sessionId"@ => JsonView::Str(session_id)])
}

/// Starts the recorded screencast of a session.
pub fn start_recording_screencast(session_id: &str, settings: &ScreencastSettings) -> (command:
    CdpCommand)
    ensures
        command.is(
            "Page.startScreencast"@,
            Some(screencast_params(*settings)),
            Some(session_id@),
            Delivery::Within(2000),
        ),
{
    let mut params = json::new_object();
    json::insert(&mut params, "format", json::from_text("jpeg"));
    json::insert(&mut params, "quality", json::from_u64(settings.quality as u64));
    json::insert(&mut params, "everyNthFrame", json::from_u64(settings.every_nth_frame as u64));
    json::insert(&mut params, "maxWidth", json::from_u64(settings.max_width as u64));
    json::insert(&mut params, "maxHeight", json::from_u64(settings.max_height as u64));
    CdpCommand {
        method: "Page.startScreencast".to_owned(),
        params: Some(params),
        session_id: Some(session_id.to_owned()),
        delivery: Delivery::Within(2000),
    }
}

/// Stops the screencast of a session, and waits for that as `delivery` says.
fn stop_screencast_command(session_id: &str, delivery: Delivery) -> (command: CdpCommand)
    ensures
        command.is("Page.stopScreencast"@, None, Some(session_id@), delivery),
{
    CdpCommand {
        method: "Page.stopScreencast".to_owned(),
        params: None,
        session_id: Some(session_id.to_owned()),
        delivery,
    }
}

/// Stops the recorded screencast of a session.
pub fn stop_recording_screencast(session_id: &str) -> (command: CdpCommand)
    ensures
        command.is("Page.stopScreencast"@, None, Some(session_id@), Delivery::Within(2000)),
{
    stop_screencast_command(session_id, Delivery::Within(2000))
}

/// Acknowledges an image of the screencast, so that the browser sends the next.
pub fn acknowledge_frame(session_id: &str, frame_session: i64) -> (command: CdpCommand)
    ensures
        command.is(
            "Page.screencastFrameAck"@,
            Some(JsonView::Object(map!["sessionId"@ => JsonView::Int(frame_session as int)])),
            Some(session_id@),
            Delivery::NoWait,
        ),
{
    let mut params = json::new_object();
    json::insert(&mut params, "sessionId", json::from_i64(frame_session));
    CdpCommand {
        method: "Page.screencastFrameAck".to_owned(),
        params: Some(params),
        session_id: Some(session_id.to_owned()),
        delivery: Delivery::NoWait,
    }
}

/// The parameters of a screenshot.
pub open spec fn screenshot_params() -> JsonView {
    JsonView::Object(
        map!["format"@ => JsonView::Str("jpeg"@),
            "quality"@ => JsonView::Int(80),
            "fromSurface"@ => JsonView::Bool(true)],
    )
}

/// Takes a screenshot.
pub fn capture_screenshot(session_id: &str) -> (command: CdpCommand)
    ensures
        command.is(
            "Page.captureScreenshot"@,
            Some(screenshot_params()),
            Some(session_id@),
            Delivery::Within(3000),
        ),
{
    let mut params = json::new_object();
    json::insert(&mut params, "format", json::from_text("jpeg"));
    json::insert(&mut params, "quality", json::from_u64(80));
    json::insert(&mut params, "fromSurface", json::from_bool(true));
    CdpCommand {
        method: "Page.captureScreenshot".to_owned(),
        params: Some(params),
        session_id: Some(session_id.to_owned()),
        delivery: Delivery::Within(3000),
    }
}

/// Has the page events of a session sent.
pub fn enable_recording_domains(session_id: &str) -> (command: CdpCommand)
    ensures
        command.is("Page.enable"@, None, Some(session_id@), Delivery::Within(2000)),
{
    CdpCommand {
        method: "Page.enable".to_owned(),
        params: None,
        session_id: Some(session_id.to_owned()),
        delivery: Delivery::Within(2000),
    }
}

/// Lists the targets.
pub fn list_targets() -> (command: CdpCommand)
    ensures
        command.is(
            "Target.getTargets"@,
            Some(JsonView::Object(Map::<Seq<char>, JsonView>::empty())),
            None,
            Delivery::Reply,
        ),
{
    CdpCommand {
        method: "Target.getTargets".to_owned(),
        params: Some(json::new_object()),
        session_id: None,
        delivery: Delivery::Reply,
    }
}

/// Opens a session on a target.
pub fn attach_to_target(target_id: &str) -> (command: CdpCommand)
    ensures
        command.is(
            "Target.attachToTarget"@,
            Some(
                JsonView::Object(
                    map!["targetId"@ => JsonView::Str(target_id@),
                        "flatten"@ => JsonView::Bool(true)],
                ),
            ),
            None,
            Delivery::Reply,
        ),
{
    let mut params = json::new_object();
    json::insert(&mut params, "targetId", json::from_text(target_id));
    json::insert(&mut params, "flatten", json::from_bool(true));
    CdpCommand {
        method: "Target.attachToTarget".to_owned(),
        params: Some(params),
        session_id: None,
        delivery: Delivery::Reply,
    }
}

/// Lets go of a session, and waits for that as `delivery` says.
pub fn detach_from_target(session_id: &str, delivery: Delivery) -> (command: CdpCommand)
    ensures
        command.is(
            "Target.detachFromTarget"@,
            Some(session_params(session_id@)),
            None,
            delivery,
        ),
{
    let mut params = json::new_object();
    json::insert(&mut params, "sessionId", json::from_text(session_id));
    CdpCommand {
        method: "Target.detachFromTarget".to_owned(),
        params: Some(params),
        session_id: None,
        delivery,
    }
}

/// `command` is what a request says in the protocol.
pub open spec fn renders(
    request: BrowserRequest,
    settings: ScreencastSettings,
    command: CdpCommand,
) -> bool {
    match request {
        BrowserRequest::StartScreencast { session_id } => command.is(
            "Page.startScreencast"@,
            Some(screencast_params(settings)),
            Some(session_id@),
            Delivery::Within(2000),
        ),
        BrowserRequest::StopScreencast { session_id } => command.is(
            "Page.stopScreencast"@,
            None,
            Some(session_id@),
            Delivery::Within(2000),
        ),
        BrowserRequest::SuspendScreencast { session_id } => command.is(
            "Page.stopScreencast"@,
            None,
            Some(session_id@),
            Delivery::Within(500),
        ),
        BrowserRequest::AbandonScreencast { session_id } => command.is(
            "Page.stopScreencast"@,
            None,
            Some(session_id@),
            Delivery::NoWait,
        ),
        BrowserRequest::Detach { session_id } => command.is(
            "Target.detachFromTarget"@,
            Some(session_params(session_id@)),
            None,
            Delivery::Within(750),
        ),
        BrowserRequest::AbandonSession { session_id } => command.is(
            "Target.detachFromTarget"@,
            Some(session_params(session_id@)),
            None,
            Delivery::NoWait,
        ),
        BrowserRequest::EnablePage { session_id } => command.is(
            "Page.enable"@,
            None,
            Some(session_id@),
            Delivery::Within(2000),
        ),
        BrowserRequest::ListTargets => command.is(
            "Target.getTargets"@,
            Some(JsonView::Object(Map::<Seq<char>, JsonView>::empty())),
            None,
            Delivery::Reply,
        ),
        BrowserRequest::Attach { target_id } => command.is(
            "Target.attachToTarget"@,
            Some(
                JsonView::Object(
                    map!["targetId"@ => JsonView::Str(target_id@),
                        "flatten"@ => JsonView::Bool(true)],
                ),
            ),
            None,
            Delivery::Reply,
        ),
        BrowserRequest::Screenshot { session_id } => command.is(
            "Page.captureScreenshot"@,
            Some(screenshot_params()),
            Some(session_id@),
            Delivery::Within(3000),
        ),
        BrowserRequest::Acknowledge { session_id, frame_session } => command.is(
            "Page.screencastFrameAck"@,
            Some(JsonView::Object(map!["sessionId"@ => JsonView::Int(frame_session as int)])),
            Some(session_id@),
            Delivery::NoWait,
        ),
    }
}

impl BrowserRequest {
    /// Says a request in the protocol.
    pub fn command(&self, settings: &ScreencastSettings) -> (command: CdpCommand)
        ensures
            renders(*self, *settings, command),
    {
        match self {
            BrowserRequest::StartScreencast { session_id } => start_recording_screencast(
                session_id.as_str(),
                settings,
            ),
            BrowserRequest::StopScreencast { session_id } => stop_recording_screencast(
                session_id.as_str(),
            ),
            BrowserRequest::SuspendScreencast { session_id } => stop_screencast_command(
                session_id.as_str(),
                Delivery::Within(500),
            ),
            BrowserRequest::AbandonScreencast { session_id } => stop_screencast_command(
                session_id.as_str(),
                Delivery::NoWait,
            ),
            BrowserRequest::Detach { session_id } => detach_from_target(
                session_id.as_str(),
                Delivery::Within(750),
            ),
            BrowserRequest::AbandonSession { session_id } => detach_from_target(
                session_id.as_str(),
                Delivery::NoWait,
            ),
            BrowserRequest::EnablePage { session_id } => enable_recording_domains(
                session_id.as_str(),
            ),
            BrowserRequest::ListTargets => list_targets(),
            BrowserRequest::Attach { target_id } => attach_to_target(target_id.as_str()),
            BrowserRequest::Screenshot { session_id } => capture_screenshot(session_id.as_str()),
            BrowserRequest::Acknowledge { session_id, frame_session } => acknowledge_frame(
                session_id.as_str(),
                *frame_session,
            ),
        }
    }
}

} // verus!
