//! What the commands say to the browser.
use crate::cdp::{CdpCommand, Delivery};
use crate::json::JsonView;
use crate::recording::commands::{
    renders, screencast_params, screenshot_params, session_params, BrowserRequest,
};
use crate::recording::settings::ScreencastSettings;
use crate::stream::commands::{ack_params, start_params};
use crate::stream::preview::{sends, PreviewEffectView};
use vstd::prelude::*;

verus! {

/// The document holds under `key` the value, as a member of its own.
pub open spec fn holds(document: JsonView, key: Seq<char>, value: JsonView) -> bool {
    document matches JsonView::Object(members) && members.contains_key(key) && members[key] == value
}

/// The document is an object with `count` members.
pub open spec fn has_members(document: JsonView, count: nat) -> bool {
    document matches JsonView::Object(members) && members.dom().finite() && members.dom().len()
        == count
}

/// A command is pinned down by its method, its parameters, its session and its delivery: it says
/// each of them as it was asked to.
pub proof fn law_command_says_what_was_asked(
    command: CdpCommand,
    method: Seq<char>,
    document: Option<JsonView>,
    session_id: Option<Seq<char>>,
    delivery: Delivery,
)
    requires
        command.is(method, document, session_id, delivery),
    ensures
        command.method@ == method,
        command.params is Some <==> document is Some,
        command.params is Some ==> crate::json::json_of(command.params->0) == document->0,
        command.session_id is Some <==> session_id is Some,
        command.session_id is Some ==> command.session_id->0@ == session_id->0,
        command.delivery == delivery,
{
}

/// The keys of the parameters differ.
proof fn lemma_keys_differ()
    ensures
        "format"@ != "quality"@,
        "format"@ != "everyNthFrame"@,
        "format"@ != "maxWidth"@,
        "format"@ != "maxHeight"@,
        "format"@ != "fromSurface"@,
        "quality"@ != "everyNthFrame"@,
        "quality"@ != "maxWidth"@,
        "quality"@ != "maxHeight"@,
        "quality"@ != "fromSurface"@,
        "everyNthFrame"@ != "maxWidth"@,
        "everyNthFrame"@ != "maxHeight"@,
        "maxWidth"@ != "maxHeight"@,
{
    reveal_strlit("format");
    reveal_strlit("quality");
    reveal_strlit("everyNthFrame");
    reveal_strlit("maxWidth");
    reveal_strlit("maxHeight");
    reveal_strlit("fromSurface");
    assert("format"@.len() == 6);
    assert("quality"@.len() == 7);
    assert("everyNthFrame"@.len() == 13);
    assert("maxWidth"@.len() == 8);
    assert("maxHeight"@.len() == 9);
    assert("fromSurface"@.len() == 11);
}

/// The parameters that start a screencast and take a screenshot say each thing that was set under
/// its own name, and nothing else.
pub proof fn law_parameters_say_what_was_set(
    settings: ScreencastSettings,
    format: Seq<char>,
    quality: int,
    max_width: int,
    max_height: int,
    number: i64,
    session_id: Seq<char>,
)
    ensures
        ({
            let recorded = screencast_params(settings);
            &&& holds(recorded, "format"@, JsonView::Str("jpeg"@))
            &&& holds(recorded, "quality"@, JsonView::Int(settings.quality as int))
            &&& holds(recorded, "everyNthFrame"@, JsonView::Int(settings.every_nth_frame as int))
            &&& holds(recorded, "maxWidth"@, JsonView::Int(settings.max_width as int))
            &&& holds(recorded, "maxHeight"@, JsonView::Int(settings.max_height as int))
            &&& has_members(recorded, 5)
        }),
        ({
            let shown = start_params(format, quality, max_width, max_height);
            &&& holds(shown, "format"@, JsonView::Str(format))
            &&& holds(shown, "quality"@, JsonView::Int(quality))
            &&& holds(shown, "everyNthFrame"@, JsonView::Int(1))
            &&& holds(shown, "maxWidth"@, JsonView::Int(max_width))
            &&& holds(shown, "maxHeight"@, JsonView::Int(max_height))
            &&& has_members(shown, 5)
        }),
        ({
            let shot = screenshot_params();
            &&& holds(shot, "format"@, JsonView::Str("jpeg"@))
            &&& holds(shot, "quality"@, JsonView::Int(80))
            &&& holds(shot, "fromSurface"@, JsonView::Bool(true))
            &&& has_members(shot, 3)
        }),
        holds(ack_params(number), "sessionId"@, JsonView::Int(number as int)),
        has_members(ack_params(number), 1),
        holds(session_params(session_id), "sessionId"@, JsonView::Str(session_id)),
        has_members(session_params(session_id), 1),
{
    lemma_keys_differ();
    broadcast use vstd::set::group_set_axioms;

}

/// The command of a request goes to the session that the request names, or speaks of it, with the
/// method and the patience of that request.
pub proof fn law_request_is_said_in_the_protocol(
    session_id: String,
    target_id: String,
    frame_session: i64,
    settings: ScreencastSettings,
    command: CdpCommand,
)
    ensures
        renders(BrowserRequest::StartScreencast { session_id }, settings, command) ==> {
            &&& command.method@ == "Page.startScreencast"@
            &&& command.document() == Some(screencast_params(settings))
            &&& command.session_id is Some && command.session_id->0@ == session_id@
            &&& command.delivery == Delivery::Within(2000)
        },
        renders(BrowserRequest::StopScreencast { session_id }, settings, command) ==> {
            &&& command.method@ == "Page.stopScreencast"@ && command.params is None
            &&& command.session_id is Some && command.session_id->0@ == session_id@
            &&& command.delivery == Delivery::Within(2000)
        },
        renders(BrowserRequest::SuspendScreencast { session_id }, settings, command) ==> {
            &&& command.method@ == "Page.stopScreencast"@ && command.params is None
            &&& command.session_id is Some && command.session_id->0@ == session_id@
            &&& command.delivery == Delivery::Within(500)
        },
        renders(BrowserRequest::AbandonScreencast { session_id }, settings, command) ==> {
            &&& command.method@ == "Page.stopScreencast"@ && command.params is None
            &&& command.session_id is Some && command.session_id->0@ == session_id@
            &&& command.delivery == Delivery::NoWait
        },
        renders(BrowserRequest::Detach { session_id }, settings, command) ==> {
            &&& command.method@ == "Target.detachFromTarget"@ && command.session_id is None
            &&& command.document() == Some(session_params(session_id@))
            &&& command.delivery == Delivery::Within(750)
        },
        renders(BrowserRequest::AbandonSession { session_id }, settings, command) ==> {
            &&& command.method@ == "Target.detachFromTarget"@ && command.session_id is None
            &&& command.document() == Some(session_params(session_id@))
            &&& command.delivery == Delivery::NoWait
        },
        renders(BrowserRequest::EnablePage { session_id }, settings, command) ==> {
            &&& command.method@ == "Page.enable"@ && command.params is None
            &&& command.session_id is Some && command.session_id->0@ == session_id@
            &&& command.delivery == Delivery::Within(2000)
        },
        renders(BrowserRequest::ListTargets, settings, command) ==> {
            &&& command.method@ == "Target.getTargets"@ && command.session_id is None
            &&& command.document() is Some && has_members(command.document()->0, 0)
            &&& command.delivery == Delivery::Reply
        },
        renders(BrowserRequest::Attach { target_id }, settings, command) ==> {
            &&& command.method@ == "Target.attachToTarget"@ && command.session_id is None
            &&& command.document() is Some
            &&& holds(command.document()->0, "targetId"@, JsonView::Str(target_id@))
            &&& holds(command.document()->0, "flatten"@, JsonView::Bool(true))
            &&& has_members(command.document()->0, 2)
            &&& command.delivery == Delivery::Reply
        },
        renders(BrowserRequest::Screenshot { session_id }, settings, command) ==> {
            &&& command.method@ == "Page.captureScreenshot"@
            &&& command.document() == Some(screenshot_params())
            &&& command.session_id is Some && command.session_id->0@ == session_id@
            &&& command.delivery == Delivery::Within(3000)
        },
        renders(
            BrowserRequest::Acknowledge { session_id, frame_session },
            settings,
            command,
        ) ==> {
            &&& command.method@ == "Page.screencastFrameAck"@
            &&& command.document() is Some
            &&& holds(command.document()->0, "sessionId"@, JsonView::Int(frame_session as int))
            &&& has_members(command.document()->0, 1)
            &&& command.session_id is Some && command.session_id->0@ == session_id@
            &&& command.delivery == Delivery::NoWait
        },
{
    broadcast use vstd::set::group_set_axioms;

    reveal_strlit("targetId");
    reveal_strlit("flatten");
    assert("targetId"@.len() == 8);
    assert("flatten"@.len() == 7);
}

/// The commands of the live view go to the session that it names: one starts a screencast of the
/// given size, one stops it, one acknowledges an image; nothing else is a command.
pub proof fn law_live_view_is_said_in_the_protocol(
    effect: PreviewEffectView,
    command: Option<CdpCommand>,
)
    requires
        sends(effect, command),
    ensures
        match effect {
            PreviewEffectView::StopScreencast { session_id } => {
                &&& command is Some
                &&& command->0.method@ == "Page.stopScreencast"@
                &&& command->0.params is None
                &&& crate::text::text_of(command->0.session_id) == session_id
                &&& command->0.delivery == Delivery::Within(2000)
            },
            PreviewEffectView::StartScreencast { session_id, width, height } => {
                &&& command is Some
                &&& command->0.method@ == "Page.startScreencast"@
                &&& command->0.document() is Some
                &&& holds(command->0.document()->0, "format"@, JsonView::Str("jpeg"@))
                &&& holds(command->0.document()->0, "quality"@, JsonView::Int(80))
                &&& holds(command->0.document()->0, "maxWidth"@, JsonView::Int(width as int))
                &&& holds(command->0.document()->0, "maxHeight"@, JsonView::Int(height as int))
                &&& holds(command->0.document()->0, "everyNthFrame"@, JsonView::Int(1))
                &&& has_members(command->0.document()->0, 5)
                &&& crate::text::text_of(command->0.session_id) == session_id
                &&& command->0.delivery == Delivery::Within(2000)
            },
            PreviewEffectView::Acknowledge { session_id, frame_session } => {
                &&& command is Some
                &&& command->0.method@ == "Page.screencastFrameAck"@
                &&& command->0.document() is Some
                &&& holds(
                    command->0.document()->0,
                    "sessionId"@,
                    JsonView::Int(frame_session as int),
                )
                &&& has_members(command->0.document()->0, 1)
                &&& crate::text::text_of(command->0.session_id) == session_id
                &&& command->0.delivery == Delivery::NoWait
            },
            _ => command is None,
        },
{
    match effect {
        PreviewEffectView::StartScreencast { width, height, .. } => {
            law_parameters_say_what_was_set(
                ScreencastSettings { quality: 1, every_nth_frame: 1, max_width: 1, max_height: 1 },
                "jpeg"@,
                80,
                width as int,
                height as int,
                0,
                seq![],
            );
        },
        PreviewEffectView::Acknowledge { frame_session, .. } => {
            law_parameters_say_what_was_set(
                ScreencastSettings { quality: 1, every_nth_frame: 1, max_width: 1, max_height: 1 },
                seq![],
                0,
                0,
                0,
                frame_session,
                seq![],
            );
        },
        _ => {},
    }
}

} // verus!
