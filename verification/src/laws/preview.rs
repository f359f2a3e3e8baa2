//! What the viewers of a live view get, and when its screencast runs.
use crate::cdp::CdpEvent;
use crate::json::{json_of, JsonView};
use crate::laws::capture::lemma_methods;
use crate::laws::frames::{given, given_text};
use crate::laws::messages::{
    law_frame_message_says_the_image, law_other_messages_say_what_they_are_about,
    law_status_says_the_state, says_console, says_error, says_image, says_status, says_url,
};
use crate::stream::messages::{
    console_document, frame_document, page_error_document, status_document, url_document,
    StreamStatus,
};
use crate::stream::preview::{
    awaits, preview_of, reaches, tab_moved, Preview, PreviewEffect, PreviewEffectView, PreviewInput,
    PreviewLoop, PreviewNext, PreviewPhase, PreviewState, PreviewStep, Surroundings,
};
use crate::stream::shutdown::ShutdownChange;
use crate::text::text_of;
use vstd::prelude::*;

verus! {

/// The input says that this is the end: it is asked for, or nobody is left who could ask.
pub open spec fn ends(input: PreviewInput) -> bool {
    input matches PreviewInput::Shutdown(change) && (change.sender_gone || change.requested)
}

/// The view waits for a change, and nothing runs.
pub open spec fn rests(after: PreviewState) -> bool {
    after.phase is Idle && after.next is AwaitNotice
}

/// The view runs on as it was.
pub open spec fn runs_on(after: PreviewState, running: Preview) -> bool {
    after.phase == PreviewPhase::Streaming(running) && after.next is AwaitEvent
}

/// The view is over.
pub open spec fn is_over(after: PreviewState) -> bool {
    after.phase is Ended && after.next is Return
}

/// Where nothing runs and there are no viewers, or this is the end, a screencast that is said to
/// run is stopped in the session that is there, where there is a connection, and is said not to
/// run.
pub proof fn law_screencast_without_viewers_is_stopped(
    around: Surroundings,
    input: PreviewInput,
    millis: u64,
)
    requires
        input is Notified || input is Shutdown,
        around.client_count == 0 || ends(input),
    ensures
        ({
            let after = (PreviewLoop { phase: PreviewPhase::Idle }).stepped(input, around, millis);
            &&& ends(input) ==> is_over(after)
            &&& !ends(input) ==> rests(after)
            &&& !around.screencasting ==> after.effects =~= seq![]
            &&& around.screencasting && around.client is None ==> after.effects =~= seq![
                PreviewEffectView::SetScreencasting(false),
            ]
            &&& around.screencasting && around.client is Some ==> after.effects =~= seq![
                PreviewEffectView::StopScreencast { session_id: text_of(around.session_id) },
                PreviewEffectView::SetScreencasting(false),
            ]
        }),
{
}

/// While a recording supplies the images, viewers are told so, with the size of the viewport and
/// whether there is a connection; a screencast that is said to run is said not to.
pub proof fn law_viewers_are_told_of_the_recording(
    around: Surroundings,
    input: PreviewInput,
    millis: u64,
)
    requires
        input is Notified || input is Shutdown,
        around.client_count > 0,
        around.recording,
        !ends(input),
    ensures
        ({
            let after = (PreviewLoop { phase: PreviewPhase::Idle }).stepped(input, around, millis);
            &&& rests(after)
            &&& after.effects.len() == (if around.screencasting {
                2nat
            } else {
                1nat
            })
            &&& around.screencasting ==> after.effects[0] == PreviewEffectView::SetScreencasting(
                false,
            )
            &&& after.effects.last() matches PreviewEffectView::Broadcast(message)
            &&& says_status(
                message,
                StreamStatus {
                    connected: around.client is Some,
                    screencasting: false,
                    width: around.width,
                    height: around.height,
                    recording: true,
                },
                around.engine@,
            )
        }),
{
    let status = StreamStatus {
        connected: around.client is Some,
        screencasting: false,
        width: around.width,
        height: around.height,
        recording: true,
    };
    law_status_says_the_state(status, around.engine@);
    let after = (PreviewLoop { phase: PreviewPhase::Idle }).stepped(input, around, millis);
    assert(after.effects.last() == PreviewEffectView::Broadcast(
        crate::json::json_text(status_document(status, around.engine@)),
    ));
}

/// Where there are viewers and a connection, and nothing is recorded, a view begins: it holds on to
/// the connection, the session and the viewport that it finds, and starts a screencast of just that
/// session and size where the engine is Chrome. Without a connection nothing begins.
pub proof fn law_view_begins_with_what_is_around(
    around: Surroundings,
    input: PreviewInput,
    millis: u64,
)
    requires
        input is Notified || input is Shutdown,
        around.client_count > 0,
        !around.recording,
        !ends(input),
    ensures
        ({
            let after = (PreviewLoop { phase: PreviewPhase::Idle }).stepped(input, around, millis);
            &&& around.client is None ==> rests(after) && after.effects =~= seq![]
            &&& around.client is Some ==> {
                &&& after.next is LookAgain
                &&& after.phase matches PreviewPhase::Starting(begun)
                &&& Some(begun.client) == around.client
                &&& text_of(begun.session_id) == text_of(around.session_id)
                &&& begun.width == around.width
                &&& begun.height == around.height
                &&& begun.engine@ == around.engine@
                &&& around.engine@ == "chrome"@ ==> after.effects =~= seq![
                    PreviewEffectView::Subscribe,
                    PreviewEffectView::StartScreencast {
                        session_id: text_of(around.session_id),
                        width: around.width,
                        height: around.height,
                    },
                    PreviewEffectView::SetScreencasting(true),
                ]
                &&& around.engine@ != "chrome"@ ==> after.effects =~= seq![
                    PreviewEffectView::Subscribe,
                    PreviewEffectView::SetScreencasting(false),
                ]
            }
        }),
{
}

/// Once a view has started, the viewers are told that there is a connection, whether a screencast
/// runs, and the viewport of the view; and the view waits for events.
pub proof fn law_viewers_are_told_of_the_start(
    running: Preview,
    around: Surroundings,
    millis: u64,
)
    ensures
        ({
            let after = (PreviewLoop { phase: PreviewPhase::Starting(running) }).stepped(
                PreviewInput::Started,
                around,
                millis,
            );
            &&& runs_on(after, running)
            &&& after.effects.len() == 1
            &&& after.effects[0] matches PreviewEffectView::Broadcast(message)
            &&& says_status(
                message,
                StreamStatus {
                    connected: true,
                    screencasting: running.engine@ == "chrome"@,
                    width: running.width,
                    height: running.height,
                    recording: around.recording,
                },
                running.engine@,
            )
        }),
{
    law_status_says_the_state(
        StreamStatus {
            connected: true,
            screencasting: running.engine@ == "chrome"@,
            width: running.width,
            height: running.height,
            recording: around.recording,
        },
        running.engine@,
    );
}

/// At the end a running view stops the screencast in the session that is there, where the engine is
/// Chrome, says that none runs, and is over; a move of the switch that is no end changes nothing.
pub proof fn law_running_view_ends_with_the_switch(
    running: Preview,
    change: ShutdownChange,
    around: Surroundings,
    millis: u64,
)
    ensures
        ({
            let after = (PreviewLoop { phase: PreviewPhase::Streaming(running) }).stepped(
                PreviewInput::Shutdown(change),
                around,
                millis,
            );
            if change.sender_gone || change.requested {
                &&& is_over(after)
                &&& running.engine@ == "chrome"@ ==> after.effects =~= seq![
                    PreviewEffectView::StopScreencast { session_id: text_of(around.session_id) },
                    PreviewEffectView::SetScreencasting(false),
                ]
                &&& running.engine@ != "chrome"@ ==> after.effects =~= seq![
                    PreviewEffectView::SetScreencasting(false),
                ]
            } else {
                runs_on(after, running) && after.effects =~= seq![]
            }
        }),
{
}

/// The view still fits: the same connection, session, width and height, nothing recorded, and the
/// screencast is said to run.
pub open spec fn fits(running: Preview, around: Surroundings) -> bool {
    &&& around.client is Some && around.client->0 == running.client
    &&& text_of(around.session_id) == text_of(running.session_id)
    &&& around.width == running.width
    &&& around.height == running.height
    &&& !around.recording
    &&& around.screencasting
}

/// A running view that is told of a change runs on exactly while somebody watches and it still
/// fits. Otherwise it stops the screencast that it started, where the engine is Chrome, and says
/// that none runs; where somebody watches it also says that something has changed, so that it looks
/// again. The screencast is left alone where a recording supplies the images to somebody who
/// watches.
pub proof fn law_running_view_follows_changes(
    running: Preview,
    around: Surroundings,
    millis: u64,
)
    ensures
        ({
            let after = (PreviewLoop { phase: PreviewPhase::Streaming(running) }).stepped(
                PreviewInput::Notified,
                around,
                millis,
            );
            let stop = PreviewEffectView::StopScreencast { session_id: text_of(running.session_id) };
            let none = PreviewEffectView::SetScreencasting(false);
            let chrome = running.engine@ == "chrome"@;
            &&& around.client_count == 0 ==> {
                &&& rests(after)
                &&& chrome ==> after.effects =~= seq![stop, none]
                &&& !chrome ==> after.effects =~= seq![none]
            }
            &&& around.client_count > 0 && fits(running, around) ==> runs_on(after, running)
                && after.effects =~= seq![]
            &&& around.client_count > 0 && !fits(running, around) ==> {
                &&& rests(after)
                &&& chrome && !around.recording ==> after.effects =~= seq![
                    stop,
                    none,
                    PreviewEffectView::Notify,
                ]
                &&& !chrome || around.recording ==> after.effects =~= seq![
                    none,
                    PreviewEffectView::Notify,
                ]
            }
        }),
{
}

/// Lost events change nothing; when there will be no more, the view rests, and nothing is done.
pub proof fn law_view_rests_when_events_are_over(
    running: Preview,
    around: Surroundings,
    millis: u64,
)
    ensures
        ({
            let view = PreviewLoop { phase: PreviewPhase::Streaming(running) };
            let lagged = view.stepped(PreviewInput::Lagged, around, millis);
            let closed = view.stepped(PreviewInput::Closed, around, millis);
            &&& runs_on(lagged, running) && lagged.effects =~= seq![]
            &&& rests(closed) && closed.effects =~= seq![]
        }),
{
}

/// The integer that a document gives under `key`, where sixty-four bits with a sign can hold it.
pub open spec fn given_integer(document: JsonView, key: Seq<char>) -> Option<int> {
    match given(document, key) {
        Some(JsonView::Int(n)) => if -0x8000_0000_0000_0000 <= n <= 0x7fff_ffff_ffff_ffff {
            Some(n)
        } else {
            None
        },
        _ => None,
    }
}

/// What is done about an image: it is acknowledged in the session that sent it, with its own
/// number, where it has one; and where it carries data, one message with that data, with what the
/// browser says of the image, and with the viewport is kept for viewers that come later and goes to
/// those that are there.
pub open spec fn passes_on_image(
    effects: Seq<PreviewEffectView>,
    event: CdpEvent,
    width: u32,
    height: u32,
) -> bool {
    let document = json_of(event.params);
    let number = given_integer(document, "sessionId"@);
    let data = given_text(document, "data"@);
    let first: int = if number is Some {
        1
    } else {
        0
    };
    let count: int = if data is Some {
        first + 2
    } else {
        first
    };
    &&& effects.len() == count
    &&& number is Some ==> {
        &&& effects[0] matches PreviewEffectView::Acknowledge { session_id, frame_session }
        &&& session_id == text_of(event.session_id)
        &&& frame_session == number->0
    }
    &&& data is Some ==> {
        &&& effects[first] matches PreviewEffectView::KeepFrame(kept)
        &&& effects[first + 1] == PreviewEffectView::Broadcast(kept)
        &&& says_image(kept, data->0, given(document, "metadata"@), width, height)
    }
}

/// Every image that a running view passes on names the viewport of the view: its width as the width
/// of the device, and its height as the height.
pub proof fn law_image_names_the_viewport(
    running: Preview,
    event: CdpEvent,
    console_text: String,
    around: Surroundings,
    millis: u64,
)
    requires
        event.method@ == "Page.screencastFrame"@,
        !around.recording,
    ensures
        ({
            let after = (PreviewLoop { phase: PreviewPhase::Streaming(running) }).stepped(
                PreviewInput::Event { event, console_text },
                around,
                millis,
            );
            &&& runs_on(after, running)
            &&& passes_on_image(after.effects, event, running.width, running.height)
        }),
{
    lemma_methods();
    let document = json_of(event.params);
    assert(document.text_member("data"@) == given_text(document, "data"@));
    assert(document.member("metadata"@) == given(document, "metadata"@));
    assert(document.member("sessionId"@) == given(document, "sessionId"@));
    if let Some(data) = given_text(document, "data"@) {
        let meta = given(document, "metadata"@);
        law_frame_message_says_the_image(data, meta, running.width, running.height);
        let message = crate::json::json_text(
            frame_document(data, meta, running.width, running.height),
        );
        assert(says_image(message, data, meta, running.width, running.height));
    }
}

/// From its beginning to its images a view shows the viewport in which it began: an image that
/// comes after the start goes to the viewers with the width and the height that were there when the
/// view looked around and began, each under its own name, whatever is around it by then.
pub proof fn law_images_name_the_viewport_of_the_beginning(
    around: Surroundings,
    meanwhile: Surroundings,
    later: Surroundings,
    event: CdpEvent,
    console_text: String,
    millis: u64,
)
    requires
        around.client_count > 0,
        around.client is Some,
        !around.recording,
        event.method@ == "Page.screencastFrame"@,
        !later.recording,
    ensures
        ({
            let begun = (PreviewLoop { phase: PreviewPhase::Idle }).stepped(
                PreviewInput::Notified,
                around,
                millis,
            );
            let started = (PreviewLoop { phase: begun.phase }).stepped(
                PreviewInput::Started,
                meanwhile,
                millis,
            );
            let shown = (PreviewLoop { phase: started.phase }).stepped(
                PreviewInput::Event { event, console_text },
                later,
                millis,
            );
            passes_on_image(shown.effects, event, around.width, around.height)
        }),
{
    let running = preview_of(around, around.client->0);
    law_view_begins_with_what_is_around(around, PreviewInput::Notified, millis);
    law_viewers_are_told_of_the_start(running, meanwhile, millis);
    law_image_names_the_viewport(running, event, console_text, later, millis);
}

/// As long as a view runs, it is the view that it was: the connection, the session, the viewport
/// and the engine are those of its start.
pub proof fn law_running_view_stays_the_same(
    running: Preview,
    input: PreviewInput,
    around: Surroundings,
    millis: u64,
)
    ensures
        ({
            let after = (PreviewLoop { phase: PreviewPhase::Streaming(running) }).stepped(
                input,
                around,
                millis,
            );
            &&& !(after.phase is Starting)
            &&& after.phase matches PreviewPhase::Streaming(same) ==> same == running
        }),
{
}

/// Images come from nowhere else: whatever is kept for viewers that come later is the message of an
/// image that the browser sent to a running view while nothing was recorded, with that view's
/// viewport.
pub proof fn law_only_images_are_kept(
    preview: PreviewLoop,
    input: PreviewInput,
    around: Surroundings,
    millis: u64,
    i: int,
)
    requires
        awaits(preview.phase, input),
        0 <= i < preview.stepped(input, around, millis).effects.len(),
        preview.stepped(input, around, millis).effects[i] is KeepFrame,
    ensures
        ({
            let kept = preview.stepped(input, around, millis).effects[i]->KeepFrame_0;
            &&& !around.recording
            &&& preview.phase matches PreviewPhase::Streaming(running)
            &&& input matches PreviewInput::Event { event, .. }
            &&& event.method@ == "Page.screencastFrame"@
            &&& given_text(json_of(event.params), "data"@) matches Some(data)
            &&& says_image(
                kept,
                data,
                given(json_of(event.params), "metadata"@),
                running.width,
                running.height,
            )
        }),
{
    if let PreviewPhase::Streaming(running) = preview.phase {
        if let PreviewInput::Event { event, console_text } = input {
            if event.method@ == "Page.screencastFrame"@ && !around.recording {
                law_image_names_the_viewport(running, event, console_text, around, millis);
            }
        }
    }
}

/// A page that has loaded gets its screencast anew where the engine is Chrome: after a quarter of a
/// second the one that runs is stopped, one of the same session and size is started, and it is said
/// to run. For any other engine nothing is done.
pub proof fn law_loaded_page_is_shown_anew(
    running: Preview,
    event: CdpEvent,
    console_text: String,
    around: Surroundings,
    millis: u64,
)
    requires
        event.method@ == "Page.frameStoppedLoading"@,
        !around.recording,
    ensures
        ({
            let after = (PreviewLoop { phase: PreviewPhase::Streaming(running) }).stepped(
                PreviewInput::Event { event, console_text },
                around,
                millis,
            );
            &&& runs_on(after, running)
            &&& running.engine@ == "chrome"@ ==> after.effects =~= seq![
                PreviewEffectView::Sleep(250),
                PreviewEffectView::StopScreencast { session_id: text_of(running.session_id) },
                PreviewEffectView::StartScreencast {
                    session_id: text_of(running.session_id),
                    width: running.width,
                    height: running.height,
                },
                PreviewEffectView::SetScreencasting(true),
            ]
            &&& running.engine@ != "chrome"@ ==> after.effects =~= seq![]
        }),
{
}

/// The address that the event says the page itself has gone to: that of a frame with no parent.
pub open spec fn given_address(document: JsonView) -> Option<Seq<char>> {
    match given(document, "frame"@) {
        Some(frame) => match given_text(frame, "parentId"@) {
            Some(parent) => if parent.len() == 0 {
                given_text(frame, "url"@)
            } else {
                None
            },
            None => given_text(frame, "url"@),
        },
        None => None,
    }
}

/// When the page itself has gone to an address, the tabs get it and the viewers are told of it,
/// with the time. A frame within the page, or an event without an address, changes nothing.
pub proof fn law_viewers_follow_the_address(
    running: Preview,
    event: CdpEvent,
    console_text: String,
    around: Surroundings,
    millis: u64,
)
    requires
        event.method@ == "Page.frameNavigated"@,
        !around.recording,
    ensures
        ({
            let after = (PreviewLoop { phase: PreviewPhase::Streaming(running) }).stepped(
                PreviewInput::Event { event, console_text },
                around,
                millis,
            );
            let address = given_address(json_of(event.params));
            &&& runs_on(after, running)
            &&& address is None ==> after.effects =~= seq![]
            &&& address is Some ==> {
                &&& after.effects.len() == 2
                &&& after.effects[0] == PreviewEffectView::UpdateTabs(address->0)
                &&& after.effects[1] matches PreviewEffectView::Broadcast(message)
                &&& says_url(message, address->0, millis)
            }
        }),
{
    lemma_methods();
    let document = json_of(event.params);
    assert(document.member("frame"@) == given(document, "frame"@));
    if let Some(frame) = given(document, "frame"@) {
        assert(frame.text_member("parentId"@) == given_text(frame, "parentId"@));
        assert(frame.text_member("url"@) == given_text(frame, "url"@));
    }
    if let Some(url) = given_address(document) {
        law_other_messages_say_what_they_are_about(
            url,
            seq![],
            seq![],
            seq![],
            None,
            None,
            millis,
        );
        assert(says_url(crate::json::json_text(url_document(url, millis)), url, millis));
    }
}

/// What the page writes to its console goes to the viewers: what was written, the kind of the call,
/// which is `log` where it gives none, the arguments, and the time. A call that wrote nothing is
/// passed over.
pub proof fn law_viewers_see_the_console(
    running: Preview,
    event: CdpEvent,
    console_text: String,
    around: Surroundings,
    millis: u64,
)
    requires
        event.method@ == "Runtime.consoleAPICalled"@,
        !around.recording,
    ensures
        ({
            let after = (PreviewLoop { phase: PreviewPhase::Streaming(running) }).stepped(
                PreviewInput::Event { event, console_text },
                around,
                millis,
            );
            let document = json_of(event.params);
            let level = match given_text(document, "type"@) {
                Some(level) => level,
                None => "log"@,
            };
            let args = match given(document, "args"@) {
                Some(JsonView::Array(items)) => items,
                _ => Seq::empty(),
            };
            &&& runs_on(after, running)
            &&& console_text@.len() == 0 ==> after.effects =~= seq![]
            &&& console_text@.len() > 0 ==> {
                &&& after.effects.len() == 1
                &&& after.effects[0] matches PreviewEffectView::Broadcast(message)
                &&& says_console(message, level, console_text@, args, millis)
            }
        }),
{
    lemma_methods();
    let document = json_of(event.params);
    let level = match given_text(document, "type"@) {
        Some(level) => level,
        None => "log"@,
    };
    let args = match given(document, "args"@) {
        Some(JsonView::Array(items)) => items,
        _ => Seq::empty(),
    };
    assert(document.text_member("type"@) == given_text(document, "type"@));
    assert(document.member("args"@) == given(document, "args"@));
    law_other_messages_say_what_they_are_about(
        seq![],
        level,
        console_text@,
        args,
        None,
        None,
        millis,
    );
    assert(says_console(
        crate::json::json_text(console_document(level, console_text@, args, millis)),
        level,
        console_text@,
        args,
        millis,
    ));
}

/// What the event says of an error: how it is described, else its text, else that it is unknown.
pub open spec fn given_error(document: JsonView) -> Seq<char> {
    let details = match given(document, "exceptionDetails"@) {
        Some(details) => details,
        None => JsonView::Null,
    };
    let exception = match given(details, "exception"@) {
        Some(exception) => exception,
        None => JsonView::Null,
    };
    match given_text(exception, "description"@) {
        Some(text) => text,
        None => match given_text(details, "text"@) {
            Some(text) => text,
            None => "Unknown error"@,
        },
    }
}

/// `place` is the integer that the event gives for an error under `key`, if it gives one.
pub open spec fn is_place(place: Option<i64>, document: JsonView, key: Seq<char>) -> bool {
    let number = match given(document, "exceptionDetails"@) {
        Some(details) => given_integer(details, key),
        None => None,
    };
    match place {
        Some(place) => number == Some(place as int),
        None => number is None,
    }
}

/// An error of the page goes to the viewers: what the browser says of it, its line and its column,
/// each where it is given, and the time.
pub proof fn law_viewers_see_errors(
    running: Preview,
    event: CdpEvent,
    console_text: String,
    around: Surroundings,
    millis: u64,
    line: Option<i64>,
    column: Option<i64>,
)
    requires
        event.method@ == "Runtime.exceptionThrown"@,
        !around.recording,
        is_place(line, json_of(event.params), "lineNumber"@),
        is_place(column, json_of(event.params), "columnNumber"@),
    ensures
        ({
            let after = (PreviewLoop { phase: PreviewPhase::Streaming(running) }).stepped(
                PreviewInput::Event { event, console_text },
                around,
                millis,
            );
            &&& runs_on(after, running)
            &&& after.effects.len() == 1
            &&& after.effects[0] matches PreviewEffectView::Broadcast(message)
            &&& says_error(message, given_error(json_of(event.params)), line, column, millis)
        }),
{
    lemma_methods();
    let document = json_of(event.params);
    let text = given_error(document);
    assert(document.member("exceptionDetails"@) == given(document, "exceptionDetails"@));
    if let Some(details) = given(document, "exceptionDetails"@) {
        assert(details.member("exception"@) == given(details, "exception"@));
        assert(details.text_member("text"@) == given_text(details, "text"@));
        assert(details.member("lineNumber"@) == given(details, "lineNumber"@));
        assert(details.member("columnNumber"@) == given(details, "columnNumber"@));
        if let Some(exception) = given(details, "exception"@) {
            assert(exception.text_member("description"@) == given_text(
                exception,
                "description"@,
            ));
        }
    }
    law_other_messages_say_what_they_are_about(seq![], seq![], text, seq![], line, column, millis);
    assert(says_error(
        crate::json::json_text(page_error_document(text, line, column, millis)),
        text,
        line,
        column,
        millis,
    ));
}

/// Events of any other kind are passed over.
pub proof fn law_other_events_of_the_page_are_passed_over(
    running: Preview,
    event: CdpEvent,
    console_text: String,
    around: Surroundings,
    millis: u64,
)
    requires
        event.method@ != "Page.frameStoppedLoading"@,
        event.method@ != "Page.frameNavigated"@,
        event.method@ != "Page.screencastFrame"@,
        event.method@ != "Runtime.consoleAPICalled"@,
        event.method@ != "Runtime.exceptionThrown"@,
        !around.recording,
    ensures
        ({
            let after = (PreviewLoop { phase: PreviewPhase::Streaming(running) }).stepped(
                PreviewInput::Event { event, console_text },
                around,
                millis,
            );
            runs_on(after, running) && after.effects =~= seq![]
        }),
{
}

/// A running view that gets any event while a recording supplies the images makes way for it: it
/// says that no screencast of its own runs and that something has changed, and does nothing about
/// the event.
pub proof fn law_running_view_makes_way_for_a_recording(
    running: Preview,
    event: CdpEvent,
    console_text: String,
    around: Surroundings,
    millis: u64,
)
    requires
        around.recording,
    ensures
        ({
            let after = (PreviewLoop { phase: PreviewPhase::Streaming(running) }).stepped(
                PreviewInput::Event { event, console_text },
                around,
                millis,
            );
            &&& rests(after)
            &&& after.effects =~= seq![
                PreviewEffectView::SetScreencasting(false),
                PreviewEffectView::Notify,
            ]
        }),
{
}

/// Only an active tab gets the address, as one member more or in the place of the one that it had;
/// all other members stay, and so does every other tab.
pub proof fn law_only_active_tabs_are_moved(tab: JsonView, url: Seq<char>, key: Seq<char>)
    ensures
        given(tab, "active"@) == Some(JsonView::Bool(true)) ==> {
            &&& tab_moved(tab, url) is Object
            &&& given(tab_moved(tab, url), "url"@) == Some(JsonView::Str(url))
            &&& key != "url"@ ==> given(tab_moved(tab, url), key) == given(tab, key)
        },
        given(tab, "active"@) != Some(JsonView::Bool(true)) ==> tab_moved(tab, url) == tab,
{
    assert(tab.member("active"@) == given(tab, "active"@));
}

/// Whatever the view waits for, it takes all that may come of it; it takes nothing only once it is
/// over.
pub proof fn law_view_takes_what_it_waits_for(
    preview: PreviewLoop,
    input: PreviewInput,
    around: Surroundings,
    millis: u64,
    change: ShutdownChange,
    event: CdpEvent,
    console_text: String,
    any: PreviewInput,
)
    requires
        awaits(preview.phase, input),
    ensures
        awaits(PreviewPhase::Idle, PreviewInput::Shutdown(change)),
        awaits(PreviewPhase::Idle, PreviewInput::Notified),
        ({
            let after = preview.stepped(input, around, millis);
            match after.next {
                PreviewNext::AwaitNotice => {
                    &&& awaits(after.phase, PreviewInput::Shutdown(change))
                    &&& awaits(after.phase, PreviewInput::Notified)
                },
                PreviewNext::LookAgain => awaits(after.phase, PreviewInput::Started),
                PreviewNext::AwaitEvent => {
                    &&& awaits(after.phase, PreviewInput::Shutdown(change))
                    &&& awaits(after.phase, PreviewInput::Notified)
                    &&& awaits(after.phase, PreviewInput::Event { event, console_text })
                    &&& awaits(after.phase, PreviewInput::Lagged)
                    &&& awaits(after.phase, PreviewInput::Closed)
                },
                PreviewNext::Return => after.phase is Ended && !awaits(after.phase, any),
            }
        }),
{
}

/// The model of what the view wants done is what it wants done: each part stands under its own
/// name.
pub proof fn law_model_of_an_effect_is_the_effect(
    session_id: Option<String>,
    width: u32,
    height: u32,
    frame_session: i64,
    millis: u64,
    on: bool,
    text: String,
)
    ensures
        PreviewEffect::Subscribe@ is Subscribe,
        (PreviewEffect::StopScreencast { session_id })@ == (PreviewEffectView::StopScreencast {
            session_id: text_of(session_id),
        }),
        (PreviewEffect::StartScreencast { session_id, width, height })@ == (
        PreviewEffectView::StartScreencast { session_id: text_of(session_id), width, height }),
        (PreviewEffect::Acknowledge { session_id, frame_session })@ == (
        PreviewEffectView::Acknowledge { session_id: text_of(session_id), frame_session }),
        PreviewEffect::Sleep(millis)@ == PreviewEffectView::Sleep(millis),
        PreviewEffect::SetScreencasting(on)@ == PreviewEffectView::SetScreencasting(on),
        PreviewEffect::Broadcast(text)@ == PreviewEffectView::Broadcast(text@),
        PreviewEffect::KeepFrame(text)@ == PreviewEffectView::KeepFrame(text@),
        PreviewEffect::UpdateTabs(text)@ == PreviewEffectView::UpdateTabs(text@),
        PreviewEffect::Notify@ is Notify,
{
}

/// A step that has come out as it should has come out so in all: in what is waited for, in each
/// thing that is done and in their order, and in what is wanted.
pub proof fn law_step_of_the_view_comes_out_in_all(
    phase: PreviewPhase,
    step: PreviewStep,
    state: PreviewState,
    i: int,
)
    requires
        reaches(phase, step, state),
    ensures
        phase == state.phase,
        step.next == state.next,
        step.effects@.len() == state.effects.len(),
        0 <= i < state.effects.len() ==> step.effects@[i]@ == state.effects[i],
{
}

} // verus!
