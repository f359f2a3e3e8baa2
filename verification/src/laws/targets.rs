//! Which events are about the recorded page.
use crate::cdp::CdpEvent;
use crate::json::JsonView;
use crate::laws::capture::lemma_methods;
use crate::laws::frames::{given, given_text};
use crate::recording::targets::{event_names, names_no_parent, navigation_ready, target_lost};
use crate::text::text_of;
use vstd::prelude::*;

verus! {

/// A frame is the main frame exactly where the text of its parent is missing or empty; the event
/// that it has navigated is about the main frame where it speaks of that one or of none; and a load
/// event always is. No other event is.
pub proof fn law_navigation_is_of_the_main_frame(event: CdpEvent, frame: JsonView)
    ensures
        names_no_parent(frame) <==> (match given_text(frame, "parentId"@) {
            Some(parent) => parent.len() == 0,
            None => true,
        }),
        event.method@ == "Page.loadEventFired"@ ==> navigation_ready(event),
        event.method@ == "Page.frameNavigated"@ && given(event.document(), "frame"@) is None
            ==> navigation_ready(event),
        event.method@ == "Page.frameNavigated"@ && given(event.document(), "frame"@) == Some(frame)
            ==> (navigation_ready(event) <==> names_no_parent(frame)),
        event.method@ != "Page.loadEventFired"@ && event.method@ != "Page.frameNavigated"@
            ==> !navigation_ready(event),
{
    lemma_methods();
    assert(frame.text_member("parentId"@) == given_text(frame, "parentId"@));
    assert(event.document().member("frame"@) == given(event.document(), "frame"@));
}

/// An event names a value where it has that method and the text under that field is the value;
/// where no value is expected it names none.
pub proof fn law_event_names_its_field(
    event: CdpEvent,
    method: Seq<char>,
    field: Seq<char>,
    value: Seq<char>,
)
    ensures
        event_names(event, method, field, Some(value)) <==> event.method@ == method && given_text(
            event.document(),
            field,
        ) == Some(value),
        !event_names(event, method, field, None),
{
    assert(event.document().text_member(field) == given_text(event.document(), field));
}

/// The recorded page is lost where its session was told that it is detached, where the browser says
/// that it detached that session, and where the recorded target was destroyed; and never otherwise.
pub proof fn law_page_is_lost_with_its_session_or_target(
    event: CdpEvent,
    session_id: Seq<char>,
    target_id: Option<Seq<char>>,
)
    ensures
        target_lost(event, session_id, target_id) <==> {
            ||| event.method@ == "Target.detachedFromTarget"@ && (text_of(event.session_id) == Some(
                session_id,
            ) || given_text(event.document(), "sessionId"@) == Some(session_id))
            ||| event.method@ == "Target.targetDestroyed"@ && target_id is Some && given_text(
                event.document(),
                "targetId"@,
            ) == target_id
        },
{
    assert(event.document().text_member("sessionId"@) == given_text(
        event.document(),
        "sessionId"@,
    ));
    assert(event.document().text_member("targetId"@) == given_text(event.document(), "targetId"@));
}

} // verus!
