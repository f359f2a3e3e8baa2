//! Which events concern the recorded target, and which target takes its place when it is gone.
use crate::cdp::{CdpEvent, TargetInfo};
use crate::json;
use crate::text::{same_text, slice_of, text_of};
use vstd::prelude::*;

verus! {

/// The event announces that a frame of the page began to load.
pub fn is_main_frame_load_start(event: &CdpEvent) -> (yes: bool)
    ensures
        yes == (event.method@ == "Page.frameStartedLoading"@ && event.document().text_member(
            "frameId"@,
        ) is Some),
{
    if !same_text(event.method.as_str(), "Page.frameStartedLoading") {
        return false;
    }
    match json::member(&event.params, "frameId") {
        Some(frame_id) => json::as_text(frame_id).is_some(),
        None => false,
    }
}

/// The frame that an event speaks of has no parent: it is absent, unnamed or empty.
pub open spec fn names_no_parent(frame: crate::json::JsonView) -> bool {
    match frame.text_member("parentId"@) {
        Some(parent) => parent.len() == 0,
        None => true,
    }
}

/// A frame without a parent is the main frame of its page.
pub fn is_main_frame(frame: &serde_json::Value) -> (yes: bool)
    ensures
        yes == names_no_parent(crate::json::json_of(*frame)),
{
    match json::member(frame, "parentId") {
        Some(parent) => match json::as_text(parent) {
            Some(parent) => parent.is_empty(),
            None => true,
        },
        None => true,
    }
}

/// The event says that the main frame shows its new document.
pub open spec fn navigation_ready(event: CdpEvent) -> bool {
    if event.method@ == "Page.frameNavigated"@ {
        match event.document().member("frame"@) {
            Some(frame) => names_no_parent(frame),
            None => true,
        }
    } else {
        event.method@ == "Page.loadEventFired"@
    }
}

pub fn is_main_frame_navigation_ready(event: &CdpEvent) -> (yes: bool)
    ensures
        yes == navigation_ready(*event),
{
    if same_text(event.method.as_str(), "Page.frameNavigated") {
        match json::member(&event.params, "frame") {
            Some(frame) => is_main_frame(frame),
            None => true,
        }
    } else {
        same_text(event.method.as_str(), "Page.loadEventFired")
    }
}

/// The event is a `method` whose parameter `field` is the string `expected`.
pub open spec fn event_names(
    event: CdpEvent,
    method: Seq<char>,
    field: Seq<char>,
    expected: Option<Seq<char>>,
) -> bool {
    &&& event.method@ == method
    &&& expected is Some
    &&& event.document().text_member(field) == expected
}

pub fn target_event_matches(
    event: &CdpEvent,
    method: &str,
    field: &str,
    expected: Option<&str>,
) -> (yes: bool)
    ensures
        yes == event_names(*event, method@, field@, slice_of(expected)),
{
    if !same_text(event.method.as_str(), method) {
        return false;
    }
    match expected {
        Some(expected) => match json::member(&event.params, field) {
            Some(value) => match json::as_text(value) {
                Some(text) => same_text(text, expected),
                None => false,
            },
            None => false,
        },
        None => false,
    }
}

/// The event says that the recorded session or its target is gone: the session itself is told
/// that it was detached, the browser says that it detached the session, or the target was
/// destroyed.
pub open spec fn target_lost(
    event: CdpEvent,
    session_id: Seq<char>,
    target_id: Option<Seq<char>>,
) -> bool {
    ||| text_of(event.session_id) == Some(session_id) && event.method@
        == "Target.detachedFromTarget"@
    ||| event_names(event, "Target.detachedFromTarget"@, "sessionId"@, Some(session_id))
    ||| event_names(event, "Target.targetDestroyed"@, "targetId"@, target_id)
}

pub fn should_recover_recording_target(
    event: &CdpEvent,
    session_id: &str,
    target_id: Option<&str>,
) -> (yes: bool)
    ensures
        yes == target_lost(*event, session_id@, slice_of(target_id)),
{
    let own_session = match &event.session_id {
        Some(event_session_id) => same_text(event_session_id.as_str(), session_id),
        None => false,
    };
    (own_session && same_text(event.method.as_str(), "Target.detachedFromTarget"))
        || target_event_matches(event, "Target.detachedFromTarget", "sessionId", Some(session_id))
        || target_event_matches(event, "Target.targetDestroyed", "targetId", target_id)
}

/// The target can take the place of `current`: the user sees it as a page, and it is another.
pub open spec fn is_candidate(target: TargetInfo, current: Option<Seq<char>>) -> bool {
    target.trackable && current != Some(target.target_id@)
}

/// The target lives in the wanted browser context, where one is wanted.
pub open spec fn in_context(target: TargetInfo, context: Option<Seq<char>>) -> bool {
    context is None || text_of(target.browser_context_id) == context
}

/// `i` is the place of the first candidate, or of the first one in the wanted context.
pub open spec fn is_first_candidate(
    targets: Seq<TargetInfo>,
    current: Option<Seq<char>>,
    context: Option<Seq<char>>,
    i: int,
) -> bool {
    &&& 0 <= i < targets.len()
    &&& is_candidate(targets[i], current)
    &&& in_context(targets[i], context)
    &&& forall|j: int|
        0 <= j < i ==> !(is_candidate(#[trigger] targets[j], current) && in_context(
            targets[j],
            context,
        ))
}

/// The place of the target that takes over: the first candidate in the wanted context, else
/// the first candidate.
pub open spec fn replacement_index(
    targets: Seq<TargetInfo>,
    current: Option<Seq<char>>,
    context: Option<Seq<char>>,
) -> Option<int> {
    if exists|i: int| is_first_candidate(targets, current, context, i) {
        Some(choose|i: int| is_first_candidate(targets, current, context, i))
    } else if exists|i: int| is_first_candidate(targets, current, None, i) {
        Some(choose|i: int| is_first_candidate(targets, current, None, i))
    } else {
        None
    }
}

fn first_candidate(
    targets: &Vec<TargetInfo>,
    current_target_id: Option<&str>,
    browser_context_id: Option<&str>,
) -> (place: Option<usize>)
    ensures
        match place {
            Some(i) => is_first_candidate(
                targets@,
                slice_of(current_target_id),
                slice_of(browser_context_id),
                i as int,
            ),
            None => forall|i: int|
                !is_first_candidate(
                    targets@,
                    slice_of(current_target_id),
                    slice_of(browser_context_id),
                    i,
                ),
        },
{
    let mut i: usize = 0;
    while i < targets.len()
        invariant
            i <= targets.len(),
            forall|j: int|
                0 <= j < i ==> !(is_candidate(
                    #[trigger] targets@[j],
                    slice_of(current_target_id),
                ) && in_context(targets@[j], slice_of(browser_context_id))),
        decreases targets.len() - i,
    {
        let target = &targets[i];
        let other = match current_target_id {
            Some(current) => !same_text(target.target_id.as_str(), current),
            None => true,
        };
        let here = match browser_context_id {
            Some(wanted) => match &target.browser_context_id {
                Some(context) => same_text(context.as_str(), wanted),
                None => false,
            },
            None => true,
        };
        if target.trackable && other && here {
            return Some(i);
        }
        i = i + 1;
    }
    None
}

/// Chooses the target that takes over from `current_target_id`.
pub fn choose_replacement_target(
    targets: Vec<TargetInfo>,
    current_target_id: Option<&str>,
    browser_context_id: Option<&str>,
) -> (chosen: Option<TargetInfo>)
    ensures
        match replacement_index(
            targets@,
            slice_of(current_target_id),
            slice_of(browser_context_id),
        ) {
            Some(i) => 0 <= i < targets@.len() && chosen == Some(targets@[i]),
            None => chosen is None,
        },
        chosen is None <==> forall|i: int|
            0 <= i < targets@.len() ==> !is_candidate(
                #[trigger] targets@[i],
                slice_of(current_target_id),
            ),
{
    let mut targets = targets;
    let preferred = first_candidate(&targets, current_target_id, browser_context_id);
    let any = first_candidate(&targets, current_target_id, None);
    let place = if preferred.is_some() { preferred } else { any };
    proof {
        lemma_first_exists(targets@, slice_of(current_target_id));
    }
    match place {
        Some(i) => {
            proof {
                let p = replacement_index(
                    targets@,
                    slice_of(current_target_id),
                    slice_of(browser_context_id),
                );
                assert(p == Some(i as int));
            }
            Some(targets.swap_remove(i))
        },
        None => None,
    }
}

/// Where there is a candidate at all there is a first one.
pub proof fn lemma_first_exists(targets: Seq<TargetInfo>, current: Option<Seq<char>>)
    ensures
        (exists|i: int| is_first_candidate(targets, current, None, i)) <==> (exists|i: int|
            0 <= i < targets.len() && is_candidate(#[trigger] targets[i], current)),
    decreases targets.len(),
{
    if exists|i: int| 0 <= i < targets.len() && is_candidate(#[trigger] targets[i], current) {
        if targets.len() > 0 {
            let front = targets.drop_last();
            lemma_first_exists(front, current);
            if exists|i: int| is_first_candidate(front, current, None, i) {
                let i = choose|i: int| is_first_candidate(front, current, None, i);
                assert forall|j: int| 0 <= j < i implies !(is_candidate(
                    #[trigger] targets[j],
                    current,
                ) && in_context(targets[j], None)) by {
                    assert(targets[j] == front[j]);
                }
                assert(targets[i] == front[i]);
                assert(is_first_candidate(targets, current, None, i));
            } else {
                let last = targets.len() - 1;
                assert forall|j: int| 0 <= j < last implies !(is_candidate(
                    #[trigger] targets[j],
                    current,
                ) && in_context(targets[j], None)) by {
                    assert(targets[j] == front[j]);
                }
                assert(is_first_candidate(targets, current, None, last));
            }
        }
    }
}

} // verus!
