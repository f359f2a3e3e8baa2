//! On which page a session is opened, and by which requests.
use crate::cdp::TargetInfo;
use crate::recording::attach::{
    answers, replacement_attempt, request_of, wanted_attempt, Attach, AttachOutcome, AttachPhase,
    ReplacementTarget, Reply,
};
use crate::recording::commands::BrowserRequest;
use crate::recording::targets::{is_first_candidate, replacement_index};
use crate::text::text_of;
use vstd::prelude::*;

verus! {

/// The target is a page that the user sees, and another one than `current`.
pub open spec fn is_other_page(target: TargetInfo, current: Option<String>) -> bool {
    target.trackable && (current is None || target.target_id@ != current->0@)
}

/// The target is in the browser context `context`.
pub open spec fn is_in(target: TargetInfo, context: String) -> bool {
    target.browser_context_id is Some && target.browser_context_id->0@ == context@
}

/// `i` is the place of the first of the other pages in the browser context.
pub open spec fn is_first_page_in(
    targets: Seq<TargetInfo>,
    current: Option<String>,
    context: String,
    i: int,
) -> bool {
    &&& 0 <= i < targets.len()
    &&& is_other_page(targets[i], current)
    &&& is_in(targets[i], context)
    &&& forall|j: int|
        0 <= j < i ==> !(is_other_page(#[trigger] targets[j], current) && is_in(
            targets[j],
            context,
        ))
}

/// `i` is the place of the first of the other pages.
pub open spec fn is_first_page(targets: Seq<TargetInfo>, current: Option<String>, i: int) -> bool {
    &&& 0 <= i < targets.len()
    &&& is_other_page(targets[i], current)
    &&& forall|j: int| 0 <= j < i ==> !is_other_page(#[trigger] targets[j], current)
}

/// The page that takes over is the first other one in the wanted browser context; where there is
/// none in it, or no context is wanted, the first other one; and there is none only where no
/// other page was listed.
pub proof fn law_page_of_the_context_takes_over(
    targets: Seq<TargetInfo>,
    current: Option<String>,
    context: Option<String>,
    i: int,
)
    ensures
        context is Some && is_first_page_in(targets, current, context->0, i) ==> replacement_index(
            targets,
            text_of(current),
            text_of(context),
        ) == Some(i),
        is_first_page(targets, current, i) && (context is None || forall|j: int|
            0 <= j < targets.len() ==> !(is_other_page(#[trigger] targets[j], current) && is_in(
                targets[j],
                context->0,
            ))) ==> replacement_index(targets, text_of(current), text_of(context)) == Some(i),
        (forall|j: int| 0 <= j < targets.len() ==> !is_other_page(#[trigger] targets[j], current))
            ==> replacement_index(targets, text_of(current), text_of(context)) is None,
{
    let cur = text_of(current);
    let ctx = text_of(context);
    if context is Some && is_first_page_in(targets, current, context->0, i) {
        assert(is_first_candidate(targets, cur, ctx, i));
        let p = choose|p: int| is_first_candidate(targets, cur, ctx, p);
        assert(is_first_candidate(targets, cur, ctx, p));
        assert(!(p < i) && !(i < p));
    }
    if is_first_page(targets, current, i) {
        assert(is_first_candidate(targets, cur, None, i));
        let p = choose|p: int| is_first_candidate(targets, cur, None, p);
        assert(is_first_candidate(targets, cur, None, p));
        assert(!(p < i) && !(i < p));
        if exists|q: int| is_first_candidate(targets, cur, ctx, q) {
            let q = choose|q: int| is_first_candidate(targets, cur, ctx, q);
            assert(is_other_page(targets[q], current));
        }
    }
    if forall|j: int| 0 <= j < targets.len() ==> !is_other_page(#[trigger] targets[j], current) {
        if exists|q: int| is_first_candidate(targets, cur, ctx, q) {
            let q = choose|q: int| is_first_candidate(targets, cur, ctx, q);
            assert(is_other_page(targets[q], current));
        }
        if exists|q: int| is_first_candidate(targets, cur, None, q) {
            let q = choose|q: int| is_first_candidate(targets, cur, None, q);
            assert(is_other_page(targets[q], current));
        }
    }
}

/// Each request asks for what its phase is about.
pub proof fn law_requests_of_an_attempt(target_id: String, session_id: String)
    ensures
        request_of(AttachPhase::Listing) == BrowserRequest::ListTargets,
        request_of(AttachPhase::Attaching { target_id }) == (BrowserRequest::Attach { target_id }),
        request_of(AttachPhase::Enabling { target_id, session_id }) == (BrowserRequest::EnablePage {
            session_id,
        }),
        request_of(AttachPhase::Starting { target_id, session_id })
            == (BrowserRequest::StartScreencast { session_id }),
{
}

/// An attempt to take over from `current` first asks for the targets. When some other page in the
/// wanted browser context is listed, it opens a session on the first such page, and else on the
/// first other page; it has the page events of that session sent, starts its screencast, and hands
/// that very session on.
pub proof fn law_replacement_is_opened(
    current: Option<String>,
    context: Option<String>,
    targets: Vec<TargetInfo>,
    i: int,
    session_id: String,
    enabled: serde_json::Value,
    started: serde_json::Value,
)
    requires
        context is Some && is_first_page_in(targets@, current, context->0, i) || is_first_page(
            targets@,
            current,
            i,
        ) && (context is None || forall|j: int|
            0 <= j < targets@.len() ==> !(is_other_page(#[trigger] targets@[j], current) && is_in(
                targets@[j],
                context->0,
            ))),
    ensures
        ({
            let target_id = targets@[i].target_id;
            let listing = replacement_attempt(current, context);
            let attaching = Attach { phase: AttachPhase::Attaching { target_id }, ..listing };
            let enabling = Attach {
                phase: AttachPhase::Enabling { target_id, session_id },
                ..listing
            };
            let starting = Attach {
                phase: AttachPhase::Starting { target_id, session_id },
                ..listing
            };
            &&& request_of(listing.phase) == BrowserRequest::ListTargets
            &&& listing.outcome(Reply::Targets(targets)) == AttachOutcome::Ask(attaching)
            &&& attaching.outcome(Reply::Session(session_id)) == AttachOutcome::Ask(enabling)
            &&& enabling.outcome(Reply::Document(enabled)) == AttachOutcome::Ask(starting)
            &&& starting.outcome(Reply::Document(started)) == AttachOutcome::Opened(
                ReplacementTarget { target_id, session_id },
            )
        }),
{
    law_page_of_the_context_takes_over(targets@, current, context, i);
}

/// An attempt on a wanted target opens a session on that one, and when the browser refuses the
/// session or its page events, goes on exactly as an attempt to take over from the current target
/// in the same browser context.
pub proof fn law_wanted_target_is_tried_first(
    wanted: String,
    current: Option<String>,
    context: Option<String>,
    session_id: String,
    why: String,
    enabled: serde_json::Value,
    started: serde_json::Value,
)
    ensures
        ({
            let attaching = wanted_attempt(Some(wanted), current, context);
            let enabling = Attach {
                phase: AttachPhase::Enabling { target_id: wanted, session_id },
                ..attaching
            };
            let starting = Attach {
                phase: AttachPhase::Starting { target_id: wanted, session_id },
                ..attaching
            };
            let instead = replacement_attempt(current, context);
            &&& request_of(attaching.phase) == (BrowserRequest::Attach { target_id: wanted })
            &&& attaching.outcome(Reply::Session(session_id)) == AttachOutcome::Ask(enabling)
            &&& enabling.outcome(Reply::Document(enabled)) == AttachOutcome::Ask(starting)
            &&& starting.outcome(Reply::Document(started)) == AttachOutcome::Opened(
                ReplacementTarget { target_id: wanted, session_id },
            )
            &&& attaching.outcome(Reply::Failed(why)) == AttachOutcome::Ask(instead)
            &&& enabling.outcome(Reply::Failed(why)) == AttachOutcome::Ask(instead)
            &&& starting.outcome(Reply::Failed(why)) == AttachOutcome::Failed
        }),
        wanted_attempt(None, current, context) == replacement_attempt(current, context),
{
}

/// An attempt without another target to try ends with the first failure, and one that wants no
/// screencast hands its session on once the page events are sent.
pub proof fn law_attempt_ends_with_a_failure(
    attempt: Attach,
    why: String,
    target_id: String,
    session_id: String,
    enabled: serde_json::Value,
)
    ensures
        !attempt.fallback ==> attempt.outcome(Reply::Failed(why)) == AttachOutcome::Failed,
        attempt.phase is Starting ==> attempt.outcome(Reply::Failed(why)) == AttachOutcome::Failed,
        !attempt.start && attempt.phase == (AttachPhase::Enabling { target_id, session_id })
            ==> attempt.outcome(Reply::Document(enabled)) == AttachOutcome::Opened(
            ReplacementTarget { target_id, session_id },
        ),
        replacement_attempt(attempt.current_target_id, attempt.browser_context_id).start,
        !replacement_attempt(attempt.current_target_id, attempt.browser_context_id).fallback,
{
}

/// No attempt is made on the current target in its own place: where every page that was listed is
/// the current one, none takes over.
pub proof fn law_no_other_page_no_session(
    current: Option<String>,
    context: Option<String>,
    targets: Vec<TargetInfo>,
)
    requires
        forall|j: int| 0 <= j < targets@.len() ==> !is_other_page(#[trigger] targets@[j], current),
    ensures
        replacement_attempt(current, context).outcome(Reply::Targets(targets))
            == AttachOutcome::Failed,
{
    law_page_of_the_context_takes_over(targets@, current, context, 0);
}

/// An attempt takes every answer that its request can have: the targets, the session or the
/// document that were asked for, and a failure. It takes no other.
pub proof fn law_attempt_takes_the_answer_to_its_request(
    target_id: String,
    session_id: String,
    reply: Reply,
)
    ensures
        answers(AttachPhase::Listing, reply) <==> reply is Targets || reply is Failed,
        answers(AttachPhase::Attaching { target_id }, reply) <==> reply is Session || reply
            is Failed,
        answers(AttachPhase::Enabling { target_id, session_id }, reply) <==> reply is Document
            || reply is Failed,
        answers(AttachPhase::Starting { target_id, session_id }, reply) <==> reply is Document
            || reply is Failed,
{
}

} // verus!
