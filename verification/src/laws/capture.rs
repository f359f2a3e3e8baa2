//! What a capture does about its page, its switches and its images.
use crate::cdp::{CdpEvent, TargetInfo};
use crate::json::{json_of, JsonView};
use crate::laws::attach::{
    is_first_page, is_first_page_in, is_in, is_other_page, law_no_other_page_no_session,
    law_replacement_is_opened,
};
use crate::laws::frames::{is_event_image, is_image, law_images_are_what_is_sent};
use crate::recording::attach::{answers, Attach, AttachOutcome, ReplacementTarget, Reply};
use crate::recording::capture::{
    awaits, begun_capture, CaptureInput, CaptureLoop, CaptureNext, CapturePhase, CaptureState,
};
use crate::recording::commands::BrowserRequest;
use crate::recording::control::RecordingControl;
use crate::recording::frames::{ScreencastFrame, Stamp};
use vstd::prelude::*;

verus! {

/// The methods of events differ.
pub proof fn lemma_methods()
    ensures
        "Page.loadEventFired"@ != "Page.frameNavigated"@,
        "Page.loadEventFired"@ != "Page.frameStoppedLoading"@,
        "Page.loadEventFired"@ != "Page.screencastFrame"@,
        "Page.loadEventFired"@ != "Target.detachedFromTarget"@,
        "Page.loadEventFired"@ != "Target.targetDestroyed"@,
        "Page.frameNavigated"@ != "Page.frameStoppedLoading"@,
        "Page.frameNavigated"@ != "Page.screencastFrame"@,
        "Page.frameNavigated"@ != "Target.detachedFromTarget"@,
        "Page.frameNavigated"@ != "Target.targetDestroyed"@,
        "Page.frameStoppedLoading"@ != "Page.screencastFrame"@,
        "Page.frameStoppedLoading"@ != "Target.detachedFromTarget"@,
        "Page.frameStoppedLoading"@ != "Target.targetDestroyed"@,
        "Page.screencastFrame"@ != "Target.detachedFromTarget"@,
        "Page.screencastFrame"@ != "Target.targetDestroyed"@,
        "Target.detachedFromTarget"@ != "Target.targetDestroyed"@,
        "Runtime.consoleAPICalled"@ != "Page.frameStoppedLoading"@,
        "Runtime.consoleAPICalled"@ != "Page.frameNavigated"@,
        "Runtime.consoleAPICalled"@ != "Page.screencastFrame"@,
        "Runtime.consoleAPICalled"@ != "Runtime.exceptionThrown"@,
        "Runtime.exceptionThrown"@ != "Page.frameStoppedLoading"@,
        "Runtime.exceptionThrown"@ != "Page.frameNavigated"@,
        "Runtime.exceptionThrown"@ != "Page.screencastFrame"@,
{
    reveal_strlit("Page.loadEventFired");
    reveal_strlit("Page.frameNavigated");
    reveal_strlit("Page.frameStoppedLoading");
    reveal_strlit("Page.screencastFrame");
    reveal_strlit("Target.detachedFromTarget");
    reveal_strlit("Target.targetDestroyed");
    reveal_strlit("Runtime.consoleAPICalled");
    reveal_strlit("Runtime.exceptionThrown");
    assert("Page.loadEventFired"@.len() == 19 && "Page.loadEventFired"@[5] == 'l');
    assert("Page.frameNavigated"@.len() == 19 && "Page.frameNavigated"@[5] == 'f');
    assert("Page.frameStoppedLoading"@.len() == 24 && "Page.frameStoppedLoading"@[0] == 'P');
    assert("Page.screencastFrame"@.len() == 20);
    assert("Target.detachedFromTarget"@.len() == 25);
    assert("Target.targetDestroyed"@.len() == 22);
    assert("Runtime.consoleAPICalled"@.len() == 24 && "Runtime.consoleAPICalled"@[0] == 'R');
    assert("Runtime.exceptionThrown"@.len() == 23);
}

/// The capture is to run, and no other target is asked for.
pub open spec fn undisturbed(control: RecordingControl) -> bool {
    control.capture_should_run && control.requested_target_id is None
}

/// The capture goes on to watch the session that it holds, and nothing has changed.
pub open spec fn watches_on(
    after: CaptureState,
    capture: CaptureLoop,
    control: RecordingControl,
) -> bool {
    &&& after.capture == (CaptureLoop { phase: CapturePhase::Watching, ..capture })
    &&& after.control == control
    &&& after.next is AwaitChangeOrEvent
}

/// The browser has answered, well or not.
pub open spec fn is_answer(input: CaptureInput) -> bool {
    input matches CaptureInput::Reply(reply) && (reply is Document || reply is Failed)
}

/// The event comes from the session `active`, or from none.
pub open spec fn is_own(event: CdpEvent, active: String) -> bool {
    event.session_id is None || event.session_id->0@ == active@
}

/// The event says that the main frame shows a new document, or has loaded.
pub open spec fn shows_document(event: CdpEvent) -> bool {
    ||| event.method@ == "Page.loadEventFired"@
    ||| event.method@ == "Page.frameStoppedLoading"@
    ||| event.method@ == "Page.frameNavigated"@ && (match event.document().member("frame"@) {
        Some(frame) => match frame.member("parentId"@) {
            Some(JsonView::Str(parent)) => parent.len() == 0,
            _ => true,
        },
        None => true,
    })
}

/// The event says that the session `active` or the target `target_id` is gone.
pub open spec fn loses(event: CdpEvent, active: String, target_id: Option<String>) -> bool {
    ||| event.method@ == "Target.detachedFromTarget"@ && (event.session_id is Some
        && event.session_id->0@ == active@)
    ||| event.method@ == "Target.detachedFromTarget"@ && event.document().member("sessionId"@)
        == Some(JsonView::Str(active@))
    ||| event.method@ == "Target.targetDestroyed"@ && target_id is Some && event.document().member(
        "targetId"@,
    ) == Some(JsonView::Str(target_id->0@))
}

/// What a capture does about its switches when nothing is pending. Where it is to run it watches
/// its session, or opens one on its target, else on another page in its browser context. Where it
/// is to stop it gives up its session, or says that it has stopped. Where another target is asked
/// for it gives up its session for that one, and follows it.
pub proof fn law_capture_obeys_its_switches(capture: CaptureLoop, control: RecordingControl)
    ensures
        ({
            let after = capture.idle(control);
            let untold = RecordingControl { requested_target_id: None, ..control };
            match control.requested_target_id {
                None => match (control.capture_should_run, capture.session_id) {
                    (true, Some(_)) => watches_on(after, capture, control),
                    (true, None) => {
                        &&& after.control == control
                        &&& after.capture == (CaptureLoop { phase: after.capture.phase, ..capture })
                        &&& after.capture.phase matches CapturePhase::Attaching(attempt)
                        &&& attempt.start
                        &&& attempt.fallback == capture.target_id is Some
                        &&& attempt.current_target_id == capture.target_id
                        &&& attempt.browser_context_id == capture.browser_context_id
                        &&& after.next == CaptureNext::Ask(
                            match capture.target_id {
                                Some(target_id) => BrowserRequest::Attach { target_id },
                                None => BrowserRequest::ListTargets,
                            },
                        )
                    },
                    (false, Some(session_id)) => {
                        &&& after.capture == (CaptureLoop {
                            phase: CapturePhase::SuspendingStop { session_id },
                            session_id: None,
                            ..capture
                        })
                        &&& after.control == (RecordingControl {
                            screencast_session_id: None,
                            ..control
                        })
                        &&& after.next == CaptureNext::Ask(
                            BrowserRequest::SuspendScreencast { session_id },
                        )
                    },
                    (false, None) => {
                        &&& after.capture == (CaptureLoop {
                            phase: CapturePhase::Suspended,
                            ..capture
                        })
                        &&& after.control == (RecordingControl {
                            capture_suspended: true,
                            ..control
                        })
                        &&& after.next is AwaitChangeOrEvent
                    },
                },
                Some(wanted) => if capture.target_id is Some && capture.target_id->0@ == wanted@ {
                    after == capture.idle(untold)
                } else {
                    match capture.session_id {
                        Some(session_id) => {
                            &&& after.capture == (CaptureLoop {
                                phase: CapturePhase::SwitchingStop {
                                    session_id,
                                    target_id: wanted,
                                },
                                session_id: None,
                                ..capture
                            })
                            &&& after.control == (RecordingControl {
                                screencast_session_id: None,
                                ..untold
                            })
                            &&& after.next == CaptureNext::Ask(
                                BrowserRequest::AbandonScreencast { session_id },
                            )
                        },
                        None => after == (CaptureLoop { target_id: Some(wanted), ..capture }).idle(
                            RecordingControl { capture_suspended: true, ..untold },
                        ),
                    }
                },
            }
        }),
{
}

/// After a first start, well or not, a pause, a change, lost events, a failed recovery, a
/// screenshot without an image and an image that was taken, the capture looks at its switches.
pub proof fn law_capture_looks_at_its_switches(
    capture: CaptureLoop,
    control: RecordingControl,
    input: CaptureInput,
)
    requires
        capture.well_formed(),
        match capture.phase {
            CapturePhase::Starting => is_answer(input),
            CapturePhase::BackingOff => input is Changed || input is Elapsed,
            CapturePhase::Suspended => input is Changed || input is Lagged || input is Event,
            CapturePhase::Watching => input is Changed || input is Lagged,
            CapturePhase::ReloadShot => is_answer(input),
            CapturePhase::Sending => input == CaptureInput::Sent(true),
            _ => false,
        },
    ensures
        awaits(capture.phase, input),
        capture.stepped(control, input, None) == capture.idle(control),
        capture.on_the_side(input) is None,
{
}

/// A capture ends when there will be no more events or nobody takes its images, and then alone.
pub proof fn law_capture_ends_with_its_events_or_its_recording(
    capture: CaptureLoop,
    control: RecordingControl,
    input: CaptureInput,
    frame: Option<ScreencastFrame>,
)
    requires
        capture.well_formed(),
        awaits(capture.phase, input),
    ensures
        ({
            let after = capture.stepped(control, input, frame);
            let over = input is Closed || input == CaptureInput::Sent(false);
            &&& after.next is Finish <==> over
            &&& after.capture.phase is Finished <==> over
            &&& over ==> after.control == control
        }),
        capture.phase is Watching || capture.phase is Suspended ==> awaits(
            capture.phase,
            CaptureInput::Closed,
        ),
        capture.phase is Sending ==> awaits(capture.phase, CaptureInput::Sent(false)),
{
}

/// When the watched page shows a new document or has loaded, the capture waits for it to draw,
/// stops the screencast of its session, starts the screencast of that same session again, whatever
/// came of the stop, and only then takes a screenshot in it, whatever came of the start. Where the
/// screenshot has an image, that is handed on.
pub proof fn law_loaded_page_is_captured_anew(
    capture: CaptureLoop,
    control: RecordingControl,
    session_id: String,
    event: CdpEvent,
    own_millis: u64,
    stopped: CaptureInput,
    started: CaptureInput,
    shot: CaptureInput,
    image: Option<ScreencastFrame>,
    frame: ScreencastFrame,
)
    requires
        capture.phase is Watching,
        capture.session_id == Some(session_id),
        is_own(event, session_id),
        shows_document(event),
        is_answer(stopped),
        is_answer(started),
        is_answer(shot),
    ensures
        ({
            let loaded = CaptureInput::Event { event, own_millis };
            let a = capture.stepped(control, loaded, image);
            let b = a.capture.stepped(control, CaptureInput::Elapsed, None);
            let c = b.capture.stepped(control, stopped, None);
            let d = c.capture.stepped(control, started, None);
            let e = d.capture.stepped(control, shot, Some(frame));
            &&& capture.on_the_side(loaded) is None
            &&& a.next == CaptureNext::Sleep(750)
            &&& awaits(a.capture.phase, CaptureInput::Elapsed)
            &&& b.next == CaptureNext::Ask(BrowserRequest::StopScreencast { session_id })
            &&& awaits(b.capture.phase, stopped)
            &&& c.next == CaptureNext::Ask(BrowserRequest::StartScreencast { session_id })
            &&& awaits(c.capture.phase, started)
            &&& d.next == CaptureNext::Ask(BrowserRequest::Screenshot { session_id })
            &&& awaits(d.capture.phase, shot)
            &&& d.capture.phase is ReloadShot
            &&& e.next == CaptureNext::Emit(frame)
            &&& awaits(e.capture.phase, CaptureInput::Sent(true))
            &&& a.control == control && b.control == control && c.control == control && d.control
                == control && e.control == control
            &&& e.capture == (CaptureLoop { phase: CapturePhase::Sending, ..capture })
        }),
{
    lemma_methods();
}

/// Only what stands between a stop and a screenshot is a start: a capture asks for a screenshot
/// only after the browser has answered to the start of the screencast of the session that it holds.
pub proof fn law_screenshot_follows_a_start(
    capture: CaptureLoop,
    control: RecordingControl,
    input: CaptureInput,
    frame: Option<ScreencastFrame>,
)
    requires
        capture.well_formed(),
        awaits(capture.phase, input),
    ensures
        ({
            let after = capture.stepped(control, input, frame);
            let before = capture.phase;
            &&& after.next matches CaptureNext::Ask(BrowserRequest::Screenshot { .. }) ==> before
                is ReloadStart
            &&& after.capture.phase is ReloadStart ==> before is ReloadStop && after.next
                == CaptureNext::Ask(
                BrowserRequest::StartScreencast { session_id: capture.session_id->0 },
            )
            &&& after.capture.phase is ReloadStop ==> before is ReloadSettle && after.next
                == CaptureNext::Ask(
                BrowserRequest::StopScreencast { session_id: capture.session_id->0 },
            )
            &&& before is ReloadStop ==> after.capture.phase is ReloadStart
            &&& before is ReloadStart ==> after.capture.phase is ReloadShot && after.next
                == CaptureNext::Ask(
                BrowserRequest::Screenshot { session_id: capture.session_id->0 },
            )
        }),
{
}

/// An image of the screencast of the watched session is acknowledged where it is numbered, to the
/// session that it came from, else to the watched one; and it is handed on where it has one.
pub proof fn law_image_is_acknowledged_and_handed_on(
    capture: CaptureLoop,
    control: RecordingControl,
    session_id: String,
    event: CdpEvent,
    own_millis: u64,
    frame: ScreencastFrame,
    number: i64,
)
    requires
        capture.phase is Watching,
        capture.session_id == Some(session_id),
        is_own(event, session_id),
        event.method@ == "Page.screencastFrame"@,
    ensures
        ({
            let input = CaptureInput::Event { event, own_millis };
            let side = capture.on_the_side(input);
            let with = capture.stepped(control, input, Some(frame));
            &&& awaits(capture.phase, input)
            &&& event.document().member("sessionId"@) == Some(JsonView::Int(number as int)) ==> side
                == Some(
                BrowserRequest::Acknowledge {
                    session_id: if event.session_id is Some {
                        event.session_id->0
                    } else {
                        session_id
                    },
                    frame_session: number,
                },
            )
            &&& (event.document().member("sessionId"@) is None || !(event.document().member(
                "sessionId"@,
            )->0 is Int)) ==> side is None
            &&& with.next == CaptureNext::Emit(frame)
            &&& with.control == control
            &&& with.capture == (CaptureLoop { phase: CapturePhase::Sending, ..capture })
            &&& capture.stepped(control, input, None) == capture.idle(control)
        }),
{
    lemma_methods();
}

/// Of an event that is neither the loss of the target nor one of the watched page, nothing is
/// handed on and nothing acknowledged: the capture only looks at its switches.
pub proof fn law_other_events_are_passed_over(
    capture: CaptureLoop,
    control: RecordingControl,
    session_id: String,
    event: CdpEvent,
    own_millis: u64,
    frame: Option<ScreencastFrame>,
)
    requires
        capture.phase is Watching,
        capture.session_id == Some(session_id),
        !loses(event, session_id, capture.target_id),
        !is_own(event, session_id) || !shows_document(event) && event.method@
            != "Page.screencastFrame"@,
    ensures
        ({
            let input = CaptureInput::Event { event, own_millis };
            &&& awaits(capture.phase, input)
            &&& capture.stepped(control, input, frame) == capture.idle(control)
            &&& capture.on_the_side(input) is None
        }),
{
    lemma_methods();
}

/// When the recorded page is gone, the capture asks for the targets, opens a session on the first
/// other page in its browser context, else on the first other page, has its page events sent and
/// starts its screencast. Then it holds and names that session on that page, and says that it goes
/// on.
pub proof fn law_lost_page_is_replaced(
    capture: CaptureLoop,
    control: RecordingControl,
    session_id: String,
    event: CdpEvent,
    own_millis: u64,
    image: Option<ScreencastFrame>,
    targets: Vec<TargetInfo>,
    i: int,
    new_session: String,
    enabled: serde_json::Value,
    started: serde_json::Value,
)
    requires
        capture.phase is Watching,
        capture.session_id == Some(session_id),
        loses(event, session_id, capture.target_id),
        undisturbed(control),
        capture.browser_context_id is Some && is_first_page_in(
            targets@,
            capture.target_id,
            capture.browser_context_id->0,
            i,
        ) || is_first_page(targets@, capture.target_id, i) && (capture.browser_context_id is None
            || forall|j: int|
            0 <= j < targets@.len() ==> !(is_other_page(#[trigger] targets@[j], capture.target_id)
                && is_in(targets@[j], capture.browser_context_id->0))),
    ensures
        ({
            let lost = CaptureInput::Event { event, own_millis };
            let target_id = targets@[i].target_id;
            let listed = CaptureInput::Reply(Reply::Targets(targets));
            let opened = CaptureInput::Reply(Reply::Session(new_session));
            let a = capture.stepped(control, lost, image);
            let b = a.capture.stepped(control, listed, None);
            let c = b.capture.stepped(control, opened, None);
            let d = c.capture.stepped(control, CaptureInput::Reply(Reply::Document(enabled)), None);
            let e = d.capture.stepped(control, CaptureInput::Reply(Reply::Document(started)), None);
            &&& capture.on_the_side(lost) is None
            &&& a.next == CaptureNext::Ask(BrowserRequest::ListTargets)
            &&& awaits(a.capture.phase, listed)
            &&& b.next == CaptureNext::Ask(BrowserRequest::Attach { target_id })
            &&& awaits(b.capture.phase, opened)
            &&& c.next == CaptureNext::Ask(BrowserRequest::EnablePage { session_id: new_session })
            &&& d.next == CaptureNext::Ask(
                BrowserRequest::StartScreencast { session_id: new_session },
            )
            &&& e.capture == (CaptureLoop {
                phase: CapturePhase::Watching,
                session_id: Some(new_session),
                target_id: Some(target_id),
                ..capture
            })
            &&& e.control == (RecordingControl {
                screencast_session_id: Some(new_session),
                capture_suspended: false,
                ..control
            })
            &&& e.next is AwaitChangeOrEvent
        }),
{
    lemma_methods();
    law_replacement_is_opened(
        capture.target_id,
        capture.browser_context_id,
        targets,
        i,
        new_session,
        enabled,
        started,
    );
}

/// A recovery that fails, at whichever request, leaves the capture with the session and the target
/// that it had, and it looks at its switches; so does one that finds no other page.
pub proof fn law_failed_recovery_keeps_the_session(
    capture: CaptureLoop,
    control: RecordingControl,
    session_id: String,
    event: CdpEvent,
    own_millis: u64,
    image: Option<ScreencastFrame>,
    attempt: Attach,
    why: String,
    targets: Vec<TargetInfo>,
)
    requires
        capture.phase is Watching,
        capture.session_id == Some(session_id),
        loses(event, session_id, capture.target_id),
        forall|j: int|
            0 <= j < targets@.len() ==> !is_other_page(#[trigger] targets@[j], capture.target_id),
        !attempt.fallback,
    ensures
        ({
            let failed = CaptureInput::Reply(Reply::Failed(why));
            let recovering = CaptureLoop { phase: CapturePhase::Recovering(attempt), ..capture };
            let a = capture.stepped(
                control,
                CaptureInput::Event { event, own_millis },
                image,
            ).capture;
            &&& a == (CaptureLoop { phase: a.phase, ..capture })
            &&& a.phase matches CapturePhase::Recovering(begun) && !begun.fallback
            &&& awaits(recovering.phase, failed)
            &&& recovering.stepped(control, failed, None) == recovering.idle(control)
            &&& a.stepped(control, CaptureInput::Reply(Reply::Targets(targets)), None) == a.idle(
                control,
            )
        }),
{
    lemma_methods();
    law_no_other_page_no_session(capture.target_id, capture.browser_context_id, targets);
}

/// A capture that opens a session for itself makes the requests of the attempt, one after another.
/// With the session it watches that page, names it, and says that it goes on; without one it says
/// that it has stopped, waits a while or for a change, and looks at its switches again.
pub proof fn law_session_is_opened_or_tried_again(
    capture: CaptureLoop,
    control: RecordingControl,
    attempt: Attach,
    reply: Reply,
    opened: ReplacementTarget,
    later: CaptureInput,
)
    requires
        capture.phase == CapturePhase::Attaching(attempt),
        capture.session_id is None,
        answers(attempt.phase, reply),
        later is Changed || later is Elapsed,
    ensures
        ({
            let input = CaptureInput::Reply(reply);
            let after = capture.stepped(control, input, None);
            &&& awaits(capture.phase, input)
            &&& attempt.outcome(reply) == AttachOutcome::Opened(opened) ==> {
                &&& after.capture == (CaptureLoop {
                    phase: CapturePhase::Watching,
                    session_id: Some(opened.session_id),
                    target_id: Some(opened.target_id),
                    ..capture
                })
                &&& after.control == (RecordingControl {
                    screencast_session_id: Some(opened.session_id),
                    capture_suspended: false,
                    ..control
                })
                &&& after.next is AwaitChangeOrEvent
            }
            &&& attempt.outcome(reply) is Failed ==> {
                &&& after.next == CaptureNext::AwaitChange(250)
                &&& after.control == (RecordingControl { capture_suspended: true, ..control })
                &&& awaits(after.capture.phase, later)
                &&& after.capture.stepped(control, later, None) == (CaptureLoop {
                    phase: after.capture.phase,
                    ..capture
                }).idle(control)
            }
            &&& attempt.outcome(reply) matches AttachOutcome::Ask(next) ==> {
                &&& after.capture == (CaptureLoop {
                    phase: CapturePhase::Attaching(next),
                    ..capture
                })
                &&& after.control == control
                &&& after.next == CaptureNext::Ask(
                    crate::recording::attach::request_of(next.phase),
                )
            }
        }),
{
}

/// A capture that is to stop asks for the end of the screencast of its session and for the end of
/// the session, once more where that failed, lets the browser settle, and then says that it has
/// stopped.
pub proof fn law_session_is_given_up(
    capture: CaptureLoop,
    control: RecordingControl,
    session_id: String,
    stopped: CaptureInput,
    detached: serde_json::Value,
    why: String,
    again: CaptureInput,
)
    requires
        capture.phase == (CapturePhase::SuspendingStop { session_id }),
        capture.session_id is None,
        is_answer(stopped),
        is_answer(again),
    ensures
        ({
            let well = CaptureInput::Reply(Reply::Document(detached));
            let badly = CaptureInput::Reply(Reply::Failed(why));
            let a = capture.stepped(control, stopped, None);
            let b = a.capture.stepped(control, well, None);
            let x = a.capture.stepped(control, badly, None);
            let y = x.capture.stepped(control, again, None);
            let c = b.capture.stepped(control, CaptureInput::Elapsed, None);
            &&& awaits(capture.phase, stopped) && awaits(a.capture.phase, well) && awaits(
                a.capture.phase,
                badly,
            ) && awaits(x.capture.phase, again) && awaits(b.capture.phase, CaptureInput::Elapsed)
            &&& a.next == CaptureNext::Ask(BrowserRequest::Detach { session_id })
            &&& b.next == CaptureNext::Sleep(150)
            &&& x.next == CaptureNext::Ask(BrowserRequest::AbandonSession { session_id })
            &&& y == b
            &&& a.control == control && b.control == control && x.control == control
            &&& c.capture == (CaptureLoop { phase: CapturePhase::Suspended, ..capture })
            &&& c.control == (RecordingControl { capture_suspended: true, ..control })
            &&& c.next is AwaitChangeOrEvent
        }),
{
}

/// A capture that gives up its session for another target abandons the session and then follows
/// the other target, whatever the browser answered.
pub proof fn law_switch_abandons_the_session(
    capture: CaptureLoop,
    control: RecordingControl,
    session_id: String,
    target_id: String,
    stopped: CaptureInput,
    detached: CaptureInput,
)
    requires
        capture.phase == (CapturePhase::SwitchingStop { session_id, target_id }),
        capture.session_id is None,
        is_answer(stopped),
        is_answer(detached),
        control.requested_target_id is None,
    ensures
        ({
            let a = capture.stepped(control, stopped, None);
            let b = a.capture.stepped(control, detached, None);
            &&& awaits(capture.phase, stopped) && awaits(a.capture.phase, detached)
            &&& a.next == CaptureNext::Ask(BrowserRequest::AbandonSession { session_id })
            &&& a.control == control
            &&& b == (CaptureLoop { target_id: Some(target_id), ..capture }).idle(
                RecordingControl { capture_suspended: true, ..control },
            )
        }),
{
}

/// The capture sets no switch but its own two reports: whether it has stopped, and which session it
/// holds. It takes a request for another target only to follow that one, and stays in its browser
/// context.
pub proof fn law_capture_leaves_the_users_switches(
    capture: CaptureLoop,
    control: RecordingControl,
    input: CaptureInput,
    frame: Option<ScreencastFrame>,
)
    requires
        capture.well_formed(),
        awaits(capture.phase, input),
    ensures
        ({
            let after = capture.stepped(control, input, frame);
            &&& after.control.paused == control.paused
            &&& after.control.restart_requested == control.restart_requested
            &&& after.control.capture_should_run == control.capture_should_run
            &&& after.capture.browser_context_id == capture.browser_context_id
            &&& after.control.requested_target_id == control.requested_target_id
                || after.control.requested_target_id is None
            &&& control.requested_target_id matches Some(wanted) ==> {
                ||| after.control.requested_target_id is Some
                ||| after.capture.target_id is Some && after.capture.target_id->0@ == wanted@
                ||| after.capture.phase matches CapturePhase::SwitchingStop { target_id, .. }
                    && target_id == wanted
            }
        }),
{
}

/// The image that is handed on is the one that the event of the watched session carries, or the
/// one that the reply to a screenshot carries; and there is one exactly where they carry one.
pub proof fn law_captured_image_is_what_was_sent(
    capture: CaptureLoop,
    session_id: String,
    event: CdpEvent,
    own_millis: u64,
    document: serde_json::Value,
    why: String,
    now: Stamp,
    frame: Option<ScreencastFrame>,
)
    ensures
        capture.phase is Watching && capture.session_id == Some(session_id) && is_own(
            event,
            session_id,
        ) && event.method@ == "Page.screencastFrame"@ && capture.carries(
            CaptureInput::Event { event, own_millis },
            now,
            frame,
        ) ==> is_event_image(frame, event.document(), own_millis, now),
        capture.phase is ReloadShot && capture.carries(
            CaptureInput::Reply(Reply::Document(document)),
            now,
            frame,
        ) ==> is_image(frame, json_of(document), None, now.millis, json_of(now.secs)),
        capture.phase is ReloadShot && capture.carries(
            CaptureInput::Reply(Reply::Failed(why)),
            now,
            frame,
        ) ==> frame is None,
{
    lemma_methods();
    law_images_are_what_is_sent(frame, event.document(), own_millis, now);
    law_images_are_what_is_sent(frame, json_of(document), own_millis, now);
}

/// A capture begins by listening, with the session, the target and the browser context that it is
/// given.
pub proof fn law_capture_begins_with_what_it_is_given(
    session_id: String,
    target_id: Option<String>,
    browser_context_id: Option<String>,
)
    ensures
        ({
            let (capture, next) = begun_capture(session_id, target_id, browser_context_id);
            &&& capture.session_id == Some(session_id)
            &&& capture.target_id == target_id
            &&& capture.browser_context_id == browser_context_id
            &&& next is Subscribe
            &&& awaits(capture.phase, CaptureInput::Subscribed)
        }),
{
}

/// Once the events are listened to, the screencast of the session that the capture holds is
/// started, and the capture says that it goes on.
pub proof fn law_screencast_is_started_once_events_are_heard(
    capture: CaptureLoop,
    control: RecordingControl,
    session_id: String,
)
    requires
        capture.phase is Subscribing,
        capture.session_id == Some(session_id),
    ensures
        ({
            let after = capture.stepped(control, CaptureInput::Subscribed, None);
            &&& after.next == CaptureNext::Ask(BrowserRequest::StartScreencast { session_id })
            &&& after.capture == (CaptureLoop { phase: CapturePhase::Starting, ..capture })
            &&& after.control == (RecordingControl { capture_suspended: false, ..control })
            &&& capture.on_the_side(CaptureInput::Subscribed) is None
        }),
{
}

/// Nothing is asked on the side but that an image is acknowledged, and that only of an event that
/// is watched; a number that is too large for the browser's own is not acknowledged.
pub proof fn law_only_images_are_acknowledged(
    capture: CaptureLoop,
    input: CaptureInput,
    session_id: String,
    number: int,
)
    requires
        capture.session_id == Some(session_id),
    ensures
        capture.on_the_side(input) is Some ==> {
            &&& capture.phase is Watching
            &&& input matches CaptureInput::Event { event, .. }
            &&& event.method@ == "Page.screencastFrame"@
            &&& is_own(event, session_id)
        },
        input matches CaptureInput::Event { event, .. } ==> event.document().member("sessionId"@)
            == Some(JsonView::Int(number)) && !(-0x8000_0000_0000_0000 <= number
            <= 0x7fff_ffff_ffff_ffff) ==> capture.on_the_side(input) is None,
{
}

/// Whatever the capture asks for, it takes all that may come of it, well or not; it takes nothing
/// only once it is over.
pub proof fn law_capture_takes_what_it_asked_for(
    capture: CaptureLoop,
    control: RecordingControl,
    input: CaptureInput,
    frame: Option<ScreencastFrame>,
    targets: Vec<TargetInfo>,
    session: String,
    document: serde_json::Value,
    why: String,
    event: CdpEvent,
    own_millis: u64,
    taken: bool,
    any: CaptureInput,
)
    requires
        capture.well_formed(),
        awaits(capture.phase, input),
    ensures
        ({
            let after = capture.stepped(control, input, frame);
            let phase = after.capture.phase;
            match after.next {
                CaptureNext::Subscribe => awaits(phase, CaptureInput::Subscribed),
                CaptureNext::Ask(request) => {
                    &&& awaits(phase, CaptureInput::Reply(Reply::Failed(why)))
                    &&& awaits(
                        phase,
                        match request {
                            BrowserRequest::ListTargets => CaptureInput::Reply(
                                Reply::Targets(targets),
                            ),
                            BrowserRequest::Attach { .. } => CaptureInput::Reply(
                                Reply::Session(session),
                            ),
                            _ => CaptureInput::Reply(Reply::Document(document)),
                        },
                    )
                },
                CaptureNext::Sleep(_) => awaits(phase, CaptureInput::Elapsed),
                CaptureNext::AwaitChangeOrEvent => {
                    &&& awaits(phase, CaptureInput::Changed)
                    &&& awaits(phase, CaptureInput::Event { event, own_millis })
                    &&& awaits(phase, CaptureInput::Lagged)
                    &&& awaits(phase, CaptureInput::Closed)
                },
                CaptureNext::AwaitChange(_) => {
                    &&& awaits(phase, CaptureInput::Changed)
                    &&& awaits(phase, CaptureInput::Elapsed)
                },
                CaptureNext::Emit(_) => awaits(phase, CaptureInput::Sent(taken)),
                CaptureNext::Finish => phase is Finished && !awaits(phase, any),
            }
        }),
{
}

/// A capture holds a session whenever it works with one, and none while it gives one up, has
/// stopped or opens one.
pub proof fn law_session_is_held_while_it_is_used(capture: CaptureLoop)
    ensures
        match capture.phase {
            CapturePhase::SwitchingStop { .. }
            | CapturePhase::SwitchingDetach { .. }
            | CapturePhase::SuspendingStop { .. }
            | CapturePhase::SuspendingDetach { .. }
            | CapturePhase::SuspendingAbandon
            | CapturePhase::SuspendingSettle
            | CapturePhase::Suspended
            | CapturePhase::Attaching(_)
            | CapturePhase::BackingOff => capture.well_formed() <==> capture.session_id is None,
            CapturePhase::Finished => capture.well_formed(),
            _ => capture.well_formed() <==> capture.session_id is Some,
        },
{
}

} // verus!
