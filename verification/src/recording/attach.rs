//! Opening a session on a target, or on the one that takes its place.
use crate::cdp::TargetInfo;
use crate::recording::commands::BrowserRequest;
use crate::recording::targets::{
    choose_replacement_target, is_candidate, lemma_first_exists, replacement_index,
};
use crate::text::text_of;
use vstd::prelude::*;

verus! {

/// What the browser answered to a request.
pub enum Reply {
    /// The targets that it listed.
    Targets(Vec<TargetInfo>),
    /// The session that it opened.
    Session(String),
    /// The document that it sent.
    Document(serde_json::Value),
    /// It failed, or did not answer in time.
    Failed(String),
}

/// What an attempt to open a session waits for.
pub enum AttachPhase {
    Listing,
    Attaching { target_id: String },
    Enabling { target_id: String, session_id: String },
    Starting { target_id: String, session_id: String },
}

/// An attempt to open a session.
pub struct Attach {
    pub phase: AttachPhase,
    /// Whether the screencast of the session is started.
    pub start: bool,
    /// Whether another target is tried when no session can be opened on the wanted one.
    pub fallback: bool,
    /// The target that another one must differ from.
    pub current_target_id: Option<String>,
    /// The browser context that another target is wanted in.
    pub browser_context_id: Option<String>,
}

/// A session that was opened on a target.
pub struct ReplacementTarget {
    pub target_id: String,
    pub session_id: String,
}

/// How an attempt goes on.
pub enum AttachStep {
    Ask(BrowserRequest),
    Opened(ReplacementTarget),
    Failed(String),
}

/// `reply` is one that the request of `phase` can have.
pub open spec fn answers(phase: AttachPhase, reply: Reply) -> bool {
    match phase {
        AttachPhase::Listing => reply is Targets || reply is Failed,
        AttachPhase::Attaching { .. } => reply is Session || reply is Failed,
        AttachPhase::Enabling { .. } => reply is Document || reply is Failed,
        AttachPhase::Starting { .. } => reply is Document || reply is Failed,
    }
}

/// The request that a phase makes.
pub open spec fn request_of(phase: AttachPhase) -> BrowserRequest {
    match phase {
        AttachPhase::Listing => BrowserRequest::ListTargets,
        AttachPhase::Attaching { target_id } => BrowserRequest::Attach { target_id },
        AttachPhase::Enabling { session_id, .. } => BrowserRequest::EnablePage { session_id },
        AttachPhase::Starting { session_id, .. } => BrowserRequest::StartScreencast { session_id },
    }
}

/// What a reply makes of an attempt.
pub enum AttachOutcome {
    /// It goes on with the request of its new phase.
    Ask(Attach),
    Opened(ReplacementTarget),
    Failed,
}

impl Attach {
    /// The target that takes over from the current one, among those that were listed.
    pub open spec fn chosen(self, targets: Seq<TargetInfo>) -> Option<int> {
        replacement_index(
            targets,
            text_of(self.current_target_id),
            text_of(self.browser_context_id),
        )
    }

    /// What a reply makes of an attempt. Where no session can be opened on the wanted target
    /// the targets are listed; a screencast that does not start ends the attempt.
    pub open spec fn outcome(self, reply: Reply) -> AttachOutcome {
        match (self.phase, reply) {
            (AttachPhase::Starting { .. }, Reply::Failed(_)) => AttachOutcome::Failed,
            (_, Reply::Failed(_)) => if self.fallback {
                AttachOutcome::Ask(Attach { phase: AttachPhase::Listing, fallback: false, ..self })
            } else {
                AttachOutcome::Failed
            },
            (AttachPhase::Listing, Reply::Targets(targets)) => match self.chosen(targets@) {
                Some(i) => AttachOutcome::Ask(
                    Attach {
                        phase: AttachPhase::Attaching { target_id: targets@[i].target_id },
                        ..self
                    },
                ),
                None => AttachOutcome::Failed,
            },
            (AttachPhase::Attaching { target_id }, Reply::Session(session_id)) =>
                AttachOutcome::Ask(
                Attach { phase: AttachPhase::Enabling { target_id, session_id }, ..self },
            ),
            (AttachPhase::Enabling { target_id, session_id }, _) => if self.start {
                AttachOutcome::Ask(
                    Attach { phase: AttachPhase::Starting { target_id, session_id }, ..self },
                )
            } else {
                AttachOutcome::Opened(ReplacementTarget { target_id, session_id })
            },
            (AttachPhase::Starting { target_id, session_id }, _) => AttachOutcome::Opened(
                ReplacementTarget { target_id, session_id },
            ),
            _ => AttachOutcome::Failed,
        }
    }

    /// The requests that an attempt can still make.
    pub open spec fn requests_left(self) -> nat {
        let here: nat = match self.phase {
            AttachPhase::Listing => 4,
            AttachPhase::Attaching { .. } => 3,
            AttachPhase::Enabling { .. } => 2,
            AttachPhase::Starting { .. } => 1,
        };
        if self.fallback {
            here + 4
        } else {
            here
        }
    }

    /// Opens a session on a target, without its screencast.
    pub fn attach_recording_session(target_id: Option<String>) -> (attempt: Result<
        (Attach, BrowserRequest),
        String,
    >)
        ensures
            match target_id {
                Some(target_id) => attempt matches Ok(begun) && begun.0 == (Attach {
                    phase: AttachPhase::Attaching { target_id },
                    start: false,
                    fallback: false,
                    current_target_id: None,
                    browser_context_id: None,
                }) && begun.1 == request_of(begun.0.phase),
                None => attempt matches Err(message) && message@
                    == "No active recording target id"@,
            },
    {
        match target_id {
            Some(target_id) => {
                let request = BrowserRequest::Attach { target_id: target_id.clone() };
                Ok(
                    (
                        Attach {
                            phase: AttachPhase::Attaching { target_id },
                            start: false,
                            fallback: false,
                            current_target_id: None,
                            browser_context_id: None,
                        },
                        request,
                    ),
                )
            },
            None => Err("No active recording target id".to_owned()),
        }
    }

    /// Opens a session with its screencast on the target that takes over from the current one.
    pub fn attach_to_replacement_target(
        current_target_id: Option<String>,
        browser_context_id: Option<String>,
    ) -> (attempt: (Attach, BrowserRequest))
        ensures
            attempt.0 == replacement_attempt(current_target_id, browser_context_id),
            attempt.1 == request_of(attempt.0.phase),
    {
        (
            Attach {
                phase: AttachPhase::Listing,
                start: true,
                fallback: false,
                current_target_id,
                browser_context_id,
            },
            BrowserRequest::ListTargets,
        )
    }

    /// Opens a session with its screencast on the wanted target, or on the one that takes over
    /// from the current one where there is no wanted target or no session can be opened on it.
    pub fn attach_and_start_recording_session(
        target_id: Option<String>,
        current_target_id: Option<String>,
        browser_context_id: Option<String>,
    ) -> (attempt: (Attach, BrowserRequest))
        ensures
            attempt.0 == wanted_attempt(target_id, current_target_id, browser_context_id),
            attempt.1 == request_of(attempt.0.phase),
    {
        match target_id {
            Some(wanted) => {
                let request = BrowserRequest::Attach { target_id: wanted.clone() };
                (
                    Attach {
                        phase: AttachPhase::Attaching { target_id: wanted },
                        start: true,
                        fallback: true,
                        current_target_id,
                        browser_context_id,
                    },
                    request,
                )
            },
            None => Attach::attach_to_replacement_target(current_target_id, browser_context_id),
        }
    }

    fn enter(&mut self, phase: AttachPhase) -> (step: AttachStep)
        ensures
            *final(self) == (Attach { phase, ..*old(self) }),
            step == AttachStep::Ask(request_of(phase)),
    {
        let request = match &phase {
            AttachPhase::Listing => BrowserRequest::ListTargets,
            AttachPhase::Attaching { target_id } => BrowserRequest::Attach {
                target_id: target_id.clone(),
            },
            AttachPhase::Enabling { session_id, .. } => BrowserRequest::EnablePage {
                session_id: session_id.clone(),
            },
            AttachPhase::Starting { session_id, .. } => BrowserRequest::StartScreencast {
                session_id: session_id.clone(),
            },
        };
        self.phase = phase;
        AttachStep::Ask(request)
    }

    /// Goes on after a reply to the last request.
    pub fn reply(&mut self, reply: Reply) -> (step: AttachStep)
        requires
            answers(old(self).phase, reply),
        ensures
            match old(self).outcome(reply) {
                AttachOutcome::Ask(next) => {
                    &&& *final(self) == next
                    &&& step == AttachStep::Ask(request_of(next.phase))
                    &&& next.requests_left() < old(self).requests_left()
                },
                AttachOutcome::Opened(target) => *final(self) == *old(self) && step
                    == AttachStep::Opened(target),
                AttachOutcome::Failed => *final(self) == *old(self) && (step
                    matches AttachStep::Failed(message) && message@ == (match reply {
                    Reply::Failed(why) => why@,
                    _ => "No replacement page target found"@,
                })),
            },
    {
        match reply {
            Reply::Failed(message) => {
                let starting = match &self.phase {
                    AttachPhase::Starting { .. } => true,
                    _ => false,
                };
                if self.fallback && !starting {
                    self.fallback = false;
                    self.enter(AttachPhase::Listing)
                } else {
                    AttachStep::Failed(message)
                }
            },
            Reply::Targets(targets) => {
                let current = match &self.current_target_id {
                    Some(id) => Some(id.as_str()),
                    None => None,
                };
                let context = match &self.browser_context_id {
                    Some(id) => Some(id.as_str()),
                    None => None,
                };
                match choose_replacement_target(targets, current, context) {
                    Some(target) => self.enter(
                        AttachPhase::Attaching { target_id: target.target_id },
                    ),
                    None => AttachStep::Failed("No replacement page target found".to_owned()),
                }
            },
            Reply::Session(session_id) => match &self.phase {
                AttachPhase::Attaching { target_id } => {
                    let target_id = target_id.clone();
                    self.enter(AttachPhase::Enabling { target_id, session_id })
                },
                _ => vstd::pervasive::unreached(),
            },
            Reply::Document(_) => match &self.phase {
                AttachPhase::Enabling { target_id, session_id } => {
                    let target_id = target_id.clone();
                    let session_id = session_id.clone();
                    if self.start {
                        self.enter(AttachPhase::Starting { target_id, session_id })
                    } else {
                        AttachStep::Opened(ReplacementTarget { target_id, session_id })
                    }
                },
                AttachPhase::Starting { target_id, session_id } => AttachStep::Opened(
                    ReplacementTarget {
                        target_id: target_id.clone(),
                        session_id: session_id.clone(),
                    },
                ),
                _ => vstd::pervasive::unreached(),
            },
        }
    }
}

/// An attempt that begins with the list of targets.
pub open spec fn replacement_attempt(
    current_target_id: Option<String>,
    browser_context_id: Option<String>,
) -> Attach {
    Attach {
        phase: AttachPhase::Listing,
        start: true,
        fallback: false,
        current_target_id,
        browser_context_id,
    }
}

/// An attempt that begins with the wanted target, where there is one.
pub open spec fn wanted_attempt(
    target_id: Option<String>,
    current_target_id: Option<String>,
    browser_context_id: Option<String>,
) -> Attach {
    match target_id {
        Some(wanted) => Attach {
            phase: AttachPhase::Attaching { target_id: wanted },
            start: true,
            fallback: true,
            current_target_id,
            browser_context_id,
        },
        None => replacement_attempt(current_target_id, browser_context_id),
    }
}

/// The target that takes over is one that was listed, that the user sees as a page and that
/// differs from the one before.
pub proof fn law_replacement_is_another_page(attempt: Attach, targets: Vec<TargetInfo>)
    requires
        attempt.phase is Listing,
    ensures
        match attempt.outcome(Reply::Targets(targets)) {
            AttachOutcome::Ask(next) => exists|i: int|
                {
                    &&& 0 <= i < targets@.len()
                    &&& is_candidate(#[trigger] targets@[i], text_of(attempt.current_target_id))
                    &&& next.phase == (AttachPhase::Attaching { target_id: targets@[i].target_id })
                },
            AttachOutcome::Opened(_) => false,
            AttachOutcome::Failed => forall|i: int|
                0 <= i < targets@.len() ==> !is_candidate(
                    #[trigger] targets@[i],
                    text_of(attempt.current_target_id),
                ),
        },
{
    lemma_first_exists(targets@, text_of(attempt.current_target_id));
    if let Some(i) = attempt.chosen(targets@) {
        assert(is_candidate(targets@[i], text_of(attempt.current_target_id)));
    } else {
        assert forall|i: int| 0 <= i < targets@.len() implies !is_candidate(
            #[trigger] targets@[i],
            text_of(attempt.current_target_id),
        ) by {}
    }
}

/// A session is handed on only when it can be recorded: its page events are on, and where its
/// screencast was wanted that was started last, and successfully.
pub proof fn law_opened_session_is_ready(attempt: Attach, reply: Reply)
    requires
        answers(attempt.phase, reply),
        attempt.outcome(reply) is Opened,
    ensures
        !(reply is Failed),
        ({
            let session_id = attempt.outcome(reply)->Opened_0.session_id;
            request_of(attempt.phase) == (if attempt.phase is Starting {
                BrowserRequest::StartScreencast { session_id }
            } else {
                BrowserRequest::EnablePage { session_id }
            })
        }),
        attempt.start ==> attempt.phase is Starting,
{
}

} // verus!
