//! The vocabulary of the Chrome DevTools Protocol: events, commands and targets.
use crate::json::{self, json_of, JsonView};
use crate::text::text_of;
use vstd::prelude::*;

verus! {

/// An event that the browser sent.
pub struct CdpEvent {
    pub method: String,
    pub params: serde_json::Value,
    pub session_id: Option<String>,
}

impl CdpEvent {
    /// What the parameters of the event hold.
    pub open spec fn document(self) -> JsonView {
        json_of(self.params)
    }
}

impl Clone for CdpEvent {
    fn clone(&self) -> (event: Self)
        ensures
            event == *self,
    {
        CdpEvent {
            method: self.method.clone(),
            params: json::copy_of(&self.params),
            session_id: self.session_id.clone(),
        }
    }
}

/// A target that the browser listed. `trackable` says that it is one of those that the user
/// sees as pages.
pub struct TargetInfo {
    pub target_id: String,
    pub browser_context_id: Option<String>,
    pub trackable: bool,
}

/// How a command is sent.
#[derive(PartialEq, Eq, Structural, Clone, Copy)]
pub enum Delivery {
    /// Wait for the reply for as long as the connection does.
    Reply,
    /// Wait for the reply for so many milliseconds.
    Within(u64),
    /// Do not wait for a reply.
    NoWait,
}

/// A command to the browser.
pub struct CdpCommand {
    pub method: String,
    pub params: Option<serde_json::Value>,
    pub session_id: Option<String>,
    pub delivery: Delivery,
}

impl CdpCommand {
    /// What the parameters of the command hold.
    pub open spec fn document(self) -> Option<JsonView> {
        match self.params {
            Some(params) => Some(json_of(params)),
            None => None,
        }
    }

    /// The command calls `method` with `document` in the session `session_id`, and is sent as
    /// `delivery` says.
    pub open spec fn is(
        self,
        method: Seq<char>,
        document: Option<JsonView>,
        session_id: Option<Seq<char>>,
        delivery: Delivery,
    ) -> bool {
        &&& self.method@ == method
        &&& self.document() == document
        &&& text_of(self.session_id) == session_id
        &&& self.delivery == delivery
    }
}

} // verus!
