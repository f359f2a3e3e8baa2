//! The live view of a page: a screencast that runs while somebody watches, and the messages
//! that the viewers get of it.
use crate::cdp::{CdpCommand, CdpEvent, Delivery};
use crate::json::{self, documents_of, json_of, json_text, JsonView};
use crate::recording::targets::{is_main_frame, names_no_parent};
use crate::stream::commands::{
    ack_params, ack_preview_screencast_frame, start_params, start_preview_screencast,
    stop_preview_screencast, SCREENCAST_COMMAND_MS,
};
use crate::stream::messages::{
    console_document, console_message, frame_document, frame_message, page_error_document,
    page_error_message, status_document, status_message, url_document, url_message, StreamStatus,
};
use crate::stream::shutdown::ShutdownChange;
use crate::text::{as_slice, same_text, slice_of, text_of};
use vstd::prelude::*;

verus! {

/// How long a page that has loaded is given to draw, in milliseconds.
pub const PREVIEW_SETTLE_MS: u64 = 250;

/// What the live view finds around itself.
pub struct Surroundings {
    /// How many viewers there are.
    pub client_count: usize,
    /// What tells the connection to the browser from any other, where there is one.
    pub client: Option<usize>,
    pub screencasting: bool,
    pub recording: bool,
    pub session_id: Option<String>,
    pub width: u32,
    pub height: u32,
    /// The name of the browser's engine.
    pub engine: String,
}

/// A live view that runs: the connection, the session and the viewport that it was started
/// with.
pub struct Preview {
    pub client: usize,
    pub session_id: Option<String>,
    pub width: u32,
    pub height: u32,
    pub engine: String,
}

/// What the live view waits for.
pub enum PreviewPhase {
    /// A change around it.
    Idle,
    /// The screencast to start.
    Starting(Preview),
    /// An event of the page, or a change around it.
    Streaming(Preview),
    Ended,
}

/// The live view.
pub struct PreviewLoop {
    pub phase: PreviewPhase,
}

/// What happened to the live view.
pub enum PreviewInput {
    /// The switch for the end was moved.
    Shutdown(ShutdownChange),
    /// Something changed around it.
    Notified,
    /// What was asked for the start has been done.
    Started,
    /// The browser sent an event. Where it is a call of the console, `console_text` is what the
    /// call wrote.
    Event { event: CdpEvent, console_text: String },
    /// Events were lost.
    Lagged,
    /// There will be no more events.
    Closed,
}

/// What the live view wants done.
pub enum PreviewEffect {
    /// Hold on to the connection that is there, and listen to its events.
    Subscribe,
    StopScreencast { session_id: Option<String> },
    StartScreencast { session_id: Option<String>, width: u32, height: u32 },
    /// Acknowledge an image.
    Acknowledge { session_id: Option<String>, frame_session: i64 },
    /// Wait for so many milliseconds.
    Sleep(u64),
    /// Say whether a screencast runs.
    SetScreencasting(bool),
    /// Send a message to the viewers.
    Broadcast(String),
    /// Keep a message for viewers that come later.
    KeepFrame(String),
    /// Give the active tabs this address.
    UpdateTabs(String),
    /// Say that something has changed.
    Notify,
}

/// The model of what the live view wants done.
pub enum PreviewEffectView {
    Subscribe,
    StopScreencast { session_id: Option<Seq<char>> },
    StartScreencast { session_id: Option<Seq<char>>, width: u32, height: u32 },
    Acknowledge { session_id: Option<Seq<char>>, frame_session: i64 },
    Sleep(u64),
    SetScreencasting(bool),
    Broadcast(Seq<char>),
    KeepFrame(Seq<char>),
    UpdateTabs(Seq<char>),
    Notify,
}

/// What the live view waits for once all is done.
#[derive(PartialEq, Eq, Structural, Clone, Copy)]
pub enum PreviewNext {
    /// The switch for the end, or a change.
    AwaitNotice,
    /// Nothing: look around again.
    LookAgain,
    /// The switch for the end, a change, or an event.
    AwaitEvent,
    /// The live view is over.
    Return,
}

/// What the live view wants: all of `effects` in their order, then `next`.
pub struct PreviewStep {
    pub effects: Vec<PreviewEffect>,
    pub next: PreviewNext,
}

/// Where the live view stands, and what it wants.
pub struct PreviewState {
    pub phase: PreviewPhase,
    pub effects: Seq<PreviewEffectView>,
    pub next: PreviewNext,
}

impl View for PreviewEffect {
    type V = PreviewEffectView;

    open spec fn view(&self) -> PreviewEffectView {
        match *self {
            PreviewEffect::Subscribe => PreviewEffectView::Subscribe,
            PreviewEffect::StopScreencast { session_id } => PreviewEffectView::StopScreencast {
                session_id: text_of(session_id),
            },
            PreviewEffect::StartScreencast {
                session_id,
                width,
                height,
            } => PreviewEffectView::StartScreencast {
                session_id: text_of(session_id),
                width,
                height,
            },
            PreviewEffect::Acknowledge {
                session_id,
                frame_session,
            } => PreviewEffectView::Acknowledge { session_id: text_of(session_id), frame_session },
            PreviewEffect::Sleep(millis) => PreviewEffectView::Sleep(millis),
            PreviewEffect::SetScreencasting(on) => PreviewEffectView::SetScreencasting(on),
            PreviewEffect::Broadcast(message) => PreviewEffectView::Broadcast(message@),
            PreviewEffect::KeepFrame(message) => PreviewEffectView::KeepFrame(message@),
            PreviewEffect::UpdateTabs(url) => PreviewEffectView::UpdateTabs(url@),
            PreviewEffect::Notify => PreviewEffectView::Notify,
        }
    }
}

pub open spec fn effects_of(effects: Seq<PreviewEffect>) -> Seq<PreviewEffectView> {
    effects.map_values(|effect: PreviewEffect| effect@)
}

/// Only the engine of Chrome has a screencast.
pub open spec fn has_screencast(engine: Seq<char>) -> bool {
    engine == "chrome"@
}

impl Preview {
    pub open spec fn supports(self) -> bool {
        has_screencast(self.engine@)
    }

    pub open spec fn stop(self) -> PreviewEffectView {
        PreviewEffectView::StopScreencast { session_id: text_of(self.session_id) }
    }

    pub open spec fn start(self) -> PreviewEffectView {
        PreviewEffectView::StartScreencast {
            session_id: text_of(self.session_id),
            width: self.width,
            height: self.height,
        }
    }
}

/// The live view that starts with the connection `client`.
pub open spec fn preview_of(around: Surroundings, client: usize) -> Preview {
    Preview {
        client,
        session_id: around.session_id,
        width: around.width,
        height: around.height,
        engine: around.engine,
    }
}

/// The integer that an object holds under `key`, where an `i64` can hold it.
pub open spec fn i64_member(document: JsonView, key: Seq<char>) -> Option<i64> {
    match document.member(key) {
        Some(JsonView::Int(n)) => if i64::MIN <= n <= i64::MAX {
            Some(n as i64)
        } else {
            None
        },
        _ => None,
    }
}

/// The address that the main frame has gone to, if the event says so.
pub open spec fn navigated_url(document: JsonView) -> Option<Seq<char>> {
    match document.member("frame"@) {
        Some(frame) => if names_no_parent(frame) {
            frame.text_member("url"@)
        } else {
            None
        },
        None => None,
    }
}

/// The kind of a call of the console.
pub open spec fn console_level(document: JsonView) -> Seq<char> {
    match document.text_member("type"@) {
        Some(level) => level,
        None => "log"@,
    }
}

/// The arguments of a call of the console.
pub open spec fn console_items(document: JsonView) -> Seq<JsonView> {
    match document.member("args"@) {
        Some(JsonView::Array(items)) => items,
        _ => Seq::empty(),
    }
}

/// What an event says about an error of the page.
pub open spec fn error_text(document: JsonView) -> Seq<char> {
    match document.member("exceptionDetails"@) {
        Some(details) => {
            let described = match details.member("exception"@) {
                Some(exception) => exception.text_member("description"@),
                None => None,
            };
            match (described, details.text_member("text"@)) {
                (Some(text), _) => text,
                (None, Some(text)) => text,
                (None, None) => "Unknown error"@,
            }
        },
        None => "Unknown error"@,
    }
}

/// Where an event says that an error of the page was.
pub open spec fn error_place(document: JsonView, key: Seq<char>) -> Option<i64> {
    match document.member("exceptionDetails"@) {
        Some(details) => i64_member(details, key),
        None => None,
    }
}

impl Preview {
    /// A page that has loaded gets a new screencast.
    pub open spec fn restarted(self) -> Seq<PreviewEffectView> {
        if self.supports() {
            seq![
                PreviewEffectView::Sleep(PREVIEW_SETTLE_MS),
                self.stop(),
                self.start(),
                PreviewEffectView::SetScreencasting(true),
            ]
        } else {
            seq![]
        }
    }

    /// An image is acknowledged where it is numbered, and goes to the viewers where it is one.
    pub open spec fn image_passed_on(self, event: CdpEvent) -> Seq<PreviewEffectView> {
        let document = event.document();
        let acknowledged = match i64_member(document, "sessionId"@) {
            Some(frame_session) => seq![
                PreviewEffectView::Acknowledge {
                    session_id: text_of(event.session_id),
                    frame_session,
                },
            ],
            None => seq![],
        };
        match document.text_member("data"@) {
            Some(data) => {
                let message = json_text(
                    frame_document(data, document.member("metadata"@), self.width, self.height),
                );
                acknowledged + seq![
                    PreviewEffectView::KeepFrame(message),
                    PreviewEffectView::Broadcast(message),
                ]
            },
            None => acknowledged,
        }
    }

    /// What is done about an event while nothing is recorded.
    pub open spec fn passed_on(self, event: CdpEvent, console_text: Seq<char>, millis: u64) -> Seq<
        PreviewEffectView,
    > {
        let document = event.document();
        if event.method@ == "Page.frameStoppedLoading"@ {
            self.restarted()
        } else if event.method@ == "Page.frameNavigated"@ {
            match navigated_url(document) {
                Some(url) => seq![
                    PreviewEffectView::UpdateTabs(url),
                    PreviewEffectView::Broadcast(json_text(url_document(url, millis))),
                ],
                None => seq![],
            }
        } else if event.method@ == "Page.screencastFrame"@ {
            self.image_passed_on(event)
        } else if event.method@ == "Runtime.consoleAPICalled"@ {
            if console_text.len() == 0 {
                seq![]
            } else {
                seq![
                    PreviewEffectView::Broadcast(
                        json_text(
                            console_document(
                                console_level(document),
                                console_text,
                                console_items(document),
                                millis,
                            ),
                        ),
                    ),
                ]
            }
        } else if event.method@ == "Runtime.exceptionThrown"@ {
            seq![
                PreviewEffectView::Broadcast(
                    json_text(
                        page_error_document(
                            error_text(document),
                            error_place(document, "lineNumber"@),
                            error_place(document, "columnNumber"@),
                            millis,
                        ),
                    ),
                ),
            ]
        } else {
            seq![]
        }
    }

    /// Something changed that makes the running screencast the wrong one.
    pub open spec fn outdated(self, around: Surroundings) -> bool {
        ||| around.client != Some(self.client)
        ||| text_of(around.session_id) != text_of(self.session_id)
        ||| around.width != self.width
        ||| around.height != self.height
        ||| around.recording
        ||| !around.screencasting
    }

    pub open spec fn going_on(self, effects: Seq<PreviewEffectView>) -> PreviewState {
        PreviewState {
            phase: PreviewPhase::Streaming(self),
            effects,
            next: PreviewNext::AwaitEvent,
        }
    }

    /// What an input does to a live view that runs.
    pub open spec fn streamed(
        self,
        input: PreviewInput,
        around: Surroundings,
        millis: u64,
    ) -> PreviewState {
        match input {
            PreviewInput::Shutdown(change) => if change.ending() {
                PreviewState {
                    phase: PreviewPhase::Ended,
                    effects: (if self.supports() {
                        seq![
                            PreviewEffectView::StopScreencast {
                                session_id: text_of(around.session_id),
                            },
                        ]
                    } else {
                        seq![]
                    }).push(PreviewEffectView::SetScreencasting(false)),
                    next: PreviewNext::Return,
                }
            } else {
                self.going_on(seq![])
            },
            PreviewInput::Event { event, console_text } => if around.recording {
                idle(
                    seq![PreviewEffectView::SetScreencasting(false), PreviewEffectView::Notify],
                )
            } else {
                self.going_on(self.passed_on(event, console_text@, millis))
            },
            PreviewInput::Notified => if around.client_count == 0 {
                idle(
                    (if self.supports() {
                        seq![self.stop()]
                    } else {
                        seq![]
                    }).push(PreviewEffectView::SetScreencasting(false)),
                )
            } else if self.outdated(around) {
                idle(
                    (if self.supports() && !around.recording {
                        seq![self.stop()]
                    } else {
                        seq![]
                    }).push(PreviewEffectView::SetScreencasting(false)).push(
                        PreviewEffectView::Notify,
                    ),
                )
            } else {
                self.going_on(seq![])
            },
            PreviewInput::Closed => idle(seq![]),
            _ => self.going_on(seq![]),
        }
    }
}

pub open spec fn idle(effects: Seq<PreviewEffectView>) -> PreviewState {
    PreviewState { phase: PreviewPhase::Idle, effects, next: PreviewNext::AwaitNotice }
}

/// A screencast that runs though no live view does is stopped.
pub open spec fn stray_stopped(around: Surroundings) -> Seq<PreviewEffectView> {
    if around.screencasting {
        (if around.client is Some {
            seq![PreviewEffectView::StopScreencast { session_id: text_of(around.session_id) }]
        } else {
            seq![]
        }).push(PreviewEffectView::SetScreencasting(false))
    } else {
        seq![]
    }
}

/// What the viewers are told of the state while a recording supplies the images.
pub open spec fn recording_status(around: Surroundings) -> JsonView {
    status_document(
        StreamStatus {
            connected: around.client is Some,
            screencasting: false,
            width: around.width,
            height: around.height,
            recording: true,
        },
        around.engine@,
    )
}

/// What the live view does when something may have changed.
pub open spec fn looked(around: Surroundings) -> PreviewState {
    if around.client_count == 0 {
        idle(stray_stopped(around))
    } else if around.recording {
        idle(
            (if around.screencasting {
                seq![PreviewEffectView::SetScreencasting(false)]
            } else {
                seq![]
            }).push(PreviewEffectView::Broadcast(json_text(recording_status(around)))),
        )
    } else {
        match around.client {
            Some(client) => {
                let preview = preview_of(around, client);
                PreviewState {
                    phase: PreviewPhase::Starting(preview),
                    effects: seq![PreviewEffectView::Subscribe] + (if preview.supports() {
                        seq![preview.start()]
                    } else {
                        seq![]
                    }) + seq![PreviewEffectView::SetScreencasting(preview.supports())],
                    next: PreviewNext::LookAgain,
                }
            },
            None => idle(seq![]),
        }
    }
}

/// `input` is something that the live view waits for in `phase`.
pub open spec fn awaits(phase: PreviewPhase, input: PreviewInput) -> bool {
    match phase {
        PreviewPhase::Idle => input is Shutdown || input is Notified,
        PreviewPhase::Starting(_) => input is Started,
        PreviewPhase::Streaming(_) => !(input is Started),
        PreviewPhase::Ended => false,
    }
}

impl PreviewLoop {
    /// What an input does to the live view, with `around` around it at the time `millis`.
    pub open spec fn stepped(
        self,
        input: PreviewInput,
        around: Surroundings,
        millis: u64,
    ) -> PreviewState {
        match self.phase {
            PreviewPhase::Idle => if input matches PreviewInput::Shutdown(change)
                && change.ending() {
                PreviewState {
                    phase: PreviewPhase::Ended,
                    effects: stray_stopped(around),
                    next: PreviewNext::Return,
                }
            } else {
                looked(around)
            },
            PreviewPhase::Starting(preview) => preview.going_on(
                seq![
                    PreviewEffectView::Broadcast(
                        json_text(
                            status_document(
                                StreamStatus {
                                    connected: true,
                                    screencasting: preview.supports(),
                                    width: preview.width,
                                    height: preview.height,
                                    recording: around.recording,
                                },
                                preview.engine@,
                            ),
                        ),
                    ),
                ],
            ),
            PreviewPhase::Streaming(preview) => preview.streamed(input, around, millis),
            PreviewPhase::Ended => PreviewState {
                phase: PreviewPhase::Ended,
                effects: seq![],
                next: PreviewNext::Return,
            },
        }
    }
}

/// The commands that an effect sends to the browser.
pub open spec fn sends(effect: PreviewEffectView, command: Option<CdpCommand>) -> bool {
    match effect {
        PreviewEffectView::StopScreencast { session_id } => command matches Some(command)
            && command.is(
            "Page.stopScreencast"@,
            None,
            session_id,
            Delivery::Within(SCREENCAST_COMMAND_MS),
        ),
        PreviewEffectView::StartScreencast { session_id, width, height } => command matches Some(
            command,
        ) && command.is(
            "Page.startScreencast"@,
            Some(start_params("jpeg"@, 80, width as int, height as int)),
            session_id,
            Delivery::Within(SCREENCAST_COMMAND_MS),
        ),
        PreviewEffectView::Acknowledge { session_id, frame_session } => command matches Some(
            command,
        ) && command.is(
            "Page.screencastFrameAck"@,
            Some(ack_params(frame_session)),
            session_id,
            Delivery::NoWait,
        ),
        _ => command is None,
    }
}

impl PreviewEffect {
    /// The command that an effect sends to the browser, if it sends one.
    pub fn command(&self) -> (command: Option<CdpCommand>)
        ensures
            sends(self@, command),
    {
        match self {
            PreviewEffect::StopScreencast { session_id } => Some(
                stop_preview_screencast(as_slice(session_id)),
            ),
            PreviewEffect::StartScreencast { session_id, width, height } => Some(
                start_preview_screencast(as_slice(session_id), *width, *height),
            ),
            PreviewEffect::Acknowledge { session_id, frame_session } => Some(
                ack_preview_screencast_frame(as_slice(session_id), *frame_session),
            ),
            _ => None,
        }
    }
}

/// The document that a tab becomes when the active tabs go to `url`.
pub open spec fn tab_moved(tab: JsonView, url: Seq<char>) -> JsonView {
    match tab {
        JsonView::Object(members) => if tab.member("active"@) == Some(JsonView::Bool(true)) {
            JsonView::Object(members.insert("url"@, JsonView::Str(url)))
        } else {
            tab
        },
        _ => tab,
    }
}

/// Gives the active tabs the address `url`.
pub fn update_tabs(tabs: &mut Vec<serde_json::Value>, url: &str)
    ensures
        documents_of(final(tabs)@) == documents_of(old(tabs)@).map_values(
            |tab: JsonView| tab_moved(tab, url@),
        ),
{
    let ghost before = tabs@;
    let mut i: usize = 0;
    while i < tabs.len()
        invariant
            i <= tabs.len(),
            tabs@.len() == before.len(),
            forall|j: int|
                0 <= j < i ==> json_of(#[trigger] tabs@[j]) == tab_moved(json_of(before[j]), url@),
            forall|j: int| i <= j < before.len() ==> #[trigger] tabs@[j] == before[j],
        decreases tabs.len() - i,
    {
        let active = match json::member(&tabs[i], "active") {
            Some(active) => match json::as_bool(active) {
                Some(active) => active,
                None => false,
            },
            None => false,
        };
        if active {
            json::insert(&mut tabs[i], "url", json::from_text(url));
        }
        i = i + 1;
    }
}

fn same_session(a: &Option<String>, b: &Option<String>) -> (same: bool)
    ensures
        same == (text_of(*a) == text_of(*b)),
{
    match (a, b) {
        (Some(a), Some(b)) => same_text(a.as_str(), b.as_str()),
        (None, None) => true,
        _ => false,
    }
}

fn read_i64(document: &serde_json::Value, key: &str) -> (number: Option<i64>)
    ensures
        number == i64_member(json_of(*document), key@),
{
    match json::member(document, key) {
        Some(number) => json::as_i64(number),
        None => None,
    }
}

fn read_text<'a>(document: &'a serde_json::Value, key: &str) -> (text: Option<&'a str>)
    ensures
        slice_of(text) == json_of(*document).text_member(key@),
{
    match json::member(document, key) {
        Some(text) => json::as_text(text),
        None => None,
    }
}

/// The address that the main frame has gone to, if the event says so.
fn read_navigated_url(event: &CdpEvent) -> (url: Option<&str>)
    ensures
        slice_of(url) == navigated_url(event.document()),
{
    match json::member(&event.params, "frame") {
        Some(frame) => if is_main_frame(frame) {
            read_text(frame, "url")
        } else {
            None
        },
        None => None,
    }
}

/// The arguments of a call of the console.
pub fn console_args(event: &CdpEvent) -> (args: Vec<serde_json::Value>)
    ensures
        documents_of(args@) == console_items(event.document()),
{
    let mut args: Vec<serde_json::Value> = Vec::new();
    if let Some(value) = json::member(&event.params, "args") {
        if let Some(items) = json::as_items(value) {
            let mut i: usize = 0;
            while i < items.len()
                invariant
                    i <= items.len(),
                    args@ == items@.take(i as int),
                decreases items.len() - i,
            {
                args.push(json::copy_of(&items[i]));
                i = i + 1;
            }
            assert(items@.take(items@.len() as int) =~= items@);
        }
    }
    args
}

/// What an event says about an error of the page.
fn read_error_text(event: &CdpEvent) -> (text: &str)
    ensures
        text@ == error_text(event.document()),
{
    if let Some(details) = json::member(&event.params, "exceptionDetails") {
        if let Some(exception) = json::member(details, "exception") {
            if let Some(text) = read_text(exception, "description") {
                return text;
            }
        }
        if let Some(text) = read_text(details, "text") {
            return text;
        }
    }
    "Unknown error"
}

fn read_error_place(event: &CdpEvent, key: &str) -> (place: Option<i64>)
    ensures
        place == error_place(event.document(), key@),
{
    match json::member(&event.params, "exceptionDetails") {
        Some(details) => read_i64(details, key),
        None => None,
    }
}

impl Preview {
    /// Whether the browser has a screencast.
    pub fn supports_screencast(&self) -> (supports: bool)
        ensures
            supports == self.supports(),
    {
        same_text(self.engine.as_str(), "chrome")
    }

    fn stop_effect(&self) -> (effect: PreviewEffect)
        ensures
            effect@ == self.stop(),
    {
        PreviewEffect::StopScreencast { session_id: self.session_id.clone() }
    }

    fn start_effect(&self) -> (effect: PreviewEffect)
        ensures
            effect@ == self.start(),
    {
        PreviewEffect::StartScreencast {
            session_id: self.session_id.clone(),
            width: self.width,
            height: self.height,
        }
    }

    /// Starts the screencast of a page that has loaded anew.
    pub fn restart_screencast(&self) -> (effects: Vec<PreviewEffect>)
        ensures
            effects_of(effects@) == self.restarted(),
    {
        let mut effects: Vec<PreviewEffect> = Vec::new();
        if self.supports_screencast() {
            effects.push(PreviewEffect::Sleep(PREVIEW_SETTLE_MS));
            effects.push(self.stop_effect());
            effects.push(self.start_effect());
            effects.push(PreviewEffect::SetScreencasting(true));
        }
        effects
    }

    fn pass_on_image(&self, event: &CdpEvent) -> (effects: Vec<PreviewEffect>)
        ensures
            effects_of(effects@) == self.image_passed_on(*event),
    {
        let mut effects: Vec<PreviewEffect> = Vec::new();
        if let Some(frame_session) = read_i64(&event.params, "sessionId") {
            effects.push(
                PreviewEffect::Acknowledge {
                    session_id: event.session_id.clone(),
                    frame_session,
                },
            );
        }
        if let Some(data) = read_text(&event.params, "data") {
            let meta = json::member(&event.params, "metadata");
            let message = frame_message(data, meta, self.width, self.height);
            effects.push(PreviewEffect::KeepFrame(message.clone()));
            effects.push(PreviewEffect::Broadcast(message));
        }
        effects
    }

    /// Acts on an event while nothing is recorded.
    pub fn pass_on(&self, event: &CdpEvent, console_text: &str, millis: u64) -> (effects: Vec<
        PreviewEffect,
    >)
        ensures
            effects_of(effects@) == self.passed_on(*event, console_text@, millis),
    {
        let mut effects: Vec<PreviewEffect> = Vec::new();
        let method = event.method.as_str();
        if same_text(method, "Page.frameStoppedLoading") {
            return self.restart_screencast();
        }
        if same_text(method, "Page.frameNavigated") {
            if let Some(url) = read_navigated_url(event) {
                effects.push(PreviewEffect::UpdateTabs(url.to_owned()));
                effects.push(PreviewEffect::Broadcast(url_message(url, millis)));
            }
            return effects;
        }
        if same_text(method, "Page.screencastFrame") {
            return self.pass_on_image(event);
        }
        if same_text(method, "Runtime.consoleAPICalled") {
            if !console_text.is_empty() {
                let level = match read_text(&event.params, "type") {
                    Some(level) => level,
                    None => "log",
                };
                let args = console_args(event);
                effects.push(
                    PreviewEffect::Broadcast(console_message(level, console_text, args, millis)),
                );
            }
            return effects;
        }
        if same_text(method, "Runtime.exceptionThrown") {
            let line = read_error_place(event, "lineNumber");
            let column = read_error_place(event, "columnNumber");
            effects.push(
                PreviewEffect::Broadcast(
                    page_error_message(read_error_text(event), line, column, millis),
                ),
            );
        }
        effects
    }

    /// Whether the running screencast has become the wrong one.
    pub fn is_outdated(&self, around: &Surroundings) -> (yes: bool)
        ensures
            yes == self.outdated(*around),
    {
        let same_client = match around.client {
            Some(client) => client == self.client,
            None => false,
        };
        !same_client || !same_session(&around.session_id, &self.session_id) || around.width
            != self.width || around.height != self.height || around.recording
            || !around.screencasting
    }
}

/// The effects that stop a screencast that runs though no live view does.
fn stop_stray(around: &Surroundings) -> (effects: Vec<PreviewEffect>)
    ensures
        effects_of(effects@) == stray_stopped(*around),
{
    let mut effects: Vec<PreviewEffect> = Vec::new();
    if around.screencasting {
        if around.client.is_some() {
            effects.push(
                PreviewEffect::StopScreencast { session_id: around.session_id.clone() },
            );
        }
        effects.push(PreviewEffect::SetScreencasting(false));
    }
    effects
}

/// A step has come out as `state` says.
pub open spec fn reaches(phase: PreviewPhase, step: PreviewStep, state: PreviewState) -> bool {
    &&& phase == state.phase
    &&& effects_of(step.effects@) =~= state.effects
    &&& step.next == state.next
}

impl PreviewLoop {
    /// A live view that has not begun.
    pub fn new() -> (preview: Self)
        ensures
            preview.phase is Idle,
    {
        PreviewLoop { phase: PreviewPhase::Idle }
    }

    fn look(&mut self, around: &Surroundings) -> (step: PreviewStep)
        requires
            old(self).phase is Idle,
        ensures
            reaches(final(self).phase, step, looked(*around)),
    {
        let mut effects: Vec<PreviewEffect> = Vec::new();
        if around.client_count == 0 {
            return PreviewStep { effects: stop_stray(around), next: PreviewNext::AwaitNotice };
        }
        if around.recording {
            if around.screencasting {
                effects.push(PreviewEffect::SetScreencasting(false));
            }
            let status = StreamStatus {
                connected: around.client.is_some(),
                screencasting: false,
                width: around.width,
                height: around.height,
                recording: true,
            };
            effects.push(PreviewEffect::Broadcast(status_message(&status, around.engine.as_str())));
            return PreviewStep { effects, next: PreviewNext::AwaitNotice };
        }
        match around.client {
            Some(client) => {
                let preview = Preview {
                    client,
                    session_id: around.session_id.clone(),
                    width: around.width,
                    height: around.height,
                    engine: around.engine.clone(),
                };
                let supports = preview.supports_screencast();
                effects.push(PreviewEffect::Subscribe);
                if supports {
                    effects.push(preview.start_effect());
                }
                effects.push(PreviewEffect::SetScreencasting(supports));
                self.phase = PreviewPhase::Starting(preview);
                PreviewStep { effects, next: PreviewNext::LookAgain }
            },
            None => PreviewStep { effects, next: PreviewNext::AwaitNotice },
        }
    }

    /// Tells the viewers that the live view runs.
    fn begin(&mut self, preview: Preview, around: &Surroundings) -> (step: PreviewStep)
        ensures
            reaches(
                final(self).phase,
                step,
                (PreviewLoop { phase: PreviewPhase::Starting(preview) }).stepped(
                    PreviewInput::Started,
                    *around,
                    0,
                ),
            ),
    {
        let status = StreamStatus {
            connected: true,
            screencasting: preview.supports_screencast(),
            width: preview.width,
            height: preview.height,
            recording: around.recording,
        };
        let mut effects: Vec<PreviewEffect> = Vec::new();
        effects.push(PreviewEffect::Broadcast(status_message(&status, preview.engine.as_str())));
        self.phase = PreviewPhase::Streaming(preview);
        PreviewStep { effects, next: PreviewNext::AwaitEvent }
    }

    /// Acts on what happens while the live view runs.
    fn stream(
        &mut self,
        preview: Preview,
        input: PreviewInput,
        around: &Surroundings,
        millis: u64,
    ) -> (step: PreviewStep)
        requires
            !(input is Started),
        ensures
            reaches(final(self).phase, step, preview.streamed(input, *around, millis)),
    {
        let mut effects: Vec<PreviewEffect> = Vec::new();
        match input {
            PreviewInput::Shutdown(change) => {
                if change.is_end() {
                    if preview.supports_screencast() {
                        effects.push(
                            PreviewEffect::StopScreencast { session_id: around.session_id.clone() },
                        );
                    }
                    effects.push(PreviewEffect::SetScreencasting(false));
                    self.phase = PreviewPhase::Ended;
                    return PreviewStep { effects, next: PreviewNext::Return };
                }
            },
            PreviewInput::Event { event, console_text } => {
                if around.recording {
                    // The recording supplies the images now. Acknowledging one here would keep
                    // the browser sending a second stream of them.
                    effects.push(PreviewEffect::SetScreencasting(false));
                    effects.push(PreviewEffect::Notify);
                    self.phase = PreviewPhase::Idle;
                    return PreviewStep { effects, next: PreviewNext::AwaitNotice };
                }
                effects = preview.pass_on(&event, console_text.as_str(), millis);
            },
            PreviewInput::Notified => {
                if around.client_count == 0 {
                    if preview.supports_screencast() {
                        effects.push(preview.stop_effect());
                    }
                    effects.push(PreviewEffect::SetScreencasting(false));
                    self.phase = PreviewPhase::Idle;
                    return PreviewStep { effects, next: PreviewNext::AwaitNotice };
                }
                if preview.is_outdated(around) {
                    if preview.supports_screencast() && !around.recording {
                        effects.push(preview.stop_effect());
                    }
                    effects.push(PreviewEffect::SetScreencasting(false));
                    effects.push(PreviewEffect::Notify);
                    self.phase = PreviewPhase::Idle;
                    return PreviewStep { effects, next: PreviewNext::AwaitNotice };
                }
            },
            PreviewInput::Closed => {
                self.phase = PreviewPhase::Idle;
                return PreviewStep { effects, next: PreviewNext::AwaitNotice };
            },
            _ => {},
        }
        self.phase = PreviewPhase::Streaming(preview);
        PreviewStep { effects, next: PreviewNext::AwaitEvent }
    }

    /// Takes what happened, and says what is wanted next. `around` is what the live view finds
    /// around itself now, and `millis` is now.
    pub fn step(&mut self, input: PreviewInput, around: &Surroundings, millis: u64) -> (step:
        PreviewStep)
        requires
            awaits(old(self).phase, input),
        ensures
            reaches(final(self).phase, step, old(self).stepped(input, *around, millis)),
    {
        let mut phase = PreviewPhase::Idle;
        std::mem::swap(&mut phase, &mut self.phase);
        match phase {
            PreviewPhase::Idle => {
                if let PreviewInput::Shutdown(change) = input {
                    if change.is_end() {
                        self.phase = PreviewPhase::Ended;
                        return PreviewStep {
                            effects: stop_stray(around),
                            next: PreviewNext::Return,
                        };
                    }
                }
                self.look(around)
            },
            PreviewPhase::Starting(preview) => self.begin(preview, around),
            PreviewPhase::Streaming(preview) => self.stream(preview, input, around, millis),
            PreviewPhase::Ended => vstd::pervasive::unreached(),
        }
    }
}

/// Whether a screencast is said to run once `effects` are done.
pub open spec fn screencasting_after(effects: Seq<PreviewEffectView>, before: bool) -> bool
    decreases effects.len(),
{
    if effects.len() == 0 {
        before
    } else {
        match effects.last() {
            PreviewEffectView::SetScreencasting(on) => on,
            _ => screencasting_after(effects.drop_last(), before),
        }
    }
}

/// Effects that do not say whether a screencast runs leave what was said.
proof fn lemma_screencasting_kept(effects: Seq<PreviewEffectView>, before: bool)
    requires
        forall|i: int| 0 <= i < effects.len() ==> !(#[trigger] effects[i] is SetScreencasting),
    ensures
        screencasting_after(effects, before) == before,
    decreases effects.len(),
{
    if effects.len() > 0 {
        assert(!(effects[effects.len() - 1] is SetScreencasting));
        assert forall|i: int| 0 <= i < effects.drop_last().len() implies !(
        #[trigger] effects.drop_last()[i] is SetScreencasting) by {
            assert(effects.drop_last()[i] == effects[i]);
        }
        lemma_screencasting_kept(effects.drop_last(), before);
    }
}

/// While a recording supplies the images, the live view neither starts a screencast nor
/// acknowledges or passes on an image, whatever happens; and as long as there are viewers and it
/// is not at its end, it does not stop the screencast of the recording either.
pub proof fn law_recording_is_left_alone(
    preview: PreviewLoop,
    input: PreviewInput,
    around: Surroundings,
    millis: u64,
)
    requires
        awaits(preview.phase, input),
        around.recording,
    ensures
        ({
            let effects = preview.stepped(input, around, millis).effects;
            &&& forall|i: int|
                0 <= i < effects.len() ==> !(#[trigger] effects[i] is StartScreencast) && !(
                effects[i] is Acknowledge) && !(effects[i] is KeepFrame)
            &&& around.client_count > 0 && !(input is Shutdown) ==> forall|i: int|
                0 <= i < effects.len() ==> !(#[trigger] effects[i] is StopScreencast)
        }),
{
}

/// A browser without a screencast is never asked for one, nor to stop one that the live view
/// runs.
pub proof fn law_only_chrome_is_screencast(
    preview: PreviewLoop,
    input: PreviewInput,
    around: Surroundings,
    millis: u64,
)
    requires
        awaits(preview.phase, input),
        match preview.phase {
            PreviewPhase::Starting(running) => !running.supports(),
            PreviewPhase::Streaming(running) => !running.supports(),
            _ => !has_screencast(around.engine@),
        },
    ensures
        ({
            let effects = preview.stepped(input, around, millis).effects;
            &&& forall|i: int|
                0 <= i < effects.len() ==> !(#[trigger] effects[i] is StartScreencast)
            &&& !(preview.phase is Idle) ==> forall|i: int|
                0 <= i < effects.len() ==> !(#[trigger] effects[i] is StopScreencast)
        }),
{
}

/// The screencast starts by itself: when the live view looks around and there are viewers, a
/// connection to a browser with a screencast and no recording, it starts one in the session and
/// of the size that it finds.
pub proof fn law_viewers_start_the_screencast(around: Surroundings, millis: u64)
    requires
        around.client_count > 0,
        around.client is Some,
        !around.recording,
        has_screencast(around.engine@),
    ensures
        ({
            let preview = preview_of(around, around.client->0);
            let after = (PreviewLoop { phase: PreviewPhase::Idle }).stepped(
                PreviewInput::Notified,
                around,
                millis,
            );
            &&& after.phase == PreviewPhase::Starting(preview)
            &&& after.effects =~= seq![
                PreviewEffectView::Subscribe,
                preview.start(),
                PreviewEffectView::SetScreencasting(true),
            ]
        }),
{
}

/// The screencast stops by itself: when the last viewer is gone, a live view that runs stops
/// the screencast that it started, and says that none runs.
pub proof fn law_last_viewer_stops_the_screencast(
    running: Preview,
    around: Surroundings,
    millis: u64,
)
    requires
        around.client_count == 0,
        running.supports(),
    ensures
        ({
            let after = (PreviewLoop { phase: PreviewPhase::Streaming(running) }).stepped(
                PreviewInput::Notified,
                around,
                millis,
            );
            &&& after.phase is Idle
            &&& after.effects =~= seq![
                running.stop(),
                PreviewEffectView::SetScreencasting(false),
            ]
        }),
{
}

/// A live view that has ended has said that no screencast runs.
pub proof fn law_end_leaves_no_screencast(
    preview: PreviewLoop,
    input: PreviewInput,
    around: Surroundings,
    millis: u64,
)
    requires
        awaits(preview.phase, input),
        preview.stepped(input, around, millis).phase is Ended,
    ensures
        !screencasting_after(
            preview.stepped(input, around, millis).effects,
            around.screencasting,
        ),
{
    reveal_with_fuel(screencasting_after, 2);
}

/// A live view that stops running says that no screencast runs, unless the connection to the
/// browser has closed.
pub proof fn law_stopped_view_says_so(
    running: Preview,
    input: PreviewInput,
    around: Surroundings,
    millis: u64,
)
    requires
        awaits(PreviewPhase::Streaming(running), input),
        !(input is Closed),
    ensures
        ({
            let after = running.streamed(input, around, millis);
            !(after.phase is Streaming) ==> !screencasting_after(
                after.effects,
                around.screencasting,
            )
        }),
{
    reveal_with_fuel(screencasting_after, 3);
}

/// What is said of the screencast is true of a live view that runs: it is said to run exactly
/// where the browser has one, from the start on and for as long as nobody else says otherwise.
pub proof fn law_running_view_says_so(
    preview: PreviewLoop,
    input: PreviewInput,
    around: Surroundings,
    millis: u64,
)
    requires
        awaits(preview.phase, input),
        match preview.phase {
            PreviewPhase::Starting(running) => around.screencasting == running.supports(),
            PreviewPhase::Streaming(running) => around.screencasting == running.supports(),
            _ => true,
        },
    ensures
        ({
            let after = preview.stepped(input, around, millis);
            let said = screencasting_after(after.effects, around.screencasting);
            match after.phase {
                PreviewPhase::Starting(running) => said == running.supports(),
                PreviewPhase::Streaming(running) => said == running.supports(),
                _ => true,
            }
        }),
{
    reveal_with_fuel(screencasting_after, 2);
    let after = preview.stepped(input, around, millis);
    if let PreviewPhase::Streaming(running) = preview.phase {
        if let PreviewInput::Event { event, console_text } = input {
            if !around.recording {
                let effects = running.passed_on(event, console_text@, millis);
                if event.method@ == "Page.frameStoppedLoading"@ && running.supports() {
                    assert(effects.last() == PreviewEffectView::SetScreencasting(true));
                } else {
                    lemma_screencasting_kept(effects, around.screencasting);
                }
            }
        }
    }
    if let PreviewPhase::Starting(running) = after.phase {
        assert(after.effects.last() == PreviewEffectView::SetScreencasting(running.supports()));
    }
}

/// When the session, the viewport or the connection of a live view changes, it stops the
/// screencast that it started and says that something has changed; and when it then looks
/// around, it starts a screencast of what it finds.
pub proof fn law_change_moves_the_screencast(
    running: Preview,
    around: Surroundings,
    later: Surroundings,
    millis: u64,
)
    requires
        running.supports(),
        around.client_count > 0,
        !around.recording,
        around.client != Some(running.client) || text_of(around.session_id) != text_of(
            running.session_id,
        ) || around.width != running.width || around.height != running.height,
        later == (Surroundings { screencasting: false, ..around }),
        later.client is Some,
        has_screencast(later.engine@),
    ensures
        ({
            let first = (PreviewLoop { phase: PreviewPhase::Streaming(running) }).stepped(
                PreviewInput::Notified,
                around,
                millis,
            );
            let second = (PreviewLoop { phase: first.phase }).stepped(
                PreviewInput::Notified,
                later,
                millis,
            );
            &&& first.effects =~= seq![
                running.stop(),
                PreviewEffectView::SetScreencasting(false),
                PreviewEffectView::Notify,
            ]
            &&& first.phase is Idle
            &&& second.effects[1] == (PreviewEffectView::StartScreencast {
                session_id: text_of(around.session_id),
                width: around.width,
                height: around.height,
            })
            &&& second.effects.len() == 3
        }),
{
}

} // verus!
