//! Sending the messages of the live view to a listener elsewhere, over one connection that is
//! opened again whenever it breaks.
//!
//! Of the messages that are waiting, only the latest of each kind is sent, and images are sent
//! at most twenty-five times a second, so that a slow listener falls behind by no more than the
//! message that it is taking.
use crate::stream::classify::{classify_message, kind_of, message_image, MessageKind};
use crate::stream::shutdown::ShutdownChange;
use vstd::prelude::*;

verus! {

/// The least time between two images, in nanoseconds.
pub const MIN_FRAME_INTERVAL_NANOS: u128 = 40_000_000;

/// How long the listener is given to accept a connection, in milliseconds.
pub const CONNECT_TIMEOUT_MS: u64 = 5000;

/// How long the listener is given to take a message, in milliseconds.
pub const SEND_TIMEOUT_MS: u64 = 2000;

/// How long a lost or refused connection is left alone, in milliseconds.
pub const RECONNECT_DELAY_MS: u64 = 1000;

/// Who watches.
#[derive(PartialEq, Eq, Structural, Clone, Copy)]
pub struct Viewers {
    pub client_count: usize,
    /// The listener is one of them.
    pub sink_connected: bool,
}

impl Viewers {
    /// The viewers once the listener is counted among them.
    pub open spec fn with_sink(self) -> Viewers {
        Viewers { client_count: (self.client_count + 1) as usize, sink_connected: true }
    }

    /// The viewers once the listener is not counted among them any more.
    pub open spec fn without_sink(self) -> Viewers {
        Viewers {
            client_count: if self.client_count == 0 {
                0
            } else {
                (self.client_count - 1) as usize
            },
            sink_connected: false,
        }
    }

    /// Counts the listener among the viewers.
    pub fn increment_client_count(&mut self)
        requires
            old(self).client_count < usize::MAX,
        ensures
            *final(self) == old(self).with_sink(),
    {
        self.sink_connected = true;
        self.client_count = self.client_count + 1;
    }

    /// Does not count the listener among the viewers any more.
    pub fn decrement_client_count(&mut self)
        ensures
            *final(self) == old(self).without_sink(),
    {
        self.sink_connected = false;
        if self.client_count > 0 {
            self.client_count = self.client_count - 1;
        }
    }
}

/// The latest of the messages that are waiting: on the state, with an image, and any other.
pub struct MessageBatch {
    pub status: Option<String>,
    pub frame: Option<Vec<u8>>,
    pub other: Option<String>,
}

/// The model of the latest messages.
pub struct MessageBatchView {
    pub status: Option<Seq<char>>,
    pub frame: Option<Seq<u8>>,
    pub other: Option<Seq<char>>,
}

impl View for MessageBatch {
    type V = MessageBatchView;

    open spec fn view(&self) -> MessageBatchView {
        MessageBatchView {
            status: match self.status {
                Some(message) => Some(message@),
                None => None,
            },
            frame: match self.frame {
                Some(bytes) => Some(bytes@),
                None => None,
            },
            other: match self.other {
                Some(message) => Some(message@),
                None => None,
            },
        }
    }
}

pub open spec fn no_messages() -> MessageBatchView {
    MessageBatchView { status: None, frame: None, other: None }
}

impl MessageBatchView {
    /// The latest messages once `message` has come in.
    pub open spec fn with(self, message: Seq<char>) -> MessageBatchView {
        match kind_of(message) {
            MessageKind::Status => MessageBatchView { status: Some(message), ..self },
            MessageKind::Frame => match message_image(message) {
                Some(image) => MessageBatchView { frame: Some(image), ..self },
                None => self,
            },
            MessageKind::Other => MessageBatchView { other: Some(message), ..self },
        }
    }
}

/// The latest of some messages, which came in their order.
pub open spec fn latest_of(messages: Seq<Seq<char>>) -> MessageBatchView
    decreases messages.len(),
{
    if messages.len() == 0 {
        no_messages()
    } else {
        latest_of(messages.drop_last()).with(messages.last())
    }
}

impl MessageBatch {
    pub fn new() -> (batch: Self)
        ensures
            batch@ == no_messages(),
    {
        MessageBatch { status: None, frame: None, other: None }
    }

    /// Takes a message in.
    pub fn take(&mut self, message: String)
        ensures
            final(self)@ == old(self)@.with(message@),
    {
        classify_message(message, &mut self.status, &mut self.frame, &mut self.other);
    }
}

/// A message for the listener.
pub enum OutboundMessage {
    Text(String),
    Binary(Vec<u8>),
}

/// The model of a message for the listener.
pub enum OutboundMessageView {
    Text(Seq<char>),
    Binary(Seq<u8>),
}

impl View for OutboundMessage {
    type V = OutboundMessageView;

    open spec fn view(&self) -> OutboundMessageView {
        match *self {
            OutboundMessage::Text(text) => OutboundMessageView::Text(text@),
            OutboundMessage::Binary(bytes) => OutboundMessageView::Binary(bytes@),
        }
    }
}

/// What the sink waits for.
pub enum SinkPhase {
    /// The listener to accept the connection.
    Connecting,
    /// A while, before it tries again.
    Waiting,
    /// A message, a sign of the listener, or the end.
    Streaming,
    /// The next message that is waiting already.
    Draining(MessageBatch),
    /// The message on the state to be sent.
    SendingStatus(MessageBatch),
    /// The time for the next image.
    Pacing(Vec<u8>),
    /// The image to be sent.
    SendingFrame,
    /// Another message to be sent.
    SendingOther,
    /// The farewell to be sent.
    Closing,
    Ended,
}

/// The model of what the sink waits for.
pub enum SinkPhaseView {
    Connecting,
    Waiting,
    Streaming,
    Draining(MessageBatchView),
    SendingStatus(MessageBatchView),
    Pacing(Seq<u8>),
    SendingFrame,
    SendingOther,
    Closing,
    Ended,
}

impl View for SinkPhase {
    type V = SinkPhaseView;

    open spec fn view(&self) -> SinkPhaseView {
        match *self {
            SinkPhase::Connecting => SinkPhaseView::Connecting,
            SinkPhase::Waiting => SinkPhaseView::Waiting,
            SinkPhase::Streaming => SinkPhaseView::Streaming,
            SinkPhase::Draining(batch) => SinkPhaseView::Draining(batch@),
            SinkPhase::SendingStatus(batch) => SinkPhaseView::SendingStatus(batch@),
            SinkPhase::Pacing(frame) => SinkPhaseView::Pacing(frame@),
            SinkPhase::SendingFrame => SinkPhaseView::SendingFrame,
            SinkPhase::SendingOther => SinkPhaseView::SendingOther,
            SinkPhase::Closing => SinkPhaseView::Closing,
            SinkPhase::Ended => SinkPhaseView::Ended,
        }
    }
}

/// The sink.
pub struct SinkLoop {
    pub phase: SinkPhase,
    /// When the last image over this connection was sent, in nanoseconds.
    pub last_frame_sent_at: Option<u128>,
}

/// The model of the sink.
pub struct SinkView {
    pub phase: SinkPhaseView,
    pub last_frame_sent_at: Option<u128>,
}

impl View for SinkLoop {
    type V = SinkView;

    open spec fn view(&self) -> SinkView {
        SinkView { phase: self.phase@, last_frame_sent_at: self.last_frame_sent_at }
    }
}

/// A sign of the listener.
#[derive(PartialEq, Eq, Structural, Clone, Copy)]
pub enum ListenerSign {
    /// It said something, which is of no interest.
    Message,
    /// It said farewell.
    Close,
    /// The connection failed.
    Failed,
    /// The connection is at its end.
    Ended,
}

/// After this sign the listener takes no more: that is so of every sign but a message.
pub open spec fn is_gone(sign: ListenerSign) -> bool {
    sign == ListenerSign::Close || sign == ListenerSign::Failed || sign == ListenerSign::Ended
}

/// What happened to the sink.
pub enum SinkInput {
    /// The switch for the end was moved.
    ShutdownChanged(ShutdownChange),
    /// The listener has accepted the connection, or has not.
    Connected(bool),
    /// The time that was asked for has passed, or the switch for the end was moved.
    Waited,
    /// A message has come in.
    Message(String),
    /// Messages were lost.
    Lagged,
    /// No message is waiting.
    Empty,
    /// There will be no more messages.
    Closed,
    /// The listener has given a sign.
    Listener(ListenerSign),
    /// The message was taken, or was not.
    Sent(bool),
}

/// What the sink wants.
pub enum SinkNext {
    /// Open a connection; give up after so many milliseconds, or when the switch for the end is
    /// moved.
    Connect(u64),
    /// Wait for so many milliseconds, or until the switch for the end is moved.
    Wait(u64),
    /// Wait for a message, a sign of the listener, or the switch for the end.
    AwaitStream,
    /// Look whether a message is waiting.
    TryReceive,
    /// Send a message; give up after so many milliseconds.
    Send { message: OutboundMessage, timeout: u64 },
    /// Wait for so many nanoseconds.
    Sleep(u128),
    /// Say farewell to the listener.
    SendClose,
    /// The sink is over.
    Return,
}

/// The model of what the sink wants.
pub enum SinkNextView {
    Connect(u64),
    Wait(u64),
    AwaitStream,
    TryReceive,
    Send { message: OutboundMessageView, timeout: u64 },
    Sleep(u128),
    SendClose,
    Return,
}

impl View for SinkNext {
    type V = SinkNextView;

    open spec fn view(&self) -> SinkNextView {
        match *self {
            SinkNext::Connect(millis) => SinkNextView::Connect(millis),
            SinkNext::Wait(millis) => SinkNextView::Wait(millis),
            SinkNext::AwaitStream => SinkNextView::AwaitStream,
            SinkNext::TryReceive => SinkNextView::TryReceive,
            SinkNext::Send { message, timeout } => SinkNextView::Send {
                message: message@,
                timeout,
            },
            SinkNext::Sleep(nanos) => SinkNextView::Sleep(nanos),
            SinkNext::SendClose => SinkNextView::SendClose,
            SinkNext::Return => SinkNextView::Return,
        }
    }
}

/// What the sink wants, and whether it wants it said first that the viewers have changed.
pub struct SinkStep {
    pub notify: bool,
    pub next: SinkNext,
}

/// Where the sink stands: itself, the viewers, and what it wants.
pub struct SinkState {
    pub sink: SinkView,
    pub viewers: Viewers,
    pub notify: bool,
    pub next: SinkNextView,
}

/// What the sink knows besides: whether the switch says that this is the end, and the time in
/// nanoseconds.
#[derive(PartialEq, Eq, Structural, Clone, Copy)]
pub struct SinkNow {
    pub shutdown: bool,
    pub nanos: u128,
}

/// `input` is something that the sink waits for in `phase`.
pub open spec fn awaits(phase: SinkPhaseView, input: SinkInput) -> bool {
    match phase {
        SinkPhaseView::Connecting => input is ShutdownChanged || input is Connected,
        SinkPhaseView::Waiting | SinkPhaseView::Pacing(_) => input is Waited,
        SinkPhaseView::Streaming => input is ShutdownChanged || input is Message || input is Lagged
            || input is Closed || input is Listener,
        SinkPhaseView::Draining(_) => input is Message || input is Lagged || input is Empty
            || input is Closed,
        SinkPhaseView::SendingStatus(_) | SinkPhaseView::SendingFrame
        | SinkPhaseView::SendingOther | SinkPhaseView::Closing => input is Sent,
        SinkPhaseView::Ended => false,
    }
}

/// How long an image must wait at `now` when the last one was sent at `last`.
pub open spec fn pace(last: Option<u128>, now: u128) -> u128 {
    match last {
        Some(last) => if now < last {
            MIN_FRAME_INTERVAL_NANOS
        } else if now - last < MIN_FRAME_INTERVAL_NANOS {
            (MIN_FRAME_INTERVAL_NANOS - (now - last)) as u128
        } else {
            0
        },
        None => 0,
    }
}

/// How long an image must wait, so that two are sent no faster than that.
pub fn pace_frame_send(last_frame_sent_at: Option<u128>, now: u128) -> (nanos: u128)
    ensures
        nanos == pace(last_frame_sent_at, now),
{
    match last_frame_sent_at {
        Some(last) => {
            let elapsed: u128 = if now < last {
                0
            } else {
                now - last
            };
            if elapsed < MIN_FRAME_INTERVAL_NANOS {
                MIN_FRAME_INTERVAL_NANOS - elapsed
            } else {
                0
            }
        },
        None => 0,
    }
}

impl SinkView {
    pub open spec fn at(
        self,
        phase: SinkPhaseView,
        viewers: Viewers,
        next: SinkNextView,
    ) -> SinkState {
        SinkState { sink: SinkView { phase, ..self }, viewers, notify: false, next }
    }

    /// The sink opens a connection, unless this is the end.
    pub open spec fn connecting(self, viewers: Viewers, now: SinkNow) -> SinkState {
        if now.shutdown {
            self.at(SinkPhaseView::Ended, viewers, SinkNextView::Return)
        } else {
            self.at(
                SinkPhaseView::Connecting,
                viewers,
                SinkNextView::Connect(CONNECT_TIMEOUT_MS),
            )
        }
    }

    /// The sink waits before it opens a connection again.
    pub open spec fn resting(self, viewers: Viewers) -> SinkState {
        self.at(SinkPhaseView::Waiting, viewers, SinkNextView::Wait(RECONNECT_DELAY_MS))
    }

    /// The connection is lost: the listener is counted no more.
    pub open spec fn disconnected(self, viewers: Viewers) -> SinkState {
        SinkState { notify: true, ..self.resting(viewers.without_sink()) }
    }

    pub open spec fn streaming(self, viewers: Viewers) -> SinkState {
        self.at(SinkPhaseView::Streaming, viewers, SinkNextView::AwaitStream)
    }

    /// A message is sent, unless this is the end, which ends the connection.
    pub open spec fn sending(
        self,
        viewers: Viewers,
        now: SinkNow,
        phase: SinkPhaseView,
        message: OutboundMessageView,
    ) -> SinkState {
        if now.shutdown {
            self.disconnected(viewers)
        } else {
            self.at(phase, viewers, SinkNextView::Send { message, timeout: SEND_TIMEOUT_MS })
        }
    }

    /// The message on the state is out of the way: an image is sent when it is time for one,
    /// and where there is none, the other message.
    pub open spec fn state_told(
        self,
        viewers: Viewers,
        now: SinkNow,
        batch: MessageBatchView,
    ) -> SinkState {
        match (batch.frame, batch.other) {
            (Some(frame), _) => {
                let delay = pace(self.last_frame_sent_at, now.nanos);
                if now.shutdown {
                    self.disconnected(viewers)
                } else if delay > 0 {
                    self.at(SinkPhaseView::Pacing(frame), viewers, SinkNextView::Sleep(delay))
                } else {
                    self.sending(
                        viewers,
                        now,
                        SinkPhaseView::SendingFrame,
                        OutboundMessageView::Binary(frame),
                    )
                }
            },
            (None, Some(other)) => self.sending(
                viewers,
                now,
                SinkPhaseView::SendingOther,
                OutboundMessageView::Text(other),
            ),
            (None, None) => self.streaming(viewers),
        }
    }

    /// All messages that were waiting are in: the one on the state goes first.
    pub open spec fn drained(
        self,
        viewers: Viewers,
        now: SinkNow,
        batch: MessageBatchView,
    ) -> SinkState {
        match batch.status {
            Some(status) => self.sending(
                viewers,
                now,
                SinkPhaseView::SendingStatus(batch),
                OutboundMessageView::Text(status),
            ),
            None => self.state_told(viewers, now, batch),
        }
    }

    pub open spec fn draining(self, viewers: Viewers, batch: MessageBatchView) -> SinkState {
        self.at(SinkPhaseView::Draining(batch), viewers, SinkNextView::TryReceive)
    }

    /// What an input does to the sink.
    pub open spec fn stepped(self, viewers: Viewers, input: SinkInput, now: SinkNow) -> SinkState {
        match (self.phase, input) {
            (SinkPhaseView::Connecting, SinkInput::ShutdownChanged(change)) => if change.ending() {
                self.at(SinkPhaseView::Ended, viewers, SinkNextView::Return)
            } else {
                self.connecting(viewers, now)
            },
            (SinkPhaseView::Connecting, SinkInput::Connected(accepted)) => if accepted {
                SinkState {
                    notify: true,
                    ..(SinkView { last_frame_sent_at: None, ..self }).streaming(viewers.with_sink())
                }
            } else {
                self.resting(viewers)
            },
            (SinkPhaseView::Waiting, _) => self.connecting(viewers, now),
            (SinkPhaseView::Streaming, SinkInput::ShutdownChanged(change)) => if change.ending() {
                self.at(SinkPhaseView::Closing, viewers, SinkNextView::SendClose)
            } else {
                self.streaming(viewers)
            },
            (SinkPhaseView::Streaming, SinkInput::Message(message)) => self.draining(
                viewers,
                no_messages().with(message@),
            ),
            (SinkPhaseView::Streaming, SinkInput::Closed) => self.disconnected(viewers),
            (SinkPhaseView::Streaming, SinkInput::Listener(sign)) => if is_gone(sign) {
                self.disconnected(viewers)
            } else {
                self.streaming(viewers)
            },
            (SinkPhaseView::Streaming, _) => self.streaming(viewers),
            (SinkPhaseView::Draining(batch), SinkInput::Message(message)) => self.draining(
                viewers,
                batch.with(message@),
            ),
            (SinkPhaseView::Draining(batch), SinkInput::Lagged) => self.draining(viewers, batch),
            (SinkPhaseView::Draining(batch), _) => self.drained(viewers, now, batch),
            (SinkPhaseView::SendingStatus(batch), SinkInput::Sent(taken)) => if taken {
                self.state_told(viewers, now, batch)
            } else {
                self.disconnected(viewers)
            },
            (SinkPhaseView::Pacing(frame), _) => self.sending(
                viewers,
                now,
                SinkPhaseView::SendingFrame,
                OutboundMessageView::Binary(frame),
            ),
            (SinkPhaseView::SendingFrame, SinkInput::Sent(taken)) => if taken {
                (SinkView { last_frame_sent_at: Some(now.nanos), ..self }).streaming(viewers)
            } else {
                self.disconnected(viewers)
            },
            (SinkPhaseView::SendingOther, SinkInput::Sent(taken)) => if taken {
                self.streaming(viewers)
            } else {
                self.disconnected(viewers)
            },
            (SinkPhaseView::Closing, _) => SinkState {
                notify: true,
                ..self.at(
                    SinkPhaseView::Ended,
                    viewers.without_sink(),
                    SinkNextView::Return,
                )
            },
            _ => self.at(SinkPhaseView::Ended, viewers, SinkNextView::Return),
        }
    }
}

/// A step of the sink has come out as `state` says.
pub open spec fn reaches(
    sink: SinkLoop,
    viewers: Viewers,
    step: SinkStep,
    state: SinkState,
) -> bool {
    &&& sink@ == state.sink
    &&& viewers == state.viewers
    &&& step.notify == state.notify
    &&& step.next@ == state.next
}

impl SinkLoop {
    /// Begins to send messages, unless this is the end already.
    pub fn start(now: SinkNow) -> (begun: (SinkLoop, SinkNext))
        ensures
            begun.0@ == (SinkView {
                phase: if now.shutdown {
                    SinkPhaseView::Ended
                } else {
                    SinkPhaseView::Connecting
                },
                last_frame_sent_at: None,
            }),
            begun.1@ == (if now.shutdown {
                SinkNextView::Return
            } else {
                SinkNextView::Connect(CONNECT_TIMEOUT_MS)
            }),
    {
        if now.shutdown {
            (SinkLoop { phase: SinkPhase::Ended, last_frame_sent_at: None }, SinkNext::Return)
        } else {
            (
                SinkLoop { phase: SinkPhase::Connecting, last_frame_sent_at: None },
                SinkNext::Connect(CONNECT_TIMEOUT_MS),
            )
        }
    }

    fn go(&mut self, phase: SinkPhase, next: SinkNext) -> (step: SinkStep)
        ensures
            final(self).phase == phase,
            final(self).last_frame_sent_at == old(self).last_frame_sent_at,
            step == (SinkStep { notify: false, next }),
    {
        self.phase = phase;
        SinkStep { notify: false, next }
    }

    fn connect(&mut self, viewers: &Viewers, now: SinkNow) -> (step: SinkStep)
        ensures
            reaches(*final(self), *viewers, step, old(self)@.connecting(*viewers, now)),
    {
        if now.shutdown {
            self.go(SinkPhase::Ended, SinkNext::Return)
        } else {
            self.go(SinkPhase::Connecting, SinkNext::Connect(CONNECT_TIMEOUT_MS))
        }
    }

    /// Waits before a connection is opened again.
    fn wait_before_reconnect(&mut self, viewers: &Viewers) -> (step: SinkStep)
        ensures
            reaches(*final(self), *viewers, step, old(self)@.resting(*viewers)),
    {
        self.go(SinkPhase::Waiting, SinkNext::Wait(RECONNECT_DELAY_MS))
    }

    fn disconnect(&mut self, viewers: &mut Viewers) -> (step: SinkStep)
        ensures
            reaches(*final(self), *final(viewers), step, old(self)@.disconnected(*old(viewers))),
    {
        viewers.decrement_client_count();
        let step = self.wait_before_reconnect(viewers);
        SinkStep { notify: true, next: step.next }
    }

    /// Sends a message, unless this is the end.
    fn send_outbound_message(
        &mut self,
        viewers: &mut Viewers,
        now: SinkNow,
        phase: SinkPhase,
        message: OutboundMessage,
    ) -> (step: SinkStep)
        ensures
            reaches(
                *final(self),
                *final(viewers),
                step,
                old(self)@.sending(*old(viewers), now, phase@, message@),
            ),
    {
        if now.shutdown {
            return self.disconnect(viewers);
        }
        self.go(phase, SinkNext::Send { message, timeout: SEND_TIMEOUT_MS })
    }

    fn send_image_or_other(&mut self, viewers: &mut Viewers, now: SinkNow, batch: MessageBatch) -> (step:
        SinkStep)
        ensures
            reaches(
                *final(self),
                *final(viewers),
                step,
                old(self)@.state_told(*old(viewers), now, batch@),
            ),
    {
        match (batch.frame, batch.other) {
            (Some(frame), _) => {
                let delay = pace_frame_send(self.last_frame_sent_at, now.nanos);
                if now.shutdown {
                    self.disconnect(viewers)
                } else if delay > 0 {
                    self.go(SinkPhase::Pacing(frame), SinkNext::Sleep(delay))
                } else {
                    self.send_outbound_message(
                        viewers,
                        now,
                        SinkPhase::SendingFrame,
                        OutboundMessage::Binary(frame),
                    )
                }
            },
            (None, Some(other)) => self.send_outbound_message(
                viewers,
                now,
                SinkPhase::SendingOther,
                OutboundMessage::Text(other),
            ),
            (None, None) => self.go(SinkPhase::Streaming, SinkNext::AwaitStream),
        }
    }

    /// Sends the latest of the messages that were waiting.
    fn send_latest_messages(&mut self, viewers: &mut Viewers, now: SinkNow, batch: MessageBatch) -> (step:
        SinkStep)
        ensures
            reaches(
                *final(self),
                *final(viewers),
                step,
                old(self)@.drained(*old(viewers), now, batch@),
            ),
    {
        match batch.status.clone() {
            Some(status) => self.send_outbound_message(
                viewers,
                now,
                SinkPhase::SendingStatus(batch),
                OutboundMessage::Text(status),
            ),
            None => self.send_image_or_other(viewers, now, batch),
        }
    }

    /// Takes what happened, and says what is wanted next.
    pub fn step(&mut self, viewers: &mut Viewers, input: SinkInput, now: SinkNow) -> (step:
        SinkStep)
        requires
            awaits(old(self)@.phase, input),
            input == SinkInput::Connected(true) ==> old(viewers).client_count < usize::MAX,
        ensures
            reaches(
                *final(self),
                *final(viewers),
                step,
                old(self)@.stepped(*old(viewers), input, now),
            ),
    {
        let mut phase = SinkPhase::Ended;
        std::mem::swap(&mut phase, &mut self.phase);
        match phase {
            SinkPhase::Connecting => match input {
                SinkInput::Connected(true) => {
                    viewers.increment_client_count();
                    self.last_frame_sent_at = None;
                    self.phase = SinkPhase::Streaming;
                    SinkStep { notify: true, next: SinkNext::AwaitStream }
                },
                SinkInput::Connected(false) => self.wait_before_reconnect(viewers),
                SinkInput::ShutdownChanged(change) => if change.is_end() {
                    self.go(SinkPhase::Ended, SinkNext::Return)
                } else {
                    self.connect(viewers, now)
                },
                _ => self.connect(viewers, now),
            },
            SinkPhase::Waiting => self.connect(viewers, now),
            SinkPhase::Streaming => match input {
                SinkInput::ShutdownChanged(change) => if change.is_end() {
                    self.go(SinkPhase::Closing, SinkNext::SendClose)
                } else {
                    self.go(SinkPhase::Streaming, SinkNext::AwaitStream)
                },
                SinkInput::Message(message) => {
                    let mut batch = MessageBatch::new();
                    batch.take(message);
                    self.go(SinkPhase::Draining(batch), SinkNext::TryReceive)
                },
                SinkInput::Closed => self.disconnect(viewers),
                SinkInput::Listener(sign) => match sign {
                    ListenerSign::Close | ListenerSign::Failed
                    | ListenerSign::Ended => self.disconnect(viewers),
                    ListenerSign::Message => self.go(SinkPhase::Streaming, SinkNext::AwaitStream),
                },
                _ => self.go(SinkPhase::Streaming, SinkNext::AwaitStream),
            },
            SinkPhase::Draining(mut batch) => match input {
                SinkInput::Message(message) => {
                    batch.take(message);
                    self.go(SinkPhase::Draining(batch), SinkNext::TryReceive)
                },
                SinkInput::Lagged => self.go(SinkPhase::Draining(batch), SinkNext::TryReceive),
                _ => self.send_latest_messages(viewers, now, batch),
            },
            SinkPhase::SendingStatus(batch) => match input {
                SinkInput::Sent(true) => self.send_image_or_other(viewers, now, batch),
                _ => self.disconnect(viewers),
            },
            SinkPhase::Pacing(frame) => self.send_outbound_message(
                viewers,
                now,
                SinkPhase::SendingFrame,
                OutboundMessage::Binary(frame),
            ),
            SinkPhase::SendingFrame => match input {
                SinkInput::Sent(true) => {
                    self.last_frame_sent_at = Some(now.nanos);
                    self.go(SinkPhase::Streaming, SinkNext::AwaitStream)
                },
                _ => self.disconnect(viewers),
            },
            SinkPhase::SendingOther => match input {
                SinkInput::Sent(true) => self.go(SinkPhase::Streaming, SinkNext::AwaitStream),
                _ => self.disconnect(viewers),
            },
            SinkPhase::Closing => {
                viewers.decrement_client_count();
                self.phase = SinkPhase::Ended;
                SinkStep { notify: true, next: SinkNext::Return }
            },
            SinkPhase::Ended => vstd::pervasive::unreached(),
        }
    }
}

/// In this phase the sink has a connection.
pub open spec fn is_connected(phase: SinkPhaseView) -> bool {
    match phase {
        SinkPhaseView::Connecting | SinkPhaseView::Waiting | SinkPhaseView::Ended => false,
        _ => true,
    }
}

/// A listener that comes and goes leaves the viewers as they were.
pub proof fn law_count_is_given_back(viewers: Viewers)
    requires
        viewers.client_count < usize::MAX,
        !viewers.sink_connected,
    ensures
        viewers.with_sink().without_sink() == viewers,
{
}

/// The listener is counted among the viewers exactly while there is a connection, whatever
/// happens, and each change is announced.
pub proof fn law_sink_is_counted_while_connected(
    sink: SinkView,
    viewers: Viewers,
    input: SinkInput,
    now: SinkNow,
)
    requires
        awaits(sink.phase, input),
        viewers.sink_connected == is_connected(sink.phase),
        viewers.sink_connected ==> viewers.client_count > 0,
        input == SinkInput::Connected(true) ==> viewers.client_count < usize::MAX,
    ensures
        ({
            let after = sink.stepped(viewers, input, now);
            let had: int = if is_connected(sink.phase) {
                1
            } else {
                0
            };
            let has: int = if is_connected(after.sink.phase) {
                1
            } else {
                0
            };
            &&& after.viewers.sink_connected == is_connected(after.sink.phase)
            &&& after.viewers.client_count - has == viewers.client_count - had
            &&& after.notify <==> has != had
        }),
{
}

/// Once the switch says that this is the end, nothing more is sent and no connection is opened.
pub proof fn law_nothing_is_sent_at_the_end(
    sink: SinkView,
    viewers: Viewers,
    input: SinkInput,
    now: SinkNow,
)
    requires
        awaits(sink.phase, input),
        now.shutdown,
    ensures
        !(sink.stepped(viewers, input, now).next is Send),
        !(sink.stepped(viewers, input, now).next is Connect),
        sink.phase is Waiting ==> sink.stepped(viewers, input, now).next is Return,
{
}

/// The messages that are waiting are taken in one after another, and only the latest of each
/// kind is kept of them.
pub proof fn law_waiting_messages_are_taken_in(
    sink: SinkView,
    viewers: Viewers,
    messages: Seq<Seq<char>>,
    message: String,
    now: SinkNow,
)
    requires
        sink.phase is Streaming && messages.len() == 0 || sink.phase == SinkPhaseView::Draining(
            latest_of(messages),
        ),
    ensures
        sink.stepped(viewers, SinkInput::Message(message), now).sink.phase
            == SinkPhaseView::Draining(latest_of(messages.push(message@))),
        sink.stepped(viewers, SinkInput::Message(message), now).next is TryReceive,
{
    assert(messages.push(message@).drop_last() =~= messages);
}

/// The message is on the state.
pub open spec fn is_status(message: Seq<char>) -> bool {
    kind_of(message) == MessageKind::Status
}

/// Of all messages on the state that are waiting, the last is the one that is kept.
pub proof fn law_latest_status_is_kept(messages: Seq<Seq<char>>, i: int)
    requires
        0 <= i < messages.len(),
        is_status(messages[i]),
        forall|j: int| i < j < messages.len() ==> !is_status(#[trigger] messages[j]),
    ensures
        latest_of(messages).status == Some(messages[i]),
    decreases messages.len(),
{
    if i < messages.len() - 1 {
        assert(!is_status(messages[messages.len() - 1]));
        law_latest_status_is_kept(messages.drop_last(), i);
    }
}

/// The message carries an image and is taken for one that does.
pub open spec fn brings_image(message: Seq<char>) -> bool {
    kind_of(message) == MessageKind::Frame && message_image(message) is Some
}

/// Of all images that are waiting, the last is the one that is kept.
pub proof fn law_latest_image_is_kept(messages: Seq<Seq<char>>, i: int)
    requires
        0 <= i < messages.len(),
        brings_image(messages[i]),
        forall|j: int| i < j < messages.len() ==> !brings_image(#[trigger] messages[j]),
    ensures
        latest_of(messages).frame == message_image(messages[i]),
    decreases messages.len(),
{
    if i < messages.len() - 1 {
        assert(!brings_image(messages[messages.len() - 1]));
        law_latest_image_is_kept(messages.drop_last(), i);
    }
}

/// The message is neither on the state nor one with an image.
pub open spec fn is_other(message: Seq<char>) -> bool {
    kind_of(message) == MessageKind::Other
}

/// Of all other messages that are waiting, the last is the one that is kept.
pub proof fn law_latest_other_is_kept(messages: Seq<Seq<char>>, i: int)
    requires
        0 <= i < messages.len(),
        is_other(messages[i]),
        forall|j: int| i < j < messages.len() ==> !is_other(#[trigger] messages[j]),
    ensures
        latest_of(messages).other == Some(messages[i]),
    decreases messages.len(),
{
    if i < messages.len() - 1 {
        assert(!is_other(messages[messages.len() - 1]));
        law_latest_other_is_kept(messages.drop_last(), i);
    }
}

/// Nothing is kept of a kind of which no message is waiting.
pub proof fn law_nothing_is_made_up(messages: Seq<Seq<char>>)
    ensures
        (forall|j: int| 0 <= j < messages.len() ==> !is_status(#[trigger] messages[j]))
            ==> latest_of(messages).status is None,
        (forall|j: int| 0 <= j < messages.len() ==> !brings_image(#[trigger] messages[j]))
            ==> latest_of(messages).frame is None,
        (forall|j: int| 0 <= j < messages.len() ==> !is_other(#[trigger] messages[j]))
            ==> latest_of(messages).other is None,
    decreases messages.len(),
{
    if messages.len() > 0 {
        let last = messages[messages.len() - 1];
        let earlier = messages.drop_last();
        law_nothing_is_made_up(earlier);
        assert(forall|j: int| 0 <= j < earlier.len() ==> earlier[j] == #[trigger] messages[j]);
        assert(last == messages.last());
    }
}

/// The message on the state goes out first; behind it the image, or, where there is none, the
/// other message.
pub proof fn law_order_of_messages(
    sink: SinkView,
    viewers: Viewers,
    batch: MessageBatchView,
    now: SinkNow,
    later: SinkNow,
)
    requires
        sink.phase == SinkPhaseView::Draining(batch),
        batch.status is Some,
        !now.shutdown,
        !later.shutdown,
    ensures
        ({
            let first = sink.stepped(viewers, SinkInput::Empty, now);
            let second = first.sink.stepped(viewers, SinkInput::Sent(true), later);
            &&& first.next == (SinkNextView::Send {
                message: OutboundMessageView::Text(batch.status->0),
                timeout: SEND_TIMEOUT_MS,
            })
            &&& match (batch.frame, batch.other) {
                (Some(frame), _) => second.sink.phase == SinkPhaseView::Pacing(frame)
                    || second.next == (SinkNextView::Send {
                    message: OutboundMessageView::Binary(frame),
                    timeout: SEND_TIMEOUT_MS,
                }),
                (None, Some(other)) => second.next == (SinkNextView::Send {
                    message: OutboundMessageView::Text(other),
                    timeout: SEND_TIMEOUT_MS,
                }),
                (None, None) => second.next is AwaitStream,
            }
        }),
{
}

/// An image that goes out at once goes out no sooner after the last one than the least time
/// between two; one that must wait is told to wait for just the rest of it.
pub proof fn law_images_are_paced(
    sink: SinkView,
    viewers: Viewers,
    input: SinkInput,
    now: SinkNow,
    last: u128,
    later: u128,
)
    requires
        awaits(sink.phase, input),
        !(sink.phase is Pacing),
        sink.last_frame_sent_at == Some(last),
        last <= now.nanos,
    ensures
        match sink.stepped(viewers, input, now).next {
            SinkNextView::Send { message: OutboundMessageView::Binary(_), .. } => now.nanos - last
                >= MIN_FRAME_INTERVAL_NANOS,
            SinkNextView::Sleep(delay) => {
                &&& now.nanos + delay == last + MIN_FRAME_INTERVAL_NANOS
                &&& later >= now.nanos + delay ==> later - last >= MIN_FRAME_INTERVAL_NANOS
            },
            _ => true,
        },
{
}

} // verus!
