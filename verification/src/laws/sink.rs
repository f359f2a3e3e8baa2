//! What the listener elsewhere gets, and when it counts as a viewer.
use crate::encoding::base64_bytes;
use crate::json::json_document;
use crate::laws::frames::given_text;
use crate::laws::messages::law_messages_are_told_apart_by_their_type;
use crate::stream::shutdown::ShutdownChange;
use crate::stream::sink::{
    awaits, pace, reaches, ListenerSign, MessageBatch, MessageBatchView, OutboundMessage,
    OutboundMessageView, SinkInput, SinkLoop, SinkNext, SinkNextView, SinkNow, SinkPhase,
    SinkPhaseView, SinkState, SinkStep, SinkView, Viewers,
};
use crate::text::{contains_text, text_of};
use vstd::prelude::*;

verus! {

/// The viewers are as they were, nothing is announced of them, and the time of the last image is
/// the one that was known.
pub open spec fn keeps(after: SinkState, sink: SinkView, viewers: Viewers) -> bool {
    &&& after.viewers == viewers
    &&& !after.notify
    &&& after.sink.last_frame_sent_at == sink.last_frame_sent_at
}

/// One viewer less is counted, none below zero, and the listener is not among them; this is
/// announced.
pub open spec fn uncounts(after: SinkState, viewers: Viewers) -> bool {
    &&& after.notify
    &&& !after.viewers.sink_connected
    &&& viewers.client_count > 0 ==> after.viewers.client_count == viewers.client_count - 1
    &&& viewers.client_count == 0 ==> after.viewers.client_count == 0
}

/// The connection is given up: the listener is not counted any more, and a second passes before
/// the next attempt.
pub open spec fn gives_up(after: SinkState, sink: SinkView, viewers: Viewers) -> bool {
    &&& uncounts(after, viewers)
    &&& after.sink.phase is Waiting
    &&& after.next == SinkNextView::Wait(1000)
    &&& after.sink.last_frame_sent_at == sink.last_frame_sent_at
}

/// The sink goes on listening, with nothing else changed.
pub open spec fn listens(after: SinkState, sink: SinkView, viewers: Viewers) -> bool {
    &&& keeps(after, sink, viewers)
    &&& after.sink.phase is Streaming
    &&& after.next is AwaitStream
}

/// The message goes out, and the listener has two seconds to take it.
pub open spec fn sends_out(
    after: SinkState,
    sink: SinkView,
    viewers: Viewers,
    message: OutboundMessageView,
) -> bool {
    &&& keeps(after, sink, viewers)
    &&& after.next matches SinkNextView::Send { message: sent, timeout }
    &&& sent == message
    &&& timeout == 2000
}

/// The image goes out: at once where the last one is forty milliseconds old or there was none,
/// and otherwise once the rest of that time has passed.
pub open spec fn sends_image(
    after: SinkState,
    sink: SinkView,
    viewers: Viewers,
    now: SinkNow,
    image: Seq<u8>,
) -> bool {
    let due = match sink.last_frame_sent_at {
        Some(last) => last + 40_000_000 <= now.nanos,
        None => true,
    };
    if due {
        &&& sends_out(after, sink, viewers, OutboundMessageView::Binary(image))
        &&& after.sink.phase is SendingFrame
    } else {
        &&& keeps(after, sink, viewers)
        &&& after.sink.phase == SinkPhaseView::Pacing(image)
        &&& after.next matches SinkNextView::Sleep(delay)
        &&& sink.last_frame_sent_at matches Some(last) && if last <= now.nanos {
            now.nanos + delay == last + 40_000_000
        } else {
            delay == 40_000_000
        }
    }
}

/// The end is near: it is asked for, or nobody is left who could ask.
pub open spec fn is_end(change: ShutdownChange) -> bool {
    change.sender_gone || change.requested
}

/// The sink opens a connection, for which the listener has five seconds, unless the switch says
/// that this is the end: then it is over, and so it is when the switch is moved to the end while a
/// connection is being opened.
pub proof fn law_connection_is_opened_until_the_end(
    sink: SinkView,
    viewers: Viewers,
    input: SinkInput,
    now: SinkNow,
)
    requires
        awaits(sink.phase, input),
        sink.phase is Waiting || sink.phase is Connecting && input is ShutdownChanged,
    ensures
        ({
            let after = sink.stepped(viewers, input, now);
            let over = now.shutdown || (input matches SinkInput::ShutdownChanged(change) && is_end(
                change,
            ));
            &&& keeps(after, sink, viewers)
            &&& over ==> after.sink.phase is Ended && after.next is Return
            &&& !over ==> after.sink.phase is Connecting && after.next == SinkNextView::Connect(
                5000,
            )
        }),
{
}

/// A listener that accepts counts as one more viewer, which is announced, and no image has been
/// sent to it; one that does not accept is left alone for a second, and nothing changes.
pub proof fn law_accepting_listener_is_a_viewer(
    sink: SinkView,
    viewers: Viewers,
    accepted: bool,
    now: SinkNow,
)
    requires
        sink.phase is Connecting,
        accepted ==> viewers.client_count < usize::MAX,
    ensures
        ({
            let after = sink.stepped(viewers, SinkInput::Connected(accepted), now);
            &&& accepted ==> {
                &&& after.sink.phase is Streaming
                &&& after.next is AwaitStream
                &&& after.notify
                &&& after.viewers.sink_connected
                &&& after.viewers.client_count == viewers.client_count + 1
                &&& after.sink.last_frame_sent_at is None
            }
            &&& !accepted ==> {
                &&& keeps(after, sink, viewers)
                &&& after.sink.phase is Waiting
                &&& after.next == SinkNextView::Wait(1000)
            }
        }),
{
}

/// An open connection is given up when there are no more messages, or when the listener says
/// farewell, fails or ends; at the end a farewell goes out; whatever else happens but a message
/// changes nothing.
pub proof fn law_open_connection_is_kept_until_it_breaks(
    sink: SinkView,
    viewers: Viewers,
    input: SinkInput,
    now: SinkNow,
)
    requires
        sink.phase is Streaming,
        awaits(sink.phase, input),
        !(input is Message),
    ensures
        ({
            let after = sink.stepped(viewers, input, now);
            match input {
                SinkInput::Closed => gives_up(after, sink, viewers),
                SinkInput::Listener(ListenerSign::Message) => listens(after, sink, viewers),
                SinkInput::Listener(_) => gives_up(after, sink, viewers),
                SinkInput::ShutdownChanged(change) => if is_end(change) {
                    &&& keeps(after, sink, viewers)
                    &&& after.sink.phase is Closing
                    &&& after.next is SendClose
                } else {
                    listens(after, sink, viewers)
                },
                _ => listens(after, sink, viewers),
            }
        }),
{
}

/// Once the farewell is said, taken or not, the listener is not counted any more, and the sink is
/// over.
pub proof fn law_farewell_is_the_end(sink: SinkView, viewers: Viewers, taken: bool, now: SinkNow)
    requires
        sink.phase is Closing,
    ensures
        ({
            let after = sink.stepped(viewers, SinkInput::Sent(taken), now);
            &&& uncounts(after, viewers)
            &&& after.sink.phase is Ended
            &&& after.next is Return
        }),
{
}

/// What is kept once a message has come in, told by what the message holds: a message on the state,
/// the bytes of an image, or the message itself, each in the place of the last of its kind; the
/// others stay.
pub open spec fn takes_in(
    after: MessageBatchView,
    before: MessageBatchView,
    message: Seq<char>,
) -> bool {
    let status = contains_text(message, "\"type\":\"status\""@) || contains_text(
        message,
        "\"type\": \"status\""@,
    );
    let frame = contains_text(message, "\"type\":\"frame\""@) || contains_text(
        message,
        "\"type\": \"frame\""@,
    );
    let image = match json_document(message) {
        Some(document) => match given_text(document, "data"@) {
            Some(text) => base64_bytes(text),
            None => None,
        },
        None => None,
    };
    &&& after.status == (if status {
        Some(message)
    } else {
        before.status
    })
    &&& after.frame == (if !status && frame && image is Some {
        image
    } else {
        before.frame
    })
    &&& after.other == (if !status && !frame {
        Some(message)
    } else {
        before.other
    })
}

/// A message that comes in takes the place of the last one of its kind, and the sink looks whether
/// another is waiting; so it does when messages were lost, with what it has. The first message
/// finds nothing before it.
pub proof fn law_message_takes_the_place_of_its_kind(
    sink: SinkView,
    viewers: Viewers,
    batch: MessageBatchView,
    message: String,
    now: SinkNow,
)
    requires
        sink.phase == SinkPhaseView::Draining(batch) || sink.phase is Streaming && batch.status
            is None && batch.frame is None && batch.other is None,
    ensures
        ({
            let after = sink.stepped(viewers, SinkInput::Message(message), now);
            &&& keeps(after, sink, viewers)
            &&& after.next is TryReceive
            &&& after.sink.phase matches SinkPhaseView::Draining(taken)
            &&& takes_in(taken, batch, message@)
        }),
        sink.phase is Draining ==> ({
            let after = sink.stepped(viewers, SinkInput::Lagged, now);
            &&& keeps(after, sink, viewers)
            &&& after.next is TryReceive
            &&& after.sink.phase == SinkPhaseView::Draining(batch)
        }),
{
    law_messages_are_told_apart_by_their_type(message@);
    if let Some(document) = json_document(message@) {
        assert(document.text_member("data"@) == given_text(document, "data"@));
    }
}

/// What goes out of the messages that were waiting, when no message on the state is to go before:
/// the image where there is one; another message only where there is no image; and where there is
/// neither, the sink goes on listening.
pub open spec fn sends_the_rest(
    after: SinkState,
    sink: SinkView,
    viewers: Viewers,
    now: SinkNow,
    image: Option<Seq<u8>>,
    other: Option<Seq<char>>,
) -> bool {
    if image is None && other is None {
        listens(after, sink, viewers)
    } else if now.shutdown {
        gives_up(after, sink, viewers)
    } else if image is Some {
        sends_image(after, sink, viewers, now, image->0)
    } else {
        &&& sends_out(after, sink, viewers, OutboundMessageView::Text(other->0))
        &&& after.sink.phase is SendingOther
    }
}

/// Once all messages that were waiting are in, with no more to come or none at the time, the one on
/// the state goes out, and what else there is stays for later. Where none is on the state, the
/// image goes out, whatever other message there is; the other message goes out where there is
/// neither. At the end nothing goes out, and the connection is given up.
pub proof fn law_images_go_before_other_messages(
    sink: SinkView,
    viewers: Viewers,
    batch: MessageBatchView,
    input: SinkInput,
    now: SinkNow,
)
    requires
        sink.phase == SinkPhaseView::Draining(batch),
        input is Empty || input is Closed,
    ensures
        ({
            let after = sink.stepped(viewers, input, now);
            &&& batch.status is Some && now.shutdown ==> gives_up(after, sink, viewers)
            &&& batch.status is Some && !now.shutdown ==> {
                &&& sends_out(after, sink, viewers, OutboundMessageView::Text(batch.status->0))
                &&& after.sink.phase matches SinkPhaseView::SendingStatus(kept)
                &&& kept.frame == batch.frame
                &&& kept.other == batch.other
            }
            &&& batch.status is None ==> sends_the_rest(
                after,
                sink,
                viewers,
                now,
                batch.frame,
                batch.other,
            )
        }),
{
}

/// Behind the message on the state goes the image, and another message only where there is no
/// image. Where the listener has not taken the message, the connection is given up.
pub proof fn law_image_follows_the_state(
    sink: SinkView,
    viewers: Viewers,
    batch: MessageBatchView,
    taken: bool,
    now: SinkNow,
)
    requires
        sink.phase == SinkPhaseView::SendingStatus(batch),
    ensures
        ({
            let after = sink.stepped(viewers, SinkInput::Sent(taken), now);
            &&& taken ==> sends_the_rest(after, sink, viewers, now, batch.frame, batch.other)
            &&& !taken ==> gives_up(after, sink, viewers)
        }),
{
}

/// An image that had to wait goes out once the time has passed, unchanged, unless this is the end.
pub proof fn law_paced_image_goes_out(
    sink: SinkView,
    viewers: Viewers,
    image: Seq<u8>,
    now: SinkNow,
)
    requires
        sink.phase == SinkPhaseView::Pacing(image),
    ensures
        ({
            let after = sink.stepped(viewers, SinkInput::Waited, now);
            &&& now.shutdown ==> gives_up(after, sink, viewers)
            &&& !now.shutdown ==> {
                &&& sends_out(after, sink, viewers, OutboundMessageView::Binary(image))
                &&& after.sink.phase is SendingFrame
            }
        }),
{
}

/// When the listener has taken an image, the time of it is that of the last image; when it has
/// taken another message, that time stays. Either way the sink listens again. Where the listener
/// has taken neither, the connection is given up.
pub proof fn law_sent_image_is_timed(sink: SinkView, viewers: Viewers, taken: bool, now: SinkNow)
    requires
        sink.phase is SendingFrame || sink.phase is SendingOther,
    ensures
        ({
            let after = sink.stepped(viewers, SinkInput::Sent(taken), now);
            &&& !taken ==> gives_up(after, sink, viewers)
            &&& taken ==> {
                &&& after.sink.phase is Streaming
                &&& after.next is AwaitStream
                &&& after.viewers == viewers
                &&& !after.notify
                &&& after.sink.last_frame_sent_at == (if sink.phase is SendingFrame {
                    Some(now.nanos)
                } else {
                    sink.last_frame_sent_at
                })
            }
        }),
{
}

/// An image waits until forty milliseconds have passed since the last one, and not longer: nothing
/// where there was none before it, and the whole time where the last one lies ahead.
pub proof fn law_pace_is_the_rest_of_the_interval(last: u128, now: u128)
    ensures
        pace(None, now) == 0,
        now < last ==> pace(Some(last), now) == 40_000_000,
        last <= now < last + 40_000_000 ==> now + pace(Some(last), now) == last + 40_000_000,
        last + 40_000_000 <= now ==> pace(Some(last), now) == 0,
{
}

/// Whatever the sink asks for, it takes what may come of it: the answer of the listener, the end of
/// a wait, a message or the lack of one, a sign of the listener, and a move of the switch while it
/// opens a connection or listens. It takes nothing only once it is over.
pub proof fn law_sink_takes_what_it_asked_for(
    sink: SinkView,
    viewers: Viewers,
    input: SinkInput,
    now: SinkNow,
    change: ShutdownChange,
    yes: bool,
    message: String,
    sign: ListenerSign,
    any: SinkInput,
)
    requires
        awaits(sink.phase, input),
    ensures
        ({
            let after = sink.stepped(viewers, input, now);
            let phase = after.sink.phase;
            match after.next {
                SinkNextView::Connect(_) => awaits(phase, SinkInput::Connected(yes)) && awaits(
                    phase,
                    SinkInput::ShutdownChanged(change),
                ),
                SinkNextView::Wait(_) | SinkNextView::Sleep(_) => awaits(phase, SinkInput::Waited),
                SinkNextView::AwaitStream => {
                    &&& awaits(phase, SinkInput::ShutdownChanged(change))
                    &&& awaits(phase, SinkInput::Message(message))
                    &&& awaits(phase, SinkInput::Lagged)
                    &&& awaits(phase, SinkInput::Closed)
                    &&& awaits(phase, SinkInput::Listener(sign))
                },
                SinkNextView::TryReceive => {
                    &&& awaits(phase, SinkInput::Message(message))
                    &&& awaits(phase, SinkInput::Lagged)
                    &&& awaits(phase, SinkInput::Empty)
                    &&& awaits(phase, SinkInput::Closed)
                },
                SinkNextView::Send { .. } | SinkNextView::SendClose => awaits(
                    phase,
                    SinkInput::Sent(yes),
                ),
                SinkNextView::Return => phase is Ended && !awaits(phase, any),
            }
        }),
{
}

/// The model of the sink is the sink itself: each part stands under its own name, with the texts
/// and the bytes that it holds.
pub proof fn law_model_of_the_sink_is_the_sink(
    sink: SinkLoop,
    batch: MessageBatch,
    image: Vec<u8>,
    text: String,
    number: u64,
    nanos: u128,
)
    ensures
        sink@.last_frame_sent_at == sink.last_frame_sent_at,
        sink@.phase == sink.phase@,
        batch@.status == text_of(batch.status),
        batch@.other == text_of(batch.other),
        batch.frame is Some <==> batch@.frame is Some,
        batch.frame is Some ==> batch@.frame == Some(batch.frame->0@),
        SinkPhase::Connecting@ is Connecting,
        SinkPhase::Waiting@ is Waiting,
        SinkPhase::Streaming@ is Streaming,
        SinkPhase::Draining(batch)@ == SinkPhaseView::Draining(batch@),
        SinkPhase::SendingStatus(batch)@ == SinkPhaseView::SendingStatus(batch@),
        SinkPhase::Pacing(image)@ == SinkPhaseView::Pacing(image@),
        SinkPhase::SendingFrame@ is SendingFrame,
        SinkPhase::SendingOther@ is SendingOther,
        SinkPhase::Closing@ is Closing,
        SinkPhase::Ended@ is Ended,
        OutboundMessage::Text(text)@ == OutboundMessageView::Text(text@),
        OutboundMessage::Binary(image)@ == OutboundMessageView::Binary(image@),
        SinkNext::Connect(number)@ == SinkNextView::Connect(number),
        SinkNext::Wait(number)@ == SinkNextView::Wait(number),
        SinkNext::AwaitStream@ is AwaitStream,
        SinkNext::TryReceive@ is TryReceive,
        (SinkNext::Send { message: OutboundMessage::Text(text), timeout: number })@ == (
        SinkNextView::Send { message: OutboundMessageView::Text(text@), timeout: number }),
        (SinkNext::Send { message: OutboundMessage::Binary(image), timeout: number })@ == (
        SinkNextView::Send { message: OutboundMessageView::Binary(image@), timeout: number }),
        SinkNext::Sleep(nanos)@ == SinkNextView::Sleep(nanos),
        SinkNext::SendClose@ is SendClose,
        SinkNext::Return@ is Return,
{
}

/// A step that has come out as it should has come out so in all: in the sink, in the viewers, in
/// what is announced, and in what is wanted.
pub proof fn law_step_of_the_sink_comes_out_in_all(
    sink: SinkLoop,
    viewers: Viewers,
    step: SinkStep,
    state: SinkState,
)
    ensures
        reaches(sink, viewers, step, state) <==> {
            &&& sink.phase@ == state.sink.phase
            &&& sink.last_frame_sent_at == state.sink.last_frame_sent_at
            &&& viewers.client_count == state.viewers.client_count
            &&& viewers.sink_connected == state.viewers.sink_connected
            &&& step.notify == state.notify
            &&& step.next@ == state.next
        },
{
}

} // verus!
