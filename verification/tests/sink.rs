use browser_capture::stream::shutdown::ShutdownChange;
use browser_capture::stream::sink::{
    pace_frame_send, ListenerSign, OutboundMessage, SinkInput, SinkLoop, SinkNext, SinkNow, SinkStep, Viewers,
};

const MS: u128 = 1_000_000;
const END: ShutdownChange = ShutdownChange { sender_gone: true, requested: false };
const NO_END: ShutdownChange = ShutdownChange { sender_gone: false, requested: false };

fn now(millis: u128) -> SinkNow {
    SinkNow { shutdown: false, nanos: millis * MS }
}

fn ending() -> SinkNow {
    SinkNow { shutdown: true, nanos: 0 }
}

fn viewers() -> Viewers {
    Viewers { client_count: 2, sink_connected: false }
}

/// A sink with a connection.
fn connected() -> (SinkLoop, Viewers) {
    let mut viewers = viewers();
    let (mut sink, next) = SinkLoop::start(now(0));
    assert!(matches!(next, SinkNext::Connect(5000)));
    let step = sink.step(&mut viewers, SinkInput::Connected(true), now(0));
    assert!(step.notify);
    assert!(matches!(step.next, SinkNext::AwaitStream));
    assert!(viewers == Viewers { client_count: 3, sink_connected: true });
    (sink, viewers)
}

fn message(text: &str) -> SinkInput {
    SinkInput::Message(text.to_string())
}

fn sends_text(step: &SinkStep, expected: &str) -> bool {
    matches!(
        &step.next,
        SinkNext::Send { message: OutboundMessage::Text(text), timeout: 2000 } if text == expected
    )
}

fn sends_image(step: &SinkStep, expected: &[u8]) -> bool {
    matches!(
        &step.next,
        SinkNext::Send { message: OutboundMessage::Binary(bytes), timeout: 2000 } if bytes == expected
    )
}

const STATUS: &str = r#"{"type":"status"}"#;
const IMAGE: &str = r#"{"type":"frame","data":"AQ=="}"#;
const URL: &str = r#"{"type":"url"}"#;

#[test]
fn end_before_the_start() {
    let (_, next) = SinkLoop::start(ending());
    assert!(matches!(next, SinkNext::Return));
}

#[test]
fn refused_connection_is_tried_again() {
    let mut viewers = viewers();
    let (mut sink, _) = SinkLoop::start(now(0));
    let step = sink.step(&mut viewers, SinkInput::Connected(false), now(0));
    assert!(!step.notify);
    assert!(matches!(step.next, SinkNext::Wait(1000)));
    assert!(viewers == Viewers { client_count: 2, sink_connected: false });
    let step = sink.step(&mut viewers, SinkInput::Waited, now(1000));
    assert!(matches!(step.next, SinkNext::Connect(5000)));
    let step = sink.step(&mut viewers, SinkInput::ShutdownChanged(NO_END), now(1000));
    assert!(matches!(step.next, SinkNext::Connect(5000)));
    let step = sink.step(&mut viewers, SinkInput::ShutdownChanged(END), now(1000));
    assert!(matches!(step.next, SinkNext::Return));
}

#[test]
fn lost_connection_is_counted_out() {
    for input in [
        SinkInput::Closed,
        SinkInput::Listener(ListenerSign::Close),
        SinkInput::Listener(ListenerSign::Failed),
        SinkInput::Listener(ListenerSign::Ended),
    ] {
        let (mut sink, mut viewers) = connected();
        let step = sink.step(&mut viewers, input, now(0));
        assert!(step.notify);
        assert!(matches!(step.next, SinkNext::Wait(1000)));
        assert!(viewers == Viewers { client_count: 2, sink_connected: false });
        let step = sink.step(&mut viewers, SinkInput::Waited, ending());
        assert!(matches!(step.next, SinkNext::Return));
    }
}

#[test]
fn idle_signs_change_nothing() {
    let (mut sink, mut viewers) = connected();
    for input in [
        SinkInput::Lagged,
        SinkInput::Listener(ListenerSign::Message),
        SinkInput::ShutdownChanged(NO_END),
    ] {
        let step = sink.step(&mut viewers, input, now(0));
        assert!(!step.notify);
        assert!(matches!(step.next, SinkNext::AwaitStream));
    }
}

#[test]
fn farewell() {
    let (mut sink, mut viewers) = connected();
    let step = sink.step(&mut viewers, SinkInput::ShutdownChanged(END), ending());
    assert!(matches!(step.next, SinkNext::SendClose));
    assert!(viewers.sink_connected);
    let step = sink.step(&mut viewers, SinkInput::Sent(false), ending());
    assert!(step.notify);
    assert!(matches!(step.next, SinkNext::Return));
    assert!(viewers == Viewers { client_count: 2, sink_connected: false });
}

#[test]
fn latest_messages_go_out_in_order() {
    let (mut sink, mut viewers) = connected();
    let older = r#"{"type":"status","n":0}"#;
    let step = sink.step(&mut viewers, message(older), now(0));
    assert!(matches!(step.next, SinkNext::TryReceive));
    sink.step(&mut viewers, message(URL), now(0));
    sink.step(&mut viewers, message(IMAGE), now(0));
    sink.step(&mut viewers, SinkInput::Lagged, now(0));
    let step = sink.step(&mut viewers, message(STATUS), now(0));
    assert!(matches!(step.next, SinkNext::TryReceive));
    let step = sink.step(&mut viewers, SinkInput::Empty, now(0));
    assert!(sends_text(&step, STATUS));
    let step = sink.step(&mut viewers, SinkInput::Sent(true), now(0));
    assert!(sends_image(&step, &[1]));
    let step = sink.step(&mut viewers, SinkInput::Sent(true), now(5));
    assert!(matches!(step.next, SinkNext::AwaitStream));
    assert_eq!(sink.last_frame_sent_at, Some(5 * MS));

    sink.step(&mut viewers, message(URL), now(6));
    let step = sink.step(&mut viewers, SinkInput::Closed, now(6));
    assert!(sends_text(&step, URL));
    let step = sink.step(&mut viewers, SinkInput::Sent(true), now(6));
    assert!(matches!(step.next, SinkNext::AwaitStream));

    sink.step(&mut viewers, message(r#"{"type":"frame","data":"?"}"#), now(7));
    let step = sink.step(&mut viewers, SinkInput::Empty, now(7));
    assert!(matches!(step.next, SinkNext::AwaitStream));
}

#[test]
fn images_are_paced() {
    let (mut sink, mut viewers) = connected();
    sink.step(&mut viewers, message(IMAGE), now(0));
    sink.step(&mut viewers, SinkInput::Empty, now(0));
    sink.step(&mut viewers, SinkInput::Sent(true), now(10));
    sink.step(&mut viewers, message(IMAGE), now(25));
    let step = sink.step(&mut viewers, SinkInput::Empty, now(25));
    assert!(matches!(step.next, SinkNext::Sleep(nanos) if nanos == 25 * MS));
    let step = sink.step(&mut viewers, SinkInput::Waited, now(50));
    assert!(sends_image(&step, &[1]));
    sink.step(&mut viewers, SinkInput::Sent(true), now(50));
    sink.step(&mut viewers, message(IMAGE), now(90));
    let step = sink.step(&mut viewers, SinkInput::Empty, now(90));
    assert!(sends_image(&step, &[1]));
}

#[test]
fn waits_between_images() {
    assert_eq!(pace_frame_send(None, 5), 0);
    assert_eq!(pace_frame_send(Some(0), 0), 40 * MS);
    assert_eq!(pace_frame_send(Some(0), 40 * MS - 1), 1);
    assert_eq!(pace_frame_send(Some(0), 40 * MS), 0);
    assert_eq!(pace_frame_send(Some(9), 3), 40 * MS);
}

#[test]
fn failed_messages_end_the_connection() {
    let (mut sink, mut viewers) = connected();
    sink.step(&mut viewers, message(STATUS), now(0));
    sink.step(&mut viewers, SinkInput::Empty, now(0));
    let step = sink.step(&mut viewers, SinkInput::Sent(false), now(0));
    assert!(step.notify);
    assert!(matches!(step.next, SinkNext::Wait(1000)));
    assert!(!viewers.sink_connected);
}

#[test]
fn nothing_is_sent_at_the_end() {
    for text in [STATUS, IMAGE, URL] {
        let (mut sink, mut viewers) = connected();
        sink.step(&mut viewers, message(text), now(0));
        let step = sink.step(&mut viewers, SinkInput::Empty, ending());
        assert!(step.notify);
        assert!(matches!(step.next, SinkNext::Wait(1000)));
    }
    let (mut sink, mut viewers) = connected();
    sink.step(&mut viewers, message(IMAGE), now(0));
    sink.step(&mut viewers, SinkInput::Empty, now(0));
    sink.step(&mut viewers, SinkInput::Sent(true), now(0));
    sink.step(&mut viewers, message(IMAGE), now(1));
    let step = sink.step(&mut viewers, SinkInput::Empty, now(1));
    assert!(matches!(step.next, SinkNext::Sleep(_)));
    let step = sink.step(&mut viewers, SinkInput::Waited, ending());
    assert!(matches!(step.next, SinkNext::Wait(1000)));
}

#[test]
fn viewers_are_counted() {
    let mut viewers = Viewers { client_count: 0, sink_connected: true };
    viewers.decrement_client_count();
    assert!(viewers == Viewers { client_count: 0, sink_connected: false });
    viewers.increment_client_count();
    assert!(viewers == Viewers { client_count: 1, sink_connected: true });
    viewers.decrement_client_count();
    assert!(viewers == Viewers { client_count: 0, sink_connected: false });
}

#[test]
fn listener_that_filled_the_count_is_counted_out() {
    let mut viewers = Viewers { client_count: usize::MAX - 1, sink_connected: false };
    let (mut sink, _) = SinkLoop::start(now(0));
    sink.step(&mut viewers, SinkInput::Connected(true), now(0));
    assert!(viewers == Viewers { client_count: usize::MAX, sink_connected: true });
    sink.step(&mut viewers, SinkInput::Closed, now(0));
    assert!(viewers == Viewers { client_count: usize::MAX - 1, sink_connected: false });
}
