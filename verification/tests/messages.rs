use browser_capture::cdp::Delivery;
use browser_capture::stream::classify::{
    classify_message, frame_bytes_from_message, is_frame_message, is_status_message, message_kind,
    sort_message, MessageKind,
};
use browser_capture::stream::commands::{ack_screencast_frame, start_screencast, stop_screencast};
use browser_capture::stream::messages::{
    console_message, frame_message, page_error_message, status_message, url_message, StreamStatus,
};
use serde_json::Value;

fn value(text: &str) -> Value {
    serde_json::from_str(text).unwrap()
}

#[test]
fn kinds_of_messages() {
    assert!(is_status_message(r#"{"type":"status"}"#));
    assert!(is_status_message(r#"{"a":1,"type": "status"}"#));
    assert!(!is_status_message(r#"{"type":  "status"}"#));
    assert!(!is_status_message(r#"{"type":"statusx"}"#));
    assert!(is_frame_message(r#"{"type":"frame"}"#));
    assert!(is_frame_message(r#"{"type": "frame"}"#));
    assert!(!is_frame_message(r#"{"kind":"frame"}"#));
}

#[test]
fn image_of_a_message() {
    assert_eq!(frame_bytes_from_message(r#"{"data":"aGVsbG8="}"#), Some(b"hello".to_vec()));
    assert_eq!(frame_bytes_from_message(r#"{"data":"aGVsbG8"}"#), None);
    assert_eq!(frame_bytes_from_message(r#"{"data":1}"#), None);
    assert_eq!(frame_bytes_from_message(r#"{}"#), None);
    assert_eq!(frame_bytes_from_message("no document"), None);
}

#[test]
fn messages_are_sorted_by_kind() {
    let mut status = None;
    let mut frame = None;
    let mut other = None;
    let mut sort = |message: &str| {
        classify_message(message.to_string(), &mut status, &mut frame, &mut other)
    };
    sort(r#"{"type":"status","n":1}"#);
    sort(r#"{"type":"frame","data":"AQ=="}"#);
    sort(r#"{"type":"frame","data":"?"}"#);
    sort(r#"{"type":"url"}"#);
    sort(r#"{"type":"status","n":2}"#);
    assert_eq!(status, Some(r#"{"type":"status","n":2}"#.to_string()));
    assert_eq!(frame, Some(vec![1]));
    assert_eq!(other, Some(r#"{"type":"url"}"#.to_string()));
}

#[test]
fn status_message_text() {
    let status =
        StreamStatus { connected: true, screencasting: false, width: 1280, height: 720, recording: true };
    let message = status_message(&status, "chrome");
    assert_eq!(
        message,
        "{\"connected\":true,\"engine\":\"chrome\",\"recording\":true,\"screencasting\":false,\
         \"type\":\"status\",\"viewportHeight\":720,\"viewportWidth\":1280}"
    );
    assert!(is_status_message(&message));
}

#[test]
fn url_message_text() {
    let message = url_message("https://a.example/\"type\":\"status\"", 5);
    assert_eq!(
        message,
        "{\"timestamp\":5,\"type\":\"url\",\"url\":\"https://a.example/\\\"type\\\":\\\"status\\\"\"}"
    );
    assert!(!is_status_message(&message));
    assert!(!is_frame_message(&message));
}

#[test]
fn frame_message_text() {
    let meta = value(r#"{"offsetTop":1,"scrollOffsetY":2.5,"timestamp":7,"deviceWidth":9}"#);
    let message = frame_message("aGVsbG8=", Some(&meta), 800, 600);
    assert_eq!(
        message,
        "{\"data\":\"aGVsbG8=\",\"metadata\":{\"deviceHeight\":600,\"deviceWidth\":800,\
         \"offsetTop\":1.0,\"pageScaleFactor\":1.0,\"scrollOffsetX\":0.0,\"scrollOffsetY\":2.5,\
         \"timestamp\":7},\"type\":\"frame\"}"
    );
    assert!(is_frame_message(&message));
    assert!(!is_status_message(&message));
    assert_eq!(frame_bytes_from_message(&message), Some(b"hello".to_vec()));

    let meta = value(r#"{"timestamp":7.5}"#);
    let message = frame_message("", Some(&meta), 1, 1);
    assert_eq!(value(&message)["metadata"]["timestamp"], Value::from(0));
    assert_eq!(value(&frame_message("", None, 1, 1))["metadata"]["timestamp"], Value::from(0));
}

#[test]
fn console_message_text() {
    let message = console_message("warn", "hi", vec![], 3);
    assert_eq!(message, r#"{"level":"warn","text":"hi","timestamp":3,"type":"console"}"#);
    assert!(!is_status_message(&message));
    let args = vec![Value::from("a"), Value::from(1)];
    let message = console_message("log", "a 1", args, 3);
    assert_eq!(
        message,
        r#"{"args":["a",1],"level":"log","text":"a 1","timestamp":3,"type":"console"}"#
    );
    let message = console_message("log", "x", vec![value(r#"[{"type":"status"}]"#)], 3);
    assert!(is_status_message(&message));
    assert!(!is_frame_message(&message));
}

#[test]
fn page_error_message_text() {
    assert_eq!(
        page_error_message("boom", Some(-2), None, 4),
        r#"{"column":null,"line":-2,"text":"boom","timestamp":4,"type":"page_error"}"#
    );
    assert!(!is_frame_message(&page_error_message("", None, Some(1), 0)));
}

#[test]
fn commands_of_a_screencast() {
    let command = start_screencast("s", "png", 50, -1, 480);
    assert_eq!(command.method, "Page.startScreencast");
    assert_eq!(
        command.params.unwrap().to_string(),
        r#"{"everyNthFrame":1,"format":"png","maxHeight":480,"maxWidth":-1,"quality":50}"#
    );
    assert_eq!(command.session_id, Some("s".to_string()));
    assert!(command.delivery == Delivery::Within(2000));

    let command = stop_screencast("s");
    assert_eq!(command.method, "Page.stopScreencast");
    assert!(command.params.is_none());
    assert!(command.delivery == Delivery::Within(2000));

    let command = ack_screencast_frame("s", 12);
    assert_eq!(command.method, "Page.screencastFrameAck");
    assert_eq!(command.params.unwrap().to_string(), r#"{"sessionId":12}"#);
    assert!(command.delivery == Delivery::NoWait);
}

#[test]
fn state_comes_before_image() {
    assert!(message_kind(r#"{"type":"frame","x":{"type":"status"}}"#) == MessageKind::Status);
    assert!(message_kind(r#"{"type":"frame"}"#) == MessageKind::Frame);
    assert!(message_kind(r#"{"type":"url"}"#) == MessageKind::Other);
}

#[test]
fn message_takes_the_place_of_its_kind() {
    let mut status = None;
    let mut frame = Some(vec![1]);
    let mut other = None;
    sort_message(MessageKind::Frame, "f".to_string(), None, &mut status, &mut frame, &mut other);
    assert_eq!(frame, Some(vec![1]));
    let image = Some(vec![2]);
    sort_message(MessageKind::Frame, "f".to_string(), image, &mut status, &mut frame, &mut other);
    assert_eq!(frame, Some(vec![2]));
    let image = Some(vec![3]);
    sort_message(MessageKind::Status, "s".to_string(), image, &mut status, &mut frame, &mut other);
    sort_message(MessageKind::Other, "o".to_string(), None, &mut status, &mut frame, &mut other);
    assert_eq!(status, Some("s".to_string()));
    assert_eq!(frame, Some(vec![2]));
    assert_eq!(other, Some("o".to_string()));
}
