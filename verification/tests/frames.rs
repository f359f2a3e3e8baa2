use browser_capture::cdp::CdpEvent;
use browser_capture::encoding::read_base64;
use browser_capture::recording::frames::{
    assemble_frame, frame_time, image_stamp, screencast_frame, screenshot_frame, FrameMetadata,
    ScreencastFrame, Stamp,
};
use browser_capture::recording::writer::{FrameWriter, WriteStep};
use serde_json::Value;

fn value(text: &str) -> Value {
    serde_json::from_str(text).unwrap()
}

fn stamp(secs: f64) -> Stamp {
    Stamp { secs: Value::from(secs), millis: (secs * 1000.0) as u64 }
}

fn event(params: &str) -> CdpEvent {
    CdpEvent { method: "Page.screencastFrame".to_string(), params: value(params), session_id: None }
}

fn image(byte: u8) -> ScreencastFrame {
    let params = match byte {
        1 => r#"{"data":"AQ=="}"#,
        2 => r#"{"data":"Ag=="}"#,
        _ => r#"{"data":"Aw=="}"#,
    };
    screencast_frame(&event(params), 0, stamp(0.5)).unwrap()
}

/// Runs the job of a writer to its end and collects what it writes.
fn written(writer: &mut FrameWriter, mut step: WriteStep) -> Vec<u8> {
    let mut images = Vec::new();
    while step == WriteStep::Write {
        images.extend_from_slice(writer.pending_image().unwrap());
        step = writer.report(true);
    }
    assert!(step == WriteStep::Done);
    assert!(writer.pending_image().is_none());
    images
}

#[test]
fn image_of_a_screencast_event() {
    let event = event(
        r#"{"data":"aGVsbG8=","metadata":{"offsetTop":2,"pageScaleFactor":1.5,"deviceWidth":800,
            "deviceHeight":600,"scrollOffsetX":3.25,"timestamp":12.5}}"#,
    );
    assert_eq!(frame_time(&event), Some(Value::from(12.5)));
    let frame = screencast_frame(&event, 12500, stamp(99.0)).unwrap();
    assert_eq!(frame.bytes, b"hello");
    assert_eq!(frame.base64_data, "aGVsbG8=");
    assert_eq!(frame.timestamp_secs, Value::from(12.5));
    assert_eq!(frame.metadata.offset_top, Value::from(2.0));
    assert_eq!(frame.metadata.page_scale_factor, Value::from(1.5));
    assert_eq!(frame.metadata.device_width, 800);
    assert_eq!(frame.metadata.device_height, 600);
    assert_eq!(frame.metadata.scroll_offset_x, Value::from(3.25));
    assert_eq!(frame.metadata.scroll_offset_y, Value::from(0.0));
    assert_eq!(frame.metadata.timestamp, 12500);
}

#[test]
fn defaults_of_an_image() {
    let event = event(r#"{"data":"aGVsbG8=","metadata":{"deviceWidth":4294967296,"deviceHeight":-1}}"#);
    assert_eq!(frame_time(&event), None);
    let frame = screencast_frame(&event, 7, stamp(1.0)).unwrap();
    assert_eq!(frame.timestamp_secs, Value::from(1.0));
    assert_eq!(frame.metadata.timestamp, 1000);
    assert_eq!(frame.metadata.device_width, 1280);
    assert_eq!(frame.metadata.device_height, 720);
    assert_eq!(frame.metadata.page_scale_factor, Value::from(1.0));
    assert_eq!(frame.metadata.offset_top, Value::from(0.0));
}

#[test]
fn events_without_an_image() {
    assert!(screencast_frame(&event("{}"), 0, stamp(1.0)).is_none());
    assert!(screencast_frame(&event(r#"{"data":5}"#), 0, stamp(1.0)).is_none());
    assert!(screencast_frame(&event(r#"{"data":"???"}"#), 0, stamp(1.0)).is_none());
    assert!(screencast_frame(&event(r#"{"data":"aGVsbG8"}"#), 0, stamp(1.0)).is_none());
}

#[test]
fn image_of_a_screenshot() {
    let frame = screenshot_frame(&value(r#"{"data":"AQI="}"#), stamp(3.0)).unwrap();
    assert_eq!(frame.bytes, [1, 2]);
    assert_eq!(frame.metadata.timestamp, 3000);
    assert_eq!(frame.metadata.device_width, 1280);
    assert!(screenshot_frame(&value("{}"), stamp(3.0)).is_none());
}

#[test]
fn whole_numbers_are_read_as_floating_point_numbers() {
    let event = event(r#"{"data":"AQ==","metadata":{"timestamp":7}}"#);
    let secs = frame_time(&event).unwrap();
    assert_eq!(secs, Value::from(7.0));
    assert_ne!(secs, Value::from(7));
}

#[test]
fn first_image_is_written_at_once() {
    let mut writer = FrameWriter::new();
    let step = writer.begin_frame(image(1), 10, 99);
    assert_eq!(written(&mut writer, step), vec![1]);
    assert_eq!(writer.written, 1);
    assert_eq!(writer.last_frame.as_ref().unwrap().frame_number, 0);
    assert_eq!(writer.first_frame_received_at, Some(10));
    assert_eq!(writer.first_timestamp_secs, Some(Value::from(0.5)));
}

#[test]
fn later_images_fill_the_slots_before_them() {
    let mut writer = FrameWriter::new();
    let step = writer.begin_frame(image(1), 0, 0);
    assert_eq!(written(&mut writer, step), vec![1]);
    let step = writer.begin_frame(image(2), 0, 3);
    assert_eq!(written(&mut writer, step), vec![1, 1, 1]);
    assert_eq!(writer.last_frame.as_ref().unwrap().frame_number, 3);
    let step = writer.begin_frame(image(3), 0, 1);
    assert!(written(&mut writer, step).is_empty());
    assert_eq!(writer.last_frame.as_ref().unwrap().frame_number, 3);
    let step = writer.begin_padding(5, Value::from(0.2));
    assert_eq!(written(&mut writer, step), vec![3, 3]);
    assert_eq!(writer.last_frame.as_ref().unwrap().frame_number, 5);
    assert_eq!(writer.last_frame.as_ref().unwrap().timestamp_secs, Value::from(0.2));
    assert_eq!(writer.written, 6);
}

#[test]
fn padding_without_an_image_writes_nothing() {
    let mut writer = FrameWriter::new();
    let step = writer.begin_padding(100, Value::from(4.0));
    assert!(written(&mut writer, step).is_empty());
    assert_eq!(writer.written, 0);
    let step = writer.begin_frame(image(1), 0, 0);
    written(&mut writer, step);
    let step = writer.begin_padding(0, Value::from(4.0));
    assert!(written(&mut writer, step).is_empty());
    assert_eq!(writer.last_frame.as_ref().unwrap().timestamp_secs, Value::from(0.5));
}

#[test]
fn failed_write_drops_the_job() {
    let mut writer = FrameWriter::new();
    let step = writer.begin_frame(image(1), 0, 0);
    written(&mut writer, step);
    assert!(writer.begin_frame(image(2), 0, 2) == WriteStep::Write);
    assert!(writer.report(true) == WriteStep::Write);
    assert!(writer.report(false) == WriteStep::Failed);
    assert_eq!(writer.written, 2);
    assert_eq!(writer.last_frame.as_ref().unwrap().frame_number, 0);
    assert_eq!(writer.last_frame.as_ref().unwrap().bytes, [1]);
}

#[test]
fn image_from_its_parts() {
    let metadata = || FrameMetadata::read(None, 5);
    let frame = assemble_frame(Some("x"), Some(vec![9]), metadata(), Value::from(1.5)).unwrap();
    assert_eq!(frame.bytes, vec![9]);
    assert_eq!(frame.base64_data, "x");
    assert_eq!(frame.metadata.timestamp, 5);
    assert_eq!(frame.timestamp_secs, Value::from(1.5));
    assert!(assemble_frame(None, Some(vec![9]), metadata(), Value::Null).is_none());
    assert!(assemble_frame(Some("x"), None, metadata(), Value::Null).is_none());
}

#[test]
fn copied_event_is_the_same() {
    let event = event(r#"{"a":[1,{"b":null}]}"#);
    let copy = event.clone();
    assert_eq!(copy.method, "Page.screencastFrame");
    assert_eq!(copy.params.to_string(), r#"{"a":[1,{"b":null}]}"#);
    assert_eq!(copy.session_id, None);
}

#[test]
fn time_of_an_image_is_its_own_or_now() {
    let timed = event(r#"{"metadata":{"timestamp":12.5}}"#);
    let own = image_stamp(&timed, 12500, stamp(99.0));
    assert_eq!(own.secs, Value::from(12.5));
    assert_eq!(own.millis, 12500);
    let untimed = event(r#"{"metadata":{"timestamp":"12.5"}}"#);
    let now = image_stamp(&untimed, 12500, stamp(99.0));
    assert_eq!(now.secs, Value::from(99.0));
    assert_eq!(now.millis, 99000);
}

#[test]
fn texts_of_bytes() {
    assert_eq!(read_base64(""), Some(vec![]));
    assert_eq!(read_base64("AA=="), Some(vec![0]));
    assert_eq!(read_base64("/w=="), Some(vec![255]));
    assert_eq!(read_base64("+/8="), Some(vec![251, 255]));
    assert_eq!(read_base64("TWFu"), Some(b"Man".to_vec()));
    assert_eq!(read_base64("TWFuTWE="), Some(b"ManMa".to_vec()));
    assert_eq!(read_base64("/x=="), None);
    assert_eq!(read_base64("+/9="), None);
    assert_eq!(read_base64("/w="), None);
    assert_eq!(read_base64("/w"), None);
    assert_eq!(read_base64("TWFu===="), None);
    assert_eq!(read_base64("TWFu "), None);
    assert_eq!(read_base64("TW-_"), None);
    assert_eq!(read_base64("AA==TWFu"), None);
    assert_eq!(read_base64("\u{e4}\u{e4}"), None);
}
