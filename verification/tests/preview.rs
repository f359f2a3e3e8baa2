use browser_capture::cdp::CdpEvent;
use browser_capture::stream::preview::{
    console_args, update_tabs, PreviewEffect, PreviewInput, PreviewLoop, PreviewNext, PreviewStep,
    Surroundings,
};
use browser_capture::stream::shutdown::ShutdownChange;
use serde_json::Value;

const END: ShutdownChange = ShutdownChange { sender_gone: false, requested: true };
const NO_END: ShutdownChange = ShutdownChange { sender_gone: false, requested: false };

fn value(text: &str) -> Value {
    serde_json::from_str(text).unwrap()
}

fn around() -> Surroundings {
    Surroundings {
        client_count: 1,
        client: Some(7),
        screencasting: true,
        recording: false,
        session_id: Some("s".to_string()),
        width: 800,
        height: 600,
        engine: "chrome".to_string(),
    }
}

fn event(method: &str, params: &str) -> PreviewInput {
    PreviewInput::Event {
        event: CdpEvent {
            method: method.to_string(),
            params: value(params),
            session_id: Some("e".to_string()),
        },
        console_text: "hi".to_string(),
    }
}

/// The effects of a step, in words.
fn words(step: &PreviewStep) -> Vec<String> {
    step.effects
        .iter()
        .map(|effect| match effect {
            PreviewEffect::Subscribe => "subscribe".to_string(),
            PreviewEffect::StopScreencast { session_id } => format!("stop {:?}", session_id),
            PreviewEffect::StartScreencast { session_id, width, height } => {
                format!("start {:?} {}x{}", session_id, width, height)
            }
            PreviewEffect::Acknowledge { session_id, frame_session } => {
                format!("ack {:?} {}", session_id, frame_session)
            }
            PreviewEffect::Sleep(millis) => format!("sleep {}", millis),
            PreviewEffect::SetScreencasting(on) => format!("set {}", on),
            PreviewEffect::Broadcast(message) => format!("send {}", value(message)["type"]),
            PreviewEffect::KeepFrame(_) => "keep".to_string(),
            PreviewEffect::UpdateTabs(url) => format!("tabs {}", url),
            PreviewEffect::Notify => "notify".to_string(),
        })
        .collect()
}

/// A live view that runs in the surroundings of `around`.
fn streaming() -> PreviewLoop {
    let mut preview = PreviewLoop::new();
    let mut before = around();
    before.screencasting = false;
    let step = preview.step(PreviewInput::Notified, &before, 0);
    assert_eq!(words(&step), ["subscribe", "start Some(\"s\") 800x600", "set true"]);
    assert!(step.next == PreviewNext::LookAgain);
    let step = preview.step(PreviewInput::Started, &around(), 0);
    assert_eq!(words(&step), ["send \"status\""]);
    assert!(step.next == PreviewNext::AwaitEvent);
    preview
}

#[test]
fn nobody_there_nothing_runs() {
    let mut preview = PreviewLoop::new();
    let mut empty = around();
    empty.client_count = 0;
    let step = preview.step(PreviewInput::Notified, &empty, 0);
    assert_eq!(words(&step), ["stop Some(\"s\")", "set false"]);
    assert!(step.next == PreviewNext::AwaitNotice);
    empty.client = None;
    let step = preview.step(PreviewInput::Shutdown(NO_END), &empty, 0);
    assert_eq!(words(&step), ["set false"]);
    empty.screencasting = false;
    let step = preview.step(PreviewInput::Notified, &empty, 0);
    assert!(step.effects.is_empty());

    let mut unconnected = around();
    unconnected.client = None;
    let step = preview.step(PreviewInput::Notified, &unconnected, 0);
    assert!(step.effects.is_empty());
    assert!(step.next == PreviewNext::AwaitNotice);
}

#[test]
fn viewers_of_a_recording_are_told() {
    let mut preview = PreviewLoop::new();
    let mut recorded = around();
    recorded.recording = true;
    let step = preview.step(PreviewInput::Notified, &recorded, 0);
    assert_eq!(words(&step), ["set false", "send \"status\""]);
    match &step.effects[1] {
        PreviewEffect::Broadcast(message) => {
            let status = value(message);
            assert_eq!(status["recording"], Value::from(true));
            assert_eq!(status["screencasting"], Value::from(false));
            assert_eq!(status["connected"], Value::from(true));
        }
        _ => panic!("a status is sent"),
    }
}

#[test]
fn end_of_the_live_view() {
    let mut preview = PreviewLoop::new();
    let step = preview.step(PreviewInput::Shutdown(END), &around(), 0);
    assert_eq!(words(&step), ["stop Some(\"s\")", "set false"]);
    assert!(step.next == PreviewNext::Return);

    let mut preview = streaming();
    let step = preview.step(PreviewInput::Shutdown(NO_END), &around(), 0);
    assert!(step.effects.is_empty());
    let mut moved = around();
    moved.session_id = None;
    let step = preview.step(PreviewInput::Shutdown(END), &moved, 0);
    assert_eq!(words(&step), ["stop None", "set false"]);
    assert!(step.next == PreviewNext::Return);
}

#[test]
fn last_viewer_stops_the_screencast() {
    let mut preview = streaming();
    let mut empty = around();
    empty.client_count = 0;
    let step = preview.step(PreviewInput::Notified, &empty, 0);
    assert_eq!(words(&step), ["stop Some(\"s\")", "set false"]);
    assert!(step.next == PreviewNext::AwaitNotice);
}

#[test]
fn changes_move_the_screencast() {
    let mut preview = streaming();
    let step = preview.step(PreviewInput::Notified, &around(), 0);
    assert!(step.effects.is_empty());
    assert!(step.next == PreviewNext::AwaitEvent);

    let mut moved = around();
    moved.session_id = Some("s2".to_string());
    moved.width = 1024;
    let step = preview.step(PreviewInput::Notified, &moved, 0);
    assert_eq!(words(&step), ["stop Some(\"s\")", "set false", "notify"]);
    let step = preview.step(PreviewInput::Notified, &moved, 0);
    assert_eq!(words(&step), ["subscribe", "start Some(\"s2\") 1024x600", "set true"]);

    let mut other = around();
    other.client = Some(8);
    let step = streaming().step(PreviewInput::Notified, &other, 0);
    assert_eq!(words(&step), ["stop Some(\"s\")", "set false", "notify"]);
    let mut stopped = around();
    stopped.screencasting = false;
    let step = streaming().step(PreviewInput::Notified, &stopped, 0);
    assert_eq!(words(&step), ["stop Some(\"s\")", "set false", "notify"]);
}

#[test]
fn recording_takes_over() {
    let mut recorded = around();
    recorded.recording = true;
    let step = streaming().step(PreviewInput::Notified, &recorded, 0);
    assert_eq!(words(&step), ["set false", "notify"]);
    let image = event("Page.screencastFrame", r#"{"data":"AQ==","sessionId":1}"#);
    let step = streaming().step(image, &recorded, 0);
    assert_eq!(words(&step), ["set false", "notify"]);
    assert!(step.next == PreviewNext::AwaitNotice);
}

#[test]
fn other_engines_have_no_screencast() {
    let mut other = around();
    other.engine = "lightpanda".to_string();
    other.screencasting = false;
    let mut preview = PreviewLoop::new();
    let step = preview.step(PreviewInput::Notified, &other, 0);
    assert_eq!(words(&step), ["subscribe", "set false"]);
    preview.step(PreviewInput::Started, &other, 0);
    let step = preview.step(event("Page.frameStoppedLoading", "{}"), &other, 0);
    assert!(step.effects.is_empty());
    let step = preview.step(PreviewInput::Shutdown(END), &other, 0);
    assert_eq!(words(&step), ["set false"]);
}

#[test]
fn loaded_page_restarts_the_screencast() {
    let step = streaming().step(event("Page.frameStoppedLoading", "{}"), &around(), 0);
    assert_eq!(
        words(&step),
        ["sleep 250", "stop Some(\"s\")", "start Some(\"s\") 800x600", "set true"]
    );
}

#[test]
fn navigation_is_announced() {
    let navigated = event("Page.frameNavigated", r#"{"frame":{"url":"https://a.example"}}"#);
    let step = streaming().step(navigated, &around(), 9);
    assert_eq!(words(&step), ["tabs https://a.example", "send \"url\""]);
    let framed =
        event("Page.frameNavigated", r#"{"frame":{"url":"https://a.example","parentId":"p"}}"#);
    assert!(streaming().step(framed, &around(), 9).effects.is_empty());
    let nameless = event("Page.frameNavigated", r#"{"frame":{}}"#);
    assert!(streaming().step(nameless, &around(), 9).effects.is_empty());
    let frameless = event("Page.frameNavigated", "{}");
    assert!(streaming().step(frameless, &around(), 9).effects.is_empty());
}

#[test]
fn images_go_to_the_viewers() {
    let image = event("Page.screencastFrame", r#"{"data":"AQ==","sessionId":4}"#);
    let step = streaming().step(image, &around(), 0);
    assert_eq!(words(&step), ["ack Some(\"e\") 4", "keep", "send \"frame\""]);
    match &step.effects[2] {
        PreviewEffect::Broadcast(message) => {
            assert_eq!(value(message)["metadata"]["deviceWidth"], Value::from(800));
        }
        _ => panic!("an image is sent"),
    }
    let numberless = event("Page.screencastFrame", r#"{"data":"AQ==","sessionId":"4"}"#);
    let step = streaming().step(numberless, &around(), 0);
    assert_eq!(words(&step), ["keep", "send \"frame\""]);
    let empty = event("Page.screencastFrame", r#"{"sessionId":4}"#);
    let step = streaming().step(empty, &around(), 0);
    assert_eq!(words(&step), ["ack Some(\"e\") 4"]);
}

#[test]
fn console_goes_to_the_viewers() {
    let called = event("Runtime.consoleAPICalled", r#"{"type":"warn","args":[{"value":"hi"}]}"#);
    let step = streaming().step(called, &around(), 9);
    match &step.effects[0] {
        PreviewEffect::Broadcast(message) => assert_eq!(
            message,
            r#"{"args":[{"value":"hi"}],"level":"warn","text":"hi","timestamp":9,"type":"console"}"#
        ),
        _ => panic!("a message is sent"),
    }
    let plain = event("Runtime.consoleAPICalled", "{}");
    let step = streaming().step(plain, &around(), 9);
    match &step.effects[0] {
        PreviewEffect::Broadcast(message) => assert_eq!(
            message,
            r#"{"level":"log","text":"hi","timestamp":9,"type":"console"}"#
        ),
        _ => panic!("a message is sent"),
    }
    let silent = PreviewInput::Event {
        event: CdpEvent {
            method: "Runtime.consoleAPICalled".to_string(),
            params: value("{}"),
            session_id: None,
        },
        console_text: String::new(),
    };
    assert!(streaming().step(silent, &around(), 9).effects.is_empty());
}

#[test]
fn arguments_of_the_console() {
    let called = CdpEvent {
        method: "Runtime.consoleAPICalled".to_string(),
        params: value(r#"{"args":[1,"a"]}"#),
        session_id: None,
    };
    assert_eq!(console_args(&called), [Value::from(1), Value::from("a")]);
    let bare = CdpEvent { method: String::new(), params: value(r#"{"args":3}"#), session_id: None };
    assert!(console_args(&bare).is_empty());
}

#[test]
fn page_errors_go_to_the_viewers() {
    let text = |params: &str| {
        let step = streaming().step(event("Runtime.exceptionThrown", params), &around(), 9);
        match &step.effects[0] {
            PreviewEffect::Broadcast(message) => message.clone(),
            _ => panic!("a message is sent"),
        }
    };
    assert_eq!(
        text(
            r#"{"exceptionDetails":{"text":"Uncaught","exception":{"description":"Error: x"},
                "lineNumber":3,"columnNumber":4}}"#
        ),
        r#"{"column":4,"line":3,"text":"Error: x","timestamp":9,"type":"page_error"}"#
    );
    assert_eq!(
        text(r#"{"exceptionDetails":{"text":"Uncaught","exception":{"description":1}}}"#),
        r#"{"column":null,"line":null,"text":"Uncaught","timestamp":9,"type":"page_error"}"#
    );
    assert_eq!(
        text(r#"{"exceptionDetails":{}}"#),
        r#"{"column":null,"line":null,"text":"Unknown error","timestamp":9,"type":"page_error"}"#
    );
    assert_eq!(
        text("{}"),
        r#"{"column":null,"line":null,"text":"Unknown error","timestamp":9,"type":"page_error"}"#
    );
}

#[test]
fn lost_and_closed_event_streams() {
    let step = streaming().step(PreviewInput::Lagged, &around(), 0);
    assert!(step.effects.is_empty());
    assert!(step.next == PreviewNext::AwaitEvent);
    let step = streaming().step(PreviewInput::Closed, &around(), 0);
    assert!(step.effects.is_empty());
    assert!(step.next == PreviewNext::AwaitNotice);
    let step = streaming().step(event("Network.dataReceived", "{}"), &around(), 0);
    assert!(step.effects.is_empty());
}

#[test]
fn effects_that_are_commands() {
    let start = PreviewEffect::StartScreencast {
        session_id: None,
        width: 800,
        height: 600,
    };
    let command = start.command().unwrap();
    assert_eq!(command.method, "Page.startScreencast");
    assert_eq!(
        command.params.unwrap().to_string(),
        r#"{"everyNthFrame":1,"format":"jpeg","maxHeight":600,"maxWidth":800,"quality":80}"#
    );
    assert_eq!(command.session_id, None);
    let stop = PreviewEffect::StopScreencast { session_id: Some("s".to_string()) };
    assert_eq!(stop.command().unwrap().session_id, Some("s".to_string()));
    assert!(PreviewEffect::Notify.command().is_none());
}

#[test]
fn active_tabs_get_the_address() {
    let mut tabs = vec![
        value(r#"{"active":true,"url":"old"}"#),
        value(r#"{"active":false,"url":"old"}"#),
        value(r#"{"active":"yes"}"#),
        value(r#"{"active":true}"#),
        value("5"),
    ];
    update_tabs(&mut tabs, "new");
    assert_eq!(tabs[0].to_string(), r#"{"active":true,"url":"new"}"#);
    assert_eq!(tabs[1].to_string(), r#"{"active":false,"url":"old"}"#);
    assert_eq!(tabs[2].to_string(), r#"{"active":"yes"}"#);
    assert_eq!(tabs[3].to_string(), r#"{"active":true,"url":"new"}"#);
    assert_eq!(tabs[4].to_string(), "5");
}

#[test]
fn nobody_left_to_ask_is_the_end() {
    let gone = ShutdownChange { sender_gone: true, requested: false };
    assert!(gone.is_end());
    assert!(END.is_end());
    assert!(!NO_END.is_end());
    let step = streaming().step(PreviewInput::Shutdown(gone), &around(), 0);
    assert!(step.next == PreviewNext::Return);
    let step = PreviewLoop::new().step(PreviewInput::Shutdown(gone), &around(), 0);
    assert!(step.next == PreviewNext::Return);
}
