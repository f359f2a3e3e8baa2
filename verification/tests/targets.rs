use browser_capture::cdp::{CdpEvent, TargetInfo};
use browser_capture::recording::attach::{Attach, AttachStep, Reply};
use browser_capture::recording::commands::BrowserRequest;
use browser_capture::recording::targets::{
    choose_replacement_target, is_main_frame_load_start, is_main_frame_navigation_ready,
    should_recover_recording_target, target_event_matches,
};

fn event(method: &str, params: &str, session_id: Option<&str>) -> CdpEvent {
    CdpEvent {
        method: method.to_string(),
        params: serde_json::from_str(params).unwrap(),
        session_id: session_id.map(String::from),
    }
}

fn target(id: &str, context: Option<&str>, trackable: bool) -> TargetInfo {
    TargetInfo {
        target_id: id.to_string(),
        browser_context_id: context.map(String::from),
        trackable,
    }
}

fn t() -> Option<String> {
    Some("t".to_string())
}

#[test]
fn load_start_of_a_frame() {
    assert!(is_main_frame_load_start(&event(
        "Page.frameStartedLoading",
        r#"{"frameId":"f"}"#,
        None
    )));
    assert!(!is_main_frame_load_start(&event("Page.frameStartedLoading", r#"{"frameId":1}"#, None)));
    assert!(!is_main_frame_load_start(&event("Page.frameStartedLoading", "{}", None)));
    assert!(!is_main_frame_load_start(&event(
        "Page.frameStoppedLoading",
        r#"{"frameId":"f"}"#,
        None
    )));
}

#[test]
fn navigation_of_the_main_frame() {
    assert!(is_main_frame_navigation_ready(&event("Page.loadEventFired", "null", None)));
    assert!(is_main_frame_navigation_ready(&event("Page.frameNavigated", "{}", None)));
    assert!(is_main_frame_navigation_ready(&event(
        "Page.frameNavigated",
        r#"{"frame":{"parentId":""}}"#,
        None
    )));
    assert!(is_main_frame_navigation_ready(&event(
        "Page.frameNavigated",
        r#"{"frame":{"parentId":7}}"#,
        None
    )));
    assert!(!is_main_frame_navigation_ready(&event(
        "Page.frameNavigated",
        r#"{"frame":{"parentId":"p"}}"#,
        None
    )));
    assert!(!is_main_frame_navigation_ready(&event("Page.frameDetached", "{}", None)));
}

#[test]
fn events_that_name_a_target() {
    let gone = event("Target.targetDestroyed", r#"{"targetId":"t"}"#, None);
    assert!(target_event_matches(&gone, "Target.targetDestroyed", "targetId", Some("t")));
    assert!(!target_event_matches(&gone, "Target.targetDestroyed", "targetId", Some("u")));
    assert!(!target_event_matches(&gone, "Target.targetDestroyed", "targetId", None));
    assert!(!target_event_matches(&gone, "Target.targetCreated", "targetId", Some("t")));
    assert!(!target_event_matches(&gone, "Target.targetDestroyed", "sessionId", Some("t")));
}

#[test]
fn loss_of_the_recorded_target() {
    let lost = |event: &CdpEvent| should_recover_recording_target(event, "s", Some("t"));
    assert!(lost(&event("Target.detachedFromTarget", "{}", Some("s"))));
    assert!(lost(&event("Target.detachedFromTarget", r#"{"sessionId":"s"}"#, None)));
    assert!(lost(&event("Target.targetDestroyed", r#"{"targetId":"t"}"#, None)));
    assert!(!lost(&event("Target.detachedFromTarget", r#"{"sessionId":"x"}"#, Some("y"))));
    assert!(!lost(&event("Target.targetDestroyed", r#"{"targetId":"u"}"#, Some("s"))));
    let destroyed = event("Target.targetDestroyed", r#"{"targetId":"t"}"#, None);
    assert!(!should_recover_recording_target(&destroyed, "s", None));
}

#[test]
fn replacement_prefers_the_browser_context() {
    let targets = || {
        vec![
            target("worker", Some("c"), false),
            target("current", Some("c"), true),
            target("elsewhere", Some("d"), true),
            target("here", Some("c"), true),
            target("here too", Some("c"), true),
        ]
    };
    let id = |chosen: Option<TargetInfo>| chosen.map(|t| t.target_id);
    assert_eq!(
        id(choose_replacement_target(targets(), Some("current"), Some("c"))),
        Some("here".to_string())
    );
    assert_eq!(
        id(choose_replacement_target(targets(), Some("current"), Some("nowhere"))),
        Some("elsewhere".to_string())
    );
    assert_eq!(
        id(choose_replacement_target(targets(), Some("current"), None)),
        Some("elsewhere".to_string())
    );
    assert_eq!(
        id(choose_replacement_target(targets(), None, None)),
        Some("current".to_string())
    );
    assert_eq!(id(choose_replacement_target(vec![], None, None)), None);
    let only = vec![target("worker", None, false), target("current", None, true)];
    assert_eq!(id(choose_replacement_target(only, Some("current"), None)), None);
}

#[test]
fn session_on_the_wanted_target() {
    let (mut attempt, request) =
        Attach::attach_and_start_recording_session(t(), t(), None);
    assert!(matches!(request, BrowserRequest::Attach { target_id } if target_id == "t"));
    let step = attempt.reply(Reply::Session("s".to_string()));
    assert!(matches!(
        step,
        AttachStep::Ask(BrowserRequest::EnablePage { session_id }) if session_id == "s"
    ));
    let step = attempt.reply(Reply::Document(serde_json::Value::Null));
    assert!(matches!(
        step,
        AttachStep::Ask(BrowserRequest::StartScreencast { session_id }) if session_id == "s"
    ));
    match attempt.reply(Reply::Document(serde_json::Value::Null)) {
        AttachStep::Opened(opened) => {
            assert_eq!(opened.target_id, "t");
            assert_eq!(opened.session_id, "s");
        }
        _ => panic!("the session is open"),
    }
}

#[test]
fn session_on_another_target_when_the_wanted_one_fails() {
    let (mut attempt, _) = Attach::attach_and_start_recording_session(t(), t(), None);
    let step = attempt.reply(Reply::Failed("gone".to_string()));
    assert!(matches!(step, AttachStep::Ask(BrowserRequest::ListTargets)));
    let listed = vec![target("t", None, true), target("u", None, true)];
    let step = attempt.reply(Reply::Targets(listed));
    assert!(matches!(
        step,
        AttachStep::Ask(BrowserRequest::Attach { target_id }) if target_id == "u"
    ));
    let step = attempt.reply(Reply::Failed("gone too".to_string()));
    assert!(matches!(step, AttachStep::Failed(message) if message == "gone too"));
}

#[test]
fn failures_of_an_attempt() {
    let missing = Attach::attach_recording_session(None);
    assert!(matches!(missing, Err(message) if message == "No active recording target id"));

    let (mut attempt, _) = Attach::attach_to_replacement_target(Some("t".to_string()), None);
    let step = attempt.reply(Reply::Targets(vec![target("t", None, true)]));
    assert!(matches!(
        step,
        AttachStep::Failed(message) if message == "No replacement page target found"
    ));

    let (mut attempt, _) = Attach::attach_and_start_recording_session(t(), t(), None);
    attempt.reply(Reply::Session("s".to_string()));
    attempt.reply(Reply::Document(serde_json::Value::Null));
    let step = attempt.reply(Reply::Failed("no screencast".to_string()));
    assert!(matches!(step, AttachStep::Failed(message) if message == "no screencast"));
}

#[test]
fn target_that_takes_over_differs_from_the_current_one() {
    let current = Some("u".to_string());
    let (mut attempt, request) = Attach::attach_and_start_recording_session(None, current, None);
    assert!(matches!(request, BrowserRequest::ListTargets));
    let listed = vec![target("u", None, true), target("t", None, true)];
    let step = attempt.reply(Reply::Targets(listed));
    assert!(matches!(
        step,
        AttachStep::Ask(BrowserRequest::Attach { target_id }) if target_id == "t"
    ));
}
