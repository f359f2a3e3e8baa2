use browser_capture::recording::commands::BrowserRequest;
use browser_capture::recording::ffmpeg::build_ffmpeg_command;
use browser_capture::recording::settings::{
    end_padding_ms, records_screencast, screenshot_interval_ms, video_interval_ms, ScreencastSettings,
};
use browser_capture::text::parse_u32;

#[test]
fn test_build_ffmpeg_command_webm() {
    let cmd = build_ffmpeg_command("/tmp/out.webm");
    let args_str: Vec<&str> = cmd.args.iter().map(|a| a.as_str()).collect();
    assert!(args_str.contains(&"vp8"));
    assert!(args_str.contains(&"-r"));
    assert!(args_str.contains(&"25"));
    assert!(args_str.contains(&"/tmp/out.webm"));
}

#[test]
fn test_build_ffmpeg_command_mp4() {
    let cmd = build_ffmpeg_command("/tmp/out.mp4");
    let args_str: Vec<&str> = cmd.args.iter().map(|a| a.as_str()).collect();
    assert!(args_str.contains(&"libx264"));
    assert!(args_str.contains(&"/tmp/out.mp4"));
}

#[test]
fn whole_command_line_of_the_encoder() {
    let cmd = build_ffmpeg_command("a.mp4");
    assert_eq!(cmd.program, "ffmpeg");
    assert_eq!(
        cmd.args.join(" "),
        "-loglevel error -f image2pipe -avioflags direct -fpsprobesize 0 -probesize 32 \
         -analyzeduration 0 -c:v mjpeg -i pipe:0 -y -an -r 25 -c:v libx264 -preset ultrafast \
         -threads 1 -vf pad=ceil(iw/2)*2:ceil(ih/2)*2 a.mp4"
    );
    let cmd = build_ffmpeg_command("a.webm");
    assert!(cmd.args.join(" ").contains(
        "-c:v vp8 -qmin 0 -qmax 50 -crf 8 -deadline realtime -speed 8 -b:v 1M -threads 1"
    ));
    let cmd = build_ffmpeg_command("a.webm.mp4");
    assert!(!cmd.args.contains(&"vp8".to_string()));
}

#[test]
fn numerals() {
    assert_eq!(parse_u32("0"), Some(0));
    assert_eq!(parse_u32("+17"), Some(17));
    assert_eq!(parse_u32("0042"), Some(42));
    assert_eq!(parse_u32("4294967295"), Some(4294967295));
    assert_eq!(parse_u32("4294967296"), None);
    assert_eq!(parse_u32("42949672950"), None);
    assert_eq!(parse_u32(""), None);
    assert_eq!(parse_u32("+"), None);
    assert_eq!(parse_u32("-1"), None);
    assert_eq!(parse_u32(" 1"), None);
    assert_eq!(parse_u32("1x"), None);
    assert_eq!(parse_u32("++1"), None);
}

#[test]
fn settings_and_their_defaults() {
    let settings = ScreencastSettings::from_variables(None, None, None, None);
    assert_eq!(settings.quality, 70);
    assert_eq!(settings.every_nth_frame, 6);
    assert_eq!(settings.max_width, 1280);
    assert_eq!(settings.max_height, 720);

    let settings =
        ScreencastSettings::from_variables(Some("100"), Some("1"), Some("640"), Some("480"));
    assert_eq!(settings.quality, 100);
    assert_eq!(settings.every_nth_frame, 1);
    assert_eq!(settings.max_width, 640);
    assert_eq!(settings.max_height, 480);

    let settings =
        ScreencastSettings::from_variables(Some("101"), Some("0"), Some("wide"), Some("-1"));
    assert_eq!(settings.quality, 70);
    assert_eq!(settings.every_nth_frame, 6);
    assert_eq!(settings.max_width, 1280);
    assert_eq!(settings.max_height, 720);
}

#[test]
fn intervals() {
    assert_eq!(screenshot_interval_ms(None), 125);
    assert_eq!(screenshot_interval_ms(Some("1")), 1000);
    assert_eq!(screenshot_interval_ms(Some("25")), 40);
    assert_eq!(screenshot_interval_ms(Some("3")), 333);
    assert_eq!(screenshot_interval_ms(Some("26")), 125);
    assert_eq!(screenshot_interval_ms(Some("0")), 125);
    assert_eq!(video_interval_ms(), 40);
    assert_eq!(end_padding_ms(), 1000);
}

#[test]
fn source_of_the_images() {
    assert!(records_screencast(None));
    assert!(records_screencast(Some("screencast")));
    assert!(!records_screencast(Some("screenshot")));
    assert!(!records_screencast(Some("")));
}

#[test]
fn commands_of_a_recording() {
    let settings = ScreencastSettings::from_variables(None, None, None, None);
    let session = || "s".to_string();
    let text = |request: BrowserRequest| {
        let command = request.command(&settings);
        let params = match command.params {
            Some(params) => params.to_string(),
            None => "-".to_string(),
        };
        format!("{} {} {:?}", command.method, params, command.session_id)
    };
    assert_eq!(
        text(BrowserRequest::StartScreencast { session_id: session() }),
        "Page.startScreencast {\"everyNthFrame\":6,\"format\":\"jpeg\",\"maxHeight\":720,\
         \"maxWidth\":1280,\"quality\":70} Some(\"s\")"
    );
    assert_eq!(
        text(BrowserRequest::StopScreencast { session_id: session() }),
        "Page.stopScreencast - Some(\"s\")"
    );
    assert_eq!(
        text(BrowserRequest::Detach { session_id: session() }),
        "Target.detachFromTarget {\"sessionId\":\"s\"} None"
    );
    assert_eq!(text(BrowserRequest::EnablePage { session_id: session() }), "Page.enable - Some(\"s\")");
    assert_eq!(text(BrowserRequest::ListTargets), "Target.getTargets {} None");
    assert_eq!(
        text(BrowserRequest::Attach { target_id: "t".to_string() }),
        "Target.attachToTarget {\"flatten\":true,\"targetId\":\"t\"} None"
    );
    assert_eq!(
        text(BrowserRequest::Screenshot { session_id: session() }),
        "Page.captureScreenshot {\"format\":\"jpeg\",\"fromSurface\":true,\"quality\":80} Some(\"s\")"
    );
    assert_eq!(
        text(BrowserRequest::Acknowledge { session_id: session(), frame_session: -3 }),
        "Page.screencastFrameAck {\"sessionId\":-3} Some(\"s\")"
    );
}
