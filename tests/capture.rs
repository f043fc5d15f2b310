use base64::Engine as _;
use page_capture::greeting::greet;
use page_capture::outcome::{ScreenshotResult, Stage};
use page_capture::session::{Action, CaptureSession, Phase, CAPTURE_QUALITY};

const PNG_SIGNATURE: [u8; 8] = [0x89, b'P', b'N', b'G', 0x0D, 0x0A, 0x1A, 0x0A];

fn finished(action: Action) -> ScreenshotResult {
    match action {
        Action::Finish(r) => r,
        other => panic!("expected the capture to finish, got {:?}", other),
    }
}

/// Runs a capture of `url` in which the stages before `fail_at` go through
/// and `fail_at` fails with `diagnostic`; with no failing stage, the capture
/// hands back `frame`.
fn run(url: &str, fail_at: Option<Stage>, diagnostic: &str, frame: &[u8]) -> (CaptureSession, ScreenshotResult) {
    let (mut session, mut action) = CaptureSession::start(url.to_string());
    loop {
        let stage = match session.phase {
            Phase::Running(s) => s,
            _ => break,
        };
        let outcome = if Some(stage) == fail_at {
            Err(diagnostic.to_string())
        } else if stage == Stage::Capture {
            Ok(frame.to_vec())
        } else {
            Ok(Vec::new())
        };
        action = session.step(outcome);
    }
    (session, finished(action))
}

#[test]
fn greet_world() {
    assert_eq!(greet("World"), "Hello, World! You've been greeted from Rust!");
}

#[test]
fn greet_empty_name() {
    assert_eq!(greet(""), "Hello, ! You've been greeted from Rust!");
}

#[test]
fn first_action_launches_headless() {
    let (session, action) = CaptureSession::start("https://example.com".to_string());
    assert_eq!(session.phase, Phase::Running(Stage::Launch));
    assert!(matches!(action, Action::LaunchBrowser { headless: true }));
}

#[test]
fn stages_run_in_order() {
    let (mut session, _) = CaptureSession::start("https://example.com".to_string());
    let a = session.step(Ok(Vec::new()));
    assert!(matches!(a, Action::OpenTab));
    assert_eq!(session.phase, Phase::Running(Stage::OpenTab));
    let a = session.step(Ok(Vec::new()));
    match a {
        Action::NavigateTo(u) => assert_eq!(u, "https://example.com"),
        other => panic!("unexpected {:?}", other),
    }
    assert_eq!(session.phase, Phase::Running(Stage::Navigate));
    let a = session.step(Ok(Vec::new()));
    assert!(matches!(a, Action::WaitUntilNavigated));
    assert_eq!(session.phase, Phase::Running(Stage::WaitForLoad));
    let a = session.step(Ok(Vec::new()));
    match a {
        Action::CapturePng { quality, from_surface } => {
            assert_eq!(quality, Some(90));
            assert_eq!(quality, Some(CAPTURE_QUALITY));
            assert!(!from_surface);
        }
        other => panic!("unexpected {:?}", other),
    }
    assert_eq!(session.phase, Phase::Running(Stage::Capture));
    let r = finished(session.step(Ok(PNG_SIGNATURE.to_vec())));
    assert_eq!(session.phase, Phase::Succeeded);
    assert!(r.success);
}

#[test]
fn reachable_url_gives_png_data_uri() {
    let (session, r) = run("https://example.com", None, "", &PNG_SIGNATURE);
    assert_eq!(session.phase, Phase::Succeeded);
    assert!(r.success);
    assert_eq!(r.message.as_deref(), Some("Screenshot taken successfully"));
    let data = r.image_data.expect("image data");
    assert!(data.starts_with("data:image/png;base64,"));
    assert_eq!(data, "data:image/png;base64,iVBORw0KGgo=");
}

#[test]
fn image_payload_decodes_to_png_header() {
    let (_, r) = run("https://example.com", None, "", &PNG_SIGNATURE);
    let data = r.image_data.expect("image data");
    let payload = data.strip_prefix("data:image/png;base64,").expect("prefix");
    let bytes = base64::engine::general_purpose::STANDARD.decode(payload).expect("valid base64");
    assert_eq!(&bytes[..8], &PNG_SIGNATURE);
}

#[test]
fn base64_padding_one_byte_left() {
    let r = ScreenshotResult::taken(&vec![0xFF]);
    assert_eq!(r.image_data.as_deref(), Some("data:image/png;base64,/w=="));
}

#[test]
fn base64_padding_two_bytes_left() {
    let r = ScreenshotResult::taken(&vec![0xFB, 0xFF]);
    assert_eq!(r.image_data.as_deref(), Some("data:image/png;base64,+/8="));
}

#[test]
fn base64_whole_groups() {
    let r = ScreenshotResult::taken(&b"Man hello".to_vec());
    assert_eq!(r.image_data.as_deref(), Some("data:image/png;base64,TWFuIGhlbGxv"));
}

#[test]
fn base64_empty_frame() {
    let r = ScreenshotResult::taken(&Vec::new());
    assert!(r.success);
    assert_eq!(r.image_data.as_deref(), Some("data:image/png;base64,"));
}

#[test]
fn malformed_url_fails_at_navigation() {
    let (session, r) = run("not-a-valid-url", Some(Stage::Navigate), "invalid URL", &PNG_SIGNATURE);
    assert_eq!(session.phase, Phase::Failed(Stage::Navigate));
    assert!(!r.success);
    assert!(r.image_data.is_none());
    assert_eq!(r.message.as_deref(), Some("Error navigating to URL: invalid URL"));
}

#[test]
fn unreachable_url_fails_while_waiting() {
    let (session, r) = run("https://unreachable.invalid", Some(Stage::WaitForLoad), "net::ERR_NAME_NOT_RESOLVED", &PNG_SIGNATURE);
    assert_eq!(session.phase, Phase::Failed(Stage::WaitForLoad));
    assert!(!r.success);
    assert!(r.image_data.is_none());
    assert_eq!(r.message.as_deref(), Some("Error waiting for navigation: net::ERR_NAME_NOT_RESOLVED"));
}

#[test]
fn missing_engine_fails_at_launch() {
    let (session, r) = run("https://example.com", Some(Stage::Launch), "Could not auto detect a chrome executable", &PNG_SIGNATURE);
    assert_eq!(session.phase, Phase::Failed(Stage::Launch));
    assert!(!r.success);
    assert!(r.image_data.is_none());
    assert_eq!(r.message.as_deref(), Some("Error launching browser: Could not auto detect a chrome executable"));
}

#[test]
fn tab_failure_message() {
    let (_, r) = run("https://example.com", Some(Stage::OpenTab), "no target", &PNG_SIGNATURE);
    assert!(!r.success);
    assert_eq!(r.message.as_deref(), Some("Error creating new tab: no target"));
}

#[test]
fn capture_failure_message() {
    let (_, r) = run("https://example.com", Some(Stage::Capture), "timeout", &PNG_SIGNATURE);
    assert!(!r.success);
    assert!(r.image_data.is_none());
    assert_eq!(r.message.as_deref(), Some("Error capturing screenshot: timeout"));
}

#[test]
fn failure_with_empty_diagnostic_still_has_message() {
    let (_, r) = run("https://example.com", Some(Stage::Navigate), "", &PNG_SIGNATURE);
    assert_eq!(r.message.as_deref(), Some("Error navigating to URL: "));
}

#[test]
fn image_data_exactly_with_success() {
    let stages = [None, Some(Stage::Launch), Some(Stage::OpenTab), Some(Stage::Navigate), Some(Stage::WaitForLoad), Some(Stage::Capture)];
    for fail_at in stages {
        let (_, r) = run("https://example.com", fail_at, "e", &PNG_SIGNATURE);
        assert_eq!(r.success, r.image_data.is_some());
        assert_eq!(r.success, fail_at.is_none());
        assert!(!r.message.expect("message").is_empty());
    }
}

#[test]
fn failure_stops_later_stages() {
    let (mut session, _) = CaptureSession::start("https://example.com".to_string());
    session.step(Ok(Vec::new()));
    session.step(Ok(Vec::new()));
    let r = finished(session.step(Err("bad".to_string())));
    assert_eq!(session.phase, Phase::Failed(Stage::Navigate));
    assert!(!r.success);
}

#[test]
fn stage_failure_prefixes() {
    assert_eq!(Stage::Launch.failure_prefix(), "Error launching browser: ");
    assert_eq!(Stage::WaitForLoad.failure_prefix(), "Error waiting for navigation: ");
    let r = ScreenshotResult::failed(Stage::Capture, "x");
    assert_eq!(r.message.as_deref(), Some("Error capturing screenshot: x"));
    assert!(!r.success);
}
