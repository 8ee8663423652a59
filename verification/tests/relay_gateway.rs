//! The capture relay state machine, the connection registry, and the
//! gateway's control decisions.

use angel_core::console::enable_ansi_support;
use angel_core::gateway::{
    broadcast, cdp_start, cost_dispatch, greeting, is_heartbeat, parse_report_kind,
    AccountingCall, BroadcastReq, BroadcastResp, CdpStartReq, GetKeyReq, ReportKind, SetKeyReq,
};
use angel_core::keys::{KeyManager, UserKey};
use angel_core::plan::decision_request;
use angel_core::registry::Registry;
use angel_core::relay::{
    select_page_target, start_capture_command, CaptureFrame, CaptureTarget, CDPStream,
    DiscoveryStep, RelayAction, StreamEvent, DISCOVERY_ATTEMPTS,
};

#[test]
fn single_session_start_is_check_and_set() {
    let mut stream = CDPStream::new();
    assert!(!stream.is_running_now());
    assert!(stream.try_start("u1".to_string()));
    assert!(stream.is_running_now());

    // A second start request while a session runs is a silent no-op.
    assert!(!stream.try_start("u2".to_string()));
    assert!(stream.is_running_now());

    stream.stop();
    assert!(!stream.is_running_now());
    assert!(stream.try_start("u2".to_string()));
}

#[test]
fn cdp_start_always_answers_started() {
    let mut stream = CDPStream::new();
    let (r1, started1) = cdp_start(&mut stream, CdpStartReq { user_id: "u1".to_string() });
    assert_eq!(r1.status, "started");
    assert!(started1);
    let (r2, started2) = cdp_start(&mut stream, CdpStartReq { user_id: "u2".to_string() });
    assert_eq!(r2.status, "started");
    assert!(!started2);
    assert!(stream.is_running_now());
}

#[test]
fn discovery_budget_is_ten_attempts() {
    let mut stream = CDPStream::new();
    assert!(stream.try_start("u1".to_string()));
    for _ in 0..(DISCOVERY_ATTEMPTS - 1) {
        assert!(matches!(stream.poll_result(None), DiscoveryStep::Retry));
        assert!(stream.is_running_now());
    }
    assert!(matches!(stream.poll_result(None), DiscoveryStep::GiveUp));
    assert!(!stream.is_running_now());
}

#[test]
fn discovery_connects_on_found_target() {
    let mut stream = CDPStream::new();
    assert!(stream.try_start("u1".to_string()));
    assert!(matches!(stream.poll_result(None), DiscoveryStep::Retry));
    match stream.poll_result(Some("ws://127.0.0.1:9222/devtools/page/abc".to_string())) {
        DiscoveryStep::Connect(url) => {
            assert_eq!(url, "ws://127.0.0.1:9222/devtools/page/abc");
        },
        _ => panic!("a found target must connect"),
    }
    assert!(stream.is_running_now());
}

#[test]
fn select_page_target_skips_non_pages() {
    let targets = vec![
        CaptureTarget {
            kind: "background_page".to_string(),
            ws_url: Some("ws://a".to_string()),
        },
        CaptureTarget { kind: "page".to_string(), ws_url: None },
        CaptureTarget { kind: "page".to_string(), ws_url: Some("ws://b".to_string()) },
        CaptureTarget { kind: "page".to_string(), ws_url: Some("ws://c".to_string()) },
    ];
    assert_eq!(select_page_target(&targets), Some("ws://b".to_string()));

    let none = vec![CaptureTarget {
        kind: "service_worker".to_string(),
        ws_url: Some("ws://x".to_string()),
    }];
    assert_eq!(select_page_target(&none), None);
    assert_eq!(select_page_target(&vec![]), None);
}

#[test]
fn activation_failure_clears_the_flag() {
    let mut stream = CDPStream::new();
    assert!(stream.try_start("u1".to_string()));
    stream.poll_result(Some("ws://a".to_string()));
    stream.activation_sent(false);
    assert!(!stream.is_running_now());
}

#[test]
fn capture_command_parameters() {
    let c = start_capture_command();
    assert_eq!(c.id, 1);
    assert_eq!(c.method, "Page.startScreencast");
    assert_eq!(c.format, "jpeg");
    assert_eq!(c.quality, 60);
    assert_eq!(c.max_width, 1280);
    assert_eq!(c.max_height, 720);
    assert_eq!(c.every_nth_frame, 1);
}

fn streaming_for(user: &str) -> CDPStream {
    let mut stream = CDPStream::new();
    assert!(stream.try_start(user.to_string()));
    stream.poll_result(Some("ws://a".to_string()));
    stream.activation_sent(true);
    stream
}

#[test]
fn frame_yields_one_ack_then_delivery() {
    let mut reg = Registry::new();
    reg.register("u1".to_string(), 7);
    let mut stream = streaming_for("u1");
    let acts = stream.stream_event(
        &reg,
        StreamEvent::Frame(CaptureFrame {
            session_id: 42,
            data: "aW1hZ2U=".to_string(),
            timestamp: "1234.5".to_string(),
        }),
    );
    assert_eq!(acts.len(), 2);
    match &acts[0] {
        RelayAction::Ack { session_id } => assert_eq!(*session_id, 42),
        _ => panic!("the acknowledgment must come first"),
    }
    match &acts[1] {
        RelayAction::Deliver { user_id, envelope } => {
            assert_eq!(user_id, "u1");
            assert_eq!(envelope.kind, "vision");
            assert_eq!(envelope.frame, "aW1hZ2U=");
            assert_eq!(envelope.timestamp, "1234.5");
        },
        _ => panic!("the frame must be delivered"),
    }
    // Exactly one acknowledgment per frame.
    let acks = acts
        .iter()
        .filter(|a| matches!(a, RelayAction::Ack { .. }))
        .count();
    assert_eq!(acks, 1);
}

#[test]
fn frame_without_connection_is_dropped_but_acked() {
    let reg = Registry::new();
    let mut stream = streaming_for("u1");
    let acts = stream.stream_event(
        &reg,
        StreamEvent::Frame(CaptureFrame {
            session_id: 9,
            data: "ZnJhbWU=".to_string(),
            timestamp: "0".to_string(),
        }),
    );
    assert_eq!(acts.len(), 1);
    assert!(matches!(acts[0], RelayAction::Ack { session_id: 9 }));
}

#[test]
fn non_frame_events_are_ignored_and_errors_stop() {
    let reg = Registry::new();
    let mut stream = streaming_for("u1");
    assert!(stream.stream_event(&reg, StreamEvent::Other).is_empty());
    assert!(stream.is_running_now());
    assert!(stream.stream_event(&reg, StreamEvent::ReadError).is_empty());
    assert!(!stream.is_running_now());
}

#[test]
fn broadcast_offline_without_connection() {
    let reg = Registry::new();
    let r = broadcast(
        &reg,
        &BroadcastReq { user_id: "u1".to_string(), message: "hello".to_string() },
    );
    assert!(matches!(r, BroadcastResp::Offline));
}

#[test]
fn broadcast_finds_registered_connection() {
    let mut reg = Registry::new();
    reg.register("u1".to_string(), 11);
    let r = broadcast(
        &reg,
        &BroadcastReq { user_id: "u1".to_string(), message: "hello".to_string() },
    );
    match r {
        BroadcastResp::Sent { handle } => assert_eq!(handle, 11),
        BroadcastResp::Offline => panic!("registered user must be reachable"),
    }
}

#[test]
fn registry_supersedes_and_removes() {
    let mut reg = Registry::new();
    reg.register("u1".to_string(), 1);
    reg.register("u1".to_string(), 2);
    assert_eq!(reg.lookup("u1"), Some(2));
    reg.unregister("u1");
    assert_eq!(reg.lookup("u1"), None);
    reg.unregister("u1");
    assert_eq!(reg.lookup("u1"), None);
}

#[test]
fn report_kinds_parse_exactly() {
    assert_eq!(parse_report_kind("browser"), Some(ReportKind::Browser));
    assert_eq!(parse_report_kind("ws"), Some(ReportKind::Ws));
    assert_eq!(parse_report_kind("ai"), Some(ReportKind::Ai));
    assert_eq!(parse_report_kind("Browser"), None);
    assert_eq!(parse_report_kind(""), None);
}

#[test]
fn cost_dispatch_defaults_missing_fields_to_zero() {
    assert_eq!(
        cost_dispatch("browser", Some(5), None, None, None),
        Some(AccountingCall::TrackBrowser { tx: 5, rx: 0 })
    );
    assert_eq!(
        cost_dispatch("ws", None, Some(9), Some(1), None),
        Some(AccountingCall::TrackWs { tx: 0, rx: 9 })
    );
    assert_eq!(
        cost_dispatch("ai", None, None, Some(120), Some(34)),
        Some(AccountingCall::TrackAi { input_tokens: 120, output_tokens: 34 })
    );
    assert_eq!(cost_dispatch("disk", Some(1), Some(2), None, None), None);
}

#[test]
fn greeting_and_heartbeat() {
    assert_eq!(greeting(), "Connected to Angel Gateway");
    assert!(is_heartbeat("ping"));
    assert!(!is_heartbeat("pong"));
    assert!(!is_heartbeat(""));
}

#[test]
fn decision_request_encodes_screenshot() {
    let shot: Vec<u8> = b"hi".to_vec();
    let r = decision_request("u1", "buy milk", "https://example.test", &shot);
    assert_eq!(r.user_id, "u1");
    assert_eq!(r.description, "buy milk");
    assert_eq!(r.url, "https://example.test");
    assert_eq!(r.screenshot, "aGk=");

    let longer = decision_request("u1", "d", "u", &b"hello".to_vec());
    assert_eq!(longer.screenshot, "aGVsbG8=");
    let empty = decision_request("u1", "d", "u", &Vec::new());
    assert_eq!(empty.screenshot, "");
}

#[test]
fn key_manager_set_and_get() {
    let mut km = KeyManager::new();
    assert_eq!(km.get_key("u1"), None);
    let req = SetKeyReq { user_id: "u1".to_string(), api_key: "SECRET-REDACTED".to_string() };
    assert!(km.set_key(&req.user_id, &req.api_key).is_ok());
    let q = GetKeyReq { user_id: "u1".to_string() };
    assert_eq!(km.get_key(&q.user_id), Some("SECRET-REDACTED".to_string()));
    assert!(km.set_key("u1", "other").is_ok());
    assert_eq!(km.get_key("u1"), Some("other".to_string()));

    let uk = UserKey {
        user_id: "u1".to_string(),
        api_key: "other".to_string(),
        updated_at: 1700000000,
    };
    assert_eq!(uk.user_id, "u1");
}

#[test]
fn ansi_support_reports_ok() {
    assert!(enable_ansi_support().is_ok());
}
