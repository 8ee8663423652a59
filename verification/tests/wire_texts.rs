//! The exact wire texts of the relay: frame envelopes, acknowledgments,
//! and the activation command.

use angel_core::relay::{start_capture_command, VisionEnvelope};
use angel_core::wire::{capture_command_text, frame_ack_text, vision_envelope_text};

#[test]
fn vision_envelope_exact_text() {
    let e = VisionEnvelope {
        kind: "vision".to_string(),
        frame: "aW1hZ2U=".to_string(),
        timestamp: "1234.5".to_string(),
    };
    assert_eq!(
        vision_envelope_text(&e),
        "{\"type\":\"vision\",\"frame\":\"aW1hZ2U=\",\"timestamp\":1234.5}"
    );
}

#[test]
fn vision_envelope_escapes_frame_text() {
    let e = VisionEnvelope {
        kind: "vision".to_string(),
        frame: "a\"b\\c\nd\te\u{1}f".to_string(),
        timestamp: "0".to_string(),
    };
    let text = vision_envelope_text(&e);
    assert_eq!(
        text,
        "{\"type\":\"vision\",\"frame\":\"a\\\"b\\\\c\\nd\\te\\u0001f\",\"timestamp\":0}"
    );
    // What the builder wrote parses back to the same fields.
    let v: serde_json::Value = serde_json::from_str(&text).expect("envelope must be valid JSON");
    assert_eq!(v["type"].as_str(), Some("vision"));
    assert_eq!(v["frame"].as_str(), Some("a\"b\\c\nd\te\u{1}f"));
}

#[test]
fn frame_ack_exact_text() {
    assert_eq!(
        frame_ack_text(42),
        "{\"id\":42,\"method\":\"Page.screencastFrameAck\",\"params\":{\"sessionId\":42}}"
    );
    assert_eq!(
        frame_ack_text(-7),
        "{\"id\":-7,\"method\":\"Page.screencastFrameAck\",\"params\":{\"sessionId\":-7}}"
    );
    let v: serde_json::Value = serde_json::from_str(&frame_ack_text(9)).expect("valid JSON");
    assert_eq!(v["params"]["sessionId"].as_i64(), Some(9));
}

#[test]
fn capture_command_exact_text() {
    let text = capture_command_text(&start_capture_command());
    assert_eq!(
        text,
        "{\"id\":1,\"method\":\"Page.startScreencast\",\"params\":{\"format\":\"jpeg\",\
         \"quality\":60,\"maxWidth\":1280,\"maxHeight\":720,\"everyNthFrame\":1}}"
    );
    let v: serde_json::Value = serde_json::from_str(&text).expect("valid JSON");
    assert_eq!(v["params"]["quality"].as_u64(), Some(60));
}
