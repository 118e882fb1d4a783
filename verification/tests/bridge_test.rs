use teleflow_core::infrastructure::console_bridge::{BridgeError, ConsoleBridge, SignalChannel};
use teleflow_core::perception::bridge::decode_log_signal;
use teleflow_core::perception::signal::SignalChannel as PerceptionChannel;
use teleflow_core::perception::signal::SignalPayload;

#[test]
fn console_frame_decodes_base64_body() {
    // "aGVsbG8=" is the standard base64 of the bytes of "hello".
    let decoded = ConsoleBridge::decode_signal("__TELEFLOW__: aGVsbG8=").unwrap();
    assert_eq!(decoded, vec![104u8, 101, 108, 108, 111]);

    // Blanks after the prefix are optional.
    let decoded = ConsoleBridge::decode_signal("__TELEFLOW__:aGVsbG8=").unwrap();
    assert_eq!(decoded, vec![104u8, 101, 108, 108, 111]);
}

#[test]
fn console_frame_rejects_bad_lines() {
    assert!(matches!(
        ConsoleBridge::decode_signal("plain console chatter"),
        Err(BridgeError::InvalidPrefix)
    ));
    assert!(matches!(
        ConsoleBridge::decode_signal("__TELEFLOW__"),
        Err(BridgeError::InvalidPrefix)
    ));
    // Prefix but an empty body.
    assert!(matches!(
        ConsoleBridge::decode_signal("__TELEFLOW__:   "),
        Err(BridgeError::InvalidPrefix)
    ));
    match ConsoleBridge::decode_signal("__TELEFLOW__: !!!") {
        Err(BridgeError::InvalidBase64(text)) => assert_eq!(text, "!!!"),
        other => panic!("expected InvalidBase64, got {:?}", other),
    }
}

#[test]
fn signal_log_line_yields_bytes() {
    // "aGk=" is the standard base64 of the bytes of "hi".
    assert_eq!(decode_log_signal("TELEFLOW_SIG:aGk="), Some(vec![104u8, 105]));
    assert_eq!(decode_log_signal("TELEFLOW_SIG:"), Some(Vec::new()));
    assert_eq!(decode_log_signal("TELEFLOW_SIG:%%"), None);
    assert_eq!(decode_log_signal("unrelated log line"), None);
}

#[test]
fn channel_names_parse_case_insensitively() {
    assert_eq!(SignalChannel::from("FIBER"), SignalChannel::Fiber);
    assert_eq!(SignalChannel::from("fiber"), SignalChannel::Fiber);
    assert_eq!(SignalChannel::from("Dom"), SignalChannel::Dom);
    assert_eq!(SignalChannel::from("network"), SignalChannel::Network);
    assert_eq!(SignalChannel::from("telepathy"), SignalChannel::Unknown);
    assert_eq!(SignalChannel::from(""), SignalChannel::Unknown);

    assert_eq!(PerceptionChannel::from("DOM"), PerceptionChannel::Dom);
    assert_eq!(PerceptionChannel::from("weird"), PerceptionChannel::Unknown);
    for channel in [
        PerceptionChannel::Fiber,
        PerceptionChannel::Dom,
        PerceptionChannel::Network,
        PerceptionChannel::Unknown,
    ] {
        assert_eq!(PerceptionChannel::from(channel.as_str()), channel);
    }
    assert_eq!(PerceptionChannel::Fiber.as_str(), "FIBER");
    assert_eq!(PerceptionChannel::Dom.as_str(), "DOM");
    assert_eq!(PerceptionChannel::Network.as_str(), "NETWORK");
    assert_eq!(PerceptionChannel::Unknown.as_str(), "UNKNOWN");
}

#[test]
fn payload_reports_its_channel() {
    let payload = SignalPayload::Perception {
        channel: PerceptionChannel::Dom,
        selector: "#root".to_string(),
        data: "{}".to_string(),
        timestamp: 1700000000,
    };
    assert_eq!(payload.channel(), PerceptionChannel::Dom);
}
