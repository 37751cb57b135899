use remote_desktop_core::error::CoreError;
use remote_desktop_core::signaling::{
    generate_device_id, DeviceCapabilities, DeviceInfo, SignalingClient, SignalingEvent, SignalingMessage,
};

fn info(id: &str) -> DeviceInfo {
    DeviceInfo {
        device_id: id.to_string(),
        device_name: "Test Device".to_string(),
        platform: "linux".to_string(),
        version: "1.0.0".to_string(),
        capabilities: DeviceCapabilities {
            screen_capture: true,
            audio_capture: true,
            file_transfer: true,
            input_control: true,
        },
    }
}

#[test]
fn test_generate_device_id_uniqueness() {
    let id1 = generate_device_id();
    let id2 = generate_device_id();
    assert_ne!(id1, id2);
}

#[test]
fn test_device_id_format() {
    let id = generate_device_id();
    assert_eq!(id.len(), 36);
    assert_eq!(id.matches('-').count(), 4);
}

#[test]
fn test_signaling_metrics_default() {
    let client = SignalingClient::new("ws://localhost:8080".to_string());
    let m = client.get_metrics();
    assert_eq!(m.messages_sent, 0);
    assert_eq!(m.messages_received, 0);
    assert_eq!(m.avg_rtt_ms, 0);
    assert_eq!(m.successful_exchanges, 0);
    assert_eq!(m.failed_exchanges, 0);
}

#[test]
fn not_connected_and_not_registered() {
    let mut c = SignalingClient::new("ws://x".to_string());
    assert_eq!(c.register_device(info("a")).err(), Some(CoreError::NotConnected));
    assert_eq!(c.send_offer("b", "sdp", 0), Err(CoreError::NotRegistered));
    c.on_connected();
    assert_eq!(c.send_heartbeat(), Err(CoreError::NotRegistered));
    assert_eq!(c.register_device(info("a")), Ok("a".to_string()));
    assert_eq!(c.get_device_id(), Some("a".to_string()));
    assert!(c.get_cached_device("a").is_some());
    c.disconnect();
    assert_eq!(c.send_heartbeat(), Err(CoreError::NotConnected));
}

// Offer then matching answer: the exchange is timed.
#[test]
fn offer_answer_exchange_is_timed() {
    let mut c = SignalingClient::new("ws://x".to_string());
    c.on_connected();
    c.register_device(info("a")).unwrap();
    c.send_offer("b", "offer-sdp", 1_000).unwrap();
    let out = c.take_outgoing();
    assert_eq!(out.len(), 2);
    assert!(matches!(&out[1], SignalingMessage::Offer { to, sdp, .. } if to == "b" && sdp == "offer-sdp"));
    c.handle_message(
        SignalingMessage::Answer { from: "b".to_string(), to: "a".to_string(), sdp: "answer-sdp".to_string() },
        1_750,
    );
    let m = c.get_metrics();
    assert_eq!(m.last_exchange_duration_ms, 750);
    assert_eq!(m.successful_exchanges, 1);
    assert_eq!(m.avg_rtt_ms, 750);
    assert!(m.last_exchange_duration_ms <= 5000);
    let events = c.take_events();
    assert!(matches!(events.last(), Some(SignalingEvent::AnswerReceived { from, .. }) if from == "b"));
    c.handle_message(
        SignalingMessage::Answer { from: "b".to_string(), to: "a".to_string(), sdp: "again".to_string() },
        9_000,
    );
    assert_eq!(c.get_metrics().successful_exchanges, 1);
}

#[test]
fn inbound_messages() {
    let mut c = SignalingClient::new("ws://x".to_string());
    c.handle_message(SignalingMessage::RegisterResponse { device_id: "me".to_string(), success: true }, 0);
    assert_eq!(c.get_device_id(), Some("me".to_string()));
    c.handle_message(SignalingMessage::ConnectionRequest { from: "p".to_string(), device_info: info("p") }, 0);
    assert_eq!(c.get_cached_device("p").unwrap().device_name, "Test Device");
    c.handle_message(SignalingMessage::Error { code: 404, message: "Device not found".to_string() }, 0);
    c.handle_message(SignalingMessage::HeartbeatAck, 0);
    let events = c.take_events();
    assert_eq!(events.len(), 2);
    assert!(matches!(&events[1], SignalingEvent::Error { code: 404, message } if message == "Device not found"));
}
