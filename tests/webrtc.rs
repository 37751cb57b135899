use remote_desktop_core::webrtc_engine::{RTCConfiguration, RTCPeerConnectionState, WebRTCEngine};

fn config() -> RTCConfiguration {
    RTCConfiguration {
        ice_servers: vec![],
        ice_transport_policy: "all".to_string(),
        bundle_policy: None,
        rtcp_mux_policy: None,
    }
}

#[test]
fn test_single_connection_creation() {
    let mut engine = WebRTCEngine::new();
    let connection_id = engine.create_peer_connection(config()).expect("Failed to create connection");
    assert!(!connection_id.is_empty(), "Connection ID should not be empty");
}

#[test]
fn test_newly_created_connection_has_new_state() {
    let mut engine = WebRTCEngine::new();
    let connection_id = engine.create_peer_connection(config()).expect("Failed to create connection");
    let state = engine.get_connection_state(&connection_id);
    assert_eq!(state, Some(RTCPeerConnectionState::New), "Newly created connection should have 'New' state");
}

#[test]
fn test_closing_connection_removes_state() {
    let mut engine = WebRTCEngine::new();
    let connection_id = engine.create_peer_connection(config()).expect("Failed to create connection");
    engine.close_connection(&connection_id).expect("Failed to close connection");
    let state = engine.get_connection_state(&connection_id);
    assert_eq!(state, None, "State should be None after closing connection");
}

#[test]
fn test_querying_nonexistent_connection_returns_none() {
    let engine = WebRTCEngine::new();
    let state = engine.get_connection_state("non-existent-id");
    assert_eq!(state, None, "Querying non-existent connection should return None");
}

#[test]
fn test_closing_nonexistent_connection_succeeds() {
    let mut engine = WebRTCEngine::new();
    let result = engine.close_connection("non-existent-id");
    assert!(result.is_ok(), "Closing non-existent connection should succeed (idempotence)");
}

#[test]
fn states_only_move_forward() {
    let mut engine = WebRTCEngine::new();
    let id = engine.create_peer_connection(config()).unwrap();
    engine.establish_connection(&id, "peer".to_string()).unwrap();
    assert_eq!(engine.get_connection_state(&id), Some(RTCPeerConnectionState::Connecting));
    assert!(engine.on_state_change(&id, RTCPeerConnectionState::Connected));
    assert!(!engine.on_state_change(&id, RTCPeerConnectionState::Connecting));
    assert_eq!(engine.get_connection_state(&id), Some(RTCPeerConnectionState::Connected));
    assert_eq!(engine.take_events().len(), 1);
    assert!(engine.close_connection(&id).is_ok());
    assert!(engine.close_connection(&id).is_ok());
}
