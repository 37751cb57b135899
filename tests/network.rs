use remote_desktop_core::error::CoreError;
use remote_desktop_core::network::{
    ConnectionType, IceCandidateType, NetworkEvent, NetworkManager, NetworkProtocol, NetworkQuality, NetworkStats,
    StunServer, TurnServer,
};

fn stats(rtt: u32, loss_hundredths: u32) -> NetworkStats {
    let mut s = NetworkStats::new();
    s.rtt = rtt;
    s.packet_loss = loss_hundredths;
    s
}

#[test]
fn test_network_manager_creation() {
    let manager = NetworkManager::new();
    assert!(manager.get_stun_servers().len() > 0);
}

#[test]
fn test_protocol_preference() {
    let mut manager = NetworkManager::new();
    assert_eq!(manager.get_preferred_protocol(), NetworkProtocol::IPv6);
    manager.set_preferred_protocol(NetworkProtocol::IPv4);
    assert_eq!(manager.get_preferred_protocol(), NetworkProtocol::IPv4);
}

#[test]
fn test_network_quality_calculation() {
    assert_eq!(NetworkManager::calculate_quality(&stats(30, 50)), NetworkQuality::Excellent);
    assert_eq!(NetworkManager::calculate_quality(&stats(80, 200)), NetworkQuality::Good);
    assert_eq!(NetworkManager::calculate_quality(&stats(150, 400)), NetworkQuality::Fair);
    assert_eq!(NetworkManager::calculate_quality(&stats(300, 1000)), NetworkQuality::Poor);
}

#[test]
fn test_ice_candidate_gathering() {
    let mut manager = NetworkManager::new();
    manager.initialize(true, true);
    let candidates = manager.gather_ice_candidates();
    assert!(!candidates.is_empty());
    let host: Vec<_> = candidates.iter().filter(|c| c.candidate_type == IceCandidateType::Host).collect();
    assert!(!host.is_empty());
}

#[test]
fn test_quality_boundary_conditions() {
    assert_eq!(NetworkManager::calculate_quality(&stats(49, 99)), NetworkQuality::Excellent);
    assert_eq!(NetworkManager::calculate_quality(&stats(50, 100)), NetworkQuality::Good);
    assert_eq!(NetworkManager::calculate_quality(&stats(100, 300)), NetworkQuality::Fair);
    assert_eq!(NetworkManager::calculate_quality(&stats(200, 500)), NetworkQuality::Poor);
}

#[test]
fn test_empty_turn_servers() {
    let manager = NetworkManager::new();
    let result = manager.attempt_turn_connection();
    assert!(result.is_err());
    assert_eq!(result, Err(CoreError::ConnectError));
}

#[test]
fn test_stats_history_limit() {
    let mut manager = NetworkManager::new();
    for _ in 0..70 {
        manager.record_sample(NetworkStats::new());
    }
    let history = manager.get_stats_history();
    assert!(history.len() <= 70);
    assert_eq!(history.len(), 60);
}

#[test]
fn quality_is_deterministic() {
    let s = stats(120, 250);
    assert_eq!(NetworkManager::calculate_quality(&s), NetworkManager::calculate_quality(&s));
    assert_eq!(NetworkManager::calculate_quality(&stats(10, 500)), NetworkQuality::Poor);
}

// Scenario: a poor sample emits QualityChanged(Poor) and a warning.
#[test]
fn quality_degradation_events() {
    let mut manager = NetworkManager::new();
    manager.record_sample(stats(250, 800));
    let events = manager.take_events();
    assert_eq!(events.len(), 3);
    assert!(matches!(events[0], NetworkEvent::QualityChanged(NetworkQuality::Poor)));
    assert!(matches!(&events[1], NetworkEvent::QualityWarning(t) if t == "Network quality degraded: RTT=250ms, Loss=8.00%"));
    assert!(matches!(events[2], NetworkEvent::StatsUpdated(_)));
    assert!(manager.should_show_quality_warning());
    manager.record_sample(stats(250, 800));
    assert_eq!(manager.take_events().len(), 1);
}

#[test]
fn fallback_reaches_a_connection_with_ipv4() {
    let mut manager = NetworkManager::new();
    manager.initialize(true, false);
    assert_eq!(manager.establish_connection("peer"), Ok(ConnectionType::Direct));
    manager.initialize(false, false);
    assert_eq!(manager.establish_connection("peer"), Ok(ConnectionType::StunDirect));
}

#[test]
fn fallback_without_servers_fails() {
    let mut manager = NetworkManager::new();
    manager.initialize(false, false);
    // Removing the STUN servers is not offered, so use a fresh list with TURN only.
    manager.add_turn_server(TurnServer {
        url: "turn:relay".to_string(),
        username: "u".to_string(),
        credential: "c".to_string(),
        priority: 1,
    });
    assert_eq!(manager.attempt_turn_connection(), Ok(ConnectionType::TurnRelay));
}

#[test]
fn servers_sorted_by_priority() {
    let mut manager = NetworkManager::new();
    manager.add_stun_server(StunServer { url: "stun:a".to_string(), username: None, credential: None, priority: 95 });
    manager.add_stun_server(StunServer { url: "stun:b".to_string(), username: None, credential: None, priority: 5 });
    let p: Vec<u32> = manager.get_stun_servers().iter().map(|s| s.priority).collect();
    assert_eq!(p, vec![100, 95, 90, 5]);
}

#[test]
fn average_stats() {
    let mut manager = NetworkManager::new();
    assert_eq!(manager.get_average_stats().rtt, 0);
    manager.record_sample(stats(10, 100));
    manager.record_sample(stats(21, 301));
    let avg = manager.get_average_stats();
    assert_eq!(avg.rtt, 15);
    assert_eq!(avg.packet_loss, 200);
}
