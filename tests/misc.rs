use remote_desktop_core::diagnostics::{DiagnosticStatus, DiagnosticsManager, NatType, NetworkDiagnostics, ServerStatus};
use remote_desktop_core::file_transfer::{FileTransfer, TransferStatus};
use remote_desktop_core::input_control::{InjectedInput, InputController, InputEvent, KeyModifiers, KeyboardLayout, MouseButton};

#[test]
fn test_library_initialization() {}

#[test]
fn test_nat_type_display() {
    assert_eq!(NatType::FullCone.to_string(), "完全锥形NAT");
    assert_eq!(NatType::Symmetric.to_string(), "对称NAT");
}

#[test]
fn test_server_status() {
    let status = ServerStatus::new("Test", "http://test.com", 0).success(50, 0);
    assert!(status.reachable);
    assert_eq!(status.latency_ms, Some(50));
}

#[test]
fn test_network_diagnostics_status() {
    let mut diagnostics = NetworkDiagnostics::new(0);
    diagnostics.internet_connected = true;
    diagnostics.signaling_server = ServerStatus::new("Signaling", "ws://test.com", 0).success(30, 0);
    diagnostics.stun_servers.push(ServerStatus::new("STUN", "stun:test.com", 0).success(20, 0));
    diagnostics.nat_type = NatType::FullCone;
    diagnostics.calculate_overall_status();
    assert_eq!(diagnostics.overall_status, DiagnosticStatus::Good);
}

#[test]
fn diagnostics_verdicts() {
    let mut d = NetworkDiagnostics::new(0);
    d.calculate_overall_status();
    assert_eq!(d.overall_status, DiagnosticStatus::Critical);
    let mut d = NetworkDiagnostics::new(0);
    d.internet_connected = true;
    d.signaling_server = ServerStatus::new("Signaling", "ws://s", 0).success(250, 0);
    d.stun_servers.push(ServerStatus::new("STUN", "stun:s", 0).success(20, 0));
    d.nat_type = NatType::Symmetric;
    d.calculate_overall_status();
    assert_eq!(d.overall_status, DiagnosticStatus::Warning);
    assert_eq!(d.recommendations.len(), 2);
    assert!(d.recommendations[1].contains("250ms"));
    let mut manager = DiagnosticsManager::new();
    manager.configure("ws://s", vec!["stun:a".to_string()], vec![]);
    let r = manager.run_network_diagnostics(0);
    assert_eq!(r.overall_status, DiagnosticStatus::Good);
    assert_eq!(DiagnosticStatus::Warning.to_string(), "警告");
}

#[test]
fn file_transfers() {
    let mut t = FileTransfer::new();
    assert_eq!(t.get_max_file_size(), 4 * 1024 * 1024 * 1024);
    assert!(t.send_file("big.iso".to_string(), 4 * 1024 * 1024 * 1024 + 1, "peer").is_err());
    let id = t.send_file("a.txt".to_string(), 10, "peer").unwrap();
    assert_eq!(t.get_transfer_progress(&id).unwrap().status, TransferStatus::Pending);
    t.pause_transfer(&id).unwrap();
    assert_eq!(t.get_transfer_progress(&id).unwrap().status, TransferStatus::Paused);
    t.resume_transfer(&id).unwrap();
    assert_eq!(t.get_transfer_progress(&id).unwrap().status, TransferStatus::InProgress);
    assert_eq!(t.get_active_transfers().len(), 1);
    t.cancel_transfer(&id).unwrap();
    assert!(t.cancel_transfer(&id).is_err());
    assert!(t.get_transfer_progress(&id).is_none());
}

#[test]
fn input_dispatch() {
    let mut c = InputController::new();
    assert_eq!(c.get_max_input_delay(), 100);
    assert_eq!(c.detect_keyboard_layout(), KeyboardLayout::US);
    let m = KeyModifiers { ctrl: true, alt: false, shift: false, meta: false };
    c.process_remote_input(InputEvent::MouseClick { button: MouseButton::Left, x: 3, y: 4 }).unwrap();
    c.process_remote_input(InputEvent::KeyDown { key: "a".to_string(), modifiers: m }).unwrap();
    let sent = c.take_injected();
    assert_eq!(sent.len(), 2);
    assert!(matches!(sent[0], InjectedInput::MouseClick(MouseButton::Left, 3, 4)));
    assert!(matches!(&sent[1], InjectedInput::KeyDown(k, _) if k == "a"));
    c.set_keyboard_layout(KeyboardLayout::DE);
    c.set_input_delay(50);
    assert_eq!(c.detect_keyboard_layout(), KeyboardLayout::DE);
    assert_eq!(c.get_max_input_delay(), 50);
}
