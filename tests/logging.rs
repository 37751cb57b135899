use remote_desktop_core::logging::{ConnectionEvent, ConnectionEventType, LogConfig, LogEntry, LogLevel, LogManager};

const NOW: u64 = 1_700_000_000;

#[test]
fn test_log_entry_creation() {
    let entry = LogEntry::new(LogLevel::Info, "Test", "Test message", NOW);
    assert_eq!(entry.level, LogLevel::Info);
    assert_eq!(entry.category, "Test");
    assert_eq!(entry.message, "Test message");
}

#[test]
fn test_log_manager_basic() {
    let mut manager = LogManager::default();
    manager.info("Test", "Info message", NOW);
    manager.warn("Test", "Warn message", NOW);
    manager.error("Test", "Error message", NOW);
    let logs = manager.get_logs(None, None);
    assert_eq!(logs.len(), 3);
}

#[test]
fn test_log_level_filtering() {
    let config = LogConfig { min_level: LogLevel::Warn, ..Default::default() };
    let mut manager = LogManager::new(config);
    manager.debug("Test", "Debug message", NOW);
    manager.info("Test", "Info message", NOW);
    manager.warn("Test", "Warn message", NOW);
    manager.error("Test", "Error message", NOW);
    let logs = manager.get_logs(None, None);
    assert_eq!(logs.len(), 2);
}

#[test]
fn test_connection_event_logging() {
    let mut manager = LogManager::default();
    let event = ConnectionEvent::new(ConnectionEventType::ConnectionEstablished, NOW)
        .with_session("session-123")
        .with_remote_device("device-456");
    manager.log_connection_event(event);
    let events = manager.get_connection_events(None);
    assert_eq!(events.len(), 1);
    assert_eq!(events[0].session_id, Some("session-123".to_string()));
}

#[test]
fn test_log_export() {
    let mut manager = LogManager::default();
    manager.info("Test", "Test message 1", NOW);
    manager.warn("Test", "Test message 2", NOW);
    let export = manager.export_logs(NOW);
    assert!(export.contains("Test message 1"));
    assert!(export.contains("Test message 2"));
}

#[test]
fn test_connection_established_event_logged() {
    let mut manager = LogManager::default();
    let event = ConnectionEvent::new(ConnectionEventType::ConnectionEstablished, NOW)
        .with_session("session-123")
        .with_remote_device("device-456");
    manager.log_connection_event(event);
    let events = manager.get_connection_events(None);
    assert_eq!(events.len(), 1);
    assert!(matches!(events[0].event_type, ConnectionEventType::ConnectionEstablished));
    assert_eq!(events[0].session_id, Some("session-123".to_string()));
    assert_eq!(events[0].remote_device_id, Some("device-456".to_string()));
    assert!(events[0].success);
}

#[test]
fn test_connection_failed_event_logged() {
    let mut manager = LogManager::default();
    let event = ConnectionEvent::new(ConnectionEventType::ConnectionFailed, NOW)
        .with_session("session-123")
        .with_error("Connection timeout");
    manager.log_connection_event(event);
    let events = manager.get_connection_events(None);
    assert_eq!(events.len(), 1);
    assert!(matches!(events[0].event_type, ConnectionEventType::ConnectionFailed));
    assert!(!events[0].success);
    assert_eq!(events[0].error_message, Some("Connection timeout".to_string()));
}

#[test]
fn test_connection_closed_event_logged() {
    let mut manager = LogManager::default();
    let event = ConnectionEvent::new(ConnectionEventType::ConnectionClosed, NOW)
        .with_session("session-123")
        .with_remote_device("device-456");
    manager.log_connection_event(event);
    let events = manager.get_connection_events(None);
    assert_eq!(events.len(), 1);
    assert!(matches!(events[0].event_type, ConnectionEventType::ConnectionClosed));
}

#[test]
fn test_multiple_connection_events() {
    let mut manager = LogManager::default();
    manager.log_connection_event(ConnectionEvent::new(ConnectionEventType::ConnectionAttempt, NOW).with_session("session-1"));
    manager.log_connection_event(
        ConnectionEvent::new(ConnectionEventType::ConnectionEstablished, NOW).with_session("session-1"),
    );
    manager.log_connection_event(ConnectionEvent::new(ConnectionEventType::ConnectionClosed, NOW).with_session("session-1"));
    let events = manager.get_connection_events(None);
    assert_eq!(events.len(), 3);
}

#[test]
fn test_connection_events_create_log_entries() {
    let mut manager = LogManager::default();
    let event = ConnectionEvent::new(ConnectionEventType::ConnectionEstablished, NOW).with_session("session-123");
    manager.log_connection_event(event);
    let logs = manager.get_logs(None, None);
    assert!(!logs.is_empty());
    assert_eq!(logs[0].category, "Connection");
    assert_eq!(logs[0].session_id, Some("session-123".to_string()));
}

#[test]
fn connection_event_log_is_bounded_and_newest_first() {
    let mut manager = LogManager::default();
    for i in 0..105u64 {
        manager.log_connection_event(ConnectionEvent::new(ConnectionEventType::QualityChanged, i));
    }
    let events = manager.get_connection_events(None);
    assert_eq!(events.len(), 100);
    assert_eq!(events[0].timestamp, 104);
    assert_eq!(manager.get_connection_events(Some(2)).len(), 2);
    let errors = manager.get_logs(Some(LogLevel::Error), None);
    assert!(errors.is_empty());
}

#[test]
fn level_settings() {
    assert_eq!(LogLevel::from_setting(0), LogLevel::Error);
    assert_eq!(LogLevel::from_setting(1), LogLevel::Warn);
    assert_eq!(LogLevel::from_setting(2), LogLevel::Info);
    assert_eq!(LogLevel::from_setting(4), LogLevel::Debug);
}
