use remote_desktop_core::error::CoreError;
use remote_desktop_core::security::SecurityManager;
use remote_desktop_core::session_manager::{
    ConnectionQuality, EndReason, Permission, SessionManager, SessionOptions, SessionStatus,
};

const NOW: u64 = 1_700_000_000;

#[test]
fn session_lifecycle() {
    let mut m = SessionManager::new("local".to_string());
    let id = m.create_session("remote".to_string(), SessionOptions::default(), NOW);
    assert_eq!(m.get_session(&id).unwrap().status, SessionStatus::Pending);
    assert_eq!(m.get_active_sessions().len(), 1);
    assert_eq!(m.pause_session(&id), Err(CoreError::InvalidParam));
    assert_eq!(m.join_session(&id), Ok(()));
    assert_eq!(m.pause_session(&id), Ok(()));
    assert_eq!(m.get_session(&id).unwrap().status, SessionStatus::Paused);
    assert_eq!(m.resume_session(&id), Ok(()));
    assert_eq!(m.get_session(&id).unwrap().status, SessionStatus::Active);
    assert_eq!(m.end_session(&id, EndReason::UserRequested, NOW + 90), Ok(()));
    assert!(m.get_session(&id).is_none());
    let h = m.history_records();
    assert_eq!(h.len(), 1);
    assert_eq!(h[0].duration_secs, 90);
    assert_eq!(h[0].final_status, SessionStatus::Ended);
    assert_eq!(m.end_session(&id, EndReason::UserRequested, NOW + 91), Err(CoreError::NotFound));
    let summary = m.get_summary_stats();
    assert_eq!(summary.active_sessions, 0);
    assert_eq!(summary.total_sessions_30_days, 1);
    assert_eq!(summary.total_duration_secs, 90);
    assert_eq!(summary.average_duration_secs, 90);
}

#[test]
fn failed_session_after_threat() {
    let mut m = SessionManager::new("local".to_string());
    let id = m.create_session("remote".to_string(), SessionOptions::default(), NOW);
    m.join_session(&id).unwrap();
    assert_eq!(m.fail_session(&id, EndReason::SystemError("replay-detected".to_string()), NOW + 1), Ok(()));
    assert_eq!(m.history_records()[0].final_status, SessionStatus::Failed);
}

#[test]
fn stats_update() {
    let mut m = SessionManager::new("local".to_string());
    let id = m.create_session("remote".to_string(), SessionOptions::default(), NOW);
    let s = m.update_session_stats(&id, 40, 50, 5, (100, 200), NOW + 10).unwrap();
    assert_eq!(s.average_latency_ms, 40);
    assert_eq!(s.duration_secs, 10);
    assert_eq!(s.connection_quality, ConnectionQuality::Excellent);
    let s = m.update_session_stats(&id, 140, 50, 5, (1, 1), NOW + 20).unwrap();
    assert_eq!(s.average_latency_ms, 50);
    assert_eq!(s.max_latency_ms, 140);
    assert_eq!(s.min_latency_ms, 40);
    assert_eq!(s.bytes_sent, 101);
    assert_eq!(s.connection_quality, ConnectionQuality::Fair);
    assert_eq!(m.update_session_stats("x", 1, 1, 1, (0, 0), NOW).err(), Some(CoreError::NotFound));
}

#[test]
fn permission_requests_expire() {
    let mut m = SessionManager::new("local".to_string());
    let r1 = m.request_permission("remote".to_string(), vec![Permission::ScreenView], NOW);
    let r2 = m.request_permission("remote".to_string(), vec![Permission::InputControl], NOW);
    assert_eq!(m.get_pending_requests(NOW + 300).len(), 2);
    assert_eq!(m.get_pending_requests(NOW + 301).len(), 0);
    assert_eq!(m.grant_permission(&r1, true, NOW + 300), Ok(()));
    assert_eq!(m.grant_permission(&r1, true, NOW + 300), Err(CoreError::NotFound));
    assert_eq!(m.grant_permission(&r2, true, NOW + 301), Err(CoreError::Expired));
}

#[test]
fn old_history_is_dropped() {
    let mut m = SessionManager::new("local".to_string());
    m.set_history_retention_days(1);
    let a = m.create_session("r".to_string(), SessionOptions::default(), NOW);
    m.end_session(&a, EndReason::Timeout, NOW + 10).unwrap();
    let b = m.create_session("r".to_string(), SessionOptions::default(), NOW + 200_000);
    m.end_session(&b, EndReason::Timeout, NOW + 200_010).unwrap();
    assert_eq!(m.history_records().len(), 1);
    assert_eq!(m.get_session_history(None, NOW + 200_010).len(), 1);
    assert_eq!(m.get_session_history(Some(0), NOW + 200_010).len(), 0);
}

#[test]
fn end_reason_text() {
    assert_eq!(EndReason::Timeout.describe(), "会话超时");
    assert_eq!(EndReason::SystemError("x".to_string()).describe(), "系统错误: x");
}

// Scenario: a replayed nonce fails the session and drops its key.
#[test]
fn replay_fails_session() {
    let mut sessions = SessionManager::new("local".to_string());
    let mut security = SecurityManager::new();
    let id = sessions.create_session("remote".to_string(), SessionOptions::default(), NOW);
    sessions.join_session(&id).unwrap();
    security.generate_session_key(&id, NOW);
    let nonce = vec![1u8; 12];
    let hash = security.compute_hash(b"x");
    assert!(security.security_check(&id, &nonce, b"x", &hash, NOW).is_ok());
    let err = security.security_check(&id, &nonce, b"x", &hash, NOW + 1).unwrap_err();
    assert_eq!(err, CoreError::ReplayDetected);
    sessions.fail_session(&id, EndReason::SystemError(err.message().to_string()), NOW + 1).unwrap();
    assert!(sessions.get_session(&id).is_none());
    assert_eq!(sessions.history_records()[0].final_status, SessionStatus::Failed);
    assert!(security.get_session_key(&id).is_none());
}
