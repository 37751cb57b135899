use remote_desktop_core::error::CoreError;
use remote_desktop_core::security::{
    encrypt_with_aes_gcm, decrypt_with_aes_gcm, CertificateValidationError, DeviceCertificate, DtlsSrtpConfig,
    EncryptionAlgorithm, KeyRotationConfig, SecurityConfig, SecurityManager, SecurityThreat,
    ThreatDetectionConfig, TlsConfig, ReplayDetectionState,
};

const NOW: u64 = 1_700_000_000;

#[test]
fn test_security_manager_creation() {
    let manager = SecurityManager::new();
    assert!(manager.is_dtls_srtp_enabled());
    assert!(manager.is_tls_signaling_enabled());
    assert!(manager.is_file_encryption_enabled());
}

#[test]
fn test_security_config_default() {
    let config = SecurityConfig::default();
    assert!(config.enable_dtls_srtp);
    assert!(config.enable_tls_signaling);
    assert!(config.enable_file_encryption);
    assert!(config.certificate_validation);
    assert_eq!(config.key_rotation_interval, 3600);
    assert!(config.threat_detection_enabled);
}

#[test]
fn test_session_key_generation() {
    let mut manager = SecurityManager::new();
    let session_id = "test-session-1";
    let key = manager.generate_session_key(session_id, NOW);
    assert_eq!(key.key.len(), 32);
    assert_eq!(key.rotation_count, 0);
    assert_eq!(key.algorithm, EncryptionAlgorithm::Aes256Gcm);
    let stored_key = manager.get_session_key(session_id);
    assert!(stored_key.is_some());
}

#[test]
fn test_session_key_rotation() {
    let mut manager = SecurityManager::new();
    let session_id = "test-session-2";
    let original_key = manager.generate_session_key(session_id, NOW);
    let rotated_key = manager.rotate_session_key(session_id, NOW + 1).unwrap();
    assert_eq!(rotated_key.rotation_count, 1);
    assert_ne!(original_key.key, rotated_key.key);
}

#[test]
fn test_key_rotation_preserves_old_keys() {
    let mut manager = SecurityManager::new();
    let session_id = "test-session-grace";
    let original_key = manager.generate_session_key(session_id, NOW);
    let rotated_key = manager.rotate_session_key(session_id, NOW + 1).unwrap();
    assert_ne!(original_key.key, rotated_key.key);
    assert_eq!(rotated_key.rotation_count, 1);
    let current_key = manager.get_session_key(session_id).unwrap();
    assert_eq!(current_key.key, rotated_key.key);
}

#[test]
fn test_auto_rotate_expired_keys() {
    let mut manager = SecurityManager::new();
    manager.configure_key_rotation(KeyRotationConfig {
        rotation_interval_secs: 0,
        max_messages_per_key: 1_000_000,
        auto_rotate: true,
        grace_period_secs: 60,
    });
    let session_id = "test-session-auto";
    manager.generate_session_key(session_id, NOW);
    assert!(manager.needs_key_rotation(session_id, NOW));
    let rotated = manager.auto_rotate_expired_keys(NOW);
    assert!(rotated.contains(&session_id.to_string()));
}

#[test]
fn test_media_stream_encryption_decryption() {
    let mut manager = SecurityManager::new();
    let session_id = "test-session-3";
    manager.generate_session_key(session_id, NOW);
    let original_data = b"This is test media stream data for encryption";
    let encrypted = manager.encrypt_media_stream(session_id, original_data).unwrap();
    assert_ne!(encrypted.ciphertext, original_data.to_vec());
    assert!(!encrypted.nonce.is_empty());
    assert!(!encrypted.tag.is_empty());
    let decrypted = manager.decrypt_media_stream(session_id, &encrypted, NOW).unwrap();
    assert_eq!(decrypted, original_data.to_vec());
}

#[test]
fn test_file_encryption_decryption() {
    let mut manager = SecurityManager::new();
    let session_id = "test-session-4";
    manager.generate_session_key(session_id, NOW);
    let original_data = b"This is test file data for encryption";
    let encrypted = manager.encrypt_file_data(session_id, original_data).unwrap();
    assert_ne!(encrypted.ciphertext, original_data.to_vec());
    let decrypted = manager.decrypt_file_data(session_id, &encrypted, NOW).unwrap();
    assert_eq!(decrypted, original_data.to_vec());
}

#[test]
fn test_signaling_encryption_decryption() {
    let mut manager = SecurityManager::new();
    let session_id = "test-session-5";
    manager.generate_session_key(session_id, NOW);
    let original_data = b"This is test signaling data";
    let encrypted = manager.encrypt_signaling_data(session_id, original_data).unwrap();
    assert_ne!(encrypted.ciphertext, original_data.to_vec());
    let decrypted = manager.decrypt_signaling_data(session_id, &encrypted, NOW).unwrap();
    assert_eq!(decrypted, original_data.to_vec());
}

#[test]
fn test_device_certificate_generation() {
    let mut manager = SecurityManager::new();
    let device_id = "test-device-1";
    let cert = manager.generate_device_certificate(device_id.to_string(), NOW as i64).unwrap();
    assert_eq!(cert.device_id, device_id);
    assert!(!cert.certificate.is_empty());
    assert!(!cert.public_key.is_empty());
    assert!(!cert.fingerprint.is_empty());
    let stored_cert = manager.get_device_certificate();
    assert!(stored_cert.is_some());
}

#[test]
fn test_device_certificate_validation() {
    let mut manager = SecurityManager::new();
    let device_id = "test-device-2";
    let cert = manager.generate_device_certificate(device_id.to_string(), NOW as i64).unwrap();
    let result = manager.validate_device_certificate(&cert, NOW as i64).unwrap();
    assert!(result.is_valid);
    assert!(result.validation_errors.is_empty());
}

#[test]
fn test_expired_certificate_validation() {
    let mut manager = SecurityManager::new();
    let expired_cert = DeviceCertificate {
        device_id: "expired-device".to_string(),
        certificate: vec![0u8; 32],
        private_key: vec![0u8; 32],
        public_key: vec![0u8; 32],
        valid_from: "2020-01-01T00:00:00Z".to_string(),
        valid_until: "2020-12-31T23:59:59Z".to_string(),
        fingerprint: "invalid".to_string(),
        signing_key: None,
        verifying_key: vec![0u8; 32],
        signature: vec![0u8; 64],
        issuer_fingerprint: None,
        revoked: false,
    };
    let result = manager.validate_device_certificate(&expired_cert, NOW as i64).unwrap();
    assert!(!result.is_valid);
    assert!(result.validation_errors.contains(&CertificateValidationError::Expired));
}

#[test]
fn test_revoked_certificate_validation() {
    let mut manager = SecurityManager::new();
    let device_id = "test-device-revoked";
    let cert = manager.generate_device_certificate(device_id.to_string(), NOW as i64).unwrap();
    manager.revoke_certificate(&cert.fingerprint, NOW);
    let result = manager.validate_device_certificate(&cert, NOW as i64).unwrap();
    assert!(!result.is_valid);
    assert!(result.validation_errors.contains(&CertificateValidationError::Revoked));
}

#[test]
fn test_certificate_trust_management() {
    let mut manager = SecurityManager::new();
    let device_id = "test-device-trust";
    let cert = manager.generate_device_certificate(device_id.to_string(), NOW as i64).unwrap();
    assert!(manager.is_certificate_trusted(&cert.fingerprint));
    manager.revoke_certificate(&cert.fingerprint, NOW);
    assert!(!manager.is_certificate_trusted(&cert.fingerprint));
}

#[test]
fn test_security_threat_detection() {
    let mut manager = SecurityManager::new();
    let result = manager.detect_security_threat(SecurityThreat::InvalidCertificate, NOW);
    assert!(result.is_err());
    let result = manager.detect_security_threat(SecurityThreat::ManInTheMiddle, NOW);
    assert!(result.is_err());
    let result = manager.detect_security_threat(SecurityThreat::EncryptionFailure, NOW);
    assert!(result.is_err());
}

#[test]
fn test_replay_attack_detection() {
    let mut manager = SecurityManager::new();
    let session_id = "test-session-replay";
    manager.generate_session_key(session_id, NOW);
    let nonce = vec![1u8, 2, 3, 4, 5, 6, 7, 8, 9, 10, 11, 12];
    let is_replay = manager.detect_replay_attack(session_id, &nonce, NOW);
    assert!(!is_replay);
    let is_replay = manager.detect_replay_attack(session_id, &nonce, NOW);
    assert!(is_replay);
}

#[test]
fn test_tampering_detection() {
    let mut manager = SecurityManager::new();
    let data = b"Original data";
    let hash = manager.compute_hash(data);
    let is_tampered = manager.detect_tampering(data, &hash, NOW);
    assert!(!is_tampered);
    let tampered_data = b"Modified data";
    let is_tampered = manager.detect_tampering(tampered_data, &hash, NOW);
    assert!(is_tampered);
}

#[test]
fn test_brute_force_detection() {
    let mut manager = SecurityManager::new();
    manager.configure_threat_detection(ThreatDetectionConfig {
        detect_replay_attacks: true,
        detect_tampering: true,
        detect_brute_force: true,
        max_failed_attempts: 3,
        lockout_duration_secs: 60,
        attempt_window_secs: 60,
        detect_anomalies: true,
    });
    let identifier = "test-user";
    assert!(!manager.track_failed_attempt(identifier, NOW));
    assert!(!manager.track_failed_attempt(identifier, NOW));
    assert!(manager.track_failed_attempt(identifier, NOW));
    assert!(manager.is_locked_out(identifier, NOW));
    manager.clear_failed_attempts(identifier);
    assert!(!manager.is_locked_out(identifier, NOW));
}

#[test]
fn test_comprehensive_security_check() {
    let mut manager = SecurityManager::new();
    let session_id = "test-session-check";
    manager.generate_session_key(session_id, NOW);
    let data = b"Test data for security check";
    let hash = manager.compute_hash(data);
    let nonce = vec![1u8; 12];
    let result = manager.security_check(session_id, &nonce, data, &hash, NOW);
    assert!(result.is_ok());
    let result = manager.security_check(session_id, &nonce, data, &hash, NOW);
    assert!(result.is_err());
}

#[test]
fn test_data_integrity_verification() {
    let manager = SecurityManager::new();
    let data = b"Test data for integrity check";
    let hash = manager.compute_hash(data);
    assert!(manager.verify_integrity(data, &hash));
    let modified_data = b"Modified data for integrity check";
    assert!(!manager.verify_integrity(modified_data, &hash));
}

#[test]
fn test_encryption_disabled() {
    let config = SecurityConfig {
        enable_dtls_srtp: false,
        enable_tls_signaling: false,
        enable_file_encryption: false,
        certificate_validation: true,
        key_rotation_interval: 3600,
        threat_detection_enabled: true,
    };
    let mut manager = SecurityManager::with_config(config);
    let session_id = "test-session-disabled";
    manager.generate_session_key(session_id, NOW);
    let original_data = b"Test data";
    let encrypted = manager.encrypt_media_stream(session_id, original_data).unwrap();
    assert_eq!(encrypted.ciphertext, original_data.to_vec());
}

#[test]
fn test_key_exchange() {
    let manager = SecurityManager::new();
    let local_public = manager.get_local_public_key();
    assert_eq!(local_public.len(), 32);
    let remote_public = manager.get_local_public_key();
    let shared_secret = manager.perform_key_exchange(&remote_public).unwrap();
    assert_eq!(shared_secret.len(), 32);
}

#[test]
fn test_session_key_removal() {
    let mut manager = SecurityManager::new();
    let session_id = "test-session-remove";
    manager.generate_session_key(session_id, NOW);
    assert!(manager.get_session_key(session_id).is_some());
    manager.remove_session_key(session_id, NOW);
    assert!(manager.get_session_key(session_id).is_none());
}

#[test]
fn test_dtls_srtp_config() {
    let mut manager = SecurityManager::new();
    let config = DtlsSrtpConfig {
        srtp_profile: "SRTP_AES256_CM_HMAC_SHA1_80".to_string(),
        fingerprint_algorithm: "sha-384".to_string(),
        local_fingerprint: Some("test-fingerprint".to_string()),
        remote_fingerprint: None,
    };
    manager.configure_dtls_srtp(config.clone());
    let stored_config = manager.get_dtls_config();
    assert_eq!(stored_config.srtp_profile, "SRTP_AES256_CM_HMAC_SHA1_80");
}

#[test]
fn test_tls_config() {
    let mut manager = SecurityManager::new();
    let config = TlsConfig {
        min_version: "TLS1.3".to_string(),
        cipher_suites: vec!["TLS_AES_256_GCM_SHA384".to_string()],
        verify_certificates: true,
    };
    manager.configure_tls(config.clone());
    let stored_config = manager.get_tls_config();
    assert_eq!(stored_config.min_version, "TLS1.3");
}

#[test]
fn test_security_events_logging() {
    let mut manager = SecurityManager::new();
    manager.generate_device_certificate("test-device".to_string(), NOW as i64).unwrap();
    let events = manager.get_security_events();
    assert!(!events.is_empty());
    manager.clear_security_events();
    let events = manager.get_security_events();
    assert!(events.is_empty());
}

#[test]
fn test_multiple_sessions() {
    let mut manager = SecurityManager::new();
    manager.generate_session_key("session-1", NOW);
    manager.generate_session_key("session-2", NOW);
    manager.generate_session_key("session-3", NOW);
    let key1 = manager.get_session_key("session-1").unwrap();
    let key2 = manager.get_session_key("session-2").unwrap();
    let key3 = manager.get_session_key("session-3").unwrap();
    assert_ne!(key1.key, key2.key);
    assert_ne!(key2.key, key3.key);
    assert_ne!(key1.key, key3.key);
}

// Scenario: replay defense terminates the session's keys.
#[test]
fn replay_defense_removes_session_key() {
    let mut manager = SecurityManager::new();
    manager.generate_session_key("S", NOW);
    let nonce = vec![1u8; 12];
    let data = b"frame";
    let hash = manager.compute_hash(data);
    assert!(manager.security_check("S", &nonce, data, &hash, NOW).is_ok());
    assert_eq!(manager.security_check("S", &nonce, data, &hash, NOW + 1), Err(CoreError::ReplayDetected));
    assert!(manager.get_session_key("S").is_none());
    let threats = manager.take_detected_threats();
    assert_eq!(threats, vec![SecurityThreat::ReplayAttack]);
}

// Scenario: rotation at max age, old key decrypts during grace, not after.
#[test]
fn key_rotation_with_grace_period() {
    let mut manager = SecurityManager::new();
    let key = manager.generate_session_key("S", NOW);
    let old_envelope = manager.encrypt_media_stream("S", b"before rotation").unwrap();
    assert!(manager.auto_rotate_expired_keys(NOW + 3599).is_empty());
    let rotated = manager.auto_rotate_expired_keys(NOW + 3600);
    assert_eq!(rotated, vec!["S".to_string()]);
    let current = manager.get_session_key("S").unwrap();
    assert_eq!(current.rotation_count, 1);
    assert_ne!(current.key, key.key);
    assert_eq!(
        manager.decrypt_media_stream("S", &old_envelope, NOW + 3600 + 59).unwrap(),
        b"before rotation".to_vec()
    );
    assert_eq!(
        manager.decrypt_media_stream("S", &old_envelope, NOW + 3600 + 60),
        Err(CoreError::DecryptError)
    );
    manager.auto_rotate_expired_keys(NOW + 3600 + 61);
    assert_eq!(
        manager.decrypt_media_stream("S", &old_envelope, NOW + 3600 + 61),
        Err(CoreError::DecryptError)
    );
}

// Scenario: five failures within a minute lock the identifier for 300 s.
#[test]
fn brute_force_lockout_scenario() {
    let mut manager = SecurityManager::new();
    for i in 0..4 {
        assert!(!manager.track_failed_attempt("U", NOW + i * 10));
    }
    assert!(manager.track_failed_attempt("U", NOW + 50));
    assert!(manager.track_failed_attempt("U", NOW + 55));
    assert!(manager.is_locked_out("U", NOW + 55));
    assert!(manager.is_locked_out("U", NOW + 50 + 299));
    assert!(!manager.is_locked_out("U", NOW + 50 + 300));
    assert_eq!(manager.take_detected_threats(), vec![SecurityThreat::UnauthorizedAccess]);
}

#[test]
fn attempts_outside_window_do_not_count() {
    let mut manager = SecurityManager::new();
    for i in 0..4 {
        assert!(!manager.track_failed_attempt("U", NOW + i));
    }
    assert!(!manager.track_failed_attempt("U", NOW + 100));
    assert!(!manager.is_locked_out("U", NOW + 100));
}

#[test]
fn replay_window_expires() {
    let mut state = ReplayDetectionState::new();
    let nonce = [7u8; 12];
    assert!(!state.check_and_record(&nonce, NOW));
    assert!(state.check_and_record(&nonce, NOW + 300));
    assert!(!state.check_and_record(&nonce, NOW + 601));
}

#[test]
fn replay_bound_forgets_oldest_half() {
    let mut state = ReplayDetectionState::new();
    state.max_nonces = 4;
    for i in 0..4u8 {
        assert!(!state.check_and_record(&[i], NOW));
    }
    assert!(!state.check_and_record(&[9], NOW));
    assert_eq!(state.seen_nonces.len(), 3);
    assert!(!state.check_and_record(&[0], NOW));
    assert!(state.check_and_record(&[3], NOW));
}

#[test]
fn round_trip_and_envelope_sizes() {
    let key = [5u8; 32];
    let plain = b"payload".to_vec();
    let e = encrypt_with_aes_gcm(&key, &plain, "k").unwrap();
    assert_eq!(e.nonce.len(), 12);
    assert_eq!(e.tag.len(), 16);
    assert_eq!(e.ciphertext.len(), plain.len());
    assert_ne!(e.ciphertext, plain);
    assert_eq!(decrypt_with_aes_gcm(&key, &e).unwrap(), plain);
    let mut tampered = e.clone();
    tampered.ciphertext[0] ^= 1;
    assert_eq!(decrypt_with_aes_gcm(&key, &tampered), Err(CoreError::DecryptError));
    assert_eq!(decrypt_with_aes_gcm(&[6u8; 32], &e), Err(CoreError::DecryptError));
    assert_eq!(encrypt_with_aes_gcm(&[1u8; 31], &plain, "k").err(), Some(CoreError::EncryptError));
}

#[test]
fn empty_plaintext_round_trip() {
    let key = [9u8; 32];
    let e = encrypt_with_aes_gcm(&key, &[], "k").unwrap();
    assert!(e.ciphertext.is_empty());
    assert_eq!(e.tag.len(), 16);
    assert_eq!(decrypt_with_aes_gcm(&key, &e).unwrap(), Vec::<u8>::new());
}

#[test]
fn sha256_of_known_input() {
    let manager = SecurityManager::new();
    let h = manager.compute_hash(b"abc");
    assert_eq!(h[0], 0xba);
    assert_eq!(h[31], 0xad);
    assert_eq!(h.len(), 32);
}

#[test]
fn unknown_session_errors() {
    let mut manager = SecurityManager::new();
    assert_eq!(manager.rotate_session_key("nope", NOW).err(), Some(CoreError::NotFound));
    assert_eq!(manager.encrypt_file_data("nope", b"x").err(), Some(CoreError::NotFound));
    assert_eq!(manager.perform_key_exchange(&[1u8; 31]).err(), Some(CoreError::InvalidParam));
}

#[test]
fn fingerprint_mismatch_is_mitm() {
    let mut manager = SecurityManager::new();
    let mut cert = manager.generate_device_certificate("dev".to_string(), NOW as i64).unwrap();
    manager.take_detected_threats();
    cert.fingerprint = "00".to_string();
    let result = manager.validate_device_certificate(&cert, NOW as i64).unwrap();
    assert_eq!(result.validation_errors, vec![CertificateValidationError::FingerprintMismatch]);
    assert_eq!(manager.take_detected_threats(), vec![SecurityThreat::ManInTheMiddle]);
    cert.valid_until = "not a date".to_string();
    assert_eq!(manager.validate_device_certificate(&cert, NOW as i64).err(), Some(CoreError::CertificateInvalid));
}

#[test]
fn sync_validation() {
    let mut manager = SecurityManager::new();
    let cert = manager.generate_device_certificate("dev".to_string(), NOW as i64).unwrap();
    assert_eq!(manager.validate_device_certificate_sync(&cert, NOW as i64), Ok(true));
    assert_eq!(manager.validate_device_certificate_sync(&cert, NOW as i64 + 400 * 86400), Ok(false));
}

#[test]
fn certificate_contents() {
    let mut manager = SecurityManager::new();
    let cert = manager.generate_device_certificate("dev-1".to_string(), NOW as i64).unwrap();
    assert_eq!(cert.fingerprint.len(), 64);
    assert!(cert.fingerprint.bytes().all(|c| c.is_ascii_digit() || (b'a'..=b'f').contains(&c)));
    assert_eq!(cert.valid_from, "2023-11-14T22:13:20+00:00");
    assert_eq!(cert.valid_until, "2024-11-13T22:13:20+00:00");
    assert_eq!(cert.signature.len(), 64);
    assert_eq!(cert.verifying_key.len(), 32);
    assert_ne!(cert.verifying_key, cert.signing_key.clone().unwrap());
    assert!(manager.verify_certificate_signature(&cert));
    let mut forged = cert.clone();
    forged.device_id = "dev-2".to_string();
    assert!(!manager.verify_certificate_signature(&forged));
    let result = manager.validate_device_certificate(&forged, NOW as i64).unwrap();
    assert_eq!(result.validation_errors, vec![CertificateValidationError::SignatureInvalid]);
    let early = manager.validate_device_certificate(&cert, NOW as i64 - 1).unwrap();
    assert_eq!(early.validation_errors, vec![CertificateValidationError::NotYetValid]);
}

#[test]
fn untrusted_issuer() {
    let mut manager = SecurityManager::new();
    let mut cert = manager.generate_device_certificate("dev-3".to_string(), NOW as i64).unwrap();
    cert.issuer_fingerprint = Some("unknown".to_string());
    let result = manager.validate_device_certificate(&cert, NOW as i64).unwrap();
    assert_eq!(result.validation_errors, vec![CertificateValidationError::IssuerNotTrusted]);
    manager.trust_certificate("unknown");
    assert!(manager.validate_device_certificate(&cert, NOW as i64).unwrap().is_valid);
}

#[test]
fn key_exchange_derives_fresh_keys() {
    let manager = SecurityManager::new();
    let remote = manager.get_local_public_key();
    let k1 = manager.perform_key_exchange(&remote).unwrap();
    let k2 = manager.perform_key_exchange(&remote).unwrap();
    assert_ne!(k1, k2);
}

#[test]
fn malformed_envelopes_are_refused() {
    let key = [5u8; 32];
    let e = encrypt_with_aes_gcm(&key, b"abc", "k").unwrap();
    let mut short_tag = e.clone();
    short_tag.tag.pop();
    assert_eq!(decrypt_with_aes_gcm(&key, &short_tag), Err(CoreError::DecryptError));
    let mut moved = e.clone();
    let first = moved.tag.remove(0);
    moved.ciphertext.push(first);
    assert_eq!(decrypt_with_aes_gcm(&key, &moved), Err(CoreError::DecryptError));
}

#[test]
fn sixth_attempt_stays_locked() {
    let mut manager = SecurityManager::new();
    for i in 0..4 {
        assert!(!manager.track_failed_attempt("U", NOW + i));
    }
    assert!(manager.track_failed_attempt("U", NOW + 5));
    assert!(manager.track_failed_attempt("U", NOW + 6));
    assert!(manager.is_locked_out("U", NOW + 304));
    assert!(!manager.is_locked_out("U", NOW + 305));
}
