use remote_desktop_core::access_control::{AccessCode, AccessControlManager, AuthorizationType, Permission};
use remote_desktop_core::error::CoreError;

const NOW: u64 = 1_700_000_000;

fn is_uuid_v4(s: &str) -> bool {
    let b = s.as_bytes();
    if b.len() != 36 {
        return false;
    }
    for (i, c) in b.iter().enumerate() {
        if i == 8 || i == 13 || i == 18 || i == 23 {
            if *c != b'-' {
                return false;
            }
        } else if !(c.is_ascii_digit() || (b'a'..=b'f').contains(c)) {
            return false;
        }
    }
    b[14] == b'4' && matches!(b[19], b'8' | b'9' | b'a' | b'b')
}

#[test]
fn test_generate_device_id() {
    let id1 = AccessControlManager::generate_device_id();
    let id2 = AccessControlManager::generate_device_id();
    assert_ne!(id1, id2);
    assert_eq!(id1.len(), 36);
    assert!(is_uuid_v4(&id1));
}

#[test]
fn test_permission_expand_full_control() {
    let permissions = Permission::expand_full_control();
    assert!(permissions.contains(&Permission::ViewScreen));
    assert!(permissions.contains(&Permission::InputControl));
    assert!(permissions.contains(&Permission::FileTransfer));
    assert!(permissions.contains(&Permission::Clipboard));
    assert!(permissions.contains(&Permission::AudioCapture));
}

#[test]
fn test_access_code_expiration() {
    let code = AccessCode {
        code: "123456".to_string(),
        device_id: "test-device".to_string(),
        created_at: NOW - 700,
        expires_in: 600,
        permissions: vec![Permission::ViewScreen],
        used: false,
    };
    assert!(code.is_expired(NOW));
    assert!(!code.is_valid(NOW));
}

#[test]
fn test_access_code_valid() {
    let code = AccessCode {
        code: "123456".to_string(),
        device_id: "test-device".to_string(),
        created_at: NOW,
        expires_in: 600,
        permissions: vec![Permission::ViewScreen],
        used: false,
    };
    assert!(!code.is_expired(NOW));
    assert!(code.is_valid(NOW));
}

#[test]
fn test_access_code_used() {
    let code = AccessCode {
        code: "123456".to_string(),
        device_id: "test-device".to_string(),
        created_at: NOW,
        expires_in: 600,
        permissions: vec![Permission::ViewScreen],
        used: true,
    };
    assert!(!code.is_expired(NOW));
    assert!(!code.is_valid(NOW));
}

#[test]
fn remaining_seconds_counts_down() {
    let code = AccessCode {
        code: "000001".to_string(),
        device_id: "d".to_string(),
        created_at: NOW,
        expires_in: 600,
        permissions: vec![],
        used: false,
    };
    assert_eq!(code.remaining_seconds(NOW + 100), 500);
    assert_eq!(code.remaining_seconds(NOW + 600), 0);
    assert_eq!(code.remaining_seconds(NOW + 5000), 0);
}

fn registered() -> AccessControlManager {
    let mut m = AccessControlManager::new();
    m.register_device("A".to_string(), "linux".to_string(), "1.0".to_string(), NOW);
    m
}

// Scenario: code-based connect happy path.
#[test]
fn code_based_connect_happy_path() {
    let mut a = registered();
    let code = a
        .generate_access_code(vec![Permission::ViewScreen, Permission::InputControl], NOW)
        .unwrap();
    assert_eq!(code.code.len(), 6);
    assert!(code.code.bytes().all(|c| c.is_ascii_digit()));
    let record = a.validate_access_code(&code.code, NOW + 599).unwrap();
    assert_eq!(record.permissions, vec![Permission::ViewScreen, Permission::InputControl]);
    let perms = a.use_access_code(&code.code, NOW + 599).unwrap();
    assert_eq!(perms, vec![Permission::ViewScreen, Permission::InputControl]);
    assert!(a.use_access_code(&code.code, NOW + 599).is_none());
    let req = a.handle_connection_request(
        "B".to_string(),
        "Device B".to_string(),
        perms.clone(),
        Some(code.code.clone()),
        NOW + 600,
    )
    .unwrap();
    let resp = a.respond_to_request(&req.request_id, true, None, None, NOW + 601).unwrap();
    assert!(resp.accepted);
    assert_eq!(resp.granted_permissions, vec![Permission::ViewScreen, Permission::InputControl]);
    assert!(a.is_device_authorized("B"));
    assert_eq!(
        a.get_device_permissions("B"),
        Some(vec![Permission::ViewScreen, Permission::InputControl])
    );
    assert_eq!(
        a.respond_to_request(&req.request_id, true, None, None, NOW + 602).err(),
        Some(CoreError::NotFound)
    );
}

// Scenario: an expired code is refused and grants nothing.
#[test]
fn expired_code_is_refused() {
    let mut a = registered();
    let code = a.generate_access_code(vec![Permission::ViewScreen], NOW).unwrap();
    assert!(a.validate_access_code(&code.code, NOW + 601).is_none());
    assert!(a.use_access_code(&code.code, NOW + 601).is_none());
    assert!(!a.is_device_authorized("B"));
    a.cleanup_expired_codes(NOW + 601);
    assert!(a.validate_access_code(&code.code, NOW).is_none());
}

#[test]
fn code_requires_registration() {
    let mut m = AccessControlManager::new();
    assert_eq!(m.generate_access_code(vec![], NOW).err(), Some(CoreError::NotRegistered));
    assert_eq!(m.enable_unattended_access("pw"), Err(CoreError::NotRegistered));
}

#[test]
fn rejection_carries_reason() {
    let mut a = registered();
    let req = a.handle_connection_request("C".to_string(), "C".to_string(), vec![Permission::Clipboard], None, NOW).unwrap();
    let resp = a.respond_to_request(&req.request_id, false, None, Some("busy".to_string()), NOW).unwrap();
    assert!(!resp.accepted);
    assert!(resp.granted_permissions.is_empty());
    assert_eq!(resp.rejection_reason, Some("busy".to_string()));
    assert!(!a.is_device_authorized("C"));
}

#[test]
fn revocation_is_kept_inactive() {
    let mut a = registered();
    let req = a.handle_connection_request("D".to_string(), "D".to_string(), vec![Permission::ViewScreen], None, NOW).unwrap();
    a.respond_to_request(&req.request_id, true, Some(vec![Permission::FileTransfer]), None, NOW).unwrap();
    assert_eq!(a.get_device_permissions("D"), Some(vec![Permission::FileTransfer]));
    assert_eq!(a.revoke_authorization("D"), Ok(()));
    assert!(!a.is_device_authorized("D"));
    assert_eq!(a.get_device_permissions("D"), None);
    assert_eq!(a.revoke_authorization("E"), Err(CoreError::NotFound));
    let devices = a.get_authorized_devices();
    assert_eq!(devices.len(), 1);
    assert_eq!(devices[0].device_id, "D");
    assert!(!devices[0].active);
    assert!(a.get_pending_requests().is_empty());
    let pending = a
        .handle_connection_request("F".to_string(), "F".to_string(), vec![], Some("123456".to_string()), NOW)
        .unwrap();
    assert_eq!(pending.access_code, Some("123456".to_string()));
    assert_eq!(a.get_pending_requests().len(), 1);
}

#[test]
fn registration_is_idempotent() {
    let mut m = AccessControlManager::new();
    let id1 = m.register_device("A".to_string(), "linux".to_string(), "1.0".to_string(), NOW);
    let id2 = m.register_device("A".to_string(), "linux".to_string(), "1.0".to_string(), NOW + 5);
    assert_eq!(id1, id2);
    assert_eq!(m.get_device_registration().unwrap().last_seen, NOW + 5);
    let id3 = m.register_device("A".to_string(), "linux".to_string(), "2.0".to_string(), NOW + 6);
    assert_ne!(id1, id3);
    assert_eq!(m.get_device_id(), Some(id3));
}

#[test]
fn unattended_access_credentials() {
    let mut m = registered();
    assert!(!m.validate_unattended_password("secret"));
    m.enable_unattended_access("secret").unwrap();
    assert!(m.validate_unattended_password("secret"));
    assert!(!m.validate_unattended_password("Secret"));
    let hash = m.get_device_registration().unwrap().unattended_password_hash.clone().unwrap();
    assert!(hash.starts_with("$argon2id$"));
    m.disable_unattended_access().unwrap();
    assert!(!m.validate_unattended_password("secret"));
}

#[test]
fn authorization_kind_is_access_code() {
    let _ = AuthorizationType::AccountBinding;
    assert_eq!(AuthorizationType::AccessCode, AuthorizationType::AccessCode);
}
