//! The error kinds that the engine reports.

use vstd::prelude::*;

verus! {

/// Why an operation of the engine failed.
#[derive(Debug, Clone, Copy, PartialEq, Eq, Structural)]
pub enum CoreError {
    NotConnected,
    NotRegistered,
    NotFound,
    InvalidParam,
    Expired,
    Unauthorized,
    EncryptError,
    DecryptError,
    ReplayDetected,
    TamperDetected,
    LockedOut,
    MitmDetected,
    CertificateInvalid,
    ConnectError,
    Internal,
}

impl CoreError {
    /// A short description of the error for display.
    pub fn message(&self) -> (r: &'static str) {
        match self {
            CoreError::NotConnected => "not connected",
            CoreError::NotRegistered => "device not registered",
            CoreError::NotFound => "not found",
            CoreError::InvalidParam => "invalid parameter",
            CoreError::Expired => "expired",
            CoreError::Unauthorized => "unauthorized",
            CoreError::EncryptError => "encryption failed",
            CoreError::DecryptError => "decryption failed",
            CoreError::ReplayDetected => "replay attack detected",
            CoreError::TamperDetected => "data tampering detected",
            CoreError::LockedOut => "locked out after too many failed attempts",
            CoreError::MitmDetected => "man-in-the-middle attack detected",
            CoreError::CertificateInvalid => "invalid certificate",
            CoreError::ConnectError => "connection failed",
            CoreError::Internal => "internal error",
        }
    }
}

} // verus!
