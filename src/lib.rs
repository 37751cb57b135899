//! Core engine of a cross-platform remote-desktop client: session negotiation,
//! device authorization, end-to-end encryption and network adaptation.
//!
//! Time never comes from a clock inside this library: each operation that
//! depends on the time takes the current instant as a plain number, so that
//! every rule about expiry, windows and lockouts is a function of its inputs.

pub mod access_control;
pub mod crypto;
pub mod diagnostics;
pub mod error;
pub mod file_transfer;
pub mod input_control;
pub mod logging;
pub mod network;
pub mod performance;
pub mod screen_capture;
pub mod security;
pub mod session_manager;
pub mod signaling;
pub mod table;
pub mod text;
pub mod webrtc_engine;
