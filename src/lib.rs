//! Attestation-gated secure channel establishment: channel configuration,
//! evidence encoding, policy decisions and the session lifecycle.
pub mod config;
pub mod evidence;
pub mod policy;
pub mod callback;
pub mod session;
pub mod laws;
