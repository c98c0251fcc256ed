//! Vantage Connection Protocol (VCP) broker core.
//!
//! An agent does not remote-control a device; it temporarily inhabits it for a
//! scoped, revocable session, set up by a handshake:
//!   1. discovery — the device announces its manifest
//!   2. challenge — the broker issues a nonce and the required capabilities
//!   3. auth      — the device signs the nonce with its Ed25519 key
//!   4. cap_neg   — the broker offers the device's capabilities
//!   5. grant     — a scoped, expiring capability grant is issued
//!   6. session   — commands, observations and telemetry flow
//!   7. receipt   — a receipt commits to how the session went
pub mod time;
pub mod codec;
pub mod error;
pub mod crypto;
pub mod device;
pub mod handshake;
pub mod receipt;
pub mod session;
pub mod registry;
pub mod session_store;
pub mod handshake_engine;
pub mod storage;
pub mod zima;

pub use device::{DeviceClass, DeviceManifest, SafetyClass};
pub use error::VcpError;
pub use handshake::{
    AuthResponse, CapabilityGrant, CapabilityNegotiation, ChallengeRequest, GrantScope,
    HandshakeMessage, RevocationReason, RevocationRecord,
};
pub use handshake_engine::HandshakeEngine;
pub use receipt::{SessionOutcome, VcpReceipt, WitnessAttestation};
pub use registry::DeviceRegistry;
pub use session::{AlertSeverity, SessionId};
pub use session_store::{SessionState, SessionStore};
pub use storage::{JsonFileBackend, NullBackend};
pub use time::Timestamp;
pub use zima::ZimaDevice;
