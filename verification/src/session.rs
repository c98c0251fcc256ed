use vstd::prelude::*;

verus! {

/// Identifier of a brokered session (the 128-bit value of its UUID).
pub type SessionId = u128;

/// Severity of a device alert raised during a session.
#[derive(Debug, Clone, Copy, PartialEq, Eq, Structural)]
pub enum AlertSeverity {
    Info,
    Warning,
    Error,
    /// Session MUST be terminated immediately.
    Critical,
}

} // verus!
