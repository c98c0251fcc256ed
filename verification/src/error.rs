use vstd::prelude::*;
use vstd::string::StringExecFns;

verus! {

/// Why a broker operation was refused.
#[derive(Debug)]
pub enum VcpError {
    DeviceNotFound { device_id: String },
    SessionNotFound { session_id: String },
    ChallengeFailed { reason: String },
    CapabilityDenied { agent_id: String, capability: String },
    GrantExpired { session_id: String },
    GrantRevoked { reason: String },
    SafetyViolation { rule: String },
    SignatureInvalid,
    /// A JSON (de)serialisation failure, with serde_json's message.
    Serialization(String),
}

/// The value of a `VcpError`, with each text as its characters.
pub enum VcpErrorView {
    DeviceNotFound { device_id: Seq<char> },
    SessionNotFound { session_id: Seq<char> },
    ChallengeFailed { reason: Seq<char> },
    CapabilityDenied { agent_id: Seq<char>, capability: Seq<char> },
    GrantExpired { session_id: Seq<char> },
    GrantRevoked { reason: Seq<char> },
    SafetyViolation { rule: Seq<char> },
    SignatureInvalid,
    Serialization(Seq<char>),
}

impl View for VcpError {
    type V = VcpErrorView;

    open spec fn view(&self) -> VcpErrorView {
        match self {
            VcpError::DeviceNotFound { device_id } => VcpErrorView::DeviceNotFound {
                device_id: device_id@,
            },
            VcpError::SessionNotFound { session_id } => VcpErrorView::SessionNotFound {
                session_id: session_id@,
            },
            VcpError::ChallengeFailed { reason } => VcpErrorView::ChallengeFailed { reason: reason@ },
            VcpError::CapabilityDenied { agent_id, capability } => VcpErrorView::CapabilityDenied {
                agent_id: agent_id@,
                capability: capability@,
            },
            VcpError::GrantExpired { session_id } => VcpErrorView::GrantExpired {
                session_id: session_id@,
            },
            VcpError::GrantRevoked { reason } => VcpErrorView::GrantRevoked { reason: reason@ },
            VcpError::SafetyViolation { rule } => VcpErrorView::SafetyViolation { rule: rule@ },
            VcpError::SignatureInvalid => VcpErrorView::SignatureInvalid,
            VcpError::Serialization(msg) => VcpErrorView::Serialization(msg@),
        }
    }
}

/// The value of an outcome that carries no data on success.
pub open spec fn unit_result_view(r: Result<(), VcpError>) -> Result<(), VcpErrorView> {
    match r {
        Ok(()) => Ok(()),
        Err(e) => Err(e@),
    }
}

impl VcpError {
    /// The human-readable text of the error.
    pub open spec fn message_spec(self) -> Seq<char> {
        match self {
            VcpError::DeviceNotFound { device_id } => "device not found: "@ + device_id@,
            VcpError::SessionNotFound { session_id } => "session not found: "@ + session_id@,
            VcpError::ChallengeFailed { reason } => "challenge failed: "@ + reason@,
            VcpError::CapabilityDenied { agent_id, capability } => "capability denied: agent "@
                + agent_id@ + " lacks "@ + capability@,
            VcpError::GrantExpired { session_id } => "grant expired: session "@ + session_id@,
            VcpError::GrantRevoked { reason } => "grant revoked: "@ + reason@,
            VcpError::SafetyViolation { rule } => "safety violation: "@ + rule@,
            VcpError::SignatureInvalid => "signature invalid"@,
            VcpError::Serialization(msg) => "serialization error: "@ + msg@,
        }
    }

    /// The human-readable text of the error.
    pub fn message(&self) -> (r: String)
        ensures
            r@ == self.message_spec(),
    {
        match self {
            VcpError::DeviceNotFound { device_id } => String::from_str("device not found: ").concat(
                device_id.as_str(),
            ),
            VcpError::SessionNotFound { session_id } => String::from_str(
                "session not found: ",
            ).concat(session_id.as_str()),
            VcpError::ChallengeFailed { reason } => String::from_str("challenge failed: ").concat(
                reason.as_str(),
            ),
            VcpError::CapabilityDenied { agent_id, capability } => String::from_str(
                "capability denied: agent ",
            ).concat(agent_id.as_str()).concat(" lacks ").concat(capability.as_str()),
            VcpError::GrantExpired { session_id } => String::from_str(
                "grant expired: session ",
            ).concat(session_id.as_str()),
            VcpError::GrantRevoked { reason } => String::from_str("grant revoked: ").concat(
                reason.as_str(),
            ),
            VcpError::SafetyViolation { rule } => String::from_str("safety violation: ").concat(
                rule.as_str(),
            ),
            VcpError::SignatureInvalid => String::from_str("signature invalid"),
            VcpError::Serialization(msg) => String::from_str("serialization error: ").concat(
                msg.as_str(),
            ),
        }
    }
}

} // verus!
