use vstd::prelude::*;
use vstd::string::StringExecFns;

use crate::codec::{rust_str_debug, str_debug};
use crate::device::{clone_opt_text, clone_texts, opt_text_view, texts_view, SafetyClass};
use crate::time::Timestamp;

verus! {

/// The steps of the handshake as messages:
/// Discovery → Challenge → Auth → CapNeg → Grant → (session stream) → Receipt.
#[derive(Debug)]
pub enum HandshakeMessage {
    /// Device → broker.
    Discovery { manifest_json: String },
    /// Broker → device.
    Challenge(ChallengeRequest),
    /// Device → broker.
    Auth(AuthResponse),
    /// Broker → agent.
    CapNeg(CapabilityNegotiation),
    /// Agent → device (the broker relays).
    Grant(CapabilityGrant),
    /// Any party → device.
    Revoke(RevocationRecord),
}

// ── step 2: challenge ─────────────────────────────────────────────────────────

/// The broker challenges the device to prove its identity.
#[derive(Debug)]
pub struct ChallengeRequest {
    pub challenge_id: u128,
    /// 32 random bytes, hex-encoded (64 characters).
    pub nonce: String,
    pub issued_at: Timestamp,
    pub expires_in_secs: u32,
    /// Capabilities the requesting agent requires.
    pub required_caps: Vec<String>,
    /// Safety class the agent needs.
    pub required_safety: SafetyClass,
}

/// The value of a `ChallengeRequest`.
pub struct ChallengeRequestView {
    pub challenge_id: u128,
    pub nonce: Seq<char>,
    pub issued_at: Timestamp,
    pub expires_in_secs: u32,
    pub required_caps: Seq<Seq<char>>,
    pub required_safety: SafetyClass,
}

impl View for ChallengeRequest {
    type V = ChallengeRequestView;

    open spec fn view(&self) -> ChallengeRequestView {
        ChallengeRequestView {
            challenge_id: self.challenge_id,
            nonce: self.nonce@,
            issued_at: self.issued_at,
            expires_in_secs: self.expires_in_secs,
            required_caps: texts_view(self.required_caps@),
            required_safety: self.required_safety,
        }
    }
}

impl Clone for ChallengeRequest {
    fn clone(&self) -> (r: Self)
        ensures
            r@ == self@,
    {
        ChallengeRequest {
            challenge_id: self.challenge_id,
            nonce: self.nonce.clone(),
            issued_at: self.issued_at,
            expires_in_secs: self.expires_in_secs,
            required_caps: clone_texts(&self.required_caps),
            required_safety: self.required_safety,
        }
    }
}

// ── step 3: auth ──────────────────────────────────────────────────────────────

/// The device proves it holds the private key matching its manifest.
#[derive(Debug)]
pub struct AuthResponse {
    pub challenge_id: u128,
    pub device_id: String,
    /// Ed25519 signature (hex) over SHA-256 of `challenge_id:nonce`.
    pub signature: String,
    /// Agent DID this session is being established for.
    pub agent_did: Option<String>,
    pub responded_at: Timestamp,
}

// ── step 4: capability negotiation ───────────────────────────────────────────

/// The broker tells the requesting agent what the device can offer.
#[derive(Debug)]
pub struct CapabilityNegotiation {
    pub challenge_id: u128,
    pub device_id: String,
    /// The capabilities the agent may use in this session (JSON wire form).
    pub offered_caps: Vec<String>,
    /// Highest safety class the agent may invoke.
    pub max_safety: SafetyClass,
    /// Proposed ceiling of the session's duration.
    pub max_duration_secs: u32,
    /// Estimated cost in ASE micro-units (0 = free / sovereign node).
    pub estimated_cost_uase: u64,
}

/// The value of a `CapabilityNegotiation`.
pub struct CapabilityNegotiationView {
    pub challenge_id: u128,
    pub device_id: Seq<char>,
    pub offered_caps: Seq<Seq<char>>,
    pub max_safety: SafetyClass,
    pub max_duration_secs: u32,
    pub estimated_cost_uase: u64,
}

impl View for CapabilityNegotiation {
    type V = CapabilityNegotiationView;

    open spec fn view(&self) -> CapabilityNegotiationView {
        CapabilityNegotiationView {
            challenge_id: self.challenge_id,
            device_id: self.device_id@,
            offered_caps: texts_view(self.offered_caps@),
            max_safety: self.max_safety,
            max_duration_secs: self.max_duration_secs,
            estimated_cost_uase: self.estimated_cost_uase,
        }
    }
}

// ── step 5: grant ─────────────────────────────────────────────────────────────

/// The capability grant — a signed, scoped, expiring authorisation ticket.
#[derive(Debug)]
pub struct CapabilityGrant {
    pub grant_id: u128,
    pub challenge_id: u128,
    pub device_id: String,
    pub agent_did: String,
    pub session_id: u128,
    pub scope: GrantScope,
    /// The intersection of the capabilities required and offered (among
    /// those the agent accepts).
    pub granted_caps: Vec<String>,
    pub max_safety: SafetyClass,
    pub issued_at: Timestamp,
    pub expires_at: Timestamp,
    /// Ed25519 signature (hex) of the granting agent over the fields above.
    pub agent_signature: String,
    /// Optional co-signature of a parent agent.
    pub parent_signature: Option<String>,
}

/// The value of a `CapabilityGrant`.
pub struct CapabilityGrantView {
    pub grant_id: u128,
    pub challenge_id: u128,
    pub device_id: Seq<char>,
    pub agent_did: Seq<char>,
    pub session_id: u128,
    pub scope: GrantScope,
    pub granted_caps: Seq<Seq<char>>,
    pub max_safety: SafetyClass,
    pub issued_at: Timestamp,
    pub expires_at: Timestamp,
    pub agent_signature: Seq<char>,
    pub parent_signature: Option<Seq<char>>,
}

impl View for CapabilityGrant {
    type V = CapabilityGrantView;

    open spec fn view(&self) -> CapabilityGrantView {
        CapabilityGrantView {
            grant_id: self.grant_id,
            challenge_id: self.challenge_id,
            device_id: self.device_id@,
            agent_did: self.agent_did@,
            session_id: self.session_id,
            scope: self.scope,
            granted_caps: texts_view(self.granted_caps@),
            max_safety: self.max_safety,
            issued_at: self.issued_at,
            expires_at: self.expires_at,
            agent_signature: self.agent_signature@,
            parent_signature: opt_text_view(self.parent_signature),
        }
    }
}

impl Clone for CapabilityGrant {
    fn clone(&self) -> (r: Self)
        ensures
            r@ == self@,
    {
        CapabilityGrant {
            grant_id: self.grant_id,
            challenge_id: self.challenge_id,
            device_id: self.device_id.clone(),
            agent_did: self.agent_did.clone(),
            session_id: self.session_id,
            scope: self.scope,
            granted_caps: clone_texts(&self.granted_caps),
            max_safety: self.max_safety,
            issued_at: self.issued_at,
            expires_at: self.expires_at,
            agent_signature: self.agent_signature.clone(),
            parent_signature: clone_opt_text(&self.parent_signature),
        }
    }
}

/// How broadly a grant applies.
#[derive(Debug, Clone, Copy, PartialEq, Eq, Structural)]
pub enum GrantScope {
    /// The agent inhabits the device exclusively for the session.
    Exclusive,
    /// The agent shares the device with other sessions (read/observe only).
    Shared,
    /// One-shot: the grant expires after a single command.
    SingleUse,
}

// ── revocation ────────────────────────────────────────────────────────────────

/// Any party can revoke an active grant by broadcasting a revocation record.
#[derive(Debug)]
pub struct RevocationRecord {
    pub grant_id: u128,
    pub session_id: u128,
    pub revoked_at: Timestamp,
    pub reason: RevocationReason,
    /// Ed25519 signature (hex) of the revoking party.
    pub signature: String,
    /// DID of the revoking party (agent, device owner, or broker).
    pub revoker_did: String,
}

/// Why a grant was revoked.
#[derive(Debug, PartialEq, Eq)]
pub enum RevocationReason {
    AgentRequest,
    DeviceOwnerOverride,
    BrokerSafetyViolation,
    GrantExpired,
    AuthenticationFailure,
    PolicyViolation(String),
}

impl RevocationReason {
    /// The text that the derived `Debug` writes for the reason.
    pub open spec fn debug_text_spec(&self) -> Seq<char> {
        match self {
            RevocationReason::AgentRequest => "AgentRequest"@,
            RevocationReason::DeviceOwnerOverride => "DeviceOwnerOverride"@,
            RevocationReason::BrokerSafetyViolation => "BrokerSafetyViolation"@,
            RevocationReason::GrantExpired => "GrantExpired"@,
            RevocationReason::AuthenticationFailure => "AuthenticationFailure"@,
            RevocationReason::PolicyViolation(s) => "PolicyViolation("@ + rust_str_debug(s@) + ")"@,
        }
    }

    /// The text that the derived `Debug` writes for the reason.
    pub fn debug_text(&self) -> (r: String)
        ensures
            r@ == self.debug_text_spec(),
    {
        match self {
            RevocationReason::AgentRequest => String::from_str("AgentRequest"),
            RevocationReason::DeviceOwnerOverride => String::from_str("DeviceOwnerOverride"),
            RevocationReason::BrokerSafetyViolation => String::from_str("BrokerSafetyViolation"),
            RevocationReason::GrantExpired => String::from_str("GrantExpired"),
            RevocationReason::AuthenticationFailure => String::from_str("AuthenticationFailure"),
            RevocationReason::PolicyViolation(s) => {
                let d = str_debug(s.as_str());
                String::from_str("PolicyViolation(").concat(d.as_str()).concat(")")
            },
        }
    }
}

} // verus!
