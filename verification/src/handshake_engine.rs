use std::collections::HashSet;

use vstd::prelude::*;
use vstd::string::StringExecFns;

use crate::codec::{hex_encode, hex_text, new_random_uuid, uuid_bytes, uuid_text, uuid_text_spec};
use crate::crypto::{
    auth_signature_outcome, missing_key_reason, require_pubkey_in_production,
    verify_auth_signature,
};
use crate::device::{clone_texts, texts_view, DeviceManifest, DeviceManifestView};
use crate::error::{VcpError, VcpErrorView};
use crate::handshake::{
    AuthResponse, CapabilityGrant, CapabilityGrantView, CapabilityNegotiation,
    CapabilityNegotiationView, ChallengeRequest, ChallengeRequestView, GrantScope, RevocationReason, RevocationRecord,
};
use crate::receipt::VcpReceipt;
use crate::registry::{fresh_manifest, DeviceRegistry, RegistryEntryView};
use crate::session_store::{
    activate_spec, challenge_of, challenge_spec, grant_of, revoke_spec, session_not_found,
    SessionStore, SessionsView,
};
use crate::time::{add_seconds, chrono_add_seconds, system_time_millis, utc_now, Timestamp};

verus! {

broadcast use vstd::std_specs::hash::group_hash_axioms;

/// Seconds a challenge stays valid.
pub const CHALLENGE_TTL_SECS: u32 = 60;

/// Ceiling on a session's duration offered in capability negotiation.
pub const MAX_SESSION_SECS: u32 = 3600;

/// Equality of two texts.
fn same_text(a: &str, b: &str) -> (r: bool)
    ensures
        r == (a@ == b@),
{
    String::from_str(a) == String::from_str(b)
}

/// Whether the setting of `VCP_ALLOW_UNVERIFIED_DEVICES` (absent, or not
/// Unicode, as `None`) allows keyless devices: only `"1"` and `"true"` do.
/// This is the local-development escape hatch; production must never set it.
pub fn unverified_devices_allowed(setting: Option<&str>) -> (r: bool)
    ensures
        r == (setting matches Some(s) && (s@ == "1"@ || s@ == "true"@)),
{
    match setting {
        Some(s) => same_text(s, "1") || same_text(s, "true"),
        None => false,
    }
}

/// Whether the setting of `VCP_REQUIRE_PUBKEY` (absent, or not Unicode, as
/// `None`) requires every device to carry a public key: only `"true"` does.
pub fn pubkey_required(setting: Option<&str>) -> (r: bool)
    ensures
        r == (setting matches Some(s) && s@ == "true"@),
{
    match setting {
        Some(s) => same_text(s, "true"),
        None => false,
    }
}

// ── the handshake as spec functions ──────────────────────────────────────────

/// The refusal text for registering a device without a public key.
pub open spec fn keyless_registration_reason(device_id: Seq<char>) -> Seq<char> {
    "device '"@ + device_id
        + "' has an empty public_key — refusing to register a device that can never be authenticated. Provision the Ed25519 public key first, or set VCP_ALLOW_UNVERIFIED_DEVICES=1 for local development only."@
}

/// The refusal text for authenticating a device without a public key.
pub open spec fn keyless_auth_reason(device_id: Seq<char>) -> Seq<char> {
    "device '"@ + device_id
        + "' has no public_key — cannot verify auth signature. Refusing the session (set VCP_ALLOW_UNVERIFIED_DEVICES=1 for local dev only)."@
}

/// Why a manifest cannot be registered, if it cannot: an empty device id, or
/// an empty public key while keyless devices are not allowed.
pub open spec fn registration_refusal(m: DeviceManifestView, allow_unverified: bool) -> Option<
    VcpErrorView,
> {
    if m.device_id.len() == 0 {
        Some(VcpErrorView::ChallengeFailed { reason: "device_id must not be empty"@ })
    } else if m.public_key.len() == 0 && !allow_unverified {
        Some(VcpErrorView::ChallengeFailed { reason: keyless_registration_reason(m.device_id) })
    } else {
        None
    }
}

/// The capability negotiation offered to an authenticated device: everything
/// its manifest offers, up to its safety class, for at most an hour, at no cost.
pub open spec fn negotiation(
    challenge_id: u128,
    device_id: Seq<char>,
    m: DeviceManifestView,
) -> CapabilityNegotiationView {
    CapabilityNegotiationView {
        challenge_id,
        device_id,
        offered_caps: m.capabilities,
        max_safety: m.safety_class,
        max_duration_secs: MAX_SESSION_SECS,
        estimated_cost_uase: 0,
    }
}

/// What the auth step answers at `now_ms`. The device must be registered and
/// fresh. A keyed device must answer the session's pending challenge with a
/// valid signature over SHA-256(`challenge_id:nonce`), where `challenge_id` is
/// the text of the id in the answer and `nonce` the session's. A keyless
/// device is refused while public keys are required, and otherwise accepted
/// unverified only when keyless devices are allowed.
pub open spec fn auth_outcome(
    registry: Map<Seq<char>, RegistryEntryView>,
    sessions: SessionsView,
    allow_unverified: bool,
    require_pubkey: bool,
    session_id: u128,
    challenge_id: u128,
    device_id: Seq<char>,
    signature: Seq<char>,
    now_ms: u64,
) -> Result<CapabilityNegotiationView, VcpErrorView> {
    match fresh_manifest(registry, device_id, now_ms) {
        None => Err(VcpErrorView::DeviceNotFound { device_id }),
        Some(m) => if m.public_key.len() == 0 {
            if require_pubkey {
                Err(VcpErrorView::ChallengeFailed { reason: missing_key_reason(device_id) })
            } else if !allow_unverified {
                Err(VcpErrorView::ChallengeFailed { reason: keyless_auth_reason(device_id) })
            } else {
                Ok(negotiation(challenge_id, device_id, m))
            }
        } else {
            match challenge_of(sessions, session_id) {
                None => Err(session_not_found(session_id)),
                Some(c) => match auth_signature_outcome(
                    uuid_text_spec(challenge_id),
                    c.nonce,
                    m.public_key,
                    signature,
                ) {
                    Err(e) => Err(e),
                    Ok(()) => Ok(negotiation(challenge_id, device_id, m)),
                },
            }
        },
    }
}

// ── laws ─────────────────────────────────────────────────────────────────────

/// The auth step never answers a device that is not registered and fresh; it
/// answers a keyed device only after the session's pending challenge was
/// signed with its key; it never answers a keyless device while public keys
/// are required, nor unless keyless devices are allowed; and what it offers
/// is exactly the device's capabilities and safety class.
pub proof fn law_auth_gate(
    registry: Map<Seq<char>, RegistryEntryView>,
    sessions: SessionsView,
    allow_unverified: bool,
    require_pubkey: bool,
    session_id: u128,
    challenge_id: u128,
    device_id: Seq<char>,
    signature: Seq<char>,
    now_ms: u64,
)
    ensures
        ({
            let out = auth_outcome(
                registry,
                sessions,
                allow_unverified,
                require_pubkey,
                session_id,
                challenge_id,
                device_id,
                signature,
                now_ms,
            );
            let m = fresh_manifest(registry, device_id, now_ms);
            &&& m is None ==> out == Err::<CapabilityNegotiationView, VcpErrorView>(
                VcpErrorView::DeviceNotFound { device_id },
            )
            &&& out is Ok ==> m is Some
            &&& out is Ok && m->0.public_key.len() > 0 ==> challenge_of(sessions, session_id) is Some
                && auth_signature_outcome(
                uuid_text_spec(challenge_id),
                challenge_of(sessions, session_id)->0.nonce,
                m->0.public_key,
                signature,
            ) is Ok
            &&& out is Ok && m->0.public_key.len() == 0 ==> allow_unverified && !require_pubkey
            &&& out is Ok ==> out->Ok_0 == negotiation(challenge_id, device_id, m->0)
            &&& out is Ok ==> {
                let n = out->Ok_0;
                &&& n.offered_caps == m->0.capabilities
                &&& n.max_safety == m->0.safety_class
                &&& n.challenge_id == challenge_id
                &&& n.device_id == device_id
                &&& n.max_duration_secs == 3600
                &&& n.estimated_cost_uase == 0
            }
        }),
{
}

// ── the record of accepted auth steps ────────────────────────────────────────

/// The sessions whose auth step was accepted, after an auth answer for
/// `session_id` that was accepted (`accepted`) or refused.
pub open spec fn after_auth(acc: Set<u128>, session_id: u128, accepted: bool) -> Set<u128> {
    if accepted {
        acc.insert(session_id)
    } else {
        acc
    }
}

/// After a challenge is issued for `session_id`: an earlier answer no longer counts.
pub open spec fn after_challenge(acc: Set<u128>, session_id: u128) -> Set<u128> {
    acc.remove(session_id)
}

/// After a grant for `session_id` was issued (`granted`) or refused.
pub open spec fn after_grant(acc: Set<u128>, session_id: u128, granted: bool) -> Set<u128> {
    if granted {
        acc.remove(session_id)
    } else {
        acc
    }
}

/// After `session_id` is revoked.
pub open spec fn after_revoke(acc: Set<u128>, session_id: u128) -> Set<u128> {
    acc.remove(session_id)
}

/// The refusal of a grant for a session whose challenge has not been answered
/// by an accepted auth step.
pub open spec fn auth_not_accepted(session_id: u128) -> VcpErrorView {
    VcpErrorView::ChallengeFailed {
        reason: "no accepted auth response for session "@ + uuid_text_spec(session_id),
    }
}

/// A grant comes only after an accepted auth step (challenge, auth, grant):
/// the engine starts with no accepted answers; only an accepted auth answer
/// for a session records one for it; every other step — a refused answer, a
/// new challenge, a grant, a revocation, an answer for another session —
/// records none; a new challenge clears the session's earlier answer; and
/// `create_grant` issues a grant only for a session with a recorded answer
/// (its contract), consuming it.
pub proof fn law_grant_requires_auth(acc: Set<u128>, session_id: u128, other: u128, granted: bool)
    ensures
        !Set::<u128>::empty().contains(session_id),
        after_auth(acc, session_id, true).contains(session_id),
        after_auth(acc, session_id, false) == acc,
        other != session_id ==> (after_auth(acc, other, true).contains(session_id) <==> acc.contains(
            session_id,
        )),
        !after_challenge(acc, session_id).contains(session_id),
        after_challenge(acc, other).contains(session_id) ==> acc.contains(session_id),
        after_grant(acc, other, granted).contains(session_id) ==> acc.contains(session_id),
        !after_grant(acc, session_id, true).contains(session_id),
        after_revoke(acc, other).contains(session_id) ==> acc.contains(session_id),
        !after_revoke(acc, session_id).contains(session_id),
{
}

// ── granted capabilities ─────────────────────────────────────────────────────

/// The capabilities a grant carries: those the agent accepts that the
/// challenge required and the device offers (the intersection of required
/// and offered), in the agent's order.
pub open spec fn granted_caps_spec(
    accepted: Seq<Seq<char>>,
    required: Seq<Seq<char>>,
    offered: Seq<Seq<char>>,
) -> Seq<Seq<char>>
    decreases accepted.len(),
{
    if accepted.len() == 0 {
        Seq::empty()
    } else {
        let rest = granted_caps_spec(accepted.drop_last(), required, offered);
        let c = accepted.last();
        if required.contains(c) && offered.contains(c) {
            rest.push(c)
        } else {
            rest
        }
    }
}

/// Every granted capability was required, offered and accepted; every
/// accepted capability that was required and offered is granted.
pub proof fn law_granted_caps_intersection(
    accepted: Seq<Seq<char>>,
    required: Seq<Seq<char>>,
    offered: Seq<Seq<char>>,
    c: Seq<char>,
)
    ensures
        granted_caps_spec(accepted, required, offered).contains(c) <==> (accepted.contains(c)
            && required.contains(c) && offered.contains(c)),
        granted_caps_spec(accepted, required, offered).len() <= accepted.len(),
    decreases accepted.len(),
{
    if accepted.len() > 0 {
        let rest = granted_caps_spec(accepted.drop_last(), required, offered);
        law_granted_caps_intersection(accepted.drop_last(), required, offered, c);
        assert(accepted =~= accepted.drop_last().push(accepted.last()));
        if required.contains(accepted.last()) && offered.contains(accepted.last()) {
            assert(rest.push(accepted.last()).contains(c) <==> (rest.contains(c) || c == accepted.last())) by {
                if c == accepted.last() {
                    assert(rest.push(accepted.last())[rest.len() as int] == c);
                }
                if rest.push(accepted.last()).contains(c) {
                    let k = choose|k: int| 0 <= k < rest.len() + 1 && rest.push(accepted.last())[k] == c;
                    if k < rest.len() {
                        assert(rest[k] == c);
                    }
                }
                if rest.contains(c) {
                    let k = choose|k: int| 0 <= k < rest.len() && rest[k] == c;
                    assert(rest.push(accepted.last())[k] == c);
                }
            }
        }
        assert(accepted.contains(c) <==> (accepted.drop_last().contains(c) || c == accepted.last())) by {
            if accepted.contains(c) {
                let k = choose|k: int| 0 <= k < accepted.len() && accepted[k] == c;
                if k < accepted.len() - 1 {
                    assert(accepted.drop_last()[k] == c);
                }
            }
            if accepted.drop_last().contains(c) {
                let k = choose|k: int| 0 <= k < accepted.len() - 1 && accepted.drop_last()[k] == c;
                assert(accepted[k] == c);
            }
            if c == accepted.last() {
                assert(accepted[accepted.len() - 1] == c);
            }
        }
    }
}

/// Whether `texts` holds `t`.
fn contains_text(texts: &Vec<String>, t: &str) -> (r: bool)
    ensures
        r == texts_view(texts@).contains(t@),
{
    let mut i: usize = 0;
    while i < texts.len()
        invariant
            i <= texts.len(),
            forall|k: int| 0 <= k < i ==> texts@[k]@ != t@,
        decreases texts.len() - i,
    {
        if same_text(texts[i].as_str(), t) {
            assert(texts_view(texts@)[i as int] == t@);
            return true;
        }
        i = i + 1;
    }
    assert(!texts_view(texts@).contains(t@)) by {
        if texts_view(texts@).contains(t@) {
            let k = choose|k: int| 0 <= k < texts_view(texts@).len() && texts_view(texts@)[k] == t@;
            assert(texts@[k]@ == t@);
        }
    }
    false
}

/// The capabilities the agent accepts that `required` and `offered` both hold.
fn keep_granted_caps(accepted: &Vec<String>, required: &Vec<String>, offered: &Vec<String>) -> (r: Vec<String>)
    ensures
        texts_view(r@) == granted_caps_spec(texts_view(accepted@), texts_view(required@), texts_view(offered@)),
{
    let mut r: Vec<String> = Vec::new();
    let mut i: usize = 0;
    while i < accepted.len()
        invariant
            i <= accepted.len(),
            texts_view(r@) == granted_caps_spec(
                texts_view(accepted@).take(i as int),
                texts_view(required@),
                texts_view(offered@),
            ),
        decreases accepted.len() - i,
    {
        let c = accepted[i].as_str();
        let ghost before = texts_view(r@);
        assert(texts_view(accepted@).take(i as int + 1).drop_last() =~= texts_view(accepted@).take(i as int));
        assert(texts_view(accepted@).take(i as int + 1).last() == accepted@[i as int]@);
        if contains_text(required, c) && contains_text(offered, c) {
            r.push(String::from_str(c));
            assert(texts_view(r@) =~= before.push(c@));
        } else {
            assert(texts_view(r@) =~= before);
        }
        i = i + 1;
    }
    assert(texts_view(accepted@).take(accepted.len() as int) =~= texts_view(accepted@));
    r
}

/// Registration refuses an empty device id always, and a keyless device
/// unless keyless devices are allowed; it accepts every other manifest.
pub proof fn law_registration_gate(m: DeviceManifestView, allow_unverified: bool)
    ensures
        m.device_id.len() == 0 ==> registration_refusal(m, allow_unverified) is Some,
        m.public_key.len() == 0 && !allow_unverified ==> registration_refusal(m, allow_unverified) is Some,
        m.device_id.len() > 0 && (m.public_key.len() > 0 || allow_unverified) ==> registration_refusal(
            m,
            allow_unverified,
        ) is None,
{
}

/// The challenge issued for a session, with the nonce `nonce` in hex.
pub open spec fn challenge_value(
    challenge_id: u128,
    nonce: Seq<u8>,
    issued_at: Timestamp,
    required_caps: Seq<Seq<char>>,
    m: DeviceManifestView,
) -> ChallengeRequestView {
    ChallengeRequestView {
        challenge_id,
        nonce: hex_text(nonce),
        issued_at,
        expires_in_secs: CHALLENGE_TTL_SECS,
        required_caps,
        required_safety: m.safety_class,
    }
}

/// A challenge carries its id, the nonce in hex, its issue time, a minute's
/// validity, the capabilities the agent requires, and the device's safety class.
pub proof fn law_challenge_fields(
    challenge_id: u128,
    nonce: Seq<u8>,
    issued_at: Timestamp,
    required_caps: Seq<Seq<char>>,
    m: DeviceManifestView,
)
    ensures
        ({
            let c = challenge_value(challenge_id, nonce, issued_at, required_caps, m);
            &&& c.challenge_id == challenge_id
            &&& c.nonce == hex_text(nonce)
            &&& c.issued_at == issued_at
            &&& c.expires_in_secs == 60
            &&& c.required_caps == required_caps
            &&& c.required_safety == m.safety_class
        }),
{
}

/// A challenge's nonce of 32 bytes is 64 lowercase hex digits.
pub proof fn law_nonce_shape(nonce: Seq<u8>)
    requires
        nonce.len() == 32,
    ensures
        hex_text(nonce).len() == 64,
        forall|i: int|
            0 <= i < 64 ==> {
                let c = #[trigger] hex_text(nonce)[i];
                ('0' <= c <= '9') || ('a' <= c <= 'f')
            },
{
    let h = hex_text(nonce);
    assert forall|i: int| 0 <= i < 64 implies {
        let c = #[trigger] h[i];
        ('0' <= c <= '9') || ('a' <= c <= 'f')
    } by {
        let b = nonce[i / 2];
        assert(0 <= b as int / 16 < 16);
        assert(0 <= b as int % 16 < 16);
    }
}

/// The grant issued for a session.
pub open spec fn grant_spec(
    grant_id: u128,
    session_id: u128,
    agent_did: Seq<char>,
    device_id: Seq<char>,
    challenge_id: u128,
    granted_caps: Seq<Seq<char>>,
    scope: GrantScope,
    m: DeviceManifestView,
    issued_at: Timestamp,
    expires_at: Timestamp,
) -> CapabilityGrantView {
    CapabilityGrantView {
        grant_id,
        challenge_id,
        device_id,
        agent_did,
        session_id,
        scope,
        granted_caps,
        max_safety: m.safety_class,
        issued_at,
        expires_at,
        agent_signature: Seq::empty(),
        parent_signature: None,
    }
}

/// A grant names the session, challenge, agent and device it was asked for,
/// carries the given capabilities, scope and times, is capped at the
/// device's safety class, and is not yet signed.
pub proof fn law_grant_fields(
    grant_id: u128,
    session_id: u128,
    agent_did: Seq<char>,
    device_id: Seq<char>,
    challenge_id: u128,
    granted_caps: Seq<Seq<char>>,
    scope: GrantScope,
    m: DeviceManifestView,
    issued_at: Timestamp,
    expires_at: Timestamp,
)
    ensures
        ({
            let g = grant_spec(
                grant_id,
                session_id,
                agent_did,
                device_id,
                challenge_id,
                granted_caps,
                scope,
                m,
                issued_at,
                expires_at,
            );
            &&& g.grant_id == grant_id
            &&& g.session_id == session_id
            &&& g.agent_did == agent_did
            &&& g.device_id == device_id
            &&& g.challenge_id == challenge_id
            &&& g.granted_caps == granted_caps
            &&& g.scope == scope
            &&& g.max_safety == m.safety_class
            &&& g.issued_at == issued_at
            &&& g.expires_at == expires_at
            &&& g.agent_signature.len() == 0
            &&& g.parent_signature is None
        }),
{
}

/// The refusal when a grant's expiry cannot be represented.
pub open spec fn expiry_out_of_range() -> VcpErrorView {
    VcpErrorView::ChallengeFailed { reason: "grant duration out of range"@ }
}

/// The two envelopes that a completed session links in the GIX graph: the
/// device (by its id) and the receipt (by the text of its id).
pub struct SessionLink {
    /// Payload of the device's (Physical, MeshDevice) envelope.
    pub device_id: String,
    /// Payload of the receipt's (Receipt, MeshDevice) envelope.
    pub receipt_id: String,
    /// Creation time (ms since the Unix epoch) of both envelopes.
    pub created_at_ms: u64,
}

/// Drives the handshake: device registry, session states, and the
/// authentication policy, which the caller sets from the environment.
pub struct HandshakeEngine {
    pub registry: DeviceRegistry,
    pub sessions: SessionStore,
    /// Whether keyless devices may register and authenticate (local development).
    pub allow_unverified_devices: bool,
    /// Whether every device must carry a public key (production).
    pub require_pubkey: bool,
    /// Sessions whose challenge was answered by an accepted auth step and
    /// that have not been granted, challenged again or revoked since. Only the
    /// engine records or forgets an entry.
    pub auth_accepted: AuthLedger,
}

/// The sessions whose auth step the broker accepted and that await a grant.
pub struct AuthLedger {
    ids: HashSet<u128>,
}

impl View for AuthLedger {
    type V = Set<u128>;

    closed spec fn view(&self) -> Set<u128> {
        self.ids@
    }
}

impl AuthLedger {
    /// A ledger with no accepted answers.
    pub(crate) fn new() -> (r: Self)
        ensures
            r@ == Set::<u128>::empty(),
    {
        AuthLedger { ids: HashSet::new() }
    }

    /// Whether the auth step of `session_id` was accepted and awaits a grant.
    pub fn contains(&self, session_id: u128) -> (r: bool)
        ensures
            r == self@.contains(session_id),
    {
        self.ids.contains(&session_id)
    }

    /// Records an accepted auth step for `session_id`.
    pub(crate) fn record(&mut self, session_id: u128)
        ensures
            final(self)@ == old(self)@.insert(session_id),
    {
        self.ids.insert(session_id);
    }

    /// Forgets any accepted auth step for `session_id`.
    pub(crate) fn forget(&mut self, session_id: u128)
        ensures
            final(self)@ == old(self)@.remove(session_id),
    {
        self.ids.remove(&session_id);
    }
}

impl HandshakeEngine {
    /// The sessions whose auth step was accepted and that await their grant.
    pub open spec fn accepted_auths(&self) -> Set<u128> {
        self.auth_accepted@
    }

    /// An engine with no devices or sessions, refusing keyless devices.
    pub fn new() -> (r: Self)
        ensures
            r.registry@ == Map::<Seq<char>, RegistryEntryView>::empty(),
            r.sessions@ == Map::<u128, crate::session_store::SessionStateView>::empty(),
            r.accepted_auths() == Set::<u128>::empty(),
            !r.allow_unverified_devices,
            !r.require_pubkey,
    {
        Self::with_auth_policy(false, false)
    }

    /// An engine with no devices or sessions and the given authentication policy.
    pub fn with_auth_policy(allow_unverified_devices: bool, require_pubkey: bool) -> (r: Self)
        ensures
            r.registry@ == Map::<Seq<char>, RegistryEntryView>::empty(),
            r.sessions@ == Map::<u128, crate::session_store::SessionStateView>::empty(),
            r.accepted_auths() == Set::<u128>::empty(),
            r.allow_unverified_devices == allow_unverified_devices,
            r.require_pubkey == require_pubkey,
    {
        HandshakeEngine {
            registry: DeviceRegistry::new(),
            sessions: SessionStore::new(),
            allow_unverified_devices,
            require_pubkey,
            auth_accepted: AuthLedger::new(),
        }
    }

    // ── step 1: discovery ─────────────────────────────────────────────────────

    /// A device submits its manifest; it is registered, as seen at `now_ms`,
    /// unless its id is empty or it has no public key while keyless devices
    /// are not allowed. A refused device is not registered.
    pub fn register_device_at(&mut self, manifest: DeviceManifest, now_ms: u64) -> (r: Result<(), VcpError>)
        ensures
            match registration_refusal(manifest@, old(self).allow_unverified_devices) {
                Some(e) => r matches Err(err) && err@ == e && final(self).registry@ == old(
                    self,
                ).registry@,
                None => r is Ok && final(self).registry@ == old(self).registry@.insert(
                    manifest.device_id@,
                    RegistryEntryView { manifest: manifest@, last_seen_ms: now_ms },
                ),
            },
            final(self).sessions@ == old(self).sessions@,
            final(self).accepted_auths() == old(self).accepted_auths(),
            final(self).allow_unverified_devices == old(self).allow_unverified_devices,
            final(self).require_pubkey == old(self).require_pubkey,
    {
        if manifest.device_id.as_str().is_empty() {
            return Err(VcpError::ChallengeFailed {
                reason: String::from_str("device_id must not be empty"),
            });
        }
        if manifest.public_key.as_str().is_empty() && !self.allow_unverified_devices {
            let reason = String::from_str("device '").concat(manifest.device_id.as_str()).concat(
                "' has an empty public_key — refusing to register a device that can never be authenticated. Provision the Ed25519 public key first, or set VCP_ALLOW_UNVERIFIED_DEVICES=1 for local development only.",
            );
            return Err(VcpError::ChallengeFailed { reason });
        }
        self.registry.register_at(manifest, now_ms);
        Ok(())
    }

    /// A device submits its manifest; it is registered as seen now by the
    /// system clock, or refused as `register_device_at` says. The caller then
    /// stamps the device's GIX1 envelope.
    pub fn register_device(&mut self, manifest: DeviceManifest) -> (r: Result<(), VcpError>)
        ensures
            match registration_refusal(manifest@, old(self).allow_unverified_devices) {
                Some(e) => r matches Err(err) && err@ == e && final(self).registry@ == old(
                    self,
                ).registry@,
                None => r is Ok && exists|now_ms: u64|
                    final(self).registry@ == old(self).registry@.insert(
                        manifest.device_id@,
                        RegistryEntryView { manifest: manifest@, last_seen_ms: now_ms },
                    ),
            },
            final(self).sessions@ == old(self).sessions@,
            final(self).accepted_auths() == old(self).accepted_auths(),
            final(self).allow_unverified_devices == old(self).allow_unverified_devices,
            final(self).require_pubkey == old(self).require_pubkey,
    {
        let now = system_time_millis();
        self.register_device_at(manifest, now)
    }

    // ── step 2: challenge ─────────────────────────────────────────────────────

    /// An agent requests a session with a device that is registered and fresh
    /// at `now_ms`: the broker opens session `session_id` holding the challenge
    /// `challenge_id` with the nonce `nonce` in hex, issued at `issued_at`,
    /// valid for a minute, for the capabilities the agent requires at the
    /// device's safety class. An earlier accepted answer for that session no
    /// longer counts.
    pub fn issue_challenge_at(
        &mut self,
        device_id: &str,
        required_caps: Vec<String>,
        now_ms: u64,
        session_id: u128,
        challenge_id: u128,
        nonce: &[u8],
        issued_at: Timestamp,
    ) -> (r: Result<(u128, ChallengeRequest), VcpError>)
        ensures
            final(self).registry@ == old(self).registry@,
            final(self).allow_unverified_devices == old(self).allow_unverified_devices,
            final(self).require_pubkey == old(self).require_pubkey,
            match fresh_manifest(old(self).registry@, device_id@, now_ms) {
                None => (r matches Err(e) && e@ == (VcpErrorView::DeviceNotFound {
                    device_id: device_id@,
                })) && final(self).sessions@ == old(self).sessions@ && final(self).accepted_auths()
                    == old(self).accepted_auths(),
                Some(m) => r matches Ok((sid, c)) && sid == session_id && c@ == challenge_value(
                    challenge_id,
                    nonce@,
                    issued_at,
                    texts_view(required_caps@),
                    m,
                ) && final(self).sessions@ == challenge_spec(old(self).sessions@, session_id, c@)
                    && final(self).accepted_auths() == after_challenge(old(self).accepted_auths(), session_id),
            },
            r matches Ok((sid, c)) ==> (fresh_manifest(old(self).registry@, device_id@, now_ms) matches Some(
                m,
            ) && c.required_safety == m.safety_class && c.challenge_id == challenge_id && c.nonce@
                == hex_text(nonce@) && c.issued_at == issued_at && c.expires_in_secs == 60
                && texts_view(c.required_caps@) == texts_view(required_caps@)),
    {
        let manifest = match self.registry.get_at(device_id, now_ms) {
            Some(m) => m,
            None => {
                return Err(VcpError::DeviceNotFound { device_id: String::from_str(device_id) });
            },
        };
        let nonce = hex_encode(nonce);
        let challenge = ChallengeRequest {
            challenge_id,
            nonce,
            issued_at,
            expires_in_secs: CHALLENGE_TTL_SECS,
            required_caps,
            required_safety: manifest.safety_class,
        };
        self.sessions.insert_challenged(session_id, challenge.clone());
        self.auth_accepted.forget(session_id);
        assert(self.accepted_auths() =~= after_challenge(old(self).accepted_auths(), session_id));
        Ok((session_id, challenge))
    }

    /// An agent requests a session with a registered device: the broker opens a
    /// new session, with a fresh random id, holding a challenge with a fresh
    /// id and a fresh random nonce (the hex of 32 random bytes: those of two
    /// fresh random UUIDs), issued now, valid for a minute, for the
    /// capabilities the agent requires at the device's safety class — as
    /// `issue_challenge_at` says for the clock readings and random values drawn.
    pub fn issue_challenge(
        &mut self,
        device_id: &str,
        agent_did: &str,
        required_caps: Vec<String>,
    ) -> (r: Result<(u128, ChallengeRequest), VcpError>)
        ensures
            final(self).registry@ == old(self).registry@,
            final(self).allow_unverified_devices == old(self).allow_unverified_devices,
            final(self).require_pubkey == old(self).require_pubkey,
            !old(self).registry@.contains_key(device_id@) ==> r is Err,
            match r {
                Err(e) => e@ == (VcpErrorView::DeviceNotFound { device_id: device_id@ })
                    && final(self).sessions@ == old(self).sessions@ && final(self).accepted_auths()
                    == old(self).accepted_auths() && exists|now_ms: u64|
                    #[trigger] fresh_manifest(old(self).registry@, device_id@, now_ms) is None,
                Ok((session_id, c)) => {
                    &&& old(self).registry@.contains_key(device_id@)
                    &&& c.required_safety == old(self).registry@[device_id@].manifest.safety_class
                    &&& c.expires_in_secs == 60
                    &&& texts_view(c.required_caps@) == texts_view(required_caps@)
                    &&& c.nonce@.len() == 64
                    &&& exists|now_ms: u64, nonce: Seq<u8>|
                        nonce.len() == 32 && #[trigger] fresh_manifest(
                            old(self).registry@,
                            device_id@,
                            now_ms,
                        ) == Some(old(self).registry@[device_id@].manifest) && c@
                            == #[trigger] challenge_value(
                            c.challenge_id,
                            nonce,
                            c.issued_at,
                            texts_view(required_caps@),
                            old(self).registry@[device_id@].manifest,
                        )
                    &&& final(self).sessions@ == challenge_spec(old(self).sessions@, session_id, c@)
                    &&& final(self).accepted_auths() == after_challenge(old(self).accepted_auths(), session_id)
                },
            },
    {
        let now = system_time_millis();
        let session_id = new_random_uuid();
        let challenge_id = new_random_uuid();
        let mut nonce = uuid_bytes(new_random_uuid());
        let mut second = uuid_bytes(new_random_uuid());
        nonce.append(&mut second);
        let issued_at = utc_now();
        let ghost nonce_view = nonce@;
        let r = self.issue_challenge_at(
            device_id,
            required_caps,
            now,
            session_id,
            challenge_id,
            nonce.as_slice(),
            issued_at,
        );
        proof {
            if r is Ok {
                law_nonce_shape(nonce_view);
            }
        }
        r
    }

    // ── step 3 + 4: auth + capability negotiation ────────────────────────────

    /// A device answers the challenge of `session_id`; the broker checks it as
    /// `auth_outcome` says at `now_ms` and answers with the negotiation. The
    /// sessions are left as they are (the challenge can be answered again); an
    /// accepted answer is recorded for the session, which a grant requires.
    pub fn handle_auth_at(&mut self, session_id: u128, auth: &AuthResponse, now_ms: u64) -> (r: Result<
        CapabilityNegotiation,
        VcpError,
    >)
        ensures
            final(self).registry@ == old(self).registry@,
            final(self).allow_unverified_devices == old(self).allow_unverified_devices,
            final(self).require_pubkey == old(self).require_pubkey,
            match auth_outcome(
                old(self).registry@,
                old(self).sessions@,
                old(self).allow_unverified_devices,
                old(self).require_pubkey,
                session_id,
                auth.challenge_id,
                auth.device_id@,
                auth.signature@,
                now_ms,
            ) {
                Ok(n) => r matches Ok(neg) && neg@ == n,
                Err(e) => r matches Err(err) && err@ == e,
            },
            r matches Ok(neg) ==> (fresh_manifest(old(self).registry@, auth.device_id@, now_ms) matches Some(m)
                && neg@.offered_caps == m.capabilities && neg.max_safety == m.safety_class
                && neg.challenge_id == auth.challenge_id && neg.device_id@ == auth.device_id@
                && neg.max_duration_secs == 3600 && neg.estimated_cost_uase == 0),
            final(self).sessions@ == old(self).sessions@,
            final(self).accepted_auths() == after_auth(old(self).accepted_auths(), session_id, r is Ok),
    {
        let manifest = match self.registry.get_at(auth.device_id.as_str(), now_ms) {
            Some(m) => m,
            None => {
                return Err(VcpError::DeviceNotFound { device_id: auth.device_id.clone() });
            },
        };
        if manifest.public_key.as_str().is_empty() {
            match require_pubkey_in_production(
                auth.device_id.as_str(),
                manifest.public_key.as_str(),
                self.require_pubkey,
            ) {
                Ok(()) => {},
                Err(e) => {
                    return Err(e);
                },
            }
            if !self.allow_unverified_devices {
                let reason = String::from_str("device '").concat(auth.device_id.as_str()).concat(
                    "' has no public_key — cannot verify auth signature. Refusing the session (set VCP_ALLOW_UNVERIFIED_DEVICES=1 for local dev only).",
                );
                return Err(VcpError::ChallengeFailed { reason });
            }
        } else {
            let challenge = match self.sessions.get_challenge(session_id) {
                Some(c) => c,
                None => {
                    return Err(VcpError::SessionNotFound { session_id: uuid_text(session_id) });
                },
            };
            let challenge_text = uuid_text(auth.challenge_id);
            match verify_auth_signature(
                challenge_text.as_str(),
                challenge.nonce.as_str(),
                manifest.public_key.as_str(),
                auth.signature.as_str(),
            ) {
                Ok(()) => {},
                Err(e) => {
                    return Err(e);
                },
            }
        }
        self.auth_accepted.record(session_id);
        assert(self.accepted_auths() =~= after_auth(old(self).accepted_auths(), session_id, true));
        Ok(
            CapabilityNegotiation {
                challenge_id: auth.challenge_id,
                device_id: auth.device_id.clone(),
                offered_caps: clone_texts(&manifest.capabilities),
                max_safety: manifest.safety_class,
                max_duration_secs: MAX_SESSION_SECS,
                estimated_cost_uase: 0,
            },
        )
    }

    /// A device answers the challenge of `session_id`; the broker checks it
    /// now by the system clock, as `auth_outcome` says, and records an
    /// accepted answer as `handle_auth_at` does.
    pub fn handle_auth(&mut self, session_id: u128, auth: &AuthResponse) -> (r: Result<
        CapabilityNegotiation,
        VcpError,
    >)
        ensures
            final(self).registry@ == old(self).registry@,
            final(self).allow_unverified_devices == old(self).allow_unverified_devices,
            final(self).require_pubkey == old(self).require_pubkey,
            exists|now_ms: u64|
                match #[trigger] auth_outcome(
                    old(self).registry@,
                    old(self).sessions@,
                    old(self).allow_unverified_devices,
                    old(self).require_pubkey,
                    session_id,
                    auth.challenge_id,
                    auth.device_id@,
                    auth.signature@,
                    now_ms,
                ) {
                    Ok(n) => r matches Ok(neg) && neg@ == n,
                    Err(e) => r matches Err(err) && err@ == e,
                },
            r matches Ok(neg) ==> (old(self).registry@.contains_key(auth.device_id@)
                && neg@.offered_caps == old(self).registry@[auth.device_id@].manifest.capabilities
                && neg.max_safety == old(self).registry@[auth.device_id@].manifest.safety_class
                && neg.challenge_id == auth.challenge_id && neg.device_id@ == auth.device_id@
                && neg.max_duration_secs == 3600 && neg.estimated_cost_uase == 0),
            final(self).sessions@ == old(self).sessions@,
            final(self).accepted_auths() == after_auth(old(self).accepted_auths(), session_id, r is Ok),
    {
        let now = system_time_millis();
        self.handle_auth_at(session_id, auth, now)
    }

    // ── step 5: grant ─────────────────────────────────────────────────────────

    /// The agent accepts capabilities; for a device that is registered and
    /// fresh at `now_ms`, and a session that holds a challenge whose answer
    /// was accepted, the broker issues grant `grant_id`, issued at
    /// `issued_at`, with the device's safety class, expiring `duration_secs`
    /// after `base` as chrono computes it, carrying the accepted capabilities
    /// that the challenge required and the device offers; it activates the
    /// session and consumes the accepted answer. An expiry chrono cannot
    /// represent is refused; a refused grant changes nothing.
    pub fn create_grant_at(
        &mut self,
        session_id: u128,
        agent_did: String,
        device_id: String,
        challenge_id: u128,
        granted_caps: Vec<String>,
        duration_secs: i64,
        scope: GrantScope,
        now_ms: u64,
        grant_id: u128,
        issued_at: Timestamp,
        base: Timestamp,
    ) -> (r: Result<CapabilityGrant, VcpError>)
        ensures
            final(self).registry@ == old(self).registry@,
            final(self).allow_unverified_devices == old(self).allow_unverified_devices,
            final(self).require_pubkey == old(self).require_pubkey,
            r is Err ==> final(self).sessions@ == old(self).sessions@ && final(self).accepted_auths()
                == old(self).accepted_auths(),
            match fresh_manifest(old(self).registry@, device_id@, now_ms) {
                None => r matches Err(e) && e@ == (VcpErrorView::DeviceNotFound { device_id: device_id@ }),
                Some(m) => match chrono_add_seconds(base.secs_spec(), base.nanos_spec(), duration_secs) {
                    None => r matches Err(e) && e@ == expiry_out_of_range(),
                    Some(expiry) => match challenge_of(old(self).sessions@, session_id) {
                        None => r matches Err(e) && e@ == session_not_found(session_id),
                        Some(c) => if !old(self).accepted_auths().contains(session_id) {
                            r matches Err(e) && e@ == auth_not_accepted(session_id)
                        } else {
                            r matches Ok(g) && g@ == grant_spec(
                                grant_id,
                                session_id,
                                agent_did@,
                                device_id@,
                                challenge_id,
                                granted_caps_spec(texts_view(granted_caps@), c.required_caps, m.capabilities),
                                scope,
                                m,
                                issued_at,
                                g.expires_at,
                            ) && (g.expires_at.secs_spec(), g.expires_at.nanos_spec()) == expiry
                                && final(self).sessions@ == activate_spec(
                                old(self).sessions@,
                                session_id,
                                g@,
                            ).0 && final(self).accepted_auths() == after_grant(
                                old(self).accepted_auths(),
                                session_id,
                                true,
                            )
                        },
                    },
                },
            },
            r matches Ok(g) ==> base.nanos_spec() < 1_000_000_000 ==> g.expires_at.secs_spec()
                == base.secs_spec() + duration_secs && g.expires_at.nanos_spec() == base.nanos_spec(),
            r matches Ok(g) ==> (fresh_manifest(old(self).registry@, device_id@, now_ms) matches Some(m)
                && g.agent_did@ == agent_did@ && g.device_id@ == device_id@ && g.session_id == session_id
                && g.challenge_id == challenge_id && g.grant_id == grant_id && g.scope == scope
                && g.issued_at == issued_at && g.max_safety == m.safety_class
                && g.agent_signature@.len() == 0 && g.parent_signature is None),
    {
        let manifest = match self.registry.get_at(device_id.as_str(), now_ms) {
            Some(m) => m,
            None => {
                return Err(VcpError::DeviceNotFound { device_id });
            },
        };
        let expires_at = match add_seconds(base, duration_secs) {
            Some(t) => t,
            None => {
                return Err(VcpError::ChallengeFailed {
                    reason: String::from_str("grant duration out of range"),
                });
            },
        };
        let challenge = match self.sessions.get_challenge(session_id) {
            Some(c) => c,
            None => {
                return Err(VcpError::SessionNotFound { session_id: uuid_text(session_id) });
            },
        };
        if !self.auth_accepted.contains(session_id) {
            let reason = String::from_str("no accepted auth response for session ").concat(
                uuid_text(session_id).as_str(),
            );
            return Err(VcpError::ChallengeFailed { reason });
        }
        let caps = keep_granted_caps(&granted_caps, &challenge.required_caps, &manifest.capabilities);
        let grant = CapabilityGrant {
            grant_id,
            challenge_id,
            device_id,
            agent_did,
            session_id,
            scope,
            granted_caps: caps,
            max_safety: manifest.safety_class,
            issued_at,
            expires_at,
            agent_signature: String::new(),
            parent_signature: None,
        };
        match self.sessions.activate(session_id, grant.clone()) {
            Ok(()) => {},
            Err(e) => {
                return Err(e);
            },
        }
        self.auth_accepted.forget(session_id);
        assert(self.accepted_auths() =~= after_grant(old(self).accepted_auths(), session_id, true));
        Ok(grant)
    }

    /// The agent accepts capabilities; the broker issues a grant with a fresh
    /// random id, issued now, expiring `duration_secs` after a reading of the
    /// clock, and activates the session — as `create_grant_at` says for the
    /// clock readings and random id drawn. The duration must be one chrono can
    /// hold (`TimeDelta::seconds` panics otherwise); an expiry past the last
    /// date chrono can represent is refused.
    pub fn create_grant(
        &mut self,
        session_id: u128,
        agent_did: String,
        device_id: String,
        challenge_id: u128,
        granted_caps: Vec<String>,
        duration_secs: i64,
        scope: GrantScope,
    ) -> (r: Result<CapabilityGrant, VcpError>)
        requires
            -(i64::MAX / 1000) <= duration_secs <= i64::MAX / 1000,
        ensures
            final(self).registry@ == old(self).registry@,
            final(self).allow_unverified_devices == old(self).allow_unverified_devices,
            final(self).require_pubkey == old(self).require_pubkey,
            !old(self).registry@.contains_key(device_id@) ==> (r matches Err(e) && e@
                == (VcpErrorView::DeviceNotFound { device_id: device_id@ })),
            !old(self).accepted_auths().contains(session_id) ==> r is Err,
            challenge_of(old(self).sessions@, session_id) is None ==> r is Err,
            match r {
                Ok(g) => {
                    &&& old(self).registry@.contains_key(device_id@)
                    &&& g.agent_did@ == agent_did@
                    &&& g.device_id@ == device_id@
                    &&& g.session_id == session_id
                    &&& g.challenge_id == challenge_id
                    &&& g.scope == scope
                    &&& g.max_safety == old(self).registry@[device_id@].manifest.safety_class
                    &&& g.agent_signature@.len() == 0
                    &&& g.parent_signature is None
                    &&& exists|now_ms: u64|
                        #[trigger] fresh_manifest(old(self).registry@, device_id@, now_ms) is Some
                    &&& old(self).accepted_auths().contains(session_id)
                    &&& challenge_of(old(self).sessions@, session_id) is Some
                    &&& g@ == grant_spec(
                        g.grant_id,
                        session_id,
                        agent_did@,
                        device_id@,
                        challenge_id,
                        granted_caps_spec(
                            texts_view(granted_caps@),
                            challenge_of(old(self).sessions@, session_id)->0.required_caps,
                            old(self).registry@[device_id@].manifest.capabilities,
                        ),
                        scope,
                        old(self).registry@[device_id@].manifest,
                        g.issued_at,
                        g.expires_at,
                    )
                    &&& exists|base: Timestamp|
                        chrono_add_seconds(base.secs_spec(), base.nanos_spec(), duration_secs)
                            == Some((g.expires_at.secs_spec(), g.expires_at.nanos_spec()))
                            && g.expires_at.secs_spec() == base.secs_spec() + duration_secs
                            && g.expires_at.nanos_spec() == base.nanos_spec()
                    &&& final(self).sessions@ == activate_spec(old(self).sessions@, session_id, g@).0
                    &&& final(self).accepted_auths() == after_grant(old(self).accepted_auths(), session_id, true)
                },
                Err(e) => final(self).sessions@ == old(self).sessions@ && final(self).accepted_auths()
                    == old(self).accepted_auths() && (e@ == (VcpErrorView::DeviceNotFound {
                    device_id: device_id@,
                }) || e@ == session_not_found(session_id) || e@ == auth_not_accepted(session_id)
                    || e@ == expiry_out_of_range()),
            },
    {
        let now = system_time_millis();
        let grant_id = new_random_uuid();
        let issued_at = utc_now();
        let base = utc_now();
        self.create_grant_at(
            session_id,
            agent_did,
            device_id,
            challenge_id,
            granted_caps,
            duration_secs,
            scope,
            now,
            grant_id,
            issued_at,
            base,
        )
    }

    // ── GIX link of a completed session ───────────────────────────────────────

    /// For an active session, the two envelopes its GIX `vcp_session` edge links
    /// (the granted device, the receipt), created now by the system clock;
    /// `None` for a session without an active grant.
    pub fn session_link(&self, session_id: u128, receipt: &VcpReceipt) -> (r: Option<SessionLink>)
        ensures
            r is None <==> grant_of(self.sessions@, session_id) is None,
            r matches Some(l) ==> l.device_id@ == grant_of(self.sessions@, session_id)->0.device_id
                && l.receipt_id@ == uuid_text_spec(receipt.receipt_id),
    {
        let grant = match self.sessions.get_grant(session_id) {
            Some(g) => g,
            None => {
                return None;
            },
        };
        let created_at_ms = system_time_millis();
        Some(
            SessionLink {
                device_id: grant.device_id,
                receipt_id: uuid_text(receipt.receipt_id),
                created_at_ms,
            },
        )
    }

    // ── revocation ────────────────────────────────────────────────────────────

    /// Revokes a session, whatever its state, recording the reason's `Debug`
    /// text, and returns the (unsigned) revocation record.
    pub fn revoke(
        &mut self,
        session_id: u128,
        grant_id: u128,
        revoker_did: String,
        reason: RevocationReason,
    ) -> (r: RevocationRecord)
        ensures
            final(self).sessions@ == revoke_spec(old(self).sessions@, session_id, reason.debug_text_spec()),
            final(self).accepted_auths() == after_revoke(old(self).accepted_auths(), session_id),
            final(self).registry@ == old(self).registry@,
            final(self).allow_unverified_devices == old(self).allow_unverified_devices,
            final(self).require_pubkey == old(self).require_pubkey,
            r.grant_id == grant_id,
            r.session_id == session_id,
            r.reason == reason,
            r.signature@.len() == 0,
            r.revoker_did == revoker_did,
    {
        let reason_text = reason.debug_text();
        self.sessions.revoke(session_id, reason_text);
        self.auth_accepted.forget(session_id);
        assert(self.accepted_auths() =~= after_revoke(old(self).accepted_auths(), session_id));
        RevocationRecord {
            grant_id,
            session_id,
            revoked_at: utc_now(),
            reason,
            signature: String::new(),
            revoker_did,
        }
    }
}

impl Default for HandshakeEngine {
    fn default() -> (r: Self)
        ensures
            r.registry@ == Map::<Seq<char>, RegistryEntryView>::empty(),
            r.sessions@ == Map::<u128, crate::session_store::SessionStateView>::empty(),
            r.accepted_auths() == Set::<u128>::empty(),
            !r.allow_unverified_devices,
            !r.require_pubkey,
    {
        Self::new()
    }
}

} // verus!
