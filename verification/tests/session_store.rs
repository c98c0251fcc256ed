use vcp::handshake::{CapabilityGrant, ChallengeRequest, GrantScope};
use vcp::receipt::{SessionOutcome, VcpReceipt};
use vcp::session_store::SessionStore;
use vcp::{SafetyClass, Timestamp};

fn now() -> Timestamp {
    Timestamp::new(1_700_000_000, 0).unwrap()
}

fn new_id() -> u128 {
    uuid::Uuid::new_v4().as_u128()
}

fn make_grant(session_id: u128) -> CapabilityGrant {
    CapabilityGrant {
        grant_id: new_id(),
        challenge_id: new_id(),
        device_id: "dev-001".into(),
        agent_did: "did:test:agent".into(),
        session_id,
        scope: GrantScope::Exclusive,
        granted_caps: vec![],
        max_safety: SafetyClass::Observer,
        issued_at: now(),
        expires_at: now(),
        agent_signature: String::new(),
        parent_signature: None,
    }
}

fn make_receipt() -> VcpReceipt {
    VcpReceipt {
        receipt_id: new_id(),
        session_id: new_id(),
        grant_id: new_id(),
        device_id: "dev-001".into(),
        agent_did: "did:test:agent".into(),
        owner_did: "did:test:owner".into(),
        started_at: now(),
        ended_at: now(),
        outcome: SessionOutcome::Success,
        message_count: 0,
        command_count: 0,
        telemetry_count: 0,
        telemetry_hash: None,
        trajectory_hash: None,
        sim_proof_id: None,
        witnesses: vec![],
        zangbeto_anchor: None,
        gix1_canonical_id: None,
        device_signature: String::new(),
        agent_signature: String::new(),
    }
}

fn make_challenge(nonce: &str) -> ChallengeRequest {
    ChallengeRequest {
        challenge_id: new_id(),
        nonce: nonce.into(),
        issued_at: now(),
        expires_in_secs: 60,
        required_caps: vec![],
        required_safety: SafetyClass::Observer,
    }
}

fn activated_session() -> (SessionStore, u128) {
    let mut store = SessionStore::new();
    let sid = new_id();
    store.insert_challenged(sid, make_challenge("abc"));
    let grant = make_grant(sid);
    store.activate(sid, grant).unwrap();
    (store, sid)
}

/// The 32-byte canonical id of the receipt's GIX1 envelope, as the GIX layer computes it.
const RECEIPT_GIX1_ID: [u8; 32] = [0x5a; 32];

#[test]
fn complete_auto_stamps_gix1() {
    let (mut store, sid) = activated_session();
    let receipt = make_receipt();
    assert!(receipt.gix1_canonical_id.is_none());
    store.complete(sid, receipt, &RECEIPT_GIX1_ID).unwrap();
    let stored = store.get_receipt(sid).unwrap();
    assert!(stored.gix1_canonical_id.is_some());
    let hex = stored.gix1_canonical_id.unwrap();
    assert_eq!(hex.len(), 64);
    assert_eq!(hex, "5a".repeat(32));
}

#[test]
fn complete_preserves_existing_gix1() {
    let (mut store, sid) = activated_session();
    let mut receipt = make_receipt();
    receipt.gix1_canonical_id = Some("a".repeat(64));
    store.complete(sid, receipt, &RECEIPT_GIX1_ID).unwrap();
    let stored = store.get_receipt(sid).unwrap();
    assert_eq!(stored.gix1_canonical_id.unwrap(), "a".repeat(64));
}

#[test]
fn challenge_reads_back_until_activation() {
    let mut store = SessionStore::new();
    let sid = new_id();
    store.insert_challenged(sid, make_challenge("nonce-1"));
    assert_eq!(store.get_challenge(sid).unwrap().nonce, "nonce-1");
    assert!(store.get_grant(sid).is_none());
    assert!(store.get_receipt(sid).is_none());
    let grant = make_grant(sid);
    let grant_id = grant.grant_id;
    store.activate(sid, grant).unwrap();
    assert!(store.get_challenge(sid).is_none());
    assert_eq!(store.get_grant(sid).unwrap().grant_id, grant_id);
}

#[test]
fn activate_requires_challenged_session() {
    let mut store = SessionStore::new();
    let sid: u128 = 0x0123_4567_89ab_cdef_0123_4567_89ab_cdef;
    let err = store.activate(sid, make_grant(sid)).unwrap_err();
    assert_eq!(
        err.message(),
        "session not found: 01234567-89ab-cdef-0123-456789abcdef"
    );
    assert!(store.get_grant(sid).is_none());
    // An active session cannot be activated again.
    let (mut store, sid) = activated_session();
    assert!(store.activate(sid, make_grant(sid)).is_err());
}

#[test]
fn complete_requires_active_session() {
    let mut store = SessionStore::new();
    let sid = new_id();
    store.insert_challenged(sid, make_challenge("n"));
    assert!(store.complete(sid, make_receipt(), &RECEIPT_GIX1_ID).is_err());
    assert!(store.get_receipt(sid).is_none());
    assert!(store.get_challenge(sid).is_some());
}

#[test]
fn revoke_ends_every_state() {
    let (mut store, sid) = activated_session();
    store.revoke(sid, "AgentRequest".into());
    assert!(store.get_challenge(sid).is_none());
    assert!(store.get_grant(sid).is_none());
    assert!(store.get_receipt(sid).is_none());
    assert!(store.activate(sid, make_grant(sid)).is_err());
    assert!(store.complete(sid, make_receipt(), &RECEIPT_GIX1_ID).is_err());
}

#[test]
fn other_sessions_are_untouched() {
    let (mut store, sid) = activated_session();
    let other = new_id();
    store.insert_challenged(other, make_challenge("other"));
    store.revoke(sid, "x".into());
    assert_eq!(store.get_challenge(other).unwrap().nonce, "other");
}
