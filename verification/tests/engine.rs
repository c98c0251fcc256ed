use ed25519_dalek::Signer;
use sha2::Digest;
use vcp::handshake::AuthResponse;
use vcp::handshake_engine::{pubkey_required, unverified_devices_allowed};
use vcp::receipt::{SessionOutcome, VcpReceipt};
use vcp::{
    DeviceClass, DeviceManifest, GrantScope, HandshakeEngine, RevocationReason, SafetyClass,
    Timestamp, VcpError,
};

fn signing_key() -> ed25519_dalek::SigningKey {
    ed25519_dalek::SigningKey::from_bytes(&[9u8; 32])
}

fn manifest_with_key(device_id: &str, public_key: &str) -> DeviceManifest {
    DeviceManifest {
        device_id: device_id.into(),
        label: "test device".into(),
        owner_did: "did:test:owner".into(),
        class: DeviceClass::SensorNode,
        safety_class: SafetyClass::Observer,
        capabilities: vec![],
        vcp_version: 1,
        firmware: "test/0".into(),
        issued_at: Timestamp::new(1_700_000_000, 0).unwrap(),
        expires_at: None,
        public_key: public_key.into(),
        signature: String::new(),
    }
}

fn make_receipt(session_id: u128) -> VcpReceipt {
    VcpReceipt {
        receipt_id: uuid::Uuid::new_v4().as_u128(),
        session_id,
        grant_id: uuid::Uuid::new_v4().as_u128(),
        device_id: "dev-001".into(),
        agent_did: "did:test:agent".into(),
        owner_did: "did:test:owner".into(),
        started_at: Timestamp::new(1_700_000_000, 0).unwrap(),
        ended_at: Timestamp::new(1_700_000_000, 0).unwrap(),
        outcome: SessionOutcome::Success,
        message_count: 0,
        command_count: 0,
        telemetry_count: 0,
        telemetry_hash: None,
        trajectory_hash: None,
        sim_proof_id: None,
        witnesses: vec![],
        zangbeto_anchor: None,
        gix1_canonical_id: None,
        device_signature: String::new(),
        agent_signature: String::new(),
    }
}

fn auth(challenge_id: u128, device_id: &str, signature: String) -> AuthResponse {
    AuthResponse {
        challenge_id,
        device_id: device_id.into(),
        signature,
        agent_did: Some("did:test:agent".into()),
        responded_at: Timestamp::new(1_700_000_000, 0).unwrap(),
    }
}

#[test]
fn register_device_rejects_empty_public_key() {
    let mut engine = HandshakeEngine::new();
    let err = engine
        .register_device(manifest_with_key("dev-keyless", ""))
        .expect_err("keyless device must not register");
    assert!(
        err.message().contains("empty public_key"),
        "unexpected error: {}",
        err.message()
    );
    assert!(
        engine.registry.get("dev-keyless").is_none(),
        "rejected device must not be reachable in the registry"
    );
}

#[test]
fn register_device_accepts_valid_public_key() {
    let mut engine = HandshakeEngine::new();
    engine
        .register_device(manifest_with_key("dev-keyed", &"ab".repeat(32)))
        .expect("keyed device must register");
    assert!(engine.registry.get("dev-keyed").is_some());
}

#[test]
fn session_composite_returns_none_for_missing_session() {
    let engine = HandshakeEngine::new();
    let sid = uuid::Uuid::new_v4().as_u128();
    assert!(engine.session_link(sid, &make_receipt(sid)).is_none());
}

#[test]
fn register_device_rejects_empty_device_id() {
    let mut engine = HandshakeEngine::new();
    let err = engine.register_device(manifest_with_key("", &"ab".repeat(32))).unwrap_err();
    assert_eq!(err.message(), "challenge failed: device_id must not be empty");
}

#[test]
fn full_handshake_with_signed_challenge() {
    let mut engine = HandshakeEngine::new();
    let pk = hex::encode(signing_key().verifying_key().to_bytes());
    let mut m = manifest_with_key("robot-1", &pk);
    m.safety_class = SafetyClass::IndoorMotion;
    let imu = "{\"kind\":\"imu\",\"dof\":6,\"sample_rate_hz\":100}".to_string();
    m.capabilities = vec![imu.clone()];
    engine.register_device(m).unwrap();

    let (sid, challenge) = engine
        .issue_challenge("robot-1", "did:test:agent", vec![imu.clone(), "lidar".into()])
        .unwrap();
    assert_eq!(challenge.expires_in_secs, 60);
    assert_eq!(challenge.required_safety, SafetyClass::IndoorMotion);
    assert_eq!(challenge.required_caps, vec![imu.clone(), "lidar".to_string()]);
    assert_eq!(challenge.nonce.len(), 64);
    assert!(challenge.nonce.chars().all(|c| c.is_ascii_hexdigit() && !c.is_ascii_uppercase()));

    let cid_text = uuid::Uuid::from_u128(challenge.challenge_id).to_string();
    let msg = sha2::Sha256::digest(format!("{}:{}", cid_text, challenge.nonce).as_bytes());
    let sig = hex::encode(signing_key().sign(&msg).to_bytes());
    let neg = engine
        .handle_auth(sid, &auth(challenge.challenge_id, "robot-1", sig))
        .unwrap();
    assert_eq!(neg.challenge_id, challenge.challenge_id);
    assert_eq!(neg.max_safety, SafetyClass::IndoorMotion);
    assert_eq!(neg.max_duration_secs, 3600);
    assert_eq!(neg.estimated_cost_uase, 0);
    assert_eq!(neg.offered_caps.len(), 1);

    let grant = engine
        .create_grant(
            sid,
            "did:test:agent".into(),
            "robot-1".into(),
            challenge.challenge_id,
            vec!["lidar".into(), imu.clone(), "gps".into()],
            120,
            GrantScope::Shared,
        )
        .unwrap();
    assert_eq!(grant.session_id, sid);
    assert_eq!(grant.scope, GrantScope::Shared);
    assert_eq!(grant.max_safety, SafetyClass::IndoorMotion);
    // Only what was required, offered and accepted is granted.
    assert_eq!(grant.granted_caps, vec![imu.clone()]);
    assert!(grant.agent_signature.is_empty());
    assert!(grant.expires_at.secs() >= grant.issued_at.secs() + 120);
    assert!(grant.expires_at.secs() <= grant.issued_at.secs() + 121);
    assert_eq!(engine.sessions.get_grant(sid).unwrap().grant_id, grant.grant_id);

    let receipt = make_receipt(sid);
    let link = engine.session_link(sid, &receipt).unwrap();
    assert_eq!(link.device_id, "robot-1");
    assert_eq!(link.receipt_id, uuid::Uuid::from_u128(receipt.receipt_id).to_string());

    let record = engine.revoke(sid, grant.grant_id, "did:owner".into(), RevocationReason::DeviceOwnerOverride);
    assert_eq!(record.session_id, sid);
    assert_eq!(record.revoker_did, "did:owner");
    assert!(engine.sessions.get_grant(sid).is_none());
    assert!(engine.session_link(sid, &receipt).is_none());
}

#[test]
fn auth_with_wrong_signature_is_refused() {
    let mut engine = HandshakeEngine::new();
    let pk = hex::encode(signing_key().verifying_key().to_bytes());
    engine.register_device(manifest_with_key("robot-2", &pk)).unwrap();
    let (sid, challenge) = engine.issue_challenge("robot-2", "did:a", vec![]).unwrap();
    let msg = sha2::Sha256::digest(b"something else");
    let sig = hex::encode(signing_key().sign(&msg).to_bytes());
    let err = engine.handle_auth(sid, &auth(challenge.challenge_id, "robot-2", sig)).unwrap_err();
    assert!(matches!(err, VcpError::SignatureInvalid));
}

#[test]
fn auth_for_unknown_device_or_session_is_refused() {
    let mut engine = HandshakeEngine::new();
    let err = engine.handle_auth(1, &auth(2, "ghost", "00".into())).unwrap_err();
    assert_eq!(err.message(), "device not found: ghost");
    let pk = hex::encode(signing_key().verifying_key().to_bytes());
    engine.register_device(manifest_with_key("robot-3", &pk)).unwrap();
    let err = engine.handle_auth(5, &auth(2, "robot-3", "00".into())).unwrap_err();
    assert_eq!(err.message(), "session not found: 00000000-0000-0000-0000-000000000005");
}

#[test]
fn keyless_devices_only_in_development_mode() {
    let mut engine = HandshakeEngine::with_auth_policy(true, false);
    engine.register_device(manifest_with_key("dev-keyless", "")).unwrap();
    let (sid, challenge) = engine.issue_challenge("dev-keyless", "did:a", vec![]).unwrap();
    let neg = engine.handle_auth(sid, &auth(challenge.challenge_id, "dev-keyless", String::new()));
    assert!(neg.is_ok());

    // The production gate takes priority over the development escape hatch.
    let mut engine = HandshakeEngine::with_auth_policy(true, true);
    engine.register_device(manifest_with_key("dev-keyless", "")).unwrap();
    let (sid, challenge) = engine.issue_challenge("dev-keyless", "did:a", vec![]).unwrap();
    let err = engine
        .handle_auth(sid, &auth(challenge.challenge_id, "dev-keyless", String::new()))
        .unwrap_err();
    assert!(err.message().contains("VCP_REQUIRE_PUBKEY=true"));
}

#[test]
fn issue_challenge_for_unknown_device_fails() {
    let mut engine = HandshakeEngine::default();
    let err = engine.issue_challenge("nope", "did:a", vec![]).unwrap_err();
    assert_eq!(err.message(), "device not found: nope");
}

#[test]
fn create_grant_requires_challenged_session_and_sane_duration() {
    let mut engine = HandshakeEngine::new();
    engine.register_device(manifest_with_key("d", &"ab".repeat(32))).unwrap();
    let err = engine
        .create_grant(7, "did:a".into(), "d".into(), 1, vec![], 60, GrantScope::Exclusive)
        .unwrap_err();
    assert_eq!(err.message(), "session not found: 00000000-0000-0000-0000-000000000007");
    let err = engine
        .create_grant(7, "did:a".into(), "missing".into(), 1, vec![], 60, GrantScope::Exclusive)
        .unwrap_err();
    assert_eq!(err.message(), "device not found: missing");
    let (sid, c) = engine.issue_challenge("d", "did:a", vec![]).unwrap();
    let err = engine
        .create_grant(sid, "did:a".into(), "d".into(), c.challenge_id, vec![], 9_000_000_000_000_000, GrantScope::Exclusive)
        .unwrap_err();
    assert_eq!(err.message(), "challenge failed: grant duration out of range");
    assert!(engine.sessions.get_challenge(sid).is_some());
}

#[test]
fn revocation_records_debug_text_of_reason() {
    let mut engine = HandshakeEngine::new();
    let r = RevocationReason::PolicyViolation("too \"fast\"\n".into());
    assert_eq!(r.debug_text(), format!("{:?}", r));
    assert_eq!(RevocationReason::GrantExpired.debug_text(), "GrantExpired");
    let rec = engine.revoke(3, 4, "did:x".into(), RevocationReason::AgentRequest);
    assert_eq!(rec.grant_id, 4);
    assert!(rec.signature.is_empty());
    assert!(matches!(rec.reason, RevocationReason::AgentRequest));
}

#[test]
fn environment_settings() {
    assert!(unverified_devices_allowed(Some("1")));
    assert!(unverified_devices_allowed(Some("true")));
    assert!(!unverified_devices_allowed(Some("yes")));
    assert!(!unverified_devices_allowed(None));
    assert!(pubkey_required(Some("true")));
    assert!(!pubkey_required(Some("1")));
    assert!(!pubkey_required(None));
}

#[test]
fn timestamps() {
    assert!(Timestamp::new(0, 2_000_000_000).is_none());
    let t = Timestamp::new(1_700_000_000, 5).unwrap();
    assert_eq!((t.secs(), t.nanos()), (1_700_000_000, 5));
}

#[test]
fn grant_requires_accepted_auth() {
    let mut engine = HandshakeEngine::new();
    let pk = hex::encode(signing_key().verifying_key().to_bytes());
    engine.register_device(manifest_with_key("robot-4", &pk)).unwrap();
    let (sid, challenge) = engine.issue_challenge("robot-4", "did:a", vec![]).unwrap();
    let sid_text = uuid::Uuid::from_u128(sid).to_string();

    // A bare challenge gets no grant.
    let err = engine
        .create_grant(sid, "did:a".into(), "robot-4".into(), challenge.challenge_id, vec![], 60, GrantScope::Exclusive)
        .unwrap_err();
    assert_eq!(
        err.message(),
        format!("challenge failed: no accepted auth response for session {}", sid_text)
    );

    // A refused answer changes nothing: still no grant.
    let bad = hex::encode(signing_key().sign(&sha2::Sha256::digest(b"other")).to_bytes());
    assert!(engine.handle_auth(sid, &auth(challenge.challenge_id, "robot-4", bad)).is_err());
    assert!(engine.sessions.get_challenge(sid).is_some());
    assert!(engine
        .create_grant(sid, "did:a".into(), "robot-4".into(), challenge.challenge_id, vec![], 60, GrantScope::Exclusive)
        .is_err());

    // An accepted answer opens the way to the grant; the challenge stays readable.
    let cid_text = uuid::Uuid::from_u128(challenge.challenge_id).to_string();
    let msg = sha2::Sha256::digest(format!("{}:{}", cid_text, challenge.nonce).as_bytes());
    let sig = hex::encode(signing_key().sign(&msg).to_bytes());
    engine.handle_auth(sid, &auth(challenge.challenge_id, "robot-4", sig.clone())).unwrap();
    assert!(engine.sessions.get_challenge(sid).is_some());
    assert!(engine.auth_accepted.contains(sid));
    // The challenge can be answered again, as long as it is pending.
    engine.handle_auth(sid, &auth(challenge.challenge_id, "robot-4", sig.clone())).unwrap();
    let grant = engine
        .create_grant(sid, "did:a".into(), "robot-4".into(), challenge.challenge_id, vec![], 60, GrantScope::Exclusive)
        .unwrap();
    assert_eq!(engine.sessions.get_grant(sid).unwrap().grant_id, grant.grant_id);
    assert!(!engine.auth_accepted.contains(sid));
    // Once granted, the challenge is no longer pending.
    let err = engine.handle_auth(sid, &auth(challenge.challenge_id, "robot-4", sig)).unwrap_err();
    assert_eq!(err.message(), format!("session not found: {}", sid_text));
    // A new challenge for the session needs a new accepted answer.
    let issued = Timestamp::new(1_700_000_000, 0).unwrap();
    engine.revoke(sid, grant.grant_id, "did:a".into(), RevocationReason::AgentRequest);
    engine.issue_challenge_at("robot-4", vec![], 0, sid, 1, &[7u8; 32], issued).ok();
    assert!(!engine.auth_accepted.contains(sid));
}

#[test]
fn keyless_development_device_is_granted_after_auth() {
    let mut engine = HandshakeEngine::with_auth_policy(true, false);
    engine.register_device(manifest_with_key("dev-keyless", "")).unwrap();
    let (sid, challenge) = engine.issue_challenge("dev-keyless", "did:a", vec![]).unwrap();
    assert!(engine
        .create_grant(sid, "did:a".into(), "dev-keyless".into(), challenge.challenge_id, vec![], 30, GrantScope::Exclusive)
        .is_err());
    engine.handle_auth(sid, &auth(challenge.challenge_id, "dev-keyless", String::new())).unwrap();
    let grant = engine
        .create_grant(sid, "did:a".into(), "dev-keyless".into(), challenge.challenge_id, vec![], 30, GrantScope::Exclusive)
        .unwrap();
    assert_eq!(grant.session_id, sid);
}

#[test]
fn handshake_at_given_instants() {
    let mut engine = HandshakeEngine::new();
    let pk = hex::encode(signing_key().verifying_key().to_bytes());
    engine.register_device_at(manifest_with_key("robot-5", &pk), 1_000).unwrap();
    let issued = Timestamp::new(1_700_000_000, 7).unwrap();
    let (sid, challenge) = engine
        .issue_challenge_at("robot-5", vec!["a".into(), "b".into()], 2_000, 11, 12, &[0xabu8; 32], issued)
        .unwrap();
    assert_eq!(sid, 11);
    assert_eq!(challenge.challenge_id, 12);
    assert_eq!(challenge.nonce, "ab".repeat(32));
    let cid_text = uuid::Uuid::from_u128(12).to_string();
    let msg = sha2::Sha256::digest(format!("{}:{}", cid_text, challenge.nonce).as_bytes());
    let sig = hex::encode(signing_key().sign(&msg).to_bytes());
    engine.handle_auth_at(11, &auth(12, "robot-5", sig), 3_000).unwrap();
    let grant = engine
        .create_grant_at(11, "did:a".into(), "robot-5".into(), 12, vec!["b".into()], 90, GrantScope::Exclusive, 4_000, 99, issued, issued)
        .unwrap();
    assert_eq!(grant.grant_id, 99);
    // The device offers nothing, so nothing is granted.
    assert!(grant.granted_caps.is_empty());
    assert_eq!((grant.expires_at.secs(), grant.expires_at.nanos()), (1_700_000_090, 7));
    // A device not seen for more than five minutes is no longer found.
    let err = engine.handle_auth_at(11, &auth(12, "robot-5", String::new()), 1_000 + 300_001).unwrap_err();
    assert_eq!(err.message(), "device not found: robot-5");
}

#[test]
fn timestamp_range_and_leap_seconds() {
    assert!(Timestamp::new(8_210_266_876_799, 999_999_999).is_some());
    assert!(Timestamp::new(8_210_266_876_800, 0).is_none());
    assert!(Timestamp::new(-8_334_601_228_800, 0).is_some());
    assert!(Timestamp::new(-8_334_601_228_801, 0).is_none());
    assert!(Timestamp::new(59, 1_500_000_000).is_some());
    assert!(Timestamp::new(58, 1_500_000_000).is_none());
    assert!(Timestamp::new(-1, 1_999_999_999).is_some());
}
