use serde_json::Value;
use sha2::Digest;
use vcp::receipt::{SessionOutcome, VcpReceipt, WitnessAttestation};
use vcp::Timestamp;

fn ts(secs: i64, nanos: u32) -> Timestamp {
    Timestamp::new(secs, nanos).unwrap()
}

fn sample_receipt() -> VcpReceipt {
    VcpReceipt {
        receipt_id: 1,
        session_id: 2,
        grant_id: 3,
        device_id: "dev\"1\n".into(),
        agent_did: "did:a".into(),
        owner_did: "did:o".into(),
        started_at: ts(1_700_000_000, 0),
        ended_at: ts(1_700_000_060, 500_000_000),
        outcome: SessionOutcome::Success,
        message_count: 7,
        command_count: 2,
        telemetry_count: 5,
        telemetry_hash: Some("abc".into()),
        trajectory_hash: None,
        sim_proof_id: None,
        witnesses: vec![WitnessAttestation {
            witness_id: "w".into(),
            attested_at: ts(1_700_000_001, 0),
            observation: "ok".into(),
            outcome_hash: "h".into(),
            signature: "s".into(),
        }],
        zangbeto_anchor: None,
        gix1_canonical_id: None,
        device_signature: String::new(),
        agent_signature: String::new(),
    }
}

const EXPECTED: &str = "{\"agent_did\":\"did:a\",\"device_id\":\"dev\\\"1\\n\",\"ended_at\":\"2023-11-14T22:14:20.500Z\",\"grant_id\":\"00000000-0000-0000-0000-000000000003\",\"message_count\":7,\"outcome\":\"Success\",\"receipt_id\":\"00000000-0000-0000-0000-000000000001\",\"session_id\":\"00000000-0000-0000-0000-000000000002\",\"started_at\":\"2023-11-14T22:13:20Z\",\"telemetry_hash\":\"abc\",\"trajectory_hash\":null}";

#[test]
fn canonical_json_exact_text() {
    assert_eq!(sample_receipt().canonical_json(), EXPECTED);
}

#[test]
fn canonical_json_matches_serde_json_object() {
    let r = sample_receipt();
    let started = chrono::DateTime::from_timestamp(1_700_000_000, 0).unwrap();
    let ended = chrono::DateTime::from_timestamp(1_700_000_060, 500_000_000).unwrap();
    let mut m = serde_json::Map::new();
    m.insert("receipt_id".into(), serde_json::to_value(uuid::Uuid::from_u128(1)).unwrap());
    m.insert("session_id".into(), serde_json::to_value(uuid::Uuid::from_u128(2)).unwrap());
    m.insert("grant_id".into(), serde_json::to_value(uuid::Uuid::from_u128(3)).unwrap());
    m.insert("device_id".into(), Value::String(r.device_id.clone()));
    m.insert("agent_did".into(), Value::String(r.agent_did.clone()));
    m.insert("started_at".into(), serde_json::to_value(started).unwrap());
    m.insert("ended_at".into(), serde_json::to_value(ended).unwrap());
    m.insert("outcome".into(), Value::String("Success".into()));
    m.insert("message_count".into(), Value::from(7u64));
    m.insert("telemetry_hash".into(), Value::String("abc".into()));
    m.insert("trajectory_hash".into(), Value::Null);
    assert_eq!(r.canonical_json(), Value::Object(m).to_string());
}

#[test]
fn hash_is_sha256_hex_of_canonical_json() {
    let r = sample_receipt();
    let expected = hex::encode(sha2::Sha256::digest(EXPECTED.as_bytes()));
    assert_eq!(r.hash(), expected);
    assert_eq!(r.hash().len(), 64);
}

#[test]
fn hash_covers_outcome_but_not_signatures() {
    let a = sample_receipt();
    let mut b = sample_receipt();
    b.device_signature = "sig".into();
    b.witnesses.clear();
    assert_eq!(a.hash(), b.hash());
    b.outcome = SessionOutcome::DeviceFault;
    assert_ne!(a.hash(), b.hash());
}

#[test]
fn clone_keeps_receipt() {
    let a = sample_receipt();
    let b = a.clone();
    assert_eq!(a.hash(), b.hash());
    assert_eq!(b.witnesses.len(), 1);
    assert_eq!(b.witnesses[0].observation, "ok");
}

#[test]
fn nanosecond_times_are_written_in_full() {
    let mut r = sample_receipt();
    r.started_at = ts(1_700_000_000, 5);
    assert!(r
        .canonical_json()
        .contains("\"started_at\":\"2023-11-14T22:13:20.000000005Z\""));
}

#[test]
fn outcome_names() {
    assert_eq!(SessionOutcome::OwnerRevoked.name(), "OwnerRevoked");
    assert_eq!(SessionOutcome::ConnectivityLoss.name(), "ConnectivityLoss");
}
