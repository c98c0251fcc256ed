use ed25519_dalek::Signer;
use sha2::Digest;
use vcp::crypto::{require_pubkey_in_production, verify_auth_signature};
use vcp::VcpError;

fn signing_key() -> ed25519_dalek::SigningKey {
    ed25519_dalek::SigningKey::from_bytes(&[7u8; 32])
}

fn pubkey_hex() -> String {
    hex::encode(signing_key().verifying_key().to_bytes())
}

fn sign(challenge_id: &str, nonce: &str) -> String {
    let msg = sha2::Sha256::digest(format!("{challenge_id}:{nonce}").as_bytes());
    hex::encode(signing_key().sign(&msg).to_bytes())
}

fn reason(e: VcpError) -> String {
    match e {
        VcpError::ChallengeFailed { reason } => reason,
        other => panic!("unexpected error: {}", other.message()),
    }
}

#[test]
fn valid_signature_is_accepted() {
    let sig = sign("cid-1", "n0nce");
    assert!(verify_auth_signature("cid-1", "n0nce", &pubkey_hex(), &sig).is_ok());
}

#[test]
fn signature_over_other_nonce_is_refused() {
    let sig = sign("cid-1", "other");
    let err = verify_auth_signature("cid-1", "n0nce", &pubkey_hex(), &sig).unwrap_err();
    assert!(matches!(err, VcpError::SignatureInvalid));
    assert_eq!(err.message(), "signature invalid");
}

#[test]
fn malformed_public_keys_are_refused() {
    let sig = sign("c", "n");
    let e = verify_auth_signature("c", "n", "zz", &sig).unwrap_err();
    assert_eq!(reason(e), "invalid public key hex: Invalid character 'z' at position 0");
    let e = verify_auth_signature("c", "n", "abc", &sig).unwrap_err();
    assert_eq!(reason(e), "invalid public key hex: Odd number of digits");
    let e = verify_auth_signature("c", "n", "abcd", &sig).unwrap_err();
    assert_eq!(reason(e), "public key must be 32 bytes");
    // y = 2 is not the y-coordinate of any Edwards point.
    let mut bad = [0u8; 32];
    bad[0] = 2;
    let e = verify_auth_signature("c", "n", &hex::encode(bad), &sig).unwrap_err();
    let expected_key_err = ed25519_dalek::VerifyingKey::from_bytes(&bad).unwrap_err().to_string();
    assert_eq!(reason(e), format!("invalid Ed25519 public key: {expected_key_err}"));
}

#[test]
fn malformed_signatures_are_refused() {
    let pk = pubkey_hex();
    let e = verify_auth_signature("c", "n", &pk, "0g").unwrap_err();
    assert_eq!(reason(e), "invalid signature hex: Invalid character 'g' at position 1");
    let e = verify_auth_signature("c", "n", &pk, "00").unwrap_err();
    assert_eq!(reason(e), "signature must be 64 bytes");
}

#[test]
fn key_error_comes_before_signature_errors() {
    let mut bad = [0u8; 32];
    bad[0] = 2;
    let e = verify_auth_signature("c", "n", &hex::encode(bad), "not hex").unwrap_err();
    assert!(reason(e).starts_with("invalid Ed25519 public key: "));
}

#[test]
fn production_gate_refuses_keyless_devices() {
    assert!(require_pubkey_in_production("dev", "", false).is_ok());
    assert!(require_pubkey_in_production("dev", "ab", true).is_ok());
    let e = require_pubkey_in_production("dev", "", true).unwrap_err();
    assert_eq!(
        e.message(),
        "challenge failed: device 'dev' has no public_key — device public key required in production mode (VCP_REQUIRE_PUBKEY=true). Supply an Ed25519 public key or unset VCP_REQUIRE_PUBKEY."
    );
}
