use vstd::prelude::*;
use vstd::string::StringExecFns;

use crate::codec::{hex_decode, hex_decode_spec, sha256, sha256_digest};
use crate::error::{VcpError, VcpErrorView};

verus! {

// ── Ed25519 (ed25519-dalek) ──────────────────────────────────────────────────

/// Whether 32 bytes decompress to an Edwards point, i.e. form an Ed25519 public key.
pub uninterp spec fn ed25519_key_decodes(public_key: Seq<u8>) -> bool;

/// The `Display` text of the error ed25519-dalek gives for bytes that are no
/// key: a `signature::Error` whose source is the failed point decompression.
pub open spec fn ed25519_key_rejection() -> Seq<char> {
    "signature error: Cannot decompress Edwards point"@
}

/// Whether ed25519-dalek accepts `signature` over `message` for `public_key`.
pub uninterp spec fn ed25519_accepts(
    public_key: Seq<u8>,
    message: Seq<u8>,
    signature: Seq<u8>,
) -> bool;

/// Checks that 32 bytes are an Ed25519 public key; on failure, the error's text.
///
/// Calls `ed25519_dalek::VerifyingKey::from_bytes`. Trusted: the result is `Ok`
/// exactly when the bytes decode, and the text of the one error it gives
/// (`InternalError::PointDecompression`, as the source of a `signature::Error`
/// under dalek's default `std` feature) is `ed25519_key_rejection`.
#[verifier::external_body]
fn check_verifying_key(public_key: &[u8]) -> (r: Result<(), String>)
    requires
        public_key@.len() == 32,
    ensures
        r is Ok <==> ed25519_key_decodes(public_key@),
        r matches Err(t) ==> t@ == ed25519_key_rejection(),
{
    let bytes: [u8; 32] = public_key.try_into().unwrap();
    match ed25519_dalek::VerifyingKey::from_bytes(&bytes) {
        Ok(_) => Ok(()),
        Err(e) => Err(e.to_string()),
    }
}

/// Whether `signature` is a valid Ed25519 signature of `message` under `public_key`.
///
/// Calls `VerifyingKey::from_bytes`, `Signature::from_bytes` and
/// `Verifier::verify` of ed25519-dalek. Trusted: the answer is the named
/// acceptance, and a signature is never accepted for bytes that are no key
/// (verification needs the decoded key).
#[verifier::external_body]
fn ed25519_verify(public_key: &[u8], message: &[u8], signature: &[u8]) -> (r: bool)
    requires
        public_key@.len() == 32,
        signature@.len() == 64,
    ensures
        r == ed25519_accepts(public_key@, message@, signature@),
        r ==> ed25519_key_decodes(public_key@),
{
    let key: [u8; 32] = public_key.try_into().unwrap();
    let sig: [u8; 64] = signature.try_into().unwrap();
    match ed25519_dalek::VerifyingKey::from_bytes(&key) {
        Ok(k) => ed25519_dalek::Verifier::verify(&k, message, &ed25519_dalek::Signature::from_bytes(&sig)).is_ok(),
        Err(_) => false,
    }
}

// ── the production public-key gate ───────────────────────────────────────────

/// The refusal text for a keyless device while public keys are required.
pub open spec fn missing_key_reason(device_id: Seq<char>) -> Seq<char> {
    "device '"@ + device_id
        + "' has no public_key — device public key required in production mode (VCP_REQUIRE_PUBKEY=true). Supply an Ed25519 public key or unset VCP_REQUIRE_PUBKEY."@
}

/// Refuses a device without a public key when public keys are required.
///
/// `require_pubkey` is whether `VCP_REQUIRE_PUBKEY` is set to `"true"`; the
/// caller reads the environment. Without the requirement an empty key passes
/// (development mode).
pub fn require_pubkey_in_production(
    device_id: &str,
    public_key_hex: &str,
    require_pubkey: bool,
) -> (r: Result<(), VcpError>)
    ensures
        r is Err <==> public_key_hex@.len() == 0 && require_pubkey,
        r matches Err(e) ==> e@ == (VcpErrorView::ChallengeFailed {
            reason: missing_key_reason(device_id@),
        }),
{
    if public_key_hex.is_empty() && require_pubkey {
        let reason = String::from_str("device '").concat(device_id).concat(
            "' has no public_key — device public key required in production mode (VCP_REQUIRE_PUBKEY=true). Supply an Ed25519 public key or unset VCP_REQUIRE_PUBKEY.",
        );
        return Err(VcpError::ChallengeFailed { reason });
    }
    Ok(())
}

// ── auth signature ───────────────────────────────────────────────────────────

/// The message a device signs in the auth step: SHA-256 of `challenge_id:nonce`.
pub open spec fn auth_message(challenge_id: Seq<char>, nonce: Seq<char>) -> Seq<u8> {
    sha256(vstd::utf8::encode_utf8(challenge_id + ":"@ + nonce))
}

/// What checking an auth signature gives: the first failure among decoding the
/// key's hex, its length, decoding the key, decoding the signature's hex, its
/// length and verifying the signature; else success.
pub open spec fn auth_signature_outcome(
    challenge_id: Seq<char>,
    nonce: Seq<char>,
    public_key_hex: Seq<char>,
    signature_hex: Seq<char>,
) -> Result<(), VcpErrorView> {
    match hex_decode_spec(vstd::utf8::encode_utf8(public_key_hex)) {
        Err(e) => Err(VcpErrorView::ChallengeFailed { reason: "invalid public key hex: "@ + e.message_spec() }),
        Ok(pk) => if pk.len() != 32 {
            Err(VcpErrorView::ChallengeFailed { reason: "public key must be 32 bytes"@ })
        } else if !ed25519_key_decodes(pk) {
            Err(VcpErrorView::ChallengeFailed {
                reason: "invalid Ed25519 public key: "@ + ed25519_key_rejection(),
            })
        } else {
            match hex_decode_spec(vstd::utf8::encode_utf8(signature_hex)) {
                Err(e) => Err(VcpErrorView::ChallengeFailed { reason: "invalid signature hex: "@ + e.message_spec() }),
                Ok(sig) => if sig.len() != 64 {
                    Err(VcpErrorView::ChallengeFailed { reason: "signature must be 64 bytes"@ })
                } else if ed25519_accepts(pk, auth_message(challenge_id, nonce), sig) {
                    Ok(())
                } else {
                    Err(VcpErrorView::SignatureInvalid)
                },
            }
        },
    }
}

/// A check passes only when both texts are hex of a 32-byte key and a 64-byte
/// signature, and that signature is valid for the auth message under that key.
pub proof fn law_accepted_auth_is_signed(
    challenge_id: Seq<char>,
    nonce: Seq<char>,
    public_key_hex: Seq<char>,
    signature_hex: Seq<char>,
)
    ensures
        auth_signature_outcome(challenge_id, nonce, public_key_hex, signature_hex) is Ok ==> {
            let pk = hex_decode_spec(vstd::utf8::encode_utf8(public_key_hex))->Ok_0;
            let sig = hex_decode_spec(vstd::utf8::encode_utf8(signature_hex))->Ok_0;
            &&& hex_decode_spec(vstd::utf8::encode_utf8(public_key_hex)) is Ok
            &&& hex_decode_spec(vstd::utf8::encode_utf8(signature_hex)) is Ok
            &&& pk.len() == 32
            &&& sig.len() == 64
            &&& ed25519_accepts(pk, auth_message(challenge_id, nonce), sig)
        },
{
}

/// Verifies an Ed25519 signature over the canonical auth message
/// SHA-256(`challenge_id` `:` `nonce`), with the key and signature given as hex.
pub fn verify_auth_signature(
    challenge_id: &str,
    nonce: &str,
    public_key_hex: &str,
    signature_hex: &str,
) -> (r: Result<(), VcpError>)
    ensures
        crate::error::unit_result_view(r) == auth_signature_outcome(
            challenge_id@,
            nonce@,
            public_key_hex@,
            signature_hex@,
        ),
{
    let text = String::from_str(challenge_id).concat(":").concat(nonce);
    let message = sha256_digest(text.as_str().as_bytes());

    let pk = match hex_decode(public_key_hex) {
        Ok(v) => v,
        Err(e) => {
            let m = e.message();
            return Err(VcpError::ChallengeFailed {
                reason: String::from_str("invalid public key hex: ").concat(m.as_str()),
            });
        },
    };
    if pk.len() != 32 {
        return Err(VcpError::ChallengeFailed { reason: String::from_str("public key must be 32 bytes") });
    }
    match check_verifying_key(pk.as_slice()) {
        Ok(()) => {},
        Err(t) => {
            return Err(VcpError::ChallengeFailed {
                reason: String::from_str("invalid Ed25519 public key: ").concat(t.as_str()),
            });
        },
    }

    let sig = match hex_decode(signature_hex) {
        Ok(v) => v,
        Err(e) => {
            let m = e.message();
            return Err(VcpError::ChallengeFailed {
                reason: String::from_str("invalid signature hex: ").concat(m.as_str()),
            });
        },
    };
    if sig.len() != 64 {
        return Err(VcpError::ChallengeFailed { reason: String::from_str("signature must be 64 bytes") });
    }

    if ed25519_verify(pk.as_slice(), message.as_slice(), sig.as_slice()) {
        Ok(())
    } else {
        Err(VcpError::SignatureInvalid)
    }
}

} // verus!
