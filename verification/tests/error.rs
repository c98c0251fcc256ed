use vcp::codec::HexError;
use vcp::VcpError;

#[test]
fn error_messages() {
    let cases = vec![
        (VcpError::DeviceNotFound { device_id: "d".into() }, "device not found: d"),
        (VcpError::SessionNotFound { session_id: "s".into() }, "session not found: s"),
        (VcpError::ChallengeFailed { reason: "r".into() }, "challenge failed: r"),
        (
            VcpError::CapabilityDenied { agent_id: "a".into(), capability: "c".into() },
            "capability denied: agent a lacks c",
        ),
        (VcpError::GrantExpired { session_id: "s".into() }, "grant expired: session s"),
        (VcpError::GrantRevoked { reason: "r".into() }, "grant revoked: r"),
        (VcpError::SafetyViolation { rule: "r".into() }, "safety violation: r"),
        (VcpError::SignatureInvalid, "signature invalid"),
        (VcpError::Serialization("EOF".into()), "serialization error: EOF"),
    ];
    for (e, text) in cases {
        assert_eq!(e.message(), text);
    }
}

#[test]
fn hex_error_messages_match_hex_display() {
    let e = HexError::InvalidHexCharacter { c: '\n', index: 12 };
    let h = hex::FromHexError::InvalidHexCharacter { c: '\n', index: 12 };
    assert_eq!(e.message(), h.to_string());
    assert_eq!(HexError::OddLength.message(), hex::FromHexError::OddLength.to_string());
    assert_eq!(
        HexError::InvalidStringLength.message(),
        hex::FromHexError::InvalidStringLength.to_string()
    );
}
