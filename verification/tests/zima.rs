use vcp::{DeviceClass, SafetyClass, ZimaDevice};

#[test]
fn zima_manifest_fields() {
    let m = ZimaDevice::manifest_with_owner("my-zima-01", "http://192.168.1.10:8080", "did:me");
    assert_eq!(m.device_id, "zima:my-zima-01");
    assert_eq!(m.label, "ZimaOS node my-zima-01 @ http://192.168.1.10:8080");
    assert_eq!(m.owner_did, "did:me");
    assert_eq!(m.class, DeviceClass::EdgeServer);
    assert_eq!(m.safety_class, SafetyClass::Critical);
    assert_eq!(m.vcp_version, 1);
    assert_eq!(m.firmware, "zimaos/1.0");
    assert!(m.public_key.is_empty() && m.signature.is_empty());
    assert_eq!(m.capabilities.len(), 2);
    let expires = m.expires_at.unwrap();
    assert!(expires.secs() >= m.issued_at.secs() + 86_400);
    assert!(expires.secs() <= m.issued_at.secs() + 86_401);
}

#[test]
fn zima_default_owner_and_capability_wire_form() {
    let m = ZimaDevice::manifest("z", "u");
    assert_eq!(m.owner_did, "did:sovereign:unknown");
    let compute: serde_json::Value = serde_json::from_str(&m.capabilities[0]).unwrap();
    assert_eq!(compute["kind"], "compute");
    assert_eq!(compute["cpu_cores"], 0);
    let conn: serde_json::Value = serde_json::from_str(&m.capabilities[1]).unwrap();
    assert_eq!(conn["protocols"][2], "casaos-api");
    assert_eq!(conn["mesh"], false);
    assert_eq!(ZimaDevice::CAPABILITIES.len(), 6);
    assert_eq!(ZimaDevice::CAPABILITIES[5], "container.run");
}

#[test]
fn zima_manifest_registers_only_in_development_mode() {
    let mut engine = vcp::HandshakeEngine::new();
    assert!(engine.register_device(ZimaDevice::manifest("z", "u")).is_err());
    let mut engine = vcp::HandshakeEngine::with_auth_policy(true, false);
    assert!(engine.register_device(ZimaDevice::manifest("z", "u")).is_ok());
    assert!(engine.registry.get("zima:z").is_some());
}

#[test]
fn zima_manifest_at_given_instants() {
    let issued = vcp::Timestamp::new(1_700_000_000, 0).unwrap();
    let base = vcp::Timestamp::new(1_700_000_005, 42).unwrap();
    let m = ZimaDevice::manifest_with_owner_at("n1", "http://h", "did:o", issued, base);
    assert_eq!(m.issued_at, issued);
    let e = m.expires_at.unwrap();
    assert_eq!((e.secs(), e.nanos()), (1_700_086_405, 42));
}

#[test]
fn zima_manifest_from_settings() {
    assert!(ZimaDevice::manifest_from_settings(None, Some("s"), None, 1).is_none());
    assert!(ZimaDevice::manifest_from_settings(Some(""), Some("s"), None, 1).is_none());
    let m = ZimaDevice::manifest_from_settings(Some("http://h"), Some("s1"), None, 1).unwrap();
    assert_eq!(m.device_id, "zima:s1");
    assert_eq!(m.owner_did, "did:sovereign:unknown");
    let m = ZimaDevice::manifest_from_settings(Some("http://h"), Some(""), Some("did:me"), 1).unwrap();
    assert_eq!(m.device_id, "zima:00000000-0000-0000-0000-000000000001");
    assert_eq!(m.label, "ZimaOS node 00000000-0000-0000-0000-000000000001 @ http://h");
    assert_eq!(m.owner_did, "did:me");
    let m = ZimaDevice::manifest_from_settings(Some("http://h"), None, Some(""), 2).unwrap();
    assert_eq!(m.device_id, "zima:00000000-0000-0000-0000-000000000002");
    assert_eq!(m.owner_did, "");
    assert!(m.expires_at.is_some());
}

#[test]
fn zima_manifest_from_env_values() {
    assert!(ZimaDevice::manifest_from_env(None, None, None).is_none());
    let m = ZimaDevice::manifest_from_env(Some("http://h"), Some("zz"), None).unwrap();
    assert_eq!(m.device_id, "zima:zz");
    let m = ZimaDevice::manifest_from_env(Some("http://h"), None, None).unwrap();
    let id = m.device_id.strip_prefix("zima:").unwrap();
    assert_eq!(uuid::Uuid::parse_str(id).unwrap().get_version_num(), 4);
}
