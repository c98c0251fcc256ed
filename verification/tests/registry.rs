use vcp::registry::{DeviceRegistry, STALE_MILLIS};
use vcp::{DeviceClass, DeviceManifest, SafetyClass, Timestamp};

fn manifest(device_id: &str, label: &str) -> DeviceManifest {
    DeviceManifest {
        device_id: device_id.into(),
        label: label.into(),
        owner_did: "did:test:owner".into(),
        class: DeviceClass::SensorNode,
        safety_class: SafetyClass::Observer,
        capabilities: vec![],
        vcp_version: 1,
        firmware: "test/0".into(),
        issued_at: Timestamp::new(1_700_000_000, 0).unwrap(),
        expires_at: None,
        public_key: "ab".repeat(32),
        signature: String::new(),
    }
}

#[test]
fn registered_device_is_fresh_for_five_minutes() {
    let mut reg = DeviceRegistry::new();
    reg.register_at(manifest("d1", "first"), 1_000);
    assert_eq!(reg.get_at("d1", 1_000).unwrap().label, "first");
    assert_eq!(reg.get_at("d1", 1_000 + STALE_MILLIS - 1).unwrap().label, "first");
    assert!(reg.get_at("d1", 1_000 + STALE_MILLIS).is_none());
    assert!(reg.get_at("d2", 1_000).is_none());
    // A clock reading earlier than the registration counts as fresh.
    assert!(reg.get_at("d1", 0).is_some());
}

#[test]
fn re_registration_replaces_and_refreshes() {
    let mut reg = DeviceRegistry::new();
    reg.register_at(manifest("d1", "first"), 1_000);
    reg.register_at(manifest("d2", "other"), 1_000);
    reg.register_at(manifest("d1", "second"), 200_000);
    assert_eq!(reg.get_at("d1", 400_000).unwrap().label, "second");
    assert!(reg.get_at("d2", 400_000).is_none());
    assert_eq!(reg.list_fresh_at(400_000).len(), 1);
    assert_eq!(reg.list_fresh_at(1_000).len(), 2);
}

#[test]
fn prune_evicts_only_stale() {
    let mut reg = DeviceRegistry::new();
    reg.register_at(manifest("old", "o"), 0);
    reg.register_at(manifest("new", "n"), 250_000);
    reg.prune_at(310_000);
    assert!(reg.get_at("old", 0).is_none());
    assert!(reg.get_at("new", 310_000).is_some());
    let listed = reg.list_fresh_at(310_000);
    assert_eq!(listed.len(), 1);
    assert_eq!(listed[0].device_id, "new");
}

#[test]
fn clock_based_register_and_get() {
    let mut reg = DeviceRegistry::default();
    reg.register(manifest("live", "l"));
    assert_eq!(reg.get("live").unwrap().device_id, "live");
    assert_eq!(reg.list_fresh().len(), 1);
    reg.prune();
    assert!(reg.get("live").is_some());
}
