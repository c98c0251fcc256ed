use vstd::prelude::*;
use vstd::string::StringExecFns;

use crate::codec::{new_random_uuid, uuid_text, uuid_text_spec};
use crate::device::{texts_view, DeviceClass, DeviceClassView, DeviceManifest, DeviceManifestView, SafetyClass};
use crate::time::{add_seconds, chrono_add_seconds, is_clock_reading, utc_now, Timestamp};

verus! {

/// Seconds a ZimaOS manifest stays valid (a day).
pub const ZIMA_MANIFEST_TTL_SECS: i64 = 86_400;

/// The wire form of the compute capability of a ZimaOS node (hardware figures
/// are filled in at run time).
pub open spec fn zima_compute_capability() -> Seq<char> {
    "{\"kind\":\"compute\",\"cpu_cores\":0,\"ram_gb\":0.0,\"gpu_vram_gb\":null,\"tflops_fp16\":null}"@
}

/// The wire form of the connectivity capability of a ZimaOS node (gigabit LAN).
pub open spec fn zima_connectivity_capability() -> Seq<char> {
    "{\"kind\":\"connectivity\",\"protocols\":[\"http\",\"https\",\"casaos-api\"],\"max_mbps\":1000.0,\"mesh\":false}"@
}

/// Everything a ZimaOS manifest says apart from its times: the node is an
/// edge server of the critical safety class (only the principal may grant
/// capabilities), offering compute and connectivity, with its API URL in the
/// label and an empty key and signature (the broker provisions keys at
/// registration).
pub open spec fn zima_manifest_body(
    m: DeviceManifestView,
    server_id: Seq<char>,
    api_url: Seq<char>,
    owner_did: Seq<char>,
) -> bool {
    &&& m.device_id == "zima:"@ + server_id
    &&& m.label == "ZimaOS node "@ + server_id + " @ "@ + api_url
    &&& m.owner_did == owner_did
    &&& m.class == DeviceClassView::EdgeServer
    &&& m.safety_class == SafetyClass::Critical
    &&& m.capabilities == seq![zima_compute_capability(), zima_connectivity_capability()]
    &&& m.vcp_version == 1
    &&& m.firmware == "zimaos/1.0"@
    &&& m.public_key.len() == 0
    &&& m.signature.len() == 0
}

/// The expiry a day after `base`, as chrono computes it (`None` where chrono
/// reports overflow).
pub open spec fn expires_a_day_after(expires_at: Option<Timestamp>, base: Timestamp) -> bool {
    match chrono_add_seconds(base.secs_spec(), base.nanos_spec(), ZIMA_MANIFEST_TTL_SECS) {
        Some(e) => expires_at matches Some(t) && (t.secs_spec(), t.nanos_spec()) == e,
        None => expires_at is None,
    }
}

/// The times of a manifest built from the clock: issued at one reading,
/// expiring exactly a day after another.
pub open spec fn zima_clock_times(m: DeviceManifestView) -> bool {
    &&& is_clock_reading(m.issued_at)
    &&& m.expires_at is Some
    &&& exists|base: Timestamp|
        is_clock_reading(base) && #[trigger] expires_a_day_after(m.expires_at, base)
            && m.expires_at->0.secs_spec() == base.secs_spec() + ZIMA_MANIFEST_TTL_SECS
            && m.expires_at->0.nanos_spec() == base.nanos_spec()
}

/// The server id a node takes from its `ZIMA_SERVER_ID` setting: the setting
/// when it is set and not empty, else the text of the UUID `fallback_id`.
pub open spec fn zima_server_id(server_id: Option<&str>, fallback_id: u128) -> Seq<char> {
    match server_id {
        Some(s) => if s@.len() > 0 {
            s@
        } else {
            uuid_text_spec(fallback_id)
        },
        None => uuid_text_spec(fallback_id),
    }
}

/// The owner a node takes from its `ZIMA_OWNER_DID` setting (even an empty
/// one), else the unknown owner.
pub open spec fn zima_owner_did(owner_did: Option<&str>) -> Seq<char> {
    match owner_did {
        Some(o) => o@,
        None => "did:sovereign:unknown"@,
    }
}

/// Whether the `ZIMA_SERVER_ID` setting leaves the server id to a fresh UUID.
pub open spec fn needs_fallback_id(server_id: Option<&str>) -> bool {
    !(server_id matches Some(s) && s@.len() > 0)
}

/// Builder of the manifest of a ZimaOS / CasaOS self-hosted compute node.
pub struct ZimaDevice;

impl ZimaDevice {
    /// Named capability strings (for use in a grant's scope).
    pub const CAPABILITIES: [&'static str; 6] = [
        "compute.deploy",
        "compute.execute",
        "storage.read",
        "storage.write",
        "service.manage",
        "container.run",
    ];

    /// The manifest of a ZimaOS node from the values of its settings
    /// `ZIMA_API_URL`, `ZIMA_SERVER_ID` and `ZIMA_OWNER_DID` (`None` where
    /// unset): `None` without an API URL (the caller then skips registration);
    /// else the node's manifest, with the server id set, or the text of the
    /// UUID `fallback_id` where it is unset or empty, and the owner set, or the
    /// unknown owner where it is unset; issued now, valid for a day.
    pub fn manifest_from_settings(
        api_url: Option<&str>,
        server_id: Option<&str>,
        owner_did: Option<&str>,
        fallback_id: u128,
    ) -> (r: Option<DeviceManifest>)
        ensures
            r is None <==> (api_url is None || api_url->0@.len() == 0),
            r matches Some(m) ==> zima_manifest_body(
                m@,
                zima_server_id(server_id, fallback_id),
                api_url->0@,
                zima_owner_did(owner_did),
            ) && zima_clock_times(m@),
    {
        let api_url = match api_url {
            Some(a) => if a.is_empty() {
                return None;
            } else {
                a
            },
            None => {
                return None;
            },
        };
        let fallback: String;
        let sid: &str = match server_id {
            Some(s) => if s.is_empty() {
                fallback = uuid_text(fallback_id);
                fallback.as_str()
            } else {
                s
            },
            None => {
                fallback = uuid_text(fallback_id);
                fallback.as_str()
            },
        };
        let owner: &str = match owner_did {
            Some(o) => o,
            None => "did:sovereign:unknown",
        };
        Some(Self::manifest_with_owner(sid, api_url, owner))
    }

    /// The manifest of a ZimaOS node from the values of its settings, as
    /// `manifest_from_settings` says, drawing a fresh random UUID for the
    /// server id only where `ZIMA_SERVER_ID` is unset or empty.
    pub fn manifest_from_env(api_url: Option<&str>, server_id: Option<&str>, owner_did: Option<&str>) -> (r:
        Option<DeviceManifest>)
        ensures
            r is None <==> (api_url is None || api_url->0@.len() == 0),
            r matches Some(m) ==> (zima_clock_times(m@) && exists|fallback_id: u128|
                #[trigger] zima_manifest_body(
                    m@,
                    zima_server_id(server_id, fallback_id),
                    api_url->0@,
                    zima_owner_did(owner_did),
                )),
            r matches Some(m) ==> (!needs_fallback_id(server_id) ==> zima_manifest_body(
                m@,
                server_id->0@,
                api_url->0@,
                zima_owner_did(owner_did),
            )),
    {
        let fallback_id: u128 = if api_url.is_some() && needs_fallback(server_id) {
            new_random_uuid()
        } else {
            0
        };
        Self::manifest_from_settings(api_url, server_id, owner_did, fallback_id)
    }

    /// The manifest of a ZimaOS node with an unknown owner, issued now and
    /// valid for a day.
    pub fn manifest(server_id: &str, api_url: &str) -> (r: DeviceManifest)
        ensures
            zima_manifest_body(r@, server_id@, api_url@, "did:sovereign:unknown"@),
            zima_clock_times(r@),
    {
        Self::manifest_with_owner(server_id, api_url, "did:sovereign:unknown")
    }

    /// The manifest of a ZimaOS node owned by `owner_did`, issued at one
    /// reading of the clock and expiring a day after another, as
    /// `manifest_with_owner_at` says for those readings.
    pub fn manifest_with_owner(server_id: &str, api_url: &str, owner_did: &str) -> (r: DeviceManifest)
        ensures
            zima_manifest_body(r@, server_id@, api_url@, owner_did@),
            zima_clock_times(r@),
    {
        let issued_at = utc_now();
        let base = utc_now();
        let r = Self::manifest_with_owner_at(server_id, api_url, owner_did, issued_at, base);
        assert(expires_a_day_after(r@.expires_at, base));
        r
    }

    /// The manifest of a ZimaOS node owned by `owner_did`, issued at
    /// `issued_at` and expiring a day after `base`.
    pub fn manifest_with_owner_at(
        server_id: &str,
        api_url: &str,
        owner_did: &str,
        issued_at: Timestamp,
        base: Timestamp,
    ) -> (r: DeviceManifest)
        ensures
            zima_manifest_body(r@, server_id@, api_url@, owner_did@),
            r.issued_at == issued_at,
            expires_a_day_after(r.expires_at, base),
            is_clock_reading(base) ==> (r.expires_at matches Some(t) && t.secs_spec() == base.secs_spec()
                + ZIMA_MANIFEST_TTL_SECS && t.nanos_spec() == base.nanos_spec()),
    {
        let mut capabilities: Vec<String> = Vec::new();
        capabilities.push(
            String::from_str(
                "{\"kind\":\"compute\",\"cpu_cores\":0,\"ram_gb\":0.0,\"gpu_vram_gb\":null,\"tflops_fp16\":null}",
            ),
        );
        capabilities.push(
            String::from_str(
                "{\"kind\":\"connectivity\",\"protocols\":[\"http\",\"https\",\"casaos-api\"],\"max_mbps\":1000.0,\"mesh\":false}",
            ),
        );
        assert(texts_view(capabilities@) =~= seq![zima_compute_capability(), zima_connectivity_capability()]);
        let expires_at = add_seconds(base, ZIMA_MANIFEST_TTL_SECS);
        DeviceManifest {
            device_id: String::from_str("zima:").concat(server_id),
            label: String::from_str("ZimaOS node ").concat(server_id).concat(" @ ").concat(api_url),
            owner_did: String::from_str(owner_did),
            class: DeviceClass::EdgeServer,
            safety_class: SafetyClass::Critical,
            capabilities,
            vcp_version: 1,
            firmware: String::from_str("zimaos/1.0"),
            issued_at,
            expires_at,
            public_key: String::new(),
            signature: String::new(),
        }
    }
}

/// Whether the `ZIMA_SERVER_ID` setting leaves the server id to a fresh UUID.
fn needs_fallback(server_id: Option<&str>) -> (r: bool)
    ensures
        r == needs_fallback_id(server_id),
{
    match server_id {
        Some(s) => s.is_empty(),
        None => true,
    }
}

} // verus!
