use vstd::prelude::*;

use crate::time::Timestamp;

verus! {

/// The characters of each text in a list.
pub open spec fn texts_view(v: Seq<String>) -> Seq<Seq<char>> {
    Seq::new(v.len(), |i: int| v[i]@)
}

/// A copy of a list of texts.
pub fn clone_texts(v: &Vec<String>) -> (r: Vec<String>)
    ensures
        texts_view(r@) == texts_view(v@),
{
    let r = v.clone();
    assert forall|i: int| 0 <= i < v@.len() implies r@[i] == v@[i] by {
        assert(cloned::<String>(v[i], r[i]));
    }
    assert(texts_view(r@) =~= texts_view(v@));
    r
}

/// A copy of an optional text.
pub fn clone_opt_text(v: &Option<String>) -> (r: Option<String>)
    ensures
        opt_text_view(r) == opt_text_view(*v),
{
    match v {
        Some(s) => Some(s.clone()),
        None => None,
    }
}

/// The characters of an optional text.
pub open spec fn opt_text_view(v: Option<String>) -> Option<Seq<char>> {
    match v {
        Some(s) => Some(s@),
        None => None,
    }
}

/// Broad classification that drives safety and capability policy.
#[derive(Debug, PartialEq, Eq)]
pub enum DeviceClass {
    /// Wearable identity carrier — Agent Tag, smart ring, etc.
    AgentTag,
    /// Handheld / tabletop interface device — Companion.
    Companion,
    /// Stationary compute + radio gateway.
    Gateway,
    /// Quadruped or biped ground robot.
    GroundRobot,
    /// Multirotor or fixed-wing aerial vehicle.
    Drone,
    /// IoT sensor node (environmental, structural, etc.)
    SensorNode,
    /// Edge server or NAS.
    EdgeServer,
    /// Mobile phone / tablet running VCP agent.
    MobileDevice,
    /// Other — specify in `label`.
    Other(String),
}

/// The value of a `DeviceClass`.
pub enum DeviceClassView {
    AgentTag,
    Companion,
    Gateway,
    GroundRobot,
    Drone,
    SensorNode,
    EdgeServer,
    MobileDevice,
    Other(Seq<char>),
}

impl View for DeviceClass {
    type V = DeviceClassView;

    open spec fn view(&self) -> DeviceClassView {
        match self {
            DeviceClass::AgentTag => DeviceClassView::AgentTag,
            DeviceClass::Companion => DeviceClassView::Companion,
            DeviceClass::Gateway => DeviceClassView::Gateway,
            DeviceClass::GroundRobot => DeviceClassView::GroundRobot,
            DeviceClass::Drone => DeviceClassView::Drone,
            DeviceClass::SensorNode => DeviceClassView::SensorNode,
            DeviceClass::EdgeServer => DeviceClassView::EdgeServer,
            DeviceClass::MobileDevice => DeviceClassView::MobileDevice,
            DeviceClass::Other(s) => DeviceClassView::Other(s@),
        }
    }
}

impl Clone for DeviceClass {
    fn clone(&self) -> (r: Self)
        ensures
            r@ == self@,
    {
        match self {
            DeviceClass::AgentTag => DeviceClass::AgentTag,
            DeviceClass::Companion => DeviceClass::Companion,
            DeviceClass::Gateway => DeviceClass::Gateway,
            DeviceClass::GroundRobot => DeviceClass::GroundRobot,
            DeviceClass::Drone => DeviceClass::Drone,
            DeviceClass::SensorNode => DeviceClass::SensorNode,
            DeviceClass::EdgeServer => DeviceClass::EdgeServer,
            DeviceClass::MobileDevice => DeviceClass::MobileDevice,
            DeviceClass::Other(s) => DeviceClass::Other(s.clone()),
        }
    }
}

/// Safety classification: what a granted session may do. Declared from the
/// least to the most dangerous actuation, which is also the derived order.
#[derive(Debug, Clone, Copy, PartialEq, Eq, PartialOrd, Ord, Hash, Structural)]
pub enum SafetyClass {
    /// Read-only: sensors, cameras, telemetry streams.
    Observer,
    /// Low-power actuators: LEDs, buzzers, displays.
    LowImpact,
    /// Controlled motion indoors: robot arm, pan/tilt.
    IndoorMotion,
    /// Outdoor/free motion, may contact humans: ground robot.
    OutdoorMotion,
    /// Aerial vehicle or high-speed actuator.
    Aerial,
    /// Irreversible or safety-critical: industrial, medical.
    Critical,
}

/// A device's self-description, broadcast during the discovery step.
///
/// `capabilities` holds each capability the device offers in its JSON wire
/// form (as serde writes a `DeviceCapability`), which is all the broker reads
/// of them.
#[derive(Debug)]
pub struct DeviceManifest {
    /// Stable device identity (DID or UUID).
    pub device_id: String,
    /// Human-readable label.
    pub label: String,
    /// Who controls this device (agent DID or Vantage name).
    pub owner_did: String,
    pub class: DeviceClass,
    pub safety_class: SafetyClass,
    pub capabilities: Vec<String>,
    /// Supported VCP protocol version.
    pub vcp_version: u16,
    /// Firmware / software version string.
    pub firmware: String,
    /// When this manifest was signed.
    pub issued_at: Timestamp,
    /// Optional expiry — device should re-broadcast before this.
    pub expires_at: Option<Timestamp>,
    /// Hex-encoded Ed25519 public key (32 bytes = 64 hex chars).
    pub public_key: String,
    /// Hex-encoded Ed25519 signature over the canonical JSON of the fields above.
    pub signature: String,
}

/// The value of a `DeviceManifest`.
pub struct DeviceManifestView {
    pub device_id: Seq<char>,
    pub label: Seq<char>,
    pub owner_did: Seq<char>,
    pub class: DeviceClassView,
    pub safety_class: SafetyClass,
    pub capabilities: Seq<Seq<char>>,
    pub vcp_version: u16,
    pub firmware: Seq<char>,
    pub issued_at: Timestamp,
    pub expires_at: Option<Timestamp>,
    pub public_key: Seq<char>,
    pub signature: Seq<char>,
}

impl View for DeviceManifest {
    type V = DeviceManifestView;

    open spec fn view(&self) -> DeviceManifestView {
        DeviceManifestView {
            device_id: self.device_id@,
            label: self.label@,
            owner_did: self.owner_did@,
            class: self.class@,
            safety_class: self.safety_class,
            capabilities: texts_view(self.capabilities@),
            vcp_version: self.vcp_version,
            firmware: self.firmware@,
            issued_at: self.issued_at,
            expires_at: self.expires_at,
            public_key: self.public_key@,
            signature: self.signature@,
        }
    }
}

impl Clone for DeviceManifest {
    fn clone(&self) -> (r: Self)
        ensures
            r@ == self@,
    {
        DeviceManifest {
            device_id: self.device_id.clone(),
            label: self.label.clone(),
            owner_did: self.owner_did.clone(),
            class: self.class.clone(),
            safety_class: self.safety_class,
            capabilities: clone_texts(&self.capabilities),
            vcp_version: self.vcp_version,
            firmware: self.firmware.clone(),
            issued_at: self.issued_at,
            expires_at: self.expires_at,
            public_key: self.public_key.clone(),
            signature: self.signature.clone(),
        }
    }
}

} // verus!
