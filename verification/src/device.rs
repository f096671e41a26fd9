//! Plain data carried between the host, the session layer and the command
//! orchestration: endpoints, credentials, intents, child snapshots and the
//! fixed transport command set.

use vstd::prelude::*;

verus! {

/// How the physical device at an endpoint presents itself: a standalone plug,
/// a power strip with addressable outlets, or a hub with mixed children.
#[derive(Clone, Copy, PartialEq, Eq, Structural, Debug)]
pub enum DeviceKind {
    Plug,
    Strip,
    Hub,
}

/// Whether a device kind may host addressable children.
pub open spec fn kind_is_composite(kind: DeviceKind) -> bool {
    kind == DeviceKind::Strip || kind == DeviceKind::Hub
}

impl DeviceKind {
    /// Strips and hubs host children; a plug stands alone.
    pub fn is_composite(&self) -> (r: bool)
        ensures
            r == kind_is_composite(*self),
    {
        match self {
            DeviceKind::Plug => false,
            DeviceKind::Strip => true,
            DeviceKind::Hub => true,
        }
    }
}

/// Caller-supplied login material. Opaque to the core and never persisted.
#[derive(Clone, Debug)]
pub struct Credentials {
    pub username: String,
    pub secret: String,
}

/// One physical device and how to talk to it. Immutable after construction.
#[derive(Clone, Debug)]
pub struct Endpoint {
    pub address: String,
    pub kind: DeviceKind,
}

/// A user-level request against a device or one of its children.
#[derive(Clone, Copy, PartialEq, Eq, Structural, Debug)]
pub enum Intent {
    PowerOn,
    PowerOff,
    Reboot,
    Info,
}

/// Whom a command is addressed to behind one physical connection: the device
/// itself, or one child by its stable identifier.
#[derive(Clone, Copy, PartialEq, Eq, Structural, Debug)]
pub enum Target {
    Device,
    Child(u64),
}

/// Read-only snapshot of one enumerated child. The list a device reports can
/// change between enumerations, so a descriptor may go stale; the stable id,
/// not the nickname, identifies the child across renames.
#[derive(Clone, Debug)]
pub struct ChildDescriptor {
    pub id: u64,
    pub nickname: String,
    pub reported_type: String,
    /// On/off state where the child is switchable; `None` for pure sensors.
    pub power: Option<bool>,
}

/// Identity and state returned by an info query.
#[derive(Clone, Debug)]
pub struct DeviceInfo {
    pub model: String,
    pub device_id: u64,
    pub is_on: bool,
}

/// The fixed command set the transport accepts.
#[derive(Clone, Copy, PartialEq, Eq, Structural, Debug)]
pub enum Command {
    SetPower(Target, bool),
    QueryInfo(Target),
    ListChildren,
}

/// Success payload of one transport round trip.
#[derive(Clone, Debug)]
pub enum Payload {
    Ack,
    Info(DeviceInfo),
    Children(Vec<ChildDescriptor>),
}

/// What the transport hands back for one command. The core never inspects the
/// wire format; it only distinguishes an expired session from other failures.
#[derive(Clone, Debug)]
pub enum TransportReply {
    Done(Payload),
    AuthExpired,
    NetworkError,
    MalformedResponse,
}

} // verus!
