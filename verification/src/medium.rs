//! The framing discipline of a device, its capability record, and the ways an
//! open or attach attempt can fail.

use vstd::prelude::*;

verus! {

/// The framing discipline a device exposes to its consumer: raw Ethernet
/// frames (a TAP interface) or raw IP packets (a TUN interface).
#[derive(Clone, Copy, Debug, PartialEq, Eq, Structural)]
pub enum Medium {
    Ethernet,
    Ip,
}

/// Why opening or attaching a virtual interface failed. On any of these, no
/// resource is left open: the host registry is exactly as it was before.
#[derive(Clone, Copy, Debug, PartialEq, Eq, Structural)]
pub enum SetupError {
    /// Creating the interface, or attaching to one not owned by the caller,
    /// needs a privilege the caller does not hold.
    PermissionDenied,
    /// The name or descriptor is already bound to an interface of the other
    /// medium.
    NameConflict,
    /// No interface answers to the given descriptor.
    NoSuchDevice,
    /// The interface exists and is attachable, but the host cannot report
    /// its maximum transmission unit.
    MtuQueryFailed,
}

/// What a device handle reports of itself. Captured once at open time and
/// never re-queried: both fields are fixed for the handle's lifetime.
#[derive(Clone, Copy, Debug, PartialEq, Eq, Structural)]
pub struct DeviceCapabilities {
    /// The largest single packet payload the interface will carry, in bytes.
    pub max_transmission_unit: usize,
    /// The framing discipline of the interface.
    pub medium: Medium,
}

} // verus!
