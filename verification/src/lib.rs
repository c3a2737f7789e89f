//! A virtual TUN (IP-layer) or TAP (Ethernet-layer) interface adapter.
//!
//! The crate binds a host-provided virtual link to a packet-oriented device
//! contract: a device handle that caches its capabilities at open time and
//! serializes all descriptor access, a non-blocking receive protocol, and a
//! single-use, deferred-fill transmit token protocol. The host side of the
//! boundary (the registry of interfaces consulted by `open`, and the
//! descriptor's packet queues) is modelled as plain values, so that every
//! rule of the adapter is stated in contracts and proved; the program that
//! owns the real descriptor feeds packets in and puts committed writes on
//! the wire.

pub mod device;
pub mod host;
pub mod laws;
pub mod medium;
pub mod token;

pub use device::TunTapInterface;
pub use host::Host;
pub use host::HostInterface;
pub use medium::DeviceCapabilities;
pub use medium::Medium;
pub use medium::SetupError;
pub use token::RxToken;
pub use token::TxToken;
