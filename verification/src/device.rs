//! The device handle and the descriptor it serializes access to.
//!
//! The descriptor is the adapter's view of the open OS resource: the packets
//! the host has delivered and not yet been read, and every packet the adapter
//! has committed by a write, in order. Each operation moves one whole packet
//! at a time, so no read or write ever sees a partial buffer.

use vstd::prelude::*;

use crate::host::entry_named;
use crate::host::entry_with_fd;
use crate::host::has_fd;
use crate::host::has_name;
use crate::host::lemma_entry_named_is_unique;
use crate::host::lemma_entry_with_fd_is_unique;
use crate::host::Host;
use crate::host::HostInterface;
use crate::medium::DeviceCapabilities;
use crate::medium::Medium;
use crate::medium::SetupError;
use crate::token::RxToken;
use crate::token::TxToken;

verus! {

/// The maximum transmission unit a freshly created interface starts with.
pub const DEFAULT_MTU: usize = 1500;

/// What one bounded read delivers of a pending packet: the whole packet when
/// it fits the reading buffer, else its first `limit` bytes.
pub open spec fn read_prefix(packet: Seq<u8>, limit: nat) -> Seq<u8> {
    if packet.len() <= limit {
        packet
    } else {
        packet.take(limit as int)
    }
}

/// An open descriptor: exactly one per open interface. All reads and writes
/// go through `&mut self`, so accesses serialize and each one sees a
/// complete, untouched buffer.
pub struct TunTapInterfaceDesc {
    /// The descriptor number the host handed out.
    pub fd: i32,
    /// Packets the host has delivered and the adapter has not yet read,
    /// oldest first.
    pub inbound: Vec<Vec<u8>>,
    /// Every packet the adapter has committed by a write, in order.
    pub sent: Vec<Vec<u8>>,
}

impl TunTapInterfaceDesc {
    /// A freshly attached descriptor: nothing pending, nothing written.
    pub fn new(fd: i32) -> (r: TunTapInterfaceDesc)
        ensures
            r.fd == fd,
            r.inbound@.len() == 0,
            r.sent@.len() == 0,
    {
        TunTapInterfaceDesc { fd, inbound: Vec::new(), sent: Vec::new() }
    }

    /// One non-blocking read against a buffer of `limit` bytes. Takes the
    /// oldest pending packet whole, truncated to `limit` when it is longer;
    /// reports nothing (the would-block condition) when no packet is pending.
    pub fn recv(&mut self, limit: usize) -> (r: Option<Vec<u8>>)
        ensures
            final(self).fd == old(self).fd,
            final(self).sent == old(self).sent,
            old(self).inbound@.len() == 0 ==> r is None && final(self).inbound == old(
                self,
            ).inbound,
            old(self).inbound@.len() > 0 ==> {
                &&& r is Some
                &&& r->Some_0@ == read_prefix(old(self).inbound@[0]@, limit as nat)
                &&& final(self).inbound@ == old(self).inbound@.drop_first()
            },
    {
        if self.inbound.len() == 0 {
            return None;
        }
        let mut packet = self.inbound.remove(0);
        if packet.len() > limit {
            packet.truncate(limit);
        }
        proof {
            assert(old(self).inbound@.remove(0) =~= old(self).inbound@.drop_first());
        }
        Some(packet)
    }

    /// One write: commits the whole buffer as the next packet on the wire.
    pub fn send(&mut self, packet: Vec<u8>)
        ensures
            final(self).fd == old(self).fd,
            final(self).inbound == old(self).inbound,
            final(self).sent@ == old(self).sent@.push(packet),
    {
        self.sent.push(packet);
    }

    /// The host delivers one inbound packet: it becomes the newest pending
    /// one.
    pub fn deliver(&mut self, packet: Vec<u8>)
        ensures
            final(self).fd == old(self).fd,
            final(self).sent == old(self).sent,
            final(self).inbound@ == old(self).inbound@.push(packet),
    {
        self.inbound.push(packet);
    }
}

/// A handle on one virtual TUN (IP) or TAP (Ethernet) interface. It owns the
/// descriptor, so every read and write against the interface is serialized
/// through it; the maximum transmission unit and the medium are captured at
/// open time and never change.
pub struct TunTapInterface {
    /// The open descriptor all traffic goes through.
    pub lower: TunTapInterfaceDesc,
    /// The maximum transmission unit captured at open time, in bytes.
    pub mtu: usize,
    /// The framing discipline captured at open time.
    pub medium: Medium,
}

/// A freshly opened handle: the given descriptor with empty queues, and the
/// given capabilities.
pub open spec fn fresh_device(d: TunTapInterface, fd: i32, mtu: usize, medium: Medium) -> bool {
    &&& d.lower.fd == fd
    &&& d.lower.inbound@.len() == 0
    &&& d.lower.sent@.len() == 0
    &&& d.mtu == mtu
    &&& d.medium == medium
}

impl TunTapInterface {
    /// Attaches to the interface called `name`, or creates it if it does not
    /// exist.
    ///
    /// Attaching to a persistent interface owned by the calling user needs
    /// no privilege; attaching to any other interface, or creating one,
    /// succeeds only for a privileged caller. On failure nothing is left
    /// open: the registry is exactly as it was.
    pub fn new(name: &str, medium: Medium, host: &mut Host) -> (r: Result<
        TunTapInterface,
        SetupError,
    >)
        requires
            old(host).wf(),
            // Creating an interface assigns the next descriptor number, so
            // there must be room for one; attaching by name assigns none.
            has_name(old(host).interfaces@, name@) || old(host).next_fd < i32::MAX,
        ensures
            final(host).wf(),
            final(host).privileged == old(host).privileged,
            r is Err ==> *final(host) == *old(host),
            ({
                let ifs = old(host).interfaces@;
                let e = entry_named(ifs, name@);
                &&& (has_name(ifs, name@) && e.medium != medium) ==> r == Err::<
                    TunTapInterface,
                    SetupError,
                >(SetupError::NameConflict)
                &&& (has_name(ifs, name@) && e.medium == medium && !(old(host).privileged
                    || e.user_owned)) ==> r == Err::<TunTapInterface, SetupError>(
                    SetupError::PermissionDenied,
                )
                &&& (has_name(ifs, name@) && e.medium == medium && (old(host).privileged
                    || e.user_owned) && e.mtu == 0) ==> r == Err::<TunTapInterface, SetupError>(
                    SetupError::MtuQueryFailed,
                )
                &&& (has_name(ifs, name@) && e.medium == medium && (old(host).privileged
                    || e.user_owned) && e.mtu != 0) ==> {
                    &&& r is Ok
                    &&& fresh_device(r->Ok_0, e.fd, e.mtu, medium)
                    &&& *final(host) == *old(host)
                }
                &&& (!has_name(ifs, name@) && !old(host).privileged) ==> r == Err::<
                    TunTapInterface,
                    SetupError,
                >(SetupError::PermissionDenied)
                &&& (!has_name(ifs, name@) && old(host).privileged) ==> {
                    &&& r is Ok
                    &&& fresh_device(r->Ok_0, old(host).next_fd, DEFAULT_MTU, medium)
                    &&& final(host).interfaces@.len() == ifs.len() + 1
                    &&& final(host).interfaces@.subrange(0, ifs.len() as int) == ifs
                    &&& final(host).interfaces@.last().name@ == name@
                    &&& final(host).interfaces@.last().medium == medium
                    &&& final(host).interfaces@.last().mtu == DEFAULT_MTU
                    &&& final(host).interfaces@.last().user_owned == true
                    &&& final(host).interfaces@.last().fd == old(host).next_fd
                    &&& final(host).next_fd == old(host).next_fd + 1
                }
            }),
    {
        match host.find_by_name(name) {
            Some(i) => {
                proof {
                    lemma_entry_named_is_unique(host.interfaces@, name@, i as int);
                }
                let e_medium = host.interfaces[i].medium;
                let e_mtu = host.interfaces[i].mtu;
                let e_owned = host.interfaces[i].user_owned;
                let e_fd = host.interfaces[i].fd;
                if e_medium != medium {
                    Err(SetupError::NameConflict)
                } else if !(host.privileged || e_owned) {
                    Err(SetupError::PermissionDenied)
                } else if e_mtu == 0 {
                    Err(SetupError::MtuQueryFailed)
                } else {
                    Ok(
                        TunTapInterface {
                            lower: TunTapInterfaceDesc::new(e_fd),
                            mtu: e_mtu,
                            medium,
                        },
                    )
                }
            },
            None => {
                if !host.privileged {
                    Err(SetupError::PermissionDenied)
                } else {
                    let fd = host.next_fd;
                    host.next_fd = fd + 1;
                    let entry = HostInterface {
                        name: name.to_owned(),
                        medium,
                        mtu: DEFAULT_MTU,
                        user_owned: true,
                        fd,
                    };
                    host.interfaces.push(entry);
                    proof {
                        let pre = old(host).interfaces@;
                        let post = host.interfaces@;
                        assert forall|a: int, b: int|
                            0 <= a < b < post.len() implies post[a].name@ != post[b].name@ by {
                            if b < pre.len() as int {
                                assert(pre[a].name@ != pre[b].name@);
                            } else {
                                assert(post[a] == pre[a]);
                                assert(pre[a].name@ != name@);
                            }
                        }
                        assert forall|a: int, b: int|
                            0 <= a < b < post.len() implies post[a].fd != post[b].fd by {
                            if b < pre.len() as int {
                                assert(pre[a].fd != pre[b].fd);
                            } else {
                                assert(pre[a].fd < old(host).next_fd);
                            }
                        }
                        assert forall|a: int|
                            0 <= a < post.len() implies #[trigger] post[a].fd < host.next_fd by {
                            if a < pre.len() as int {
                                assert(pre[a].fd < old(host).next_fd);
                            }
                        }
                        assert(post.subrange(0, pre.len() as int) =~= pre);
                    }
                    Ok(TunTapInterface { lower: TunTapInterfaceDesc::new(fd), mtu: DEFAULT_MTU, medium })
                }
            },
        }
    }

    /// Attaches to the already-open interface answering to descriptor `fd`.
    ///
    /// The same privilege rule applies as for attaching by name; the registry
    /// itself is never changed.
    pub fn new_with_fd(fd: i32, medium: Medium, host: &Host) -> (r: Result<
        TunTapInterface,
        SetupError,
    >)
        requires
            host.wf(),
        ensures
            ({
                let ifs = host.interfaces@;
                let e = entry_with_fd(ifs, fd);
                &&& !has_fd(ifs, fd) ==> r == Err::<TunTapInterface, SetupError>(
                    SetupError::NoSuchDevice,
                )
                &&& (has_fd(ifs, fd) && e.medium != medium) ==> r == Err::<
                    TunTapInterface,
                    SetupError,
                >(SetupError::NameConflict)
                &&& (has_fd(ifs, fd) && e.medium == medium && !(host.privileged
                    || e.user_owned)) ==> r == Err::<TunTapInterface, SetupError>(
                    SetupError::PermissionDenied,
                )
                &&& (has_fd(ifs, fd) && e.medium == medium && (host.privileged || e.user_owned)
                    && e.mtu == 0) ==> r == Err::<TunTapInterface, SetupError>(
                    SetupError::MtuQueryFailed,
                )
                &&& (has_fd(ifs, fd) && e.medium == medium && (host.privileged || e.user_owned)
                    && e.mtu != 0) ==> r is Ok && fresh_device(r->Ok_0, fd, e.mtu, medium)
            }),
    {
        match host.find_by_fd(fd) {
            Some(i) => {
                proof {
                    lemma_entry_with_fd_is_unique(host.interfaces@, fd, i as int);
                }
                let e_medium = host.interfaces[i].medium;
                let e_mtu = host.interfaces[i].mtu;
                let e_owned = host.interfaces[i].user_owned;
                if e_medium != medium {
                    Err(SetupError::NameConflict)
                } else if !(host.privileged || e_owned) {
                    Err(SetupError::PermissionDenied)
                } else if e_mtu == 0 {
                    Err(SetupError::MtuQueryFailed)
                } else {
                    Ok(TunTapInterface { lower: TunTapInterfaceDesc::new(fd), mtu: e_mtu, medium })
                }
            },
            None => Err(SetupError::NoSuchDevice),
        }
    }

    /// The capabilities captured at open time. Pure: no traffic and no time
    /// can change what it reports for a given handle.
    pub fn capabilities(&self) -> (r: DeviceCapabilities)
        ensures
            r.max_transmission_unit == self.mtu,
            r.medium == self.medium,
    {
        DeviceCapabilities { max_transmission_unit: self.mtu, medium: self.medium }
    }

    /// The raw descriptor number, for an external readiness mechanism to
    /// watch. No traffic passes through this accessor.
    pub fn as_raw_fd(&self) -> (r: i32)
        ensures
            r == self.lower.fd,
    {
        self.lower.fd
    }

    /// One poll for receive work: a single non-blocking read.
    ///
    /// When a packet is pending, it yields a receive token owning exactly
    /// the bytes the read delivered — at most `mtu` of them — paired with a
    /// fresh transmit token on the same handle, and the packet leaves the
    /// pending queue whole: no write is committed and nothing else changes.
    /// When nothing is pending (the would-block condition), it yields
    /// nothing and leaves the device untouched; that is the normal "no
    /// work" signal, not an error.
    pub fn receive(&mut self) -> (r: Option<(RxToken, TxToken)>)
        ensures
            final(self).mtu == old(self).mtu,
            final(self).medium == old(self).medium,
            final(self).lower.fd == old(self).lower.fd,
            final(self).lower.sent == old(self).lower.sent,
            old(self).lower.inbound@.len() == 0 ==> r is None && *final(self) == *old(self),
            old(self).lower.inbound@.len() > 0 ==> {
                &&& r is Some
                &&& r->Some_0.0.buffer@ == read_prefix(
                    old(self).lower.inbound@[0]@,
                    old(self).mtu as nat,
                )
                &&& r->Some_0.0.buffer@.len() <= old(self).mtu
                &&& r->Some_0.1.fd == old(self).lower.fd
                &&& final(self).lower.inbound@ == old(self).lower.inbound@.drop_first()
            },
    {
        let mtu = self.mtu;
        match self.lower.recv(mtu) {
            Some(buffer) => {
                let fd = self.lower.fd;
                Some((RxToken { buffer }, TxToken { fd }))
            },
            None => None,
        }
    }

    /// One poll for a transmit opportunity: always ready. The token touches
    /// no resource until it is consumed, so the device is left untouched.
    pub fn transmit(&mut self) -> (r: Option<TxToken>)
        ensures
            r is Some && r->Some_0.fd == old(self).lower.fd,
            *final(self) == *old(self),
    {
        Some(TxToken { fd: self.lower.fd })
    }

    /// The host delivers one inbound packet: it joins the pending queue
    /// whole, behind every earlier one, and nothing else changes.
    pub fn inject(&mut self, packet: Vec<u8>)
        ensures
            final(self).mtu == old(self).mtu,
            final(self).medium == old(self).medium,
            final(self).lower.fd == old(self).lower.fd,
            final(self).lower.sent == old(self).lower.sent,
            final(self).lower.inbound@ == old(self).lower.inbound@.push(packet),
    {
        self.lower.deliver(packet);
    }

    /// Hands over every packet committed so far, oldest first, and leaves
    /// the write log empty: what a host-side driver puts on the wire.
    pub fn take_transmitted(&mut self) -> (r: Vec<Vec<u8>>)
        ensures
            final(self).mtu == old(self).mtu,
            final(self).medium == old(self).medium,
            final(self).lower.fd == old(self).lower.fd,
            final(self).lower.inbound == old(self).lower.inbound,
            r@ == old(self).lower.sent@,
            final(self).lower.sent@.len() == 0,
    {
        let r = self.lower.sent.split_off(0);
        proof {
            assert(r@ =~= old(self).lower.sent@);
        }
        r
    }
}

} // verus!
