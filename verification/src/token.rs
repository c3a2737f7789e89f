//! Single-use capability tokens.
//!
//! A receive token owns the bytes of exactly one received packet; a transmit
//! token is the right to commit exactly one write. Both are consumed by
//! value, so a consumed token cannot be consumed again: the type system
//! enforces the `Created -> Consumed` state machine.

use vstd::prelude::*;

use crate::device::TunTapInterface;

verus! {

/// A single-use capability wrapping one received packet's bytes.
pub struct RxToken {
    /// The packet as one read delivered it: exactly the bytes read, never a
    /// full allocation padded to the maximum transmission unit.
    pub buffer: Vec<u8>,
}

impl RxToken {
    /// Consumes the token, handing the packet bytes to `f` exactly once and
    /// returning its result verbatim. The consumer observes exactly the
    /// bytes one read delivered: same length, same order.
    pub fn consume<R, F: FnOnce(Vec<u8>) -> R>(self, f: F) -> (r: R)
        requires
            f.requires((self.buffer,)),
        ensures
            f.ensures((self.buffer,), r),
    {
        let RxToken { buffer } = self;
        f(buffer)
    }
}

/// A single-use capability to commit exactly one write against the handle
/// that issued it.
pub struct TxToken {
    /// The descriptor number of the issuing handle; the token only commits
    /// against that handle.
    pub fd: i32,
}

impl TxToken {
    /// Consumes the token: hands `f` a zero-initialized buffer of exactly
    /// `len` bytes, then commits the buffer `f` gives back as one whole
    /// write against the device, and returns `f`'s second result verbatim.
    /// Exactly one write reaches the descriptor, and every earlier write is
    /// untouched by it.
    pub fn consume<R, F: FnOnce(Vec<u8>) -> (Vec<u8>, R)>(
        self,
        device: &mut TunTapInterface,
        len: usize,
        f: F,
    ) -> (r: R)
        requires
            self.fd == old(device).lower.fd,
            forall|b: Vec<u8>|
                b@ == Seq::new(len as nat, |i: int| 0u8) ==> #[trigger] f.requires((b,)),
        ensures
            final(device).mtu == old(device).mtu,
            final(device).medium == old(device).medium,
            final(device).lower.fd == old(device).lower.fd,
            final(device).lower.inbound == old(device).lower.inbound,
            final(device).lower.sent@.len() == old(device).lower.sent@.len() + 1,
            exists|b: Vec<u8>, out: Vec<u8>|
                {
                    &&& b@ == Seq::new(len as nat, |i: int| 0u8)
                    &&& #[trigger] f.ensures((b,), (out, r))
                    &&& final(device).lower.sent@ == old(device).lower.sent@.push(out)
                },
    {
        let buffer = zeroed(len);
        let (out, r) = f(buffer);
        device.lower.send(out);
        r
    }
}

/// A zero-initialized buffer of exactly `len` bytes.
fn zeroed(len: usize) -> (r: Vec<u8>)
    ensures
        r@ == Seq::new(len as nat, |i: int| 0u8),
{
    let mut v: Vec<u8> = Vec::new();
    while v.len() < len
        invariant
            v@.len() <= len,
            forall|i: int| 0 <= i < v@.len() ==> v@[i] == 0u8,
        decreases len - v.len(),
    {
        v.push(0);
    }
    proof {
        assert(v@ =~= Seq::new(len as nat, |i: int| 0u8));
    }
    v
}

} // verus!
