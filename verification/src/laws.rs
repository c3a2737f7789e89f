//! Laws of the adapter, stated over the same views its contracts use.
//!
//! Access to the descriptor is serialized through `&mut` on the one handle
//! that owns it, so operations cannot overlap in time; these laws state what
//! that serialization yields at the descriptor boundary, and that traffic
//! never moves the capability record.

use vstd::prelude::*;

use crate::device::TunTapInterface;

verus! {

/// The relation between the device before and after one traffic operation:
/// the capability record — maximum transmission unit and medium — is kept.
/// Every traffic operation (`receive`, `transmit`, `inject`,
/// `take_transmitted`, `TxToken::consume`) ensures it.
pub open spec fn preserves_capabilities(pre: TunTapInterface, post: TunTapInterface) -> bool {
    &&& post.mtu == pre.mtu
    &&& post.medium == pre.medium
}

/// Law: what `capabilities` reports is invariant across the handle's
/// lifetime, regardless of traffic volume. Each traffic operation preserves
/// the capability record between its pre and post state; this lemma carries
/// that across any run of such operations.
pub proof fn lemma_capabilities_invariant(run: Seq<TunTapInterface>)
    requires
        run.len() > 0,
        forall|i: int|
            0 <= i < run.len() - 1 ==> preserves_capabilities(run[i], #[trigger] run[i + 1]),
    ensures
        preserves_capabilities(run[0], run[run.len() - 1]),
    decreases run.len(),
{
    if run.len() > 1 {
        let prefix = run.drop_last();
        assert forall|i: int|
            0 <= i < prefix.len() - 1 implies preserves_capabilities(
            prefix[i],
            #[trigger] prefix[i + 1],
        ) by {
            assert(prefix[i] == run[i]);
            assert(prefix[i + 1] == run[i + 1]);
        }
        lemma_capabilities_invariant(prefix);
        assert(run[run.len() - 2] == prefix[prefix.len() - 1]);
        let k = run.len() - 2;
        assert(preserves_capabilities(run[k], run[k + 1]));
        assert(preserves_capabilities(run[run.len() - 2], run[run.len() - 1]));
    }
}

/// Law: a committed write reaches the descriptor as one complete buffer. It
/// appends exactly one packet, equal to the populated buffer, and leaves
/// every packet written before it untouched — a write never interleaves
/// with, or partially overwrites, earlier traffic.
pub proof fn lemma_write_sees_whole_buffer(sent: Seq<Vec<u8>>, out: Vec<u8>)
    ensures
        sent.push(out).len() == sent.len() + 1,
        sent.push(out).last() == out,
        forall|i: int| 0 <= i < sent.len() ==> sent.push(out)[i] == sent[i],
{
}

/// Law: a successful read takes the oldest pending packet whole. The packet
/// leaves the queue in one piece, and every younger packet is untouched,
/// merely moved up one place — a read never splits a packet across polls.
pub proof fn lemma_read_sees_whole_buffer(inbound: Seq<Vec<u8>>)
    requires
        inbound.len() > 0,
    ensures
        inbound.drop_first().len() == inbound.len() - 1,
        forall|i: int| 0 <= i < inbound.len() - 1 ==> inbound.drop_first()[i] == inbound[i + 1],
{
}

} // verus!
