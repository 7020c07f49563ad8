use vstd::prelude::*;

use crate::channel::{ChannelState, Order};
use crate::commitment::packet_commitment_spec;
use crate::context::StoreV;
use crate::error::ContextError;
use crate::host::Height;
use crate::packet::PacketV;
use crate::packet_handlers::{
    acknowledge_packet_check, acknowledge_packet_transition, recv_packet_check,
    recv_packet_transition, send_packet_check, send_packet_transition, timeout_packet_check,
    timeout_packet_transition,
};

verus! {

/// A packet sent and later acknowledged has its commitment go from
/// absent to present to absent, and no other sequence on that path is
/// touched in between: the send writes exactly the packet's
/// commitment at its sequence, and the acknowledgement deletes
/// exactly it.
pub proof fn lemma_commitment_lifecycle(
    s0: StoreV,
    p: PacketV,
    ack: Seq<u8>,
    proof: Seq<u8>,
    proof_height: Height,
)
    requires
        send_packet_check(s0, p) is None,
        !s0.commitments.contains_key((p.port_on_a, p.chan_on_a, p.seq_on_a)),
    ensures
        ({
            let key = (p.port_on_a, p.chan_on_a, p.seq_on_a);
            let s1 = send_packet_transition(s0, p);
            &&& s1.commitments.contains_key(key)
            &&& s1.commitments[key] == packet_commitment_spec(
                p.data,
                p.timeout_height_on_b,
                p.timeout_timestamp_on_b,
            )
            &&& forall|k2: (Seq<char>, Seq<char>, u64)|
                k2 != key ==> s1.commitments.contains_key(k2) == s0.commitments.contains_key(k2)
            &&& (acknowledge_packet_check(s1, p, ack, proof, proof_height) == Ok::<
                bool,
                ContextError,
            >(true) ==> {
                let s2 = acknowledge_packet_transition(s1, p);
                &&& !s2.commitments.contains_key(key)
                &&& forall|k2: (Seq<char>, Seq<char>, u64)|
                    k2 != key ==> s2.commitments.contains_key(k2) == s0.commitments.contains_key(
                        k2,
                    )
            })
        }),
{
}

/// Receiving the same packet twice on an unordered channel: the first
/// fresh receive leaves a receipt, so the second attempt is the
/// idempotent no-op outcome, which `execute_recv_packet` turns into
/// an identical final state with no further events.
pub proof fn lemma_unordered_recv_idempotent(
    s0: StoreV,
    p: PacketV,
    ack: Option<Seq<u8>>,
    proof: Seq<u8>,
    proof_height: Height,
)
    requires
        recv_packet_check(s0, p, proof, proof_height) == Ok::<bool, ContextError>(true),
        s0.channels[(p.port_on_b, p.chan_on_b)].ordering == Order::Unordered,
    ensures
        recv_packet_check(recv_packet_transition(s0, p, ack), p, proof, proof_height) == Ok::<
            bool,
            ContextError,
        >(false),
{
    let s1 = recv_packet_transition(s0, p, ack);
    assert(s1.channels == s0.channels);
    assert(s1.connections == s0.connections);
    assert(s1.clients == s0.clients);
    assert(s1.receipts.contains_key((p.port_on_b, p.chan_on_b, p.seq_on_a)));
}

/// On an ordered channel, a fresh receive takes exactly the expected
/// sequence and advances the counter by one. Starting from a counter
/// of 1, the received sequences are therefore always the prefix
/// `{1, 2, ..., k}` of the naturals, with the counter at `k + 1`:
/// this lemma is the step of that induction.
pub proof fn lemma_ordered_recv_in_order(
    s0: StoreV,
    p: PacketV,
    ack: Option<Seq<u8>>,
    proof: Seq<u8>,
    proof_height: Height,
)
    requires
        recv_packet_check(s0, p, proof, proof_height) == Ok::<bool, ContextError>(true),
        s0.channels[(p.port_on_b, p.chan_on_b)].ordering == Order::Ordered,
    ensures
        p.seq_on_a == s0.next_seq_recv[(p.port_on_b, p.chan_on_b)],
        recv_packet_transition(s0, p, ack).next_seq_recv[(p.port_on_b, p.chan_on_b)] == p.seq_on_a
            + 1,
{
}

/// A packet cannot be both acknowledged and timed out: once the
/// acknowledgement deletes the commitment, a timeout of the same
/// packet is the no-op outcome.
pub proof fn lemma_no_timeout_after_ack(
    s0: StoreV,
    p: PacketV,
    ack: Seq<u8>,
    proof_ack: Seq<u8>,
    proof_height_ack: Height,
    next_seq_recv_on_b: u64,
    proof_timeout: Seq<u8>,
    proof_height_timeout: Height,
)
    requires
        acknowledge_packet_check(s0, p, ack, proof_ack, proof_height_ack) == Ok::<
            bool,
            ContextError,
        >(true),
    ensures
        timeout_packet_check(
            acknowledge_packet_transition(s0, p),
            p,
            next_seq_recv_on_b,
            proof_timeout,
            proof_height_timeout,
        ) == Ok::<bool, ContextError>(false),
{
    let s1 = acknowledge_packet_transition(s0, p);
    assert(s1.channels == s0.channels);
    assert(!s1.commitments.contains_key((p.port_on_a, p.chan_on_a, p.seq_on_a)));
}

/// The mirror image: once a timeout deletes the commitment, an
/// acknowledgement of the same packet is the no-op outcome. The
/// channel stays addressable (an ordered timeout closes it, and a
/// closed channel still accepts acknowledgements).
pub proof fn lemma_no_ack_after_timeout(
    s0: StoreV,
    p: PacketV,
    next_seq_recv_on_b: u64,
    proof_timeout: Seq<u8>,
    proof_height_timeout: Height,
    ack: Seq<u8>,
    proof_ack: Seq<u8>,
    proof_height_ack: Height,
)
    requires
        timeout_packet_check(s0, p, next_seq_recv_on_b, proof_timeout, proof_height_timeout)
            == Ok::<bool, ContextError>(true),
        s0.channels[(p.port_on_a, p.chan_on_a)].state == ChannelState::Open
            || s0.channels[(p.port_on_a, p.chan_on_a)].state == ChannelState::Closed,
        s0.channels[(p.port_on_a, p.chan_on_a)].remote_port == p.port_on_b,
        s0.channels[(p.port_on_a, p.chan_on_a)].remote_channel == Some(p.chan_on_b),
    ensures
        acknowledge_packet_check(
            timeout_packet_transition(s0, p),
            p,
            ack,
            proof_ack,
            proof_height_ack,
        ) == Ok::<bool, ContextError>(false),
{
    let s1 = timeout_packet_transition(s0, p);
    assert(!s1.commitments.contains_key((p.port_on_a, p.chan_on_a, p.seq_on_a)));
    let key = (p.port_on_a, p.chan_on_a);
    if s0.channels[key].ordering == Order::Ordered {
        assert(s1.channels.contains_key(key));
        assert(s1.channels[key].state == ChannelState::Closed);
    } else {
        assert(s1.channels == s0.channels);
    }
}

/// Validation is pure: its outcome is a function of the store's
/// mathematical view and the message alone, so two stores that agree
/// as views validate every packet message alike. (That a `validate_*`
/// call leaves the store untouched is enforced by its signature: it
/// borrows the context immutably.)
pub proof fn lemma_validation_deterministic(
    s1: StoreV,
    s2: StoreV,
    p: PacketV,
    proof: Seq<u8>,
    proof_height: Height,
)
    requires
        s1 == s2,
    ensures
        recv_packet_check(s1, p, proof, proof_height) == recv_packet_check(s2, p, proof, proof_height),
        send_packet_check(s1, p) == send_packet_check(s2, p),
{
}

/// The store after a chain of receives of `steps` (each a packet and
/// the acknowledgement the application answered).
pub open spec fn recv_chain(
    s: StoreV,
    steps: Seq<(PacketV, Option<Seq<u8>>)>,
) -> StoreV
    decreases steps.len(),
{
    if steps.len() == 0 {
        s
    } else {
        recv_packet_transition(recv_chain(s, steps.drop_last()), steps.last().0, steps.last().1)
    }
}

/// Every receive of the chain was a fresh success under the same
/// relayed proof.
pub open spec fn recv_chain_ok(
    s: StoreV,
    steps: Seq<(PacketV, Option<Seq<u8>>)>,
    proof: Seq<u8>,
    proof_height: Height,
) -> bool
    decreases steps.len(),
{
    if steps.len() == 0 {
        true
    } else {
        recv_chain_ok(s, steps.drop_last(), proof, proof_height) && recv_packet_check(
            recv_chain(s, steps.drop_last()),
            steps.last().0,
            proof,
            proof_height,
        ) == Ok::<bool, ContextError>(true)
    }
}

/// On an ordered channel whose counter starts at 1, the received
/// sequences are exactly the prefix `{1, 2, ..., k}` of the naturals,
/// and the counter ends at `k + 1`.
pub proof fn lemma_ordered_prefix(
    s0: StoreV,
    steps: Seq<(PacketV, Option<Seq<u8>>)>,
    port: Seq<char>,
    chan: Seq<char>,
    proof: Seq<u8>,
    proof_height: Height,
)
    requires
        forall|i: int|
            0 <= i < steps.len() ==> (#[trigger] steps[i].0).port_on_b == port
                && steps[i].0.chan_on_b == chan,
        s0.channels.contains_key((port, chan)),
        s0.channels[(port, chan)].ordering == Order::Ordered,
        s0.next_seq_recv.contains_key((port, chan)),
        s0.next_seq_recv[(port, chan)] == 1,
        recv_chain_ok(s0, steps, proof, proof_height),
    ensures
        recv_chain(s0, steps).channels == s0.channels,
        recv_chain(s0, steps).next_seq_recv.contains_key((port, chan)),
        recv_chain(s0, steps).next_seq_recv[(port, chan)] == 1 + steps.len(),
        forall|i: int| 0 <= i < steps.len() ==> (#[trigger] steps[i].0).seq_on_a == i + 1,
    decreases steps.len(),
{
    if steps.len() > 0 {
        let prefix = steps.drop_last();
        assert(forall|i: int|
            0 <= i < prefix.len() ==> (#[trigger] prefix[i].0) == steps[i].0);
        lemma_ordered_prefix(s0, prefix, port, chan, proof, proof_height);
        let s_prev = recv_chain(s0, prefix);
        let last = steps.last();
        assert(last.0 == steps[steps.len() - 1].0);
        assert(recv_packet_check(s_prev, last.0, proof, proof_height) == Ok::<
            bool,
            ContextError,
        >(true));
        assert(last.0.seq_on_a == s_prev.next_seq_recv[(port, chan)]);
        assert forall|i: int| 0 <= i < steps.len() implies (#[trigger] steps[i].0).seq_on_a == i
            + 1 by {
            if i < steps.len() - 1 {
                assert(steps[i].0 == prefix[i].0);
            }
        }
    }
}

} // verus!
