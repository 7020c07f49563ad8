use vstd::prelude::*;

use crate::acknowledgement::Acknowledgement;
use crate::channel::{ChannelEnd, ChannelEndV, ChannelState, Order};
use crate::client::{AnyClientState, AnyConsensusState, Status};
use crate::commitment::{
    ack_commitment_spec, compute_ack_commitment, compute_packet_commitment, packet_commitment_spec,
};
use crate::connection::ConnectionState;
use crate::context::{MockContext, StoreV};
use crate::error::{ChannelError, ClientError, ConnectionError, ContextError, PacketError};
use crate::events::{IbcEvent, MessageCategory};
use crate::host::{Height, Timestamp};
use crate::packet::{MsgAcknowledgement, MsgRecvPacket, MsgTimeout, MsgTimeoutOnClose, Packet, PacketV};
use crate::path::{ack_path, commitment_path, receipt_path, ClientConsensusStatePath};

verus! {

/// The client a channel verifies against: the one of its (single)
/// underlying connection.
pub open spec fn channel_client_id(s: StoreV, ch: ChannelEndV) -> Seq<char> {
    s.connections[ch.connection_hops[0]].client_id
}

/// The checks every packet handler makes below the channel end: a
/// single open connection hop, backed by an installed, active client.
pub open spec fn conn_client_check(s: StoreV, ch: ChannelEndV) -> Option<ContextError> {
    if ch.connection_hops.len() != 1 {
        Some(ContextError::Channel(ChannelError::UnsupportedMultiHop))
    } else if !s.connections.contains_key(ch.connection_hops[0]) {
        Some(ContextError::Connection(ConnectionError::ConnectionNotFound))
    } else if s.connections[ch.connection_hops[0]].state != ConnectionState::Open {
        Some(ContextError::Channel(ChannelError::ConnectionNotOpen))
    } else if !s.clients.contains_key(channel_client_id(s, ch))
        || s.clients[channel_client_id(s, ch)].client_state is None {
        Some(ContextError::Client(ClientError::ClientStateNotFound))
    } else if s.clients[channel_client_id(s, ch)].client_state->0.status_spec()
        != Status::Active {
        Some(ContextError::Client(ClientError::ClientFrozen))
    } else {
        None
    }
}

/// Whether the channel's client holds a consensus state at the proof
/// height; handlers verify membership proofs against it.
pub open spec fn consensus_at_check(s: StoreV, ch: ChannelEndV, proof_height: Height) -> Option<
    ContextError,
> {
    if !s.clients[channel_client_id(s, ch)].consensus_states.contains_key(proof_height) {
        Some(ContextError::Client(ClientError::ConsensusStateNotFound { height: proof_height }))
    } else {
        None
    }
}

/// The timestamp the counterparty chain had at the proof height, as
/// the stored consensus state records it.
pub open spec fn consensus_time_at(s: StoreV, ch: ChannelEndV, proof_height: Height) -> Timestamp {
    s.clients[channel_client_id(s, ch)].consensus_states[proof_height].timestamp
}

/// Resolves the channel's connection and client and hands back the
/// active client state.
pub(crate) fn channel_client(ctx: &MockContext, ch: &ChannelEnd) -> (r: Result<AnyClientState, ContextError>)
    ensures
        match conn_client_check(ctx@, ch@) {
            Some(e) => r == Err::<AnyClientState, ContextError>(e),
            None => r is Ok && Some(r->Ok_0) == ctx@.clients[channel_client_id(
                ctx@,
                ch@,
            )].client_state,
        },
{
    if ch.connection_hops.len() != 1 {
        return Err(ContextError::Channel(ChannelError::UnsupportedMultiHop));
    }
    let conn = match ctx.connection_end(&ch.connection_hops[0]) {
        Ok(c) => c,
        Err(e) => {
            return Err(e);
        },
    };
    if !conn.is_open() {
        return Err(ContextError::Channel(ChannelError::ConnectionNotOpen));
    }
    let client = match ctx.client_state(&conn.client_id) {
        Ok(c) => c,
        Err(e) => {
            return Err(e);
        },
    };
    if !(client.status() == Status::Active) {
        return Err(ContextError::Client(ClientError::ClientFrozen));
    }
    Ok(client)
}

/// Fetches the consensus state the proof is checked against.
pub(crate) fn channel_consensus_at(ctx: &MockContext, ch: &ChannelEnd, proof_height: Height) -> (r: Result<
    AnyConsensusState,
    ContextError,
>)
    requires
        conn_client_check(ctx@, ch@) is None,
    ensures
        match consensus_at_check(ctx@, ch@, proof_height) {
            Some(e) => r == Err::<AnyConsensusState, ContextError>(e),
            None => r is Ok && r->Ok_0@ == ctx@.clients[channel_client_id(
                ctx@,
                ch@,
            )].consensus_states[proof_height],
        },
{
    let conn = match ctx.connection_end(&ch.connection_hops[0]) {
        Ok(c) => c,
        Err(_) => {
            proof {
                assert(false);
            }
            return Err(ContextError::HostInvariantViolated);
        },
    };
    let path = ClientConsensusStatePath {
        client_id: conn.client_id.clone(),
        revision_number: proof_height.revision_number,
        revision_height: proof_height.revision_height,
    };
    match ctx.consensus_state(&path) {
        Ok(cs) => Ok(cs),
        Err(e) => Err(e),
    }
}

/// Everything `send_packet` demands of the store before it mutates:
/// an open channel facing the packet's destination, an open
/// connection under an active client whose view has not yet reached
/// the packet's deadline, and the packet carrying the next send
/// sequence.
pub open spec fn send_packet_check(s: StoreV, p: PacketV) -> Option<ContextError> {
    let chan_key = (p.port_on_a, p.chan_on_a);
    if !s.channels.contains_key(chan_key) {
        Some(ContextError::Channel(ChannelError::ChannelNotFound))
    } else {
        let ch = s.channels[chan_key];
        if ch.state == ChannelState::Closed {
            Some(ContextError::Channel(ChannelError::ChannelClosed))
        } else if ch.state != ChannelState::Open {
            Some(ContextError::Channel(ChannelError::InvalidChannelState))
        } else if !(ch.remote_port == p.port_on_b && ch.remote_channel == Some(p.chan_on_b)) {
            Some(ContextError::Connection(ConnectionError::InvalidCounterparty))
        } else if conn_client_check(s, ch) is Some {
            conn_client_check(s, ch)
        } else if !p.has_timeout() {
            Some(ContextError::Packet(PacketError::MissingTimeout))
        } else {
            let client = s.clients[channel_client_id(s, ch)].client_state->0;
            let latest = client.latest_height_spec();
            if !(s.clients[channel_client_id(s, ch)].consensus_states.contains_key(latest)) {
                Some(ContextError::Client(ClientError::ConsensusStateNotFound { height: latest }))
            } else if p.deadline_passed(latest, consensus_time_at(s, ch, latest)) {
                Some(ContextError::Packet(PacketError::PacketTimeout))
            } else if !s.next_seq_send.contains_key(chan_key) {
                Some(ContextError::HostInvariantViolated)
            } else if p.seq_on_a != s.next_seq_send[chan_key] {
                Some(
                    ContextError::Packet(
                        PacketError::InvalidPacketSequence {
                            expected: s.next_seq_send[chan_key],
                            actual: p.seq_on_a,
                        },
                    ),
                )
            } else if s.next_seq_send[chan_key] == u64::MAX {
                Some(ContextError::HostInvariantViolated)
            } else {
                None
            }
        }
    }
}

/// The store after a successful send: the packet's commitment is
/// written, the send counter advances, and the send is announced.
pub open spec fn send_packet_transition(s: StoreV, p: PacketV) -> StoreV {
    StoreV {
        commitments: s.commitments.insert(
            (p.port_on_a, p.chan_on_a, p.seq_on_a),
            packet_commitment_spec(p.data, p.timeout_height_on_b, p.timeout_timestamp_on_b),
        ),
        next_seq_send: s.next_seq_send.insert(
            (p.port_on_a, p.chan_on_a),
            (s.next_seq_send[(p.port_on_a, p.chan_on_a)] + 1) as u64,
        ),
        events: s.events + seq![
            IbcEvent::Message(MessageCategory::Channel),
            IbcEvent::SendPacket { sequence: p.seq_on_a },
        ],
        ..s
    }
}

/// Sends a packet on a channel of this chain: called by an
/// application module, not by a relayed message.
pub fn send_packet(ctx: &mut MockContext, packet: &Packet) -> (r: Result<(), ContextError>)
    ensures
        match send_packet_check(old(ctx)@, packet@) {
            Some(e) => r == Err::<(), ContextError>(e) && final(ctx)@ == old(ctx)@,
            None => r is Ok && final(ctx)@ == send_packet_transition(old(ctx)@, packet@),
        },
{
    let chan = match ctx.channel_end(&packet.port_id_on_a, &packet.chan_id_on_a) {
        Ok(c) => c,
        Err(e) => {
            return Err(e);
        },
    };
    if chan.is_closed() {
        return Err(ContextError::Channel(ChannelError::ChannelClosed));
    }
    if !chan.is_open() {
        return Err(ContextError::Channel(ChannelError::InvalidChannelState));
    }
    if !chan.counterparty_matches(&packet.port_id_on_b, &packet.chan_id_on_b) {
        return Err(ContextError::Connection(ConnectionError::InvalidCounterparty));
    }
    let client = match channel_client(ctx, chan) {
        Ok(c) => c,
        Err(e) => {
            return Err(e);
        },
    };
    if !packet.has_timeout() {
        return Err(ContextError::Packet(PacketError::MissingTimeout));
    }
    let latest = client.latest_height();
    let latest_consensus = match channel_consensus_at(ctx, chan, latest) {
        Ok(cs) => cs,
        Err(e) => {
            return Err(e);
        },
    };
    if packet.deadline_passed(latest, latest_consensus.timestamp()) {
        return Err(ContextError::Packet(PacketError::PacketTimeout));
    }
    let seq = match ctx.get_next_sequence_send(&packet.port_id_on_a, &packet.chan_id_on_a) {
        Ok(s) => s,
        Err(e) => {
            return Err(e);
        },
    };
    if packet.seq_on_a != seq {
        return Err(
            ContextError::Packet(
                PacketError::InvalidPacketSequence { expected: seq, actual: packet.seq_on_a },
            ),
        );
    }
    if seq == u64::MAX {
        return Err(ContextError::HostInvariantViolated);
    }
    let commitment = compute_packet_commitment(
        &packet.data,
        &packet.timeout_height_on_b,
        packet.timeout_timestamp_on_b,
    );
    ctx.store_packet_commitment(
        packet.port_id_on_a.clone(),
        packet.chan_id_on_a.clone(),
        packet.seq_on_a,
        commitment,
    );
    ctx.store_next_sequence_send(
        packet.port_id_on_a.clone(),
        packet.chan_id_on_a.clone(),
        seq + 1,
    );
    ctx.emit_event(IbcEvent::Message(MessageCategory::Channel));
    ctx.emit_event(IbcEvent::SendPacket { sequence: packet.seq_on_a });
    proof {
        assert(ctx@ =~= send_packet_transition(old(ctx)@, packet@));
    }
    Ok(())
}

/// Everything `recv_packet` demands of the store: the destination
/// channel open and facing the packet's source, an open connection
/// under an active client holding the proof-height consensus state, a
/// present proof, and a deadline that has not passed on this host.
/// `Ok(false)` is the idempotent unordered replay: success without
/// effect.
pub open spec fn recv_packet_check(
    s: StoreV,
    p: PacketV,
    proof: Seq<u8>,
    proof_height: Height,
) -> Result<bool, ContextError> {
    let chan_key = (p.port_on_b, p.chan_on_b);
    if !s.channels.contains_key(chan_key) {
        Err(ContextError::Channel(ChannelError::ChannelNotFound))
    } else {
        let ch = s.channels[chan_key];
        if ch.state != ChannelState::Open {
            Err(ContextError::Channel(ChannelError::InvalidChannelState))
        } else if !(ch.remote_port == p.port_on_a && ch.remote_channel == Some(p.chan_on_a)) {
            Err(ContextError::Connection(ConnectionError::InvalidCounterparty))
        } else if conn_client_check(s, ch) is Some {
            Err(conn_client_check(s, ch)->0)
        } else if p.deadline_passed(s.host_height, s.host_timestamp) {
            Err(ContextError::Packet(PacketError::PacketTimeout))
        } else if proof.len() == 0 {
            Err(ContextError::Proof(crate::error::ProofError::MissingProof))
        } else if consensus_at_check(s, ch, proof_height) is Some {
            Err(consensus_at_check(s, ch, proof_height)->0)
        } else if ch.ordering == Order::Ordered {
            if !s.next_seq_recv.contains_key(chan_key) {
                Err(ContextError::HostInvariantViolated)
            } else if p.seq_on_a != s.next_seq_recv[chan_key] {
                Err(
                    ContextError::Packet(
                        PacketError::InvalidPacketSequence {
                            expected: s.next_seq_recv[chan_key],
                            actual: p.seq_on_a,
                        },
                    ),
                )
            } else if s.next_seq_recv[chan_key] == u64::MAX {
                Err(ContextError::HostInvariantViolated)
            } else {
                Ok(true)
            }
        } else {
            if s.receipts.contains_key((p.port_on_b, p.chan_on_b, p.seq_on_a)) {
                Ok(false)
            } else {
                Ok(true)
            }
        }
    }
}

/// The store after a fresh receive: the ordered counter advances or
/// the unordered receipt appears, the receive is announced, and a
/// synchronous acknowledgement is committed and announced after it.
pub open spec fn recv_packet_transition(s: StoreV, p: PacketV, ack: Option<Seq<u8>>) -> StoreV {
    let chan_key = (p.port_on_b, p.chan_on_b);
    let seq_key = (p.port_on_b, p.chan_on_b, p.seq_on_a);
    let ordered = s.channels[chan_key].ordering == Order::Ordered;
    let base_events = s.events + seq![
        IbcEvent::Message(MessageCategory::Channel),
        IbcEvent::ReceivePacket { sequence: p.seq_on_a },
    ];
    StoreV {
        next_seq_recv: if ordered {
            s.next_seq_recv.insert(chan_key, (s.next_seq_recv[chan_key] + 1) as u64)
        } else {
            s.next_seq_recv
        },
        receipts: if ordered {
            s.receipts
        } else {
            s.receipts.insert(seq_key, 1u8)
        },
        acks: match ack {
            Some(a) => s.acks.insert(seq_key, ack_commitment_spec(a)),
            None => s.acks,
        },
        events: match ack {
            Some(_) => base_events + seq![
                IbcEvent::Message(MessageCategory::Channel),
                IbcEvent::WriteAcknowledgement { sequence: p.seq_on_a },
            ],
            None => base_events,
        },
        ..s
    }
}

/// The read-only pass of `recv_packet`: every precondition and every
/// proof verification, touching nothing.
pub fn validate_recv_packet(ctx: &MockContext, msg: &MsgRecvPacket) -> (r: Result<
    (),
    ContextError,
>)
    ensures
        match recv_packet_check(ctx@, msg.packet@, msg.proof_commitment_on_a@, msg.proof_height_on_a) {
            Ok(_) => r == Ok::<(), ContextError>(()),
            Err(e) => r == Err::<(), ContextError>(e),
        },
{
    let p = &msg.packet;
    let chan = match ctx.channel_end(&p.port_id_on_b, &p.chan_id_on_b) {
        Ok(c) => c,
        Err(e) => {
            return Err(e);
        },
    };
    if !chan.is_open() {
        return Err(ContextError::Channel(ChannelError::InvalidChannelState));
    }
    if !chan.counterparty_matches(&p.port_id_on_a, &p.chan_id_on_a) {
        return Err(ContextError::Connection(ConnectionError::InvalidCounterparty));
    }
    let client = match channel_client(ctx, chan) {
        Ok(c) => c,
        Err(e) => {
            return Err(e);
        },
    };
    let host_height = match ctx.host_height() {
        Ok(h) => h,
        Err(e) => {
            return Err(e);
        },
    };
    let host_time = match ctx.host_timestamp() {
        Ok(t) => t,
        Err(e) => {
            return Err(e);
        },
    };
    if p.deadline_passed(host_height, host_time) {
        return Err(ContextError::Packet(PacketError::PacketTimeout));
    }
    if msg.proof_commitment_on_a.len() == 0 {
        return Err(ContextError::Proof(crate::error::ProofError::MissingProof));
    }
    let consensus = match channel_consensus_at(ctx, chan, msg.proof_height_on_a) {
        Ok(cs) => cs,
        Err(e) => {
            return Err(e);
        },
    };
    let expected = compute_packet_commitment(
        &p.data,
        &p.timeout_height_on_b,
        p.timeout_timestamp_on_b,
    );
    let path = commitment_path(&p.port_id_on_a, &p.chan_id_on_a, p.seq_on_a);
    match client.verify_membership(&msg.proof_commitment_on_a, consensus.root(), &path, &expected) {
        Ok(_) => {},
        Err(e) => {
            return Err(ContextError::Proof(e));
        },
    }
    if chan.is_ordered() {
        let nsr = match ctx.get_next_sequence_recv(&p.port_id_on_b, &p.chan_id_on_b) {
            Ok(s) => s,
            Err(e) => {
                return Err(e);
            },
        };
        if p.seq_on_a != nsr {
            return Err(
                ContextError::Packet(
                    PacketError::InvalidPacketSequence { expected: nsr, actual: p.seq_on_a },
                ),
            );
        }
        if nsr == u64::MAX {
            return Err(ContextError::HostInvariantViolated);
        }
    }
    Ok(())
}

/// Receives a packet on this chain, with the application's
/// synchronous acknowledgement, if it gave one. A repeated unordered
/// receive succeeds with no mutation and no events.
pub fn execute_recv_packet(
    ctx: &mut MockContext,
    msg: &MsgRecvPacket,
    ack: Option<&Acknowledgement>,
) -> (r: Result<(), ContextError>)
    ensures
        match recv_packet_check(
            old(ctx)@,
            msg.packet@,
            msg.proof_commitment_on_a@,
            msg.proof_height_on_a,
        ) {
            Err(e) => r == Err::<(), ContextError>(e) && final(ctx)@ == old(ctx)@,
            Ok(false) => r is Ok && final(ctx)@ == old(ctx)@,
            Ok(true) => {
                if ack is Some && ack->0@.len() == 0 {
                    r == Err::<(), ContextError>(
                        ContextError::Packet(PacketError::InvalidAcknowledgement),
                    ) && final(ctx)@ == old(ctx)@
                } else {
                    r is Ok && final(ctx)@ == recv_packet_transition(
                        old(ctx)@,
                        msg.packet@,
                        match ack {
                            Some(a) => Some(a@),
                            None => None,
                        },
                    )
                }
            },
        },
{
    match validate_recv_packet(ctx, msg) {
        Ok(_) => {},
        Err(e) => {
            return Err(e);
        },
    }
    let p = &msg.packet;
    let chan = match ctx.channel_end(&p.port_id_on_b, &p.chan_id_on_b) {
        Ok(c) => c,
        Err(e) => {
            return Err(e);
        },
    };
    let ordered = chan.is_ordered();
    if !ordered && ctx.has_packet_receipt(&p.port_id_on_b, &p.chan_id_on_b, p.seq_on_a) {
        return Ok(());
    }
    let ack_commitment = match ack {
        Some(a) => match compute_ack_commitment(a.bytes_vec()) {
            Ok(c) => Some(c),
            Err(e) => {
                return Err(ContextError::Packet(e));
            },
        },
        None => None,
    };
    if ordered {
        let nsr = match ctx.get_next_sequence_recv(&p.port_id_on_b, &p.chan_id_on_b) {
            Ok(s) => s,
            Err(e) => {
                return Err(e);
            },
        };
        ctx.store_next_sequence_recv(p.port_id_on_b.clone(), p.chan_id_on_b.clone(), nsr + 1);
    } else {
        ctx.store_packet_receipt(p.port_id_on_b.clone(), p.chan_id_on_b.clone(), p.seq_on_a);
    }
    ctx.emit_event(IbcEvent::Message(MessageCategory::Channel));
    ctx.emit_event(IbcEvent::ReceivePacket { sequence: p.seq_on_a });
    match ack_commitment {
        Some(c) => {
            ctx.store_packet_acknowledgement(
                p.port_id_on_b.clone(),
                p.chan_id_on_b.clone(),
                p.seq_on_a,
                c,
            );
            ctx.emit_event(IbcEvent::Message(MessageCategory::Channel));
            ctx.emit_event(IbcEvent::WriteAcknowledgement { sequence: p.seq_on_a });
        },
        None => {},
    }
    proof {
        assert(ctx@ =~= recv_packet_transition(
            old(ctx)@,
            msg.packet@,
            match ack {
                Some(a) => Some(a@),
                None => None,
            },
        ));
    }
    Ok(())
}


/// Everything `acknowledge_packet` demands of the store: the source
/// channel open or closed and facing the packet's destination, the
/// stored commitment equal to the packet's, a non-empty
/// acknowledgement and proof, and the proof-height consensus state
/// installed. `Ok(false)` is the idempotent replay after the
/// commitment is gone: success without effect.
pub open spec fn acknowledge_packet_check(
    s: StoreV,
    p: PacketV,
    ack: Seq<u8>,
    proof: Seq<u8>,
    proof_height: Height,
) -> Result<bool, ContextError> {
    let chan_key = (p.port_on_a, p.chan_on_a);
    let seq_key = (p.port_on_a, p.chan_on_a, p.seq_on_a);
    if !s.channels.contains_key(chan_key) {
        Err(ContextError::Channel(ChannelError::ChannelNotFound))
    } else {
        let ch = s.channels[chan_key];
        if ch.state != ChannelState::Open && ch.state != ChannelState::Closed {
            Err(ContextError::Channel(ChannelError::InvalidChannelState))
        } else if !(ch.remote_port == p.port_on_b && ch.remote_channel == Some(p.chan_on_b)) {
            Err(ContextError::Connection(ConnectionError::InvalidCounterparty))
        } else if !s.commitments.contains_key(seq_key) {
            Ok(false)
        } else if s.commitments[seq_key] != packet_commitment_spec(
            p.data,
            p.timeout_height_on_b,
            p.timeout_timestamp_on_b,
        ) {
            Err(ContextError::Packet(PacketError::PacketCommitmentMismatch))
        } else if ack.len() == 0 {
            Err(ContextError::Packet(PacketError::InvalidAcknowledgement))
        } else if conn_client_check(s, ch) is Some {
            Err(conn_client_check(s, ch)->0)
        } else if proof.len() == 0 {
            Err(ContextError::Proof(crate::error::ProofError::MissingProof))
        } else if consensus_at_check(s, ch, proof_height) is Some {
            Err(consensus_at_check(s, ch, proof_height)->0)
        } else if ch.ordering == Order::Ordered {
            if !s.next_seq_ack.contains_key(chan_key) {
                Err(ContextError::HostInvariantViolated)
            } else if p.seq_on_a != s.next_seq_ack[chan_key] {
                Err(
                    ContextError::Packet(
                        PacketError::InvalidPacketSequence {
                            expected: s.next_seq_ack[chan_key],
                            actual: p.seq_on_a,
                        },
                    ),
                )
            } else if s.next_seq_ack[chan_key] == u64::MAX {
                Err(ContextError::HostInvariantViolated)
            } else {
                Ok(true)
            }
        } else {
            Ok(true)
        }
    }
}

/// The store after a fresh acknowledgement: the commitment is gone,
/// the ordered acknowledgement counter advances, and the event pair
/// is emitted.
pub open spec fn acknowledge_packet_transition(s: StoreV, p: PacketV) -> StoreV {
    let chan_key = (p.port_on_a, p.chan_on_a);
    let seq_key = (p.port_on_a, p.chan_on_a, p.seq_on_a);
    let ordered = s.channels[chan_key].ordering == Order::Ordered;
    StoreV {
        commitments: s.commitments.remove(seq_key),
        next_seq_ack: if ordered {
            s.next_seq_ack.insert(chan_key, (s.next_seq_ack[chan_key] + 1) as u64)
        } else {
            s.next_seq_ack
        },
        events: s.events + seq![
            IbcEvent::Message(MessageCategory::Channel),
            IbcEvent::AcknowledgePacket { sequence: p.seq_on_a },
        ],
        ..s
    }
}

/// The read-only pass of `acknowledge_packet`.
pub fn validate_acknowledge_packet(ctx: &MockContext, msg: &MsgAcknowledgement) -> (r: Result<
    (),
    ContextError,
>)
    ensures
        match acknowledge_packet_check(
            ctx@,
            msg.packet@,
            msg.acknowledgement@,
            msg.proof_acked_on_b@,
            msg.proof_height_on_b,
        ) {
            Ok(_) => r == Ok::<(), ContextError>(()),
            Err(e) => r == Err::<(), ContextError>(e),
        },
{
    let p = &msg.packet;
    let chan = match ctx.channel_end(&p.port_id_on_a, &p.chan_id_on_a) {
        Ok(c) => c,
        Err(e) => {
            return Err(e);
        },
    };
    if !chan.is_open() && !chan.is_closed() {
        return Err(ContextError::Channel(ChannelError::InvalidChannelState));
    }
    if !chan.counterparty_matches(&p.port_id_on_b, &p.chan_id_on_b) {
        return Err(ContextError::Connection(ConnectionError::InvalidCounterparty));
    }
    let stored = match ctx.get_packet_commitment(&p.port_id_on_a, &p.chan_id_on_a, p.seq_on_a) {
        Some(c) => c,
        None => {
            return Ok(());
        },
    };
    let expected = compute_packet_commitment(
        &p.data,
        &p.timeout_height_on_b,
        p.timeout_timestamp_on_b,
    );
    if !crate::bytes::bytes_eq(stored, &expected) {
        return Err(ContextError::Packet(PacketError::PacketCommitmentMismatch));
    }
    let ack_commitment = match compute_ack_commitment(msg.acknowledgement.bytes_vec()) {
        Ok(c) => c,
        Err(e) => {
            return Err(ContextError::Packet(e));
        },
    };
    let client = match channel_client(ctx, chan) {
        Ok(c) => c,
        Err(e) => {
            return Err(e);
        },
    };
    if msg.proof_acked_on_b.len() == 0 {
        return Err(ContextError::Proof(crate::error::ProofError::MissingProof));
    }
    let consensus = match channel_consensus_at(ctx, chan, msg.proof_height_on_b) {
        Ok(cs) => cs,
        Err(e) => {
            return Err(e);
        },
    };
    let path = ack_path(&p.port_id_on_b, &p.chan_id_on_b, p.seq_on_a);
    match client.verify_membership(&msg.proof_acked_on_b, consensus.root(), &path, &ack_commitment) {
        Ok(_) => {},
        Err(e) => {
            return Err(ContextError::Proof(e));
        },
    }
    if chan.is_ordered() {
        let nsa = match ctx.get_next_sequence_ack(&p.port_id_on_a, &p.chan_id_on_a) {
            Ok(s) => s,
            Err(e) => {
                return Err(e);
            },
        };
        if p.seq_on_a != nsa {
            return Err(
                ContextError::Packet(
                    PacketError::InvalidPacketSequence { expected: nsa, actual: p.seq_on_a },
                ),
            );
        }
        if nsa == u64::MAX {
            return Err(ContextError::HostInvariantViolated);
        }
    }
    Ok(())
}

/// Acknowledges a packet this chain sent: deletes its commitment. A
/// repeated acknowledgement (or one after a timeout) succeeds with no
/// mutation and no events.
pub fn execute_acknowledge_packet(ctx: &mut MockContext, msg: &MsgAcknowledgement) -> (r: Result<
    (),
    ContextError,
>)
    ensures
        match acknowledge_packet_check(
            old(ctx)@,
            msg.packet@,
            msg.acknowledgement@,
            msg.proof_acked_on_b@,
            msg.proof_height_on_b,
        ) {
            Err(e) => r == Err::<(), ContextError>(e) && final(ctx)@ == old(ctx)@,
            Ok(false) => r is Ok && final(ctx)@ == old(ctx)@,
            Ok(true) => r is Ok && final(ctx)@ == acknowledge_packet_transition(
                old(ctx)@,
                msg.packet@,
            ),
        },
{
    match validate_acknowledge_packet(ctx, msg) {
        Ok(_) => {},
        Err(e) => {
            return Err(e);
        },
    }
    let p = &msg.packet;
    if ctx.get_packet_commitment(&p.port_id_on_a, &p.chan_id_on_a, p.seq_on_a).is_none() {
        return Ok(());
    }
    let chan = match ctx.channel_end(&p.port_id_on_a, &p.chan_id_on_a) {
        Ok(c) => c,
        Err(e) => {
            return Err(e);
        },
    };
    let ordered = chan.is_ordered();
    if ordered {
        let nsa = match ctx.get_next_sequence_ack(&p.port_id_on_a, &p.chan_id_on_a) {
            Ok(s) => s,
            Err(e) => {
                return Err(e);
            },
        };
        ctx.store_next_sequence_ack(p.port_id_on_a.clone(), p.chan_id_on_a.clone(), nsa + 1);
    }
    ctx.delete_packet_commitment(p.port_id_on_a.clone(), p.chan_id_on_a.clone(), p.seq_on_a);
    ctx.emit_event(IbcEvent::Message(MessageCategory::Channel));
    ctx.emit_event(IbcEvent::AcknowledgePacket { sequence: p.seq_on_a });
    proof {
        assert(ctx@ =~= acknowledge_packet_transition(old(ctx)@, msg.packet@));
    }
    Ok(())
}

/// Everything `timeout_packet` demands of the store: the source
/// channel present, the stored commitment equal to the packet's, a
/// deadline that the proven counterparty state has passed, and the
/// packet not yet received over there. `Ok(false)` is the idempotent
/// replay after the commitment is gone: success without effect.
pub open spec fn timeout_packet_check(
    s: StoreV,
    p: PacketV,
    next_seq_recv_on_b: u64,
    proof: Seq<u8>,
    proof_height: Height,
) -> Result<bool, ContextError> {
    let chan_key = (p.port_on_a, p.chan_on_a);
    let seq_key = (p.port_on_a, p.chan_on_a, p.seq_on_a);
    if !s.channels.contains_key(chan_key) {
        Err(ContextError::Channel(ChannelError::ChannelNotFound))
    } else {
        let ch = s.channels[chan_key];
        if !s.commitments.contains_key(seq_key) {
            Ok(false)
        } else if s.commitments[seq_key] != packet_commitment_spec(
            p.data,
            p.timeout_height_on_b,
            p.timeout_timestamp_on_b,
        ) {
            Err(ContextError::Packet(PacketError::PacketCommitmentMismatch))
        } else if !p.has_timeout() {
            Err(ContextError::Packet(PacketError::MissingTimeout))
        } else if conn_client_check(s, ch) is Some {
            Err(conn_client_check(s, ch)->0)
        } else if proof.len() == 0 {
            Err(ContextError::Proof(crate::error::ProofError::MissingProof))
        } else if consensus_at_check(s, ch, proof_height) is Some {
            Err(consensus_at_check(s, ch, proof_height)->0)
        } else if !p.timeout_reached(proof_height, consensus_time_at(s, ch, proof_height)) {
            Err(ContextError::Packet(PacketError::PacketTimeoutNotReached))
        } else if ch.ordering == Order::Ordered && p.seq_on_a < next_seq_recv_on_b {
            Err(ContextError::Packet(PacketError::PacketReceiptAlreadyExists))
        } else {
            Ok(true)
        }
    }
}

/// The store after a timeout: the commitment is gone, and an ordered
/// channel is closed, each step announced; exactly four events for
/// ordered channels and two for unordered ones.
pub open spec fn timeout_packet_transition(s: StoreV, p: PacketV) -> StoreV {
    let chan_key = (p.port_on_a, p.chan_on_a);
    let seq_key = (p.port_on_a, p.chan_on_a, p.seq_on_a);
    let ch = s.channels[chan_key];
    let ordered = ch.ordering == Order::Ordered;
    let base_events = s.events + seq![
        IbcEvent::Message(MessageCategory::Channel),
        IbcEvent::TimeoutPacket { sequence: p.seq_on_a },
    ];
    StoreV {
        commitments: s.commitments.remove(seq_key),
        channels: if ordered {
            s.channels.insert(chan_key, ChannelEndV { state: ChannelState::Closed, ..ch })
        } else {
            s.channels
        },
        events: if ordered {
            base_events + seq![
                IbcEvent::Message(MessageCategory::Channel),
                IbcEvent::ChannelClosed,
            ]
        } else {
            base_events
        },
        ..s
    }
}

/// The read-only pass of `timeout_packet`.
pub fn validate_timeout_packet(ctx: &MockContext, msg: &MsgTimeout) -> (r: Result<
    (),
    ContextError,
>)
    ensures
        match timeout_packet_check(
            ctx@,
            msg.packet@,
            msg.next_seq_recv_on_b,
            msg.proof_unreceived_on_b@,
            msg.proof_height_on_b,
        ) {
            Ok(_) => r == Ok::<(), ContextError>(()),
            Err(e) => r == Err::<(), ContextError>(e),
        },
{
    let p = &msg.packet;
    let chan = match ctx.channel_end(&p.port_id_on_a, &p.chan_id_on_a) {
        Ok(c) => c,
        Err(e) => {
            return Err(e);
        },
    };
    let stored = match ctx.get_packet_commitment(&p.port_id_on_a, &p.chan_id_on_a, p.seq_on_a) {
        Some(c) => c,
        None => {
            return Ok(());
        },
    };
    let expected = compute_packet_commitment(
        &p.data,
        &p.timeout_height_on_b,
        p.timeout_timestamp_on_b,
    );
    if !crate::bytes::bytes_eq(stored, &expected) {
        return Err(ContextError::Packet(PacketError::PacketCommitmentMismatch));
    }
    if !p.has_timeout() {
        return Err(ContextError::Packet(PacketError::MissingTimeout));
    }
    let client = match channel_client(ctx, chan) {
        Ok(c) => c,
        Err(e) => {
            return Err(e);
        },
    };
    if msg.proof_unreceived_on_b.len() == 0 {
        return Err(ContextError::Proof(crate::error::ProofError::MissingProof));
    }
    let consensus = match channel_consensus_at(ctx, chan, msg.proof_height_on_b) {
        Ok(cs) => cs,
        Err(e) => {
            return Err(e);
        },
    };
    if !p.timeout_reached(msg.proof_height_on_b, consensus.timestamp()) {
        return Err(ContextError::Packet(PacketError::PacketTimeoutNotReached));
    }
    if chan.is_ordered() {
        if p.seq_on_a < msg.next_seq_recv_on_b {
            return Err(ContextError::Packet(PacketError::PacketReceiptAlreadyExists));
        }
        let mut value: Vec<u8> = Vec::new();
        crate::bytes::push_u64_be(&mut value, msg.next_seq_recv_on_b);
        let path = crate::path::next_sequence_recv_path(&p.port_id_on_b, &p.chan_id_on_b);
        match client.verify_membership(&msg.proof_unreceived_on_b, consensus.root(), &path, &value) {
            Ok(_) => {},
            Err(e) => {
                return Err(ContextError::Proof(e));
            },
        }
    } else {
        let path = receipt_path(&p.port_id_on_b, &p.chan_id_on_b, p.seq_on_a);
        match client.verify_non_membership(&msg.proof_unreceived_on_b, consensus.root(), &path) {
            Ok(_) => {},
            Err(e) => {
                return Err(ContextError::Proof(e));
            },
        }
    }
    Ok(())
}

/// Times out a packet this chain sent: deletes its commitment and,
/// on an ordered channel, closes the channel. A timeout whose
/// commitment is already gone succeeds with no mutation and no
/// events.
pub fn execute_timeout_packet(ctx: &mut MockContext, msg: &MsgTimeout) -> (r: Result<
    (),
    ContextError,
>)
    ensures
        match timeout_packet_check(
            old(ctx)@,
            msg.packet@,
            msg.next_seq_recv_on_b,
            msg.proof_unreceived_on_b@,
            msg.proof_height_on_b,
        ) {
            Err(e) => r == Err::<(), ContextError>(e) && final(ctx)@ == old(ctx)@,
            Ok(false) => r is Ok && final(ctx)@ == old(ctx)@,
            Ok(true) => r is Ok && final(ctx)@ == timeout_packet_transition(
                old(ctx)@,
                msg.packet@,
            ),
        },
{
    match validate_timeout_packet(ctx, msg) {
        Ok(_) => {},
        Err(e) => {
            return Err(e);
        },
    }
    let p = &msg.packet;
    if ctx.get_packet_commitment(&p.port_id_on_a, &p.chan_id_on_a, p.seq_on_a).is_none() {
        return Ok(());
    }
    let chan = match ctx.channel_end(&p.port_id_on_a, &p.chan_id_on_a) {
        Ok(c) => c,
        Err(e) => {
            return Err(e);
        },
    };
    let ordered = chan.is_ordered();
    let closed_chan = if ordered {
        let mut closed = chan.clone();
        closed.state = ChannelState::Closed;
        Some(closed)
    } else {
        None
    };
    ctx.delete_packet_commitment(p.port_id_on_a.clone(), p.chan_id_on_a.clone(), p.seq_on_a);
    ctx.emit_event(IbcEvent::Message(MessageCategory::Channel));
    ctx.emit_event(IbcEvent::TimeoutPacket { sequence: p.seq_on_a });
    match closed_chan {
        Some(closed) => {
            ctx.store_channel(p.port_id_on_a.clone(), p.chan_id_on_a.clone(), closed);
            ctx.emit_event(IbcEvent::Message(MessageCategory::Channel));
            ctx.emit_event(IbcEvent::ChannelClosed);
        },
        None => {},
    }
    proof {
        assert(ctx@ =~= timeout_packet_transition(old(ctx)@, msg.packet@));
    }
    Ok(())
}

/// Like the timeout check, but justified by the counterparty channel
/// being closed, which the relayer proves; no deadline is checked.
pub open spec fn timeout_on_close_check(
    s: StoreV,
    p: PacketV,
    next_seq_recv_on_b: u64,
    proof_unreceived: Seq<u8>,
    proof_close: Seq<u8>,
    proof_height: Height,
) -> Result<bool, ContextError> {
    let chan_key = (p.port_on_a, p.chan_on_a);
    let seq_key = (p.port_on_a, p.chan_on_a, p.seq_on_a);
    if !s.channels.contains_key(chan_key) {
        Err(ContextError::Channel(ChannelError::ChannelNotFound))
    } else {
        let ch = s.channels[chan_key];
        if !s.commitments.contains_key(seq_key) {
            Ok(false)
        } else if s.commitments[seq_key] != packet_commitment_spec(
            p.data,
            p.timeout_height_on_b,
            p.timeout_timestamp_on_b,
        ) {
            Err(ContextError::Packet(PacketError::PacketCommitmentMismatch))
        } else if conn_client_check(s, ch) is Some {
            Err(conn_client_check(s, ch)->0)
        } else if proof_unreceived.len() == 0 || proof_close.len() == 0 {
            Err(ContextError::Proof(crate::error::ProofError::MissingProof))
        } else if consensus_at_check(s, ch, proof_height) is Some {
            Err(consensus_at_check(s, ch, proof_height)->0)
        } else if ch.ordering == Order::Ordered && p.seq_on_a < next_seq_recv_on_b {
            Err(ContextError::Packet(PacketError::PacketReceiptAlreadyExists))
        } else {
            Ok(true)
        }
    }
}

/// The read-only pass of `timeout_on_close_packet`.
pub fn validate_timeout_on_close_packet(ctx: &MockContext, msg: &MsgTimeoutOnClose) -> (r: Result<
    (),
    ContextError,
>)
    ensures
        match timeout_on_close_check(
            ctx@,
            msg.packet@,
            msg.next_seq_recv_on_b,
            msg.proof_unreceived_on_b@,
            msg.proof_close_on_b@,
            msg.proof_height_on_b,
        ) {
            Ok(_) => r == Ok::<(), ContextError>(()),
            Err(e) => r == Err::<(), ContextError>(e),
        },
{
    let p = &msg.packet;
    let chan = match ctx.channel_end(&p.port_id_on_a, &p.chan_id_on_a) {
        Ok(c) => c,
        Err(e) => {
            return Err(e);
        },
    };
    let stored = match ctx.get_packet_commitment(&p.port_id_on_a, &p.chan_id_on_a, p.seq_on_a) {
        Some(c) => c,
        None => {
            return Ok(());
        },
    };
    let expected = compute_packet_commitment(
        &p.data,
        &p.timeout_height_on_b,
        p.timeout_timestamp_on_b,
    );
    if !crate::bytes::bytes_eq(stored, &expected) {
        return Err(ContextError::Packet(PacketError::PacketCommitmentMismatch));
    }
    let client = match channel_client(ctx, chan) {
        Ok(c) => c,
        Err(e) => {
            return Err(e);
        },
    };
    if msg.proof_unreceived_on_b.len() == 0 || msg.proof_close_on_b.len() == 0 {
        return Err(ContextError::Proof(crate::error::ProofError::MissingProof));
    }
    let consensus = match channel_consensus_at(ctx, chan, msg.proof_height_on_b) {
        Ok(cs) => cs,
        Err(e) => {
            return Err(e);
        },
    };
    let chan_path = crate::path::channel_path(&p.port_id_on_b, &p.chan_id_on_b);
    // The mock client checks no value; a real light client would take
    // the encoded counterparty channel end (proven `Closed`) here.
    match client.verify_membership(
        &msg.proof_close_on_b,
        consensus.root(),
        &chan_path,
        &Vec::new(),
    ) {
        Ok(_) => {},
        Err(e) => {
            return Err(ContextError::Proof(e));
        },
    }
    if chan.is_ordered() {
        if p.seq_on_a < msg.next_seq_recv_on_b {
            return Err(ContextError::Packet(PacketError::PacketReceiptAlreadyExists));
        }
    }
    Ok(())
}

/// Times a packet out against a closed counterparty channel: the
/// mutation is exactly the timeout one.
pub fn execute_timeout_on_close_packet(ctx: &mut MockContext, msg: &MsgTimeoutOnClose) -> (r:
    Result<(), ContextError>)
    ensures
        match timeout_on_close_check(
            old(ctx)@,
            msg.packet@,
            msg.next_seq_recv_on_b,
            msg.proof_unreceived_on_b@,
            msg.proof_close_on_b@,
            msg.proof_height_on_b,
        ) {
            Err(e) => r == Err::<(), ContextError>(e) && final(ctx)@ == old(ctx)@,
            Ok(false) => r is Ok && final(ctx)@ == old(ctx)@,
            Ok(true) => r is Ok && final(ctx)@ == timeout_packet_transition(
                old(ctx)@,
                msg.packet@,
            ),
        },
{
    match validate_timeout_on_close_packet(ctx, msg) {
        Ok(_) => {},
        Err(e) => {
            return Err(e);
        },
    }
    let p = &msg.packet;
    if ctx.get_packet_commitment(&p.port_id_on_a, &p.chan_id_on_a, p.seq_on_a).is_none() {
        return Ok(());
    }
    let chan = match ctx.channel_end(&p.port_id_on_a, &p.chan_id_on_a) {
        Ok(c) => c,
        Err(e) => {
            return Err(e);
        },
    };
    let ordered = chan.is_ordered();
    let closed_chan = if ordered {
        let mut closed = chan.clone();
        closed.state = ChannelState::Closed;
        Some(closed)
    } else {
        None
    };
    ctx.delete_packet_commitment(p.port_id_on_a.clone(), p.chan_id_on_a.clone(), p.seq_on_a);
    ctx.emit_event(IbcEvent::Message(MessageCategory::Channel));
    ctx.emit_event(IbcEvent::TimeoutPacket { sequence: p.seq_on_a });
    match closed_chan {
        Some(closed) => {
            ctx.store_channel(p.port_id_on_a.clone(), p.chan_id_on_a.clone(), closed);
            ctx.emit_event(IbcEvent::Message(MessageCategory::Channel));
            ctx.emit_event(IbcEvent::ChannelClosed);
        },
        None => {},
    }
    proof {
        assert(ctx@ =~= timeout_packet_transition(old(ctx)@, msg.packet@));
    }
    Ok(())
}

} // verus!
