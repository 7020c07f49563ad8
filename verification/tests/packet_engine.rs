use ibc_core_engine::acknowledgement::Acknowledgement;
use ibc_core_engine::channel::{ChannelCounterparty, ChannelEnd, ChannelState, Order};
use ibc_core_engine::client::{AnyClientState, AnyConsensusState, ConsensusState, MockClientState};
use ibc_core_engine::commitment::compute_packet_commitment;
use ibc_core_engine::dispatcher::{dispatch, validate, ModuleAnswers, MsgEnvelope, PacketMsg};
use ibc_core_engine::connection::{ConnectionCounterparty, ConnectionEnd, ConnectionState};
use ibc_core_engine::context::MockContext;
use ibc_core_engine::error::{ContextError, PacketError};
use ibc_core_engine::events::{IbcEvent, MessageCategory};
use ibc_core_engine::host::{Height, Timestamp};
use ibc_core_engine::identifier::{ChannelId, ClientId, ConnectionId, PortId};
use ibc_core_engine::packet::{MsgAcknowledgement, MsgRecvPacket, MsgTimeout, Packet};
use ibc_core_engine::packet_handlers::{
    execute_acknowledge_packet, execute_recv_packet, execute_timeout_packet, send_packet,
    validate_recv_packet, validate_timeout_packet,
};
use ibc_core_engine::path::ClientConsensusStatePath;
use ibc_core_engine::version::{get_compatible_versions, Version};

fn client_id() -> ClientId {
    ClientId::new("07-tendermint-0".to_string()).unwrap()
}

fn port() -> PortId {
    PortId::new("transfer".to_string()).unwrap()
}

fn chan() -> ChannelId {
    ChannelId::new("channel-0".to_string()).unwrap()
}

fn conn_id() -> ConnectionId {
    ConnectionId::new("connection-0".to_string()).unwrap()
}

fn fixture(ordering: Order) -> MockContext {
    let mut ctx = MockContext::new(
        Height { revision_number: 0, revision_height: 3 },
        Timestamp::from_nanoseconds(100),
    );
    ctx.store_client_state(
        client_id(),
        AnyClientState::Mock(MockClientState::new(Height {
            revision_number: 0,
            revision_height: 2,
        })),
    )
    .unwrap();
    ctx.store_consensus_state(
        ClientConsensusStatePath { client_id: client_id(), revision_number: 0, revision_height: 2 },
        AnyConsensusState::Mock(ConsensusState::new(Vec::new(), Timestamp::from_nanoseconds(1000))),
    )
    .unwrap();
    ctx.store_consensus_state(
        ClientConsensusStatePath { client_id: client_id(), revision_number: 0, revision_height: 5 },
        AnyConsensusState::Mock(ConsensusState::new(Vec::new(), Timestamp::from_nanoseconds(1000))),
    )
    .unwrap();
    let conn = ConnectionEnd::new(
        ConnectionState::Open,
        client_id(),
        ConnectionCounterparty {
            client_id: client_id(),
            connection_id: Some(conn_id()),
            prefix: vec![0],
        },
        get_compatible_versions(),
        0,
    );
    ctx.store_connection(conn_id(), conn);
    let channel = ChannelEnd::new(
        ChannelState::Open,
        ordering,
        ChannelCounterparty { port_id: port(), channel_id: Some(chan()) },
        vec![conn_id()],
        Version::new("ics20-1".to_string()),
    )
    .unwrap();
    ctx.store_channel(port(), chan(), channel);
    ctx.store_next_sequence_send(port(), chan(), 1);
    ctx.store_next_sequence_recv(port(), chan(), 1);
    ctx.store_next_sequence_ack(port(), chan(), 1);
    ctx
}

fn hello_packet() -> Packet {
    Packet {
        seq_on_a: 1,
        port_id_on_a: port(),
        chan_id_on_a: chan(),
        port_id_on_b: port(),
        chan_id_on_b: chan(),
        data: b"hello".to_vec(),
        timeout_height_on_b: Some(Height { revision_number: 0, revision_height: 10 }),
        timeout_timestamp_on_b: Timestamp::from_nanoseconds(0),
    }
}

#[test]
fn send_packet_commits_and_announces() {
    let mut ctx = fixture(Order::Unordered);
    send_packet(&mut ctx, &hello_packet()).unwrap();
    let expected = compute_packet_commitment(
        &b"hello".to_vec(),
        &Some(Height { revision_number: 0, revision_height: 10 }),
        Timestamp::from_nanoseconds(0),
    );
    let stored = ctx.get_packet_commitment(&port(), &chan(), 1).unwrap();
    assert_eq!(stored, &expected);
    assert_eq!(ctx.get_next_sequence_send(&port(), &chan()).unwrap(), 2);
    let events = ctx.events();
    assert_eq!(events.len(), 2);
    assert_eq!(events[0], IbcEvent::Message(MessageCategory::Channel));
    assert_eq!(events[1], IbcEvent::SendPacket { sequence: 1 });
}

#[test]
fn send_packet_rejects_wrong_sequence() {
    let mut ctx = fixture(Order::Unordered);
    let mut p = hello_packet();
    p.seq_on_a = 7;
    let e = send_packet(&mut ctx, &p).unwrap_err();
    assert_eq!(
        e,
        ContextError::Packet(PacketError::InvalidPacketSequence { expected: 1, actual: 7 })
    );
    assert_eq!(ctx.events().len(), 0);
}

#[test]
fn send_packet_requires_a_timeout() {
    let mut ctx = fixture(Order::Unordered);
    let mut p = hello_packet();
    p.timeout_height_on_b = None;
    p.timeout_timestamp_on_b = Timestamp::from_nanoseconds(0);
    let e = send_packet(&mut ctx, &p).unwrap_err();
    assert_eq!(e, ContextError::Packet(PacketError::MissingTimeout));
}

fn recv_msg() -> MsgRecvPacket {
    MsgRecvPacket {
        packet: hello_packet(),
        proof_commitment_on_a: vec![1],
        proof_height_on_a: Height { revision_number: 0, revision_height: 2 },
    }
}

#[test]
fn unordered_recv_is_idempotent() {
    let mut ctx = fixture(Order::Unordered);
    let msg = recv_msg();
    let ack = Acknowledgement::new(vec![1]).unwrap();
    execute_recv_packet(&mut ctx, &msg, Some(&ack)).unwrap();
    assert!(ctx.has_packet_receipt(&port(), &chan(), 1));
    assert!(ctx.get_packet_acknowledgement(&port(), &chan(), 1).is_some());
    let events = ctx.events();
    assert_eq!(events.len(), 4);
    assert_eq!(events[0], IbcEvent::Message(MessageCategory::Channel));
    assert_eq!(events[1], IbcEvent::ReceivePacket { sequence: 1 });
    assert_eq!(events[2], IbcEvent::Message(MessageCategory::Channel));
    assert_eq!(events[3], IbcEvent::WriteAcknowledgement { sequence: 1 });

    // The second, identical receive succeeds with no state delta and
    // no events.
    execute_recv_packet(&mut ctx, &msg, Some(&ack)).unwrap();
    assert_eq!(ctx.events().len(), 4);
    assert!(ctx.has_packet_receipt(&port(), &chan(), 1));
}

#[test]
fn ordered_recv_takes_sequences_in_order() {
    let mut ctx = fixture(Order::Ordered);
    let mut msg = recv_msg();
    msg.packet.seq_on_a = 2;
    let e = execute_recv_packet(&mut ctx, &msg, None).unwrap_err();
    assert_eq!(
        e,
        ContextError::Packet(PacketError::InvalidPacketSequence { expected: 1, actual: 2 })
    );

    msg.packet.seq_on_a = 1;
    execute_recv_packet(&mut ctx, &msg, None).unwrap();
    assert_eq!(ctx.get_next_sequence_recv(&port(), &chan()).unwrap(), 2);
    assert!(!ctx.has_packet_receipt(&port(), &chan(), 1));
}

#[test]
fn validate_has_no_observable_effect() {
    let ctx = fixture(Order::Unordered);
    let msg = recv_msg();
    validate_recv_packet(&ctx, &msg).unwrap();
    assert_eq!(ctx.events().len(), 0);
    assert!(!ctx.has_packet_receipt(&port(), &chan(), 1));
    assert_eq!(ctx.get_next_sequence_recv(&port(), &chan()).unwrap(), 1);
}

fn sent_ctx(ordering: Order) -> MockContext {
    let mut ctx = fixture(ordering);
    send_packet(&mut ctx, &hello_packet()).unwrap();
    ctx
}

fn ack_msg() -> MsgAcknowledgement {
    MsgAcknowledgement {
        packet: hello_packet(),
        acknowledgement: Acknowledgement::new(vec![1]).unwrap(),
        proof_acked_on_b: vec![1],
        proof_height_on_b: Height { revision_number: 0, revision_height: 2 },
    }
}

#[test]
fn commitment_lifecycle_none_some_none() {
    let mut ctx = fixture(Order::Unordered);
    assert!(ctx.get_packet_commitment(&port(), &chan(), 1).is_none());
    send_packet(&mut ctx, &hello_packet()).unwrap();
    assert!(ctx.get_packet_commitment(&port(), &chan(), 1).is_some());
    execute_acknowledge_packet(&mut ctx, &ack_msg()).unwrap();
    assert!(ctx.get_packet_commitment(&port(), &chan(), 1).is_none());
    let events = ctx.events();
    assert_eq!(events[2], IbcEvent::Message(MessageCategory::Channel));
    assert_eq!(events[3], IbcEvent::AcknowledgePacket { sequence: 1 });
}

fn timeout_msg(tt_nanos: u64) -> MsgTimeout {
    let mut p = hello_packet();
    p.timeout_height_on_b = Some(Height { revision_number: 0, revision_height: 5 });
    p.timeout_timestamp_on_b = Timestamp::from_nanoseconds(tt_nanos);
    MsgTimeout {
        packet: p,
        next_seq_recv_on_b: 1,
        proof_unreceived_on_b: vec![1],
        proof_height_on_b: Height { revision_number: 0, revision_height: 5 },
    }
}

fn ctx_with_commitment(ordering: Order, tt_nanos: u64) -> MockContext {
    let mut ctx = fixture(ordering);
    let msg = timeout_msg(tt_nanos);
    let commitment = compute_packet_commitment(
        &msg.packet.data,
        &msg.packet.timeout_height_on_b,
        msg.packet.timeout_timestamp_on_b,
    );
    ctx.store_packet_commitment(port(), chan(), 1, commitment);
    ctx
}

#[test]
fn ordered_timeout_closes_the_channel() {
    let mut ctx = ctx_with_commitment(Order::Ordered, 500);
    let msg = timeout_msg(500);
    execute_timeout_packet(&mut ctx, &msg).unwrap();
    assert!(ctx.get_packet_commitment(&port(), &chan(), 1).is_none());
    let channel = ctx.channel_end(&port(), &chan()).unwrap();
    assert_eq!(channel.state, ChannelState::Closed);
    let events = ctx.events();
    assert_eq!(events.len(), 4);
    assert_eq!(events[0], IbcEvent::Message(MessageCategory::Channel));
    assert_eq!(events[1], IbcEvent::TimeoutPacket { sequence: 1 });
    assert_eq!(events[2], IbcEvent::Message(MessageCategory::Channel));
    assert_eq!(events[3], IbcEvent::ChannelClosed);
}

#[test]
fn unordered_timeout_emits_two_events() {
    let mut ctx = ctx_with_commitment(Order::Unordered, 500);
    let msg = timeout_msg(500);
    execute_timeout_packet(&mut ctx, &msg).unwrap();
    assert!(ctx.get_packet_commitment(&port(), &chan(), 1).is_none());
    let channel = ctx.channel_end(&port(), &chan()).unwrap();
    assert_eq!(channel.state, ChannelState::Open);
    assert_eq!(ctx.events().len(), 2);
}

#[test]
fn timeout_not_reached_is_rejected() {
    // The packet's timestamp deadline lies far beyond the proven
    // counterparty time, so the timeout must be refused.
    let mut ctx = ctx_with_commitment(Order::Unordered, 10_000_000_000);
    let msg = timeout_msg(10_000_000_000);
    let e = execute_timeout_packet(&mut ctx, &msg).unwrap_err();
    assert_eq!(e, ContextError::Packet(PacketError::PacketTimeoutNotReached));
    assert!(ctx.get_packet_commitment(&port(), &chan(), 1).is_some());
    assert_eq!(ctx.events().len(), 0);
}

#[test]
fn timeout_without_commitment_is_a_noop() {
    let mut ctx = fixture(Order::Unordered);
    let msg = timeout_msg(500);
    validate_timeout_packet(&ctx, &msg).unwrap();
    execute_timeout_packet(&mut ctx, &msg).unwrap();
    assert_eq!(ctx.events().len(), 0);
}

#[test]
fn timeout_after_ack_is_a_noop() {
    let mut ctx = sent_ctx(Order::Unordered);
    execute_acknowledge_packet(&mut ctx, &ack_msg()).unwrap();
    let before = ctx.events().len();
    let mut msg = timeout_msg(500);
    msg.packet = hello_packet();
    execute_timeout_packet(&mut ctx, &msg).unwrap();
    assert_eq!(ctx.events().len(), before);
}

#[test]
fn ack_after_timeout_is_a_noop() {
    let mut ctx = ctx_with_commitment(Order::Unordered, 500);
    let msg = timeout_msg(500);
    execute_timeout_packet(&mut ctx, &msg).unwrap();
    let before = ctx.events().len();
    let mut amsg = ack_msg();
    amsg.packet = msg.packet.clone();
    execute_acknowledge_packet(&mut ctx, &amsg).unwrap();
    assert_eq!(ctx.events().len(), before);
    assert!(ctx.get_packet_commitment(&port(), &chan(), 1).is_none());
}

#[test]
fn dispatch_runs_the_two_pass_pipeline() {
    let mut ctx = ctx_with_commitment(Order::Ordered, 500);
    let env = MsgEnvelope::Packet(PacketMsg::Timeout(timeout_msg(500)));
    validate(&ctx, &env).unwrap();
    assert_eq!(ctx.events().len(), 0);
    dispatch(&mut ctx, &env, &ModuleAnswers { recv_ack: None, version: None }).unwrap();
    assert_eq!(ctx.events().len(), 4);
    assert_eq!(ctx.events()[3], IbcEvent::ChannelClosed);
}
