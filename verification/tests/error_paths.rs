use ibc_core_engine::chan_handlers::{
    chan_close_confirm, chan_open_ack, chan_open_confirm, chan_open_try, MsgChannelCloseConfirm,
    MsgChannelOpenAck, MsgChannelOpenConfirm, MsgChannelOpenTry,
};
use ibc_core_engine::channel::{ChannelCounterparty, ChannelEnd, ChannelState, Order};
use ibc_core_engine::client::{AnyClientState, AnyConsensusState, ConsensusState, MockClientState};
use ibc_core_engine::commitment::compute_packet_commitment;
use ibc_core_engine::conn_handlers::{conn_open_confirm, MsgConnectionOpenConfirm};
use ibc_core_engine::connection::{ConnectionCounterparty, ConnectionEnd, ConnectionState};
use ibc_core_engine::context::MockContext;
use ibc_core_engine::error::{
    ChannelError, ClientError, ContextError, PacketError, ProofError,
};
use ibc_core_engine::host::{Height, Timestamp};
use ibc_core_engine::identifier::{ChannelId, ClientId, ConnectionId, PortId};
use ibc_core_engine::packet::{MsgRecvPacket, MsgTimeout, MsgTimeoutOnClose, Packet};
use ibc_core_engine::packet_handlers::{
    execute_timeout_on_close_packet, send_packet, validate_recv_packet, validate_timeout_packet,
};
use ibc_core_engine::path::ClientConsensusStatePath;
use ibc_core_engine::version::{get_compatible_versions, Version};

fn client_id() -> ClientId {
    ClientId::new("07-tendermint-0".to_string()).unwrap()
}

fn port() -> PortId {
    PortId::new("transfer".to_string()).unwrap()
}

fn chan() -> ChannelId {
    ChannelId::new("channel-0".to_string()).unwrap()
}

fn conn_id() -> ConnectionId {
    ConnectionId::new("connection-0".to_string()).unwrap()
}

fn fixture(ordering: Order, frozen: bool, channel_state: ChannelState) -> MockContext {
    let mut ctx = MockContext::new(
        Height { revision_number: 0, revision_height: 3 },
        Timestamp::from_nanoseconds(100),
    );
    ctx.store_client_state(
        client_id(),
        AnyClientState::Mock(MockClientState {
            latest_height: Height { revision_number: 0, revision_height: 2 },
            frozen,
        }),
    )
    .unwrap();
    ctx.store_consensus_state(
        ClientConsensusStatePath { client_id: client_id(), revision_number: 0, revision_height: 2 },
        AnyConsensusState::Mock(ConsensusState::new(Vec::new(), Timestamp::from_nanoseconds(1000))),
    )
    .unwrap();
    let conn = ConnectionEnd::new(
        ConnectionState::Open,
        client_id(),
        ConnectionCounterparty {
            client_id: client_id(),
            connection_id: Some(conn_id()),
            prefix: vec![0],
        },
        get_compatible_versions(),
        0,
    );
    ctx.store_connection(conn_id(), conn);
    let channel = ChannelEnd::new(
        channel_state,
        ordering,
        ChannelCounterparty { port_id: port(), channel_id: Some(chan()) },
        vec![conn_id()],
        Version::new("ics20-1".to_string()),
    )
    .unwrap();
    ctx.store_channel(port(), chan(), channel);
    ctx.store_next_sequence_send(port(), chan(), 1);
    ctx.store_next_sequence_recv(port(), chan(), 1);
    ctx.store_next_sequence_ack(port(), chan(), 1);
    ctx
}

fn hello_packet() -> Packet {
    Packet {
        seq_on_a: 1,
        port_id_on_a: port(),
        chan_id_on_a: chan(),
        port_id_on_b: port(),
        chan_id_on_b: chan(),
        data: b"hello".to_vec(),
        timeout_height_on_b: Some(Height { revision_number: 0, revision_height: 10 }),
        timeout_timestamp_on_b: Timestamp::from_nanoseconds(0),
    }
}

#[test]
fn send_on_missing_channel_fails() {
    let mut ctx = MockContext::new(
        Height { revision_number: 0, revision_height: 3 },
        Timestamp::from_nanoseconds(100),
    );
    let e = send_packet(&mut ctx, &hello_packet()).unwrap_err();
    assert_eq!(e, ContextError::Channel(ChannelError::ChannelNotFound));
}

#[test]
fn send_on_closed_channel_fails() {
    let mut ctx = fixture(Order::Unordered, false, ChannelState::Closed);
    let e = send_packet(&mut ctx, &hello_packet()).unwrap_err();
    assert_eq!(e, ContextError::Channel(ChannelError::ChannelClosed));
}

#[test]
fn frozen_client_blocks_receives() {
    let ctx = fixture(Order::Unordered, true, ChannelState::Open);
    let msg = MsgRecvPacket {
        packet: hello_packet(),
        proof_commitment_on_a: vec![1],
        proof_height_on_a: Height { revision_number: 0, revision_height: 2 },
    };
    let e = validate_recv_packet(&ctx, &msg).unwrap_err();
    assert_eq!(e, ContextError::Client(ClientError::ClientFrozen));
}

#[test]
fn receive_past_deadline_fails() {
    let mut ctx = fixture(Order::Unordered, false, ChannelState::Open);
    // Move the host past the packet's height deadline.
    ctx.set_host_clock(
        Height { revision_number: 0, revision_height: 10 },
        Timestamp::from_nanoseconds(100),
    );
    let msg = MsgRecvPacket {
        packet: hello_packet(),
        proof_commitment_on_a: vec![1],
        proof_height_on_a: Height { revision_number: 0, revision_height: 2 },
    };
    let e = validate_recv_packet(&ctx, &msg).unwrap_err();
    assert_eq!(e, ContextError::Packet(PacketError::PacketTimeout));
}

#[test]
fn missing_proof_is_rejected() {
    let ctx = fixture(Order::Unordered, false, ChannelState::Open);
    let msg = MsgRecvPacket {
        packet: hello_packet(),
        proof_commitment_on_a: Vec::new(),
        proof_height_on_a: Height { revision_number: 0, revision_height: 2 },
    };
    let e = validate_recv_packet(&ctx, &msg).unwrap_err();
    assert_eq!(e, ContextError::Proof(ProofError::MissingProof));
}

#[test]
fn missing_consensus_state_for_proof_height_fails() {
    let mut ctx = fixture(Order::Unordered, false, ChannelState::Open);
    let mut p = hello_packet();
    p.timeout_timestamp_on_b = Timestamp::from_nanoseconds(500);
    let commitment =
        compute_packet_commitment(&p.data, &p.timeout_height_on_b, p.timeout_timestamp_on_b);
    ctx.store_packet_commitment(port(), chan(), 1, commitment);
    let msg = MsgTimeout {
        packet: p,
        next_seq_recv_on_b: 1,
        proof_unreceived_on_b: vec![1],
        proof_height_on_b: Height { revision_number: 0, revision_height: 9 },
    };
    let e = validate_timeout_packet(&ctx, &msg).unwrap_err();
    assert_eq!(
        e,
        ContextError::Client(ClientError::ConsensusStateNotFound {
            height: Height { revision_number: 0, revision_height: 9 }
        })
    );
}

#[test]
fn timeout_on_close_deletes_without_deadline() {
    let mut ctx = fixture(Order::Unordered, false, ChannelState::Open);
    let mut p = hello_packet();
    // The deadline lies far in the future; closure alone justifies it.
    p.timeout_timestamp_on_b = Timestamp::from_nanoseconds(10_000_000_000);
    let commitment =
        compute_packet_commitment(&p.data, &p.timeout_height_on_b, p.timeout_timestamp_on_b);
    ctx.store_packet_commitment(port(), chan(), 1, commitment);
    let msg = MsgTimeoutOnClose {
        packet: p,
        next_seq_recv_on_b: 1,
        proof_unreceived_on_b: vec![1],
        proof_close_on_b: vec![1],
        proof_height_on_b: Height { revision_number: 0, revision_height: 2 },
    };
    execute_timeout_on_close_packet(&mut ctx, &msg).unwrap();
    assert!(ctx.get_packet_commitment(&port(), &chan(), 1).is_none());
    assert_eq!(ctx.events().len(), 2);
}

#[test]
fn channel_try_ack_confirm_and_close_confirm() {
    // Try on the answering side mints channel-0 in TryOpen.
    let mut ctx = fixture(Order::Unordered, false, ChannelState::Open);
    chan_open_try(
        &mut ctx,
        &MsgChannelOpenTry {
            port_id_on_b: port(),
            connection_hops_on_b: vec![conn_id()],
            port_id_on_a: port(),
            chan_id_on_a: chan(),
            ordering: Order::Unordered,
            version_supported_on_a: Version::new("ics20-1".to_string()),
            proof_chan_end_on_a: vec![1],
            proof_height_on_a: Height { revision_number: 0, revision_height: 2 },
        },
        &Version::new("ics20-1".to_string()),
    )
    .unwrap();
    let minted = ChannelId::new("channel-0".to_string()).unwrap();
    // The fixture already held (transfer, channel-0), so the try
    // overwrote it; its state must now be TryOpen.
    assert_eq!(ctx.channel_end(&port(), &minted).unwrap().state, ChannelState::TryOpen);

    // Confirm opens a TryOpen end.
    chan_open_confirm(
        &mut ctx,
        &MsgChannelOpenConfirm {
            port_id_on_b: port(),
            chan_id_on_b: minted.clone(),
            proof_chan_end_on_a: vec![1],
            proof_height_on_a: Height { revision_number: 0, revision_height: 2 },
        },
    )
    .unwrap();
    assert_eq!(ctx.channel_end(&port(), &minted).unwrap().state, ChannelState::Open);

    // Close-confirm mirrors the counterparty's closure.
    chan_close_confirm(
        &mut ctx,
        &MsgChannelCloseConfirm {
            port_id_on_b: port(),
            chan_id_on_b: minted.clone(),
            proof_chan_end_on_a: vec![1],
            proof_height_on_a: Height { revision_number: 0, revision_height: 2 },
        },
    )
    .unwrap();
    assert_eq!(ctx.channel_end(&port(), &minted).unwrap().state, ChannelState::Closed);
}

#[test]
fn channel_ack_requires_init_state() {
    let mut ctx = fixture(Order::Unordered, false, ChannelState::Init);
    chan_open_ack(
        &mut ctx,
        &MsgChannelOpenAck {
            port_id_on_a: port(),
            chan_id_on_a: chan(),
            chan_id_on_b: chan(),
            version_on_b: Version::new("ics20-1".to_string()),
            proof_chan_end_on_b: vec![1],
            proof_height_on_b: Height { revision_number: 0, revision_height: 2 },
        },
    )
    .unwrap();
    assert_eq!(ctx.channel_end(&port(), &chan()).unwrap().state, ChannelState::Open);

    // A second ack finds the channel already open and refuses it.
    let e = chan_open_ack(
        &mut ctx,
        &MsgChannelOpenAck {
            port_id_on_a: port(),
            chan_id_on_a: chan(),
            chan_id_on_b: chan(),
            version_on_b: Version::new("ics20-1".to_string()),
            proof_chan_end_on_b: vec![1],
            proof_height_on_b: Height { revision_number: 0, revision_height: 2 },
        },
    )
    .unwrap_err();
    assert_eq!(e, ContextError::Channel(ChannelError::InvalidChannelState));
}

#[test]
fn connection_confirm_requires_try_open() {
    let mut ctx = fixture(Order::Unordered, false, ChannelState::Open);
    // The fixture's connection is already Open, so confirm refuses it.
    let e = conn_open_confirm(
        &mut ctx,
        &MsgConnectionOpenConfirm {
            conn_id_on_b: conn_id(),
            proof_conn_end_on_a: vec![1],
            proof_height_on_a: Height { revision_number: 0, revision_height: 2 },
        },
    )
    .unwrap_err();
    assert_eq!(
        e,
        ContextError::Connection(ibc_core_engine::error::ConnectionError::InvalidState)
    );
}
