use ibc_core_engine::chan_handlers::{
    chan_close_init, chan_open_init, MsgChannelCloseInit, MsgChannelOpenInit,
};
use ibc_core_engine::channel::{ChannelCounterparty, ChannelEnd, ChannelState, Order};
use ibc_core_engine::client::{AnyClientState, AnyConsensusState, ConsensusState, MockClientState};
use ibc_core_engine::conn_handlers::{
    conn_open_ack, conn_open_init, conn_open_try, MsgConnectionOpenAck, MsgConnectionOpenInit,
    MsgConnectionOpenTry,
};
use ibc_core_engine::connection::{ConnectionCounterparty, ConnectionEnd, ConnectionState};
use ibc_core_engine::context::MockContext;
use ibc_core_engine::dispatcher::{dispatch, validate, ClientMsg, ModuleAnswers, MsgEnvelope};
use ibc_core_engine::events::{IbcEvent, MessageCategory};
use ibc_core_engine::host::{Height, Timestamp};
use ibc_core_engine::identifier::{ChannelId, ClientId, ConnectionId, PortId};
use ibc_core_engine::msgs::{
    encode_mock_client_state, encode_mock_header, MsgUpdateClient, RawMsgUpdateClient,
};
use ibc_core_engine::path::ClientConsensusStatePath;
use ibc_core_engine::version::{get_compatible_versions, pick_version, Version};

fn client_id() -> ClientId {
    ClientId::new("07-tendermint-0".to_string()).unwrap()
}

fn base_ctx() -> MockContext {
    let mut ctx = MockContext::new(
        Height { revision_number: 0, revision_height: 3 },
        Timestamp::from_nanoseconds(100),
    );
    ctx.store_client_state(
        client_id(),
        AnyClientState::Mock(MockClientState::new(Height {
            revision_number: 0,
            revision_height: 2,
        })),
    )
    .unwrap();
    ctx.store_consensus_state(
        ClientConsensusStatePath { client_id: client_id(), revision_number: 0, revision_height: 2 },
        AnyConsensusState::Mock(ConsensusState::new(Vec::new(), Timestamp::from_nanoseconds(1000))),
    )
    .unwrap();
    ctx
}

#[test]
fn version_negotiation_picks_first_supported_proposal() {
    let supported = get_compatible_versions();
    let proposals = vec![
        Version::new("strange".to_string()),
        Version::new("1".to_string()),
        Version::new("other".to_string()),
    ];
    let picked = pick_version(&supported, &proposals).unwrap();
    assert_eq!(picked.as_str(), "1");

    // Deterministic: the same inputs pick the same version again.
    let picked_again = pick_version(&supported, &proposals).unwrap();
    assert_eq!(picked_again.as_str(), picked.as_str());

    let none = pick_version(&supported, &vec![Version::new("2".to_string())]);
    assert!(none.is_err());
}

#[test]
fn connection_handshake_init_try_ack() {
    let mut ctx = base_ctx();
    conn_open_init(
        &mut ctx,
        &MsgConnectionOpenInit {
            client_id_on_a: client_id(),
            counterparty_client_id: client_id(),
            counterparty_prefix: vec![0],
            version: None,
            delay_period_nanos: 0,
        },
    )
    .unwrap();
    let minted = ConnectionId::new("connection-0".to_string()).unwrap();
    let end = ctx.connection_end(&minted).unwrap();
    assert_eq!(end.state, ConnectionState::Init);
    assert_eq!(ctx.events().len(), 2);
    assert_eq!(ctx.events()[1], IbcEvent::OpenInitConnection);

    // The answering side writes TryOpen under its own identifier.
    conn_open_try(
        &mut ctx,
        &MsgConnectionOpenTry {
            client_id_on_b: client_id(),
            counterparty_client_id: client_id(),
            counterparty_connection_id: minted.clone(),
            counterparty_prefix: vec![0],
            client_state_of_b_on_a: encode_mock_client_state(&MockClientState::new(Height {
                revision_number: 0,
                revision_height: 1,
            })),
            versions_on_a: vec![Version::new("1".to_string())],
            proof_conn_end_on_a: vec![1],
            proof_height_on_a: Height { revision_number: 0, revision_height: 2 },
            consensus_height_of_b_on_a: Height { revision_number: 0, revision_height: 1 },
            delay_period_nanos: 0,
        },
    )
    .unwrap();
    let tried = ConnectionId::new("connection-1".to_string()).unwrap();
    let end = ctx.connection_end(&tried).unwrap();
    assert_eq!(end.state, ConnectionState::TryOpen);

    // The initiator opens on the counterparty's ack.
    conn_open_ack(
        &mut ctx,
        &MsgConnectionOpenAck {
            conn_id_on_a: minted.clone(),
            conn_id_on_b: tried,
            client_state_of_a_on_b: encode_mock_client_state(&MockClientState::new(Height {
                revision_number: 0,
                revision_height: 1,
            })),
            proof_conn_end_on_b: vec![1],
            proof_height_on_b: Height { revision_number: 0, revision_height: 2 },
            consensus_height_of_a_on_b: Height { revision_number: 0, revision_height: 1 },
            version: Version::new("1".to_string()),
        },
    )
    .unwrap();
    let end = ctx.connection_end(&minted).unwrap();
    assert_eq!(end.state, ConnectionState::Open);
}

fn ctx_with_open_connection() -> (MockContext, ConnectionId) {
    let mut ctx = base_ctx();
    let conn_id = ConnectionId::new("connection-0".to_string()).unwrap();
    let conn = ConnectionEnd::new(
        ConnectionState::Open,
        client_id(),
        ConnectionCounterparty {
            client_id: client_id(),
            connection_id: Some(conn_id.clone()),
            prefix: vec![0],
        },
        get_compatible_versions(),
        0,
    );
    ctx.store_connection(conn_id.clone(), conn);
    (ctx, conn_id)
}

#[test]
fn channel_open_init_creates_the_end_and_counters() {
    let (mut ctx, conn_id) = ctx_with_open_connection();
    let port = PortId::new("transfer".to_string()).unwrap();
    chan_open_init(
        &mut ctx,
        &MsgChannelOpenInit {
            port_id_on_a: port.clone(),
            connection_hops_on_a: vec![conn_id],
            port_id_on_b: PortId::new("transfer".to_string()).unwrap(),
            ordering: Order::Unordered,
            version_proposal: Version::new("ics20-1".to_string()),
        },
        &Version::new("ics20-1".to_string()),
    )
    .unwrap();
    let chan_id = ChannelId::new("channel-0".to_string()).unwrap();
    let end = ctx.channel_end(&port, &chan_id).unwrap();
    assert_eq!(end.state, ChannelState::Init);
    assert_eq!(ctx.get_next_sequence_send(&port, &chan_id).unwrap(), 1);
    assert_eq!(ctx.get_next_sequence_recv(&port, &chan_id).unwrap(), 1);
    assert_eq!(ctx.get_next_sequence_ack(&port, &chan_id).unwrap(), 1);
}

#[test]
fn channel_close_init_closes_an_open_channel() {
    let (mut ctx, conn_id) = ctx_with_open_connection();
    let port = PortId::new("transfer".to_string()).unwrap();
    let chan_id = ChannelId::new("channel-0".to_string()).unwrap();
    let channel = ChannelEnd::new(
        ChannelState::Open,
        Order::Unordered,
        ChannelCounterparty {
            port_id: port.clone(),
            channel_id: Some(chan_id.clone()),
        },
        vec![conn_id],
        Version::new("ics20-1".to_string()),
    )
    .unwrap();
    ctx.store_channel(port.clone(), chan_id.clone(), channel);
    chan_close_init(
        &mut ctx,
        &MsgChannelCloseInit { port_id_on_a: port.clone(), chan_id_on_a: chan_id.clone() },
    )
    .unwrap();
    let end = ctx.channel_end(&port, &chan_id).unwrap();
    assert_eq!(end.state, ChannelState::Closed);
    assert_eq!(ctx.events()[1], IbcEvent::CloseInitChannel);
}

#[test]
fn multi_hop_channels_are_rejected_explicitly() {
    let (mut ctx, conn_id) = ctx_with_open_connection();
    let r = chan_open_init(
        &mut ctx,
        &MsgChannelOpenInit {
            port_id_on_a: PortId::new("transfer".to_string()).unwrap(),
            connection_hops_on_a: vec![conn_id.clone(), conn_id],
            port_id_on_b: PortId::new("transfer".to_string()).unwrap(),
            ordering: Order::Unordered,
            version_proposal: Version::new("ics20-1".to_string()),
        },
        &Version::new("ics20-1".to_string()),
    );
    assert!(r.is_err());
}

#[test]
fn update_client_installs_header_state() {
    let mut ctx = base_ctx();
    let header = ibc_core_engine::client::MockHeader {
        height: Height { revision_number: 0, revision_height: 7 },
        timestamp: Timestamp::from_nanoseconds(555),
    };
    let msg = MsgUpdateClient {
        client_id: client_id(),
        client_message: encode_mock_header(&header),
        signer: "signer".to_string(),
    };
    let env = MsgEnvelope::Client(ClientMsg::UpdateClient(msg));
    validate(&ctx, &env).unwrap();
    assert_eq!(ctx.events().len(), 0);
    dispatch(&mut ctx, &env, &ModuleAnswers { recv_ack: None, version: None }).unwrap();
    let state = ctx.client_state(&client_id()).unwrap();
    let AnyClientState::Mock(mock) = state;
    assert_eq!(mock.latest_height(), Height { revision_number: 0, revision_height: 7 });
    let cs = ctx
        .consensus_state(&ClientConsensusStatePath {
            client_id: client_id(),
            revision_number: 0,
            revision_height: 7,
        })
        .unwrap();
    let AnyConsensusState::Mock(cs) = cs;
    assert_eq!(cs.timestamp(), Timestamp::from_nanoseconds(555));
    let meta = ctx.client_update_meta(&client_id(), Height {
        revision_number: 0,
        revision_height: 7,
    })
    .unwrap();
    assert_eq!(meta.0, Timestamp::from_nanoseconds(100));
    assert_eq!(meta.1, Height { revision_number: 0, revision_height: 3 });
    assert_eq!(ctx.events()[0], IbcEvent::Message(MessageCategory::Client));
    assert_eq!(ctx.events()[1], IbcEvent::UpdateClient);
}

#[test]
fn consensus_state_neighbours_are_found() {
    let mut ctx = base_ctx();
    ctx.store_consensus_state(
        ClientConsensusStatePath { client_id: client_id(), revision_number: 0, revision_height: 9 },
        AnyConsensusState::Mock(ConsensusState::new(Vec::new(), Timestamp::from_nanoseconds(9000))),
    )
    .unwrap();
    let next = ctx
        .next_consensus_state(&client_id(), Height { revision_number: 0, revision_height: 2 })
        .unwrap()
        .unwrap();
    let AnyConsensusState::Mock(next) = next;
    assert_eq!(next.timestamp(), Timestamp::from_nanoseconds(9000));
    let prev = ctx
        .prev_consensus_state(&client_id(), Height { revision_number: 0, revision_height: 9 })
        .unwrap()
        .unwrap();
    let AnyConsensusState::Mock(prev) = prev;
    assert_eq!(prev.timestamp(), Timestamp::from_nanoseconds(1000));
    let none = ctx
        .next_consensus_state(&client_id(), Height { revision_number: 0, revision_height: 9 })
        .unwrap();
    assert!(none.is_none());
    let heights = ctx.consensus_state_heights(&client_id()).unwrap();
    assert_eq!(heights.len(), 2);
}

#[test]
fn msg_update_client_serialization() {
    let raw = RawMsgUpdateClient {
        client_id: "07-tendermint-0".to_string(),
        client_message: Some(encode_mock_header(&ibc_core_engine::client::MockHeader {
            height: Height { revision_number: 0, revision_height: 5 },
            timestamp: Timestamp::from_nanoseconds(5),
        })),
        signer: "signer".to_string(),
    };
    let msg = MsgUpdateClient::try_from(RawMsgUpdateClient {
        client_id: raw.client_id.clone(),
        client_message: raw.client_message.clone(),
        signer: raw.signer.clone(),
    })
    .unwrap();
    let raw_back = msg.into_raw();
    assert_eq!(raw.client_id, raw_back.client_id);
    assert_eq!(raw.signer, raw_back.signer);
    let a = raw.client_message.unwrap();
    let b = raw_back.client_message.unwrap();
    assert_eq!(a.type_url, b.type_url);
    assert_eq!(a.value, b.value);
}

#[test]
fn msg_update_client_rejects_bad_input() {
    let bad_id = MsgUpdateClient::try_from(RawMsgUpdateClient {
        client_id: "bad id".to_string(),
        client_message: None,
        signer: "s".to_string(),
    });
    assert!(bad_id.is_err());
    let missing = MsgUpdateClient::try_from(RawMsgUpdateClient {
        client_id: "07-tendermint-0".to_string(),
        client_message: None,
        signer: "s".to_string(),
    });
    assert!(missing.is_err());
}

#[test]
fn validate_self_client_enforces_the_mock_rules() {
    let ctx = base_ctx();
    let good = encode_mock_client_state(&MockClientState::new(Height {
        revision_number: 0,
        revision_height: 1,
    }));
    assert!(ctx.validate_self_client(&good).is_ok());
    let ahead = encode_mock_client_state(&MockClientState::new(Height {
        revision_number: 0,
        revision_height: 9,
    }));
    assert!(ctx.validate_self_client(&ahead).is_err());
    let wrong_revision = encode_mock_client_state(&MockClientState::new(Height {
        revision_number: 4,
        revision_height: 1,
    }));
    assert!(ctx.validate_self_client(&wrong_revision).is_err());
}

#[test]
fn msg_update_client_type_url_is_fixed() {
    let msg = MsgUpdateClient {
        client_id: client_id(),
        client_message: encode_mock_header(&ibc_core_engine::client::MockHeader {
            height: Height { revision_number: 0, revision_height: 5 },
            timestamp: Timestamp::from_nanoseconds(5),
        }),
        signer: "signer".to_string(),
    };
    assert_eq!(msg.type_url(), "/ibc.core.client.v1.MsgUpdateClient");
}
