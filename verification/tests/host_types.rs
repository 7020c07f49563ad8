use ibc_core_engine::client::{AnyConsensusState, ConsensusState};
use ibc_core_engine::context::MockContext;
use ibc_core_engine::host::{Height, Timestamp};
use ibc_core_engine::path::{
    client_state_path, connection_path, consensus_state_path, next_sequence_recv_path,
};
use ibc_core_engine::identifier::{ChannelId, ClientId, ConnectionId, PortId};

#[test]
fn heights_compare_lexicographically() {
    let a = Height { revision_number: 0, revision_height: 5 };
    let b = Height { revision_number: 0, revision_height: 6 };
    let c = Height { revision_number: 1, revision_height: 0 };
    assert!(a.lt(b));
    assert!(b.lt(c));
    assert!(a.le(a));
    assert!(!c.lt(a));
    assert_eq!(a.increment(), Height { revision_number: 0, revision_height: 6 });
}

#[test]
fn timestamps_saturate_on_overflow() {
    let t = Timestamp::from_nanoseconds(u64::MAX - 1);
    assert_eq!(t.saturating_add(5).nanoseconds(), u64::MAX);
    let s = Timestamp::from_nanoseconds(10);
    assert_eq!(s.saturating_add(5).nanoseconds(), 15);
    assert!(!Timestamp::from_nanoseconds(0).is_set());
    assert!(s.is_set());
}

#[test]
fn client_and_connection_paths_are_byte_stable() {
    let client = ClientId::new("07-tendermint-0".to_string()).unwrap();
    let conn = ConnectionId::new("connection-0".to_string()).unwrap();
    let port = PortId::new("transfer".to_string()).unwrap();
    let chan = ChannelId::new("channel-0".to_string()).unwrap();
    assert_eq!(client_state_path(&client), "clients/07-tendermint-0/clientState");
    assert_eq!(
        consensus_state_path(&client, Height { revision_number: 0, revision_height: 2 }),
        "clients/07-tendermint-0/consensusStates/0-2"
    );
    assert_eq!(connection_path(&conn), "connections/connection-0");
    assert_eq!(
        next_sequence_recv_path(&port, &chan),
        "nextSequenceRecv/ports/transfer/channels/channel-0"
    );
}

#[test]
fn update_meta_and_host_consensus_round_trip() {
    let mut ctx = MockContext::new(
        Height { revision_number: 0, revision_height: 3 },
        Timestamp::from_nanoseconds(100),
    );
    let client = ClientId::new("07-tendermint-0".to_string()).unwrap();
    let h = Height { revision_number: 0, revision_height: 2 };
    ctx.store_update_meta(
        client.clone(),
        h,
        Timestamp::from_nanoseconds(5),
        Height { revision_number: 0, revision_height: 4 },
    )
    .unwrap();
    let meta = ctx.client_update_meta(&client, h).unwrap();
    assert_eq!(meta.0, Timestamp::from_nanoseconds(5));
    assert_eq!(meta.1, Height { revision_number: 0, revision_height: 4 });
    ctx.delete_update_meta(client.clone(), h).unwrap();
    assert!(ctx.client_update_meta(&client, h).is_err());

    ctx.store_host_consensus_state(h, ConsensusState::new(vec![7], Timestamp::from_nanoseconds(9)));
    let own = ctx.self_consensus_state(h).unwrap();
    let AnyConsensusState::Mock(own) = own;
    assert_eq!(own.root(), &vec![7]);
    assert!(ctx
        .self_consensus_state(Height { revision_number: 0, revision_height: 8 })
        .is_err());

    let port = PortId::new("transfer".to_string()).unwrap();
    let chan = ChannelId::new("channel-0".to_string()).unwrap();
    ctx.store_packet_acknowledgement(port.clone(), chan.clone(), 1, vec![1, 2]);
    assert!(ctx.get_packet_acknowledgement(&port, &chan, 1).is_some());
    ctx.delete_packet_acknowledgement(port.clone(), chan.clone(), 1);
    assert!(ctx.get_packet_acknowledgement(&port, &chan, 1).is_none());

    ctx.delete_consensus_state(ibc_core_engine::path::ClientConsensusStatePath {
        client_id: client.clone(),
        revision_number: 0,
        revision_height: 2,
    })
    .unwrap();
    assert!(ctx
        .consensus_state(&ibc_core_engine::path::ClientConsensusStatePath {
            client_id: client,
            revision_number: 0,
            revision_height: 2,
        })
        .is_err());
}
