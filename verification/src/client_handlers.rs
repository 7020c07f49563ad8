use vstd::prelude::*;

use crate::client::{AnyClientState, AnyConsensusState, ConsensusState, ConsensusStateV, MockClientState, Status};
use crate::context::{MockClientRecordV, MockContext, StoreV};
use crate::error::{ClientError, ContextError};
use crate::events::{IbcEvent, MessageCategory};
use crate::msgs::{mock_header_of, MsgUpdateClient};
use crate::path::ClientConsensusStatePath;

verus! {

/// Everything `update_client` demands of the store: the client
/// installed and active, and a client message that decodes as a mock
/// header.
pub open spec fn update_client_check(
    s: StoreV,
    client_id: Seq<char>,
    client_message: crate::msgs::ProtoAnyV,
) -> Option<ContextError> {
    if !s.clients.contains_key(client_id) || s.clients[client_id].client_state is None {
        Some(ContextError::Client(ClientError::ClientStateNotFound))
    } else if s.clients[client_id].client_state->0.status_spec() != Status::Active {
        Some(ContextError::Client(ClientError::ClientFrozen))
    } else if mock_header_of(client_message) is None {
        Some(ContextError::Client(ClientError::HeaderVerificationFailure))
    } else {
        None
    }
}

/// The store after a client update: the client's latest height moves
/// forward if the header is ahead of it, the header's consensus state
/// is installed at the header's height, the installation moment is
/// recorded, and the update is announced.
pub open spec fn update_client_transition(
    s: StoreV,
    client_id: Seq<char>,
    client_message: crate::msgs::ProtoAnyV,
) -> StoreV {
    let header = mock_header_of(client_message)->0;
    let old_state = s.clients[client_id].client_state->0;
    let new_latest = if old_state.latest_height_spec().lt_spec(header.height) {
        header.height
    } else {
        old_state.latest_height_spec()
    };
    StoreV {
        clients: s.clients.insert(
            client_id,
            MockClientRecordV {
                client_state: Some(
                    AnyClientState::Mock(
                        MockClientState { latest_height: new_latest, frozen: false },
                    ),
                ),
                consensus_states: s.clients[client_id].consensus_states.insert(
                    header.height,
                    ConsensusStateV { root: Seq::empty(), timestamp: header.timestamp },
                ),
            },
        ),
        processed_times: s.processed_times.insert((client_id, header.height), s.host_timestamp),
        processed_heights: s.processed_heights.insert((client_id, header.height), s.host_height),
        events: s.events + seq![
            IbcEvent::Message(MessageCategory::Client),
            IbcEvent::UpdateClient,
        ],
        ..s
    }
}

/// The read-only pass of `update_client`.
pub fn validate_update_client(ctx: &MockContext, msg: &MsgUpdateClient) -> (r: Result<
    (),
    ContextError,
>)
    ensures
        match update_client_check(ctx@, msg.client_id@, msg.client_message@) {
            Some(e) => r == Err::<(), ContextError>(e),
            None => r == Ok::<(), ContextError>(()),
        },
{
    let client = match ctx.client_state(&msg.client_id) {
        Ok(c) => c,
        Err(e) => {
            return Err(e);
        },
    };
    if !(client.status() == Status::Active) {
        return Err(ContextError::Client(ClientError::ClientFrozen));
    }
    match crate::msgs::decode_mock_header(&msg.client_message) {
        Some(_) => Ok(()),
        None => Err(ContextError::Client(ClientError::HeaderVerificationFailure)),
    }
}

/// Updates an on-chain client with a new header: installs the
/// header's consensus state and records when it arrived.
pub fn execute_update_client(ctx: &mut MockContext, msg: &MsgUpdateClient) -> (r: Result<
    (),
    ContextError,
>)
    ensures
        match update_client_check(old(ctx)@, msg.client_id@, msg.client_message@) {
            Some(e) => r == Err::<(), ContextError>(e) && final(ctx)@ == old(ctx)@,
            None => r is Ok && final(ctx)@ == update_client_transition(
                old(ctx)@,
                msg.client_id@,
                msg.client_message@,
            ),
        },
{
    let client = match ctx.client_state(&msg.client_id) {
        Ok(c) => c,
        Err(e) => {
            return Err(e);
        },
    };
    if !(client.status() == Status::Active) {
        return Err(ContextError::Client(ClientError::ClientFrozen));
    }
    let header = match crate::msgs::decode_mock_header(&msg.client_message) {
        Some(h) => h,
        None => {
            return Err(ContextError::Client(ClientError::HeaderVerificationFailure));
        },
    };
    let old_latest = client.latest_height();
    let new_latest = if old_latest.lt(header.height) {
        header.height
    } else {
        old_latest
    };
    let new_state = MockClientState { latest_height: new_latest, frozen: false };
    match ctx.store_client_state(msg.client_id.clone(), AnyClientState::Mock(new_state)) {
        Ok(_) => {},
        Err(e) => {
            return Err(e);
        },
    }
    let path = ClientConsensusStatePath {
        client_id: msg.client_id.clone(),
        revision_number: header.height.revision_number,
        revision_height: header.height.revision_height,
    };
    match ctx.store_consensus_state(
        path,
        AnyConsensusState::Mock(ConsensusState::new(Vec::new(), header.timestamp)),
    ) {
        Ok(_) => {},
        Err(e) => {
            return Err(e);
        },
    }
    let host_timestamp = match ctx.host_timestamp() {
        Ok(t) => t,
        Err(e) => {
            return Err(e);
        },
    };
    let host_height = match ctx.host_height() {
        Ok(h) => h,
        Err(e) => {
            return Err(e);
        },
    };
    match ctx.store_update_meta(
        msg.client_id.clone(),
        header.height,
        host_timestamp,
        host_height,
    ) {
        Ok(_) => {},
        Err(e) => {
            return Err(e);
        },
    }
    ctx.emit_event(IbcEvent::Message(MessageCategory::Client));
    ctx.emit_event(IbcEvent::UpdateClient);
    proof {
        assert(ctx@.clients =~= update_client_transition(
            old(ctx)@,
            msg.client_id@,
            msg.client_message@,
        ).clients);
        assert(ctx@ =~= update_client_transition(old(ctx)@, msg.client_id@, msg.client_message@));
    }
    Ok(())
}

} // verus!
