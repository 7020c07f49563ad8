use vstd::prelude::*;
use vstd::string::StringExecFns;

use crate::client::Status;
use crate::connection::{ConnectionCounterparty, ConnectionEnd, ConnectionEndV, ConnectionState};
use crate::context::{self_client_check, MockContext, StoreV};
use crate::error::{ClientError, ConnectionError, ContextError, ProofError};
use crate::events::{IbcEvent, MessageCategory};
use crate::host::Height;
use crate::identifier::{ClientId, ConnectionId};
use crate::msgs::ProtoAny;
use crate::path::{dec_chars, u64_to_dec};
use crate::version::{
    get_compatible_versions, negotiated_version, pick_version, versions_view, Version,
};

verus! {

/// The identifier this chain mints for its n-th connection end.
pub open spec fn connection_id_chars(n: u64) -> Seq<char> {
    "connection-"@ + dec_chars(n as nat)
}

fn next_connection_id(n: u64) -> (r: ConnectionId)
    ensures
        r@ == connection_id_chars(n),
{
    let mut s = "connection-".to_owned();
    let d = u64_to_dec(n);
    s.append(d.as_str());
    ConnectionId::from_raw(s)
}

/// Whether the named client exists, holds a state, and is active.
pub open spec fn client_active_check(s: StoreV, client_id: Seq<char>) -> Option<ContextError> {
    if !s.clients.contains_key(client_id) || s.clients[client_id].client_state is None {
        Some(ContextError::Client(ClientError::ClientStateNotFound))
    } else if s.clients[client_id].client_state->0.status_spec() != Status::Active {
        Some(ContextError::Client(ClientError::ClientFrozen))
    } else {
        None
    }
}

/// Whether the named client holds a consensus state at the proof
/// height.
pub open spec fn client_consensus_check(
    s: StoreV,
    client_id: Seq<char>,
    proof_height: Height,
) -> Option<ContextError> {
    if !s.clients[client_id].consensus_states.contains_key(proof_height) {
        Some(ContextError::Client(ClientError::ConsensusStateNotFound { height: proof_height }))
    } else {
        None
    }
}

pub(crate) fn lookup_active_client(ctx: &MockContext, client_id: &ClientId) -> (r: Result<(), ContextError>)
    ensures
        match client_active_check(ctx@, client_id@) {
            Some(e) => r == Err::<(), ContextError>(e),
            None => r == Ok::<(), ContextError>(()),
        },
{
    let client = match ctx.client_state(client_id) {
        Ok(c) => c,
        Err(e) => {
            return Err(e);
        },
    };
    if !(client.status() == Status::Active) {
        return Err(ContextError::Client(ClientError::ClientFrozen));
    }
    Ok(())
}

pub(crate) fn lookup_client_consensus(ctx: &MockContext, client_id: &ClientId, proof_height: Height) -> (r:
    Result<(), ContextError>)
    requires
        client_active_check(ctx@, client_id@) is None,
    ensures
        match client_consensus_check(ctx@, client_id@, proof_height) {
            Some(e) => r == Err::<(), ContextError>(e),
            None => r == Ok::<(), ContextError>(()),
        },
{
    let path = crate::path::ClientConsensusStatePath {
        client_id: client_id.clone(),
        revision_number: proof_height.revision_number,
        revision_height: proof_height.revision_height,
    };
    match ctx.consensus_state(&path) {
        Ok(_) => Ok(()),
        Err(e) => Err(e),
    }
}

/// Opens this side of a connection handshake: no proofs are checked,
/// only the owning client.
#[derive(Debug)]
pub struct MsgConnectionOpenInit {
    pub client_id_on_a: ClientId,
    pub counterparty_client_id: ClientId,
    pub counterparty_prefix: Vec<u8>,
    pub version: Option<Version>,
    pub delay_period_nanos: u64,
}

/// Everything `conn_open_init` demands: an active client, a version
/// (if proposed) that this side supports, and room in the counter.
pub open spec fn conn_open_init_check(s: StoreV, m: &MsgConnectionOpenInit) -> Option<
    ContextError,
> {
    if client_active_check(s, m.client_id_on_a@) is Some {
        client_active_check(s, m.client_id_on_a@)
    } else if m.version is Some && m.version->0@ != "1"@ {
        Some(ContextError::Connection(ConnectionError::VersionNegotiationFailed))
    } else if s.connection_counter == u64::MAX {
        Some(ContextError::HostInvariantViolated)
    } else {
        None
    }
}

/// The store after a successful init: a fresh `Init` connection end
/// under a minted identifier, announced.
pub open spec fn conn_open_init_transition(s: StoreV, m: &MsgConnectionOpenInit) -> StoreV {
    StoreV {
        connections: s.connections.insert(
            connection_id_chars(s.connection_counter),
            ConnectionEndV {
                state: ConnectionState::Init,
                client_id: m.client_id_on_a@,
                remote_client_id: m.counterparty_client_id@,
                remote_connection_id: None,
                remote_prefix: m.counterparty_prefix@,
                versions: match m.version {
                    Some(v) => seq![v@],
                    None => seq!["1"@],
                },
                delay_period_nanos: m.delay_period_nanos,
            },
        ),
        connection_counter: (s.connection_counter + 1) as u64,
        events: s.events + seq![
            IbcEvent::Message(MessageCategory::Connection),
            IbcEvent::OpenInitConnection,
        ],
        ..s
    }
}

/// Creates the `Init` end of a connection on this chain.
pub fn conn_open_init(ctx: &mut MockContext, msg: &MsgConnectionOpenInit) -> (r: Result<
    (),
    ContextError,
>)
    ensures
        match conn_open_init_check(old(ctx)@, msg) {
            Some(e) => r == Err::<(), ContextError>(e) && final(ctx)@ == old(ctx)@,
            None => r is Ok && final(ctx)@ == conn_open_init_transition(old(ctx)@, msg),
        },
{
    match lookup_active_client(ctx, &msg.client_id_on_a) {
        Ok(_) => {},
        Err(e) => {
            return Err(e);
        },
    }
    let one = Version::new("1".to_owned());
    let versions: Vec<Version> = match &msg.version {
        Some(v) => {
            if !v.eq(&one) {
                return Err(ContextError::Connection(ConnectionError::VersionNegotiationFailed));
            }
            let mut vs: Vec<Version> = Vec::new();
            vs.push(v.clone());
            vs
        },
        None => {
            let mut vs: Vec<Version> = Vec::new();
            vs.push(one);
            vs
        },
    };
    let counter = ctx.connection_counter();
    if counter == u64::MAX {
        return Err(ContextError::HostInvariantViolated);
    }
    let conn_id = next_connection_id(counter);
    let end = ConnectionEnd::new(
        ConnectionState::Init,
        msg.client_id_on_a.clone(),
        ConnectionCounterparty {
            client_id: msg.counterparty_client_id.clone(),
            connection_id: None,
            prefix: crate::bytes::dup_bytes(&msg.counterparty_prefix),
        },
        versions,
        msg.delay_period_nanos,
    );
    ctx.store_connection(conn_id, end);
    ctx.increment_connection_counter();
    ctx.emit_event(IbcEvent::Message(MessageCategory::Connection));
    ctx.emit_event(IbcEvent::OpenInitConnection);
    proof {
        assert(ctx@.connections =~~= conn_open_init_transition(old(ctx)@, msg).connections);
        assert(ctx@ =~= conn_open_init_transition(old(ctx)@, msg));
    }
    Ok(())
}

/// Answers a counterparty's init: verifies its `Init` end and its
/// view of this chain, negotiates a version, and writes `TryOpen`.
#[derive(Debug)]
pub struct MsgConnectionOpenTry {
    pub client_id_on_b: ClientId,
    pub counterparty_client_id: ClientId,
    pub counterparty_connection_id: ConnectionId,
    pub counterparty_prefix: Vec<u8>,
    pub client_state_of_b_on_a: ProtoAny,
    pub versions_on_a: Vec<Version>,
    pub proof_conn_end_on_a: Vec<u8>,
    pub proof_height_on_a: Height,
    pub consensus_height_of_b_on_a: Height,
    pub delay_period_nanos: u64,
}

pub open spec fn conn_open_try_check(s: StoreV, m: &MsgConnectionOpenTry) -> Option<ContextError> {
    if client_active_check(s, m.client_id_on_b@) is Some {
        client_active_check(s, m.client_id_on_b@)
    } else if m.proof_conn_end_on_a@.len() == 0 {
        Some(ContextError::Proof(ProofError::MissingProof))
    } else if client_consensus_check(s, m.client_id_on_b@, m.proof_height_on_a) is Some {
        client_consensus_check(s, m.client_id_on_b@, m.proof_height_on_a)
    } else if self_client_check(s, m.client_state_of_b_on_a@) is Some {
        self_client_check(s, m.client_state_of_b_on_a@)
    } else if s.host_height.lt_spec(m.consensus_height_of_b_on_a) {
        Some(
            ContextError::Connection(
                ConnectionError::InvalidClientState {
                    reason: crate::error::SelfClientRejection::HeightAheadOfChain,
                },
            ),
        )
    } else if !(exists|i: int|
        0 <= i < m.versions_on_a@.len() && versions_view(m.versions_on_a@)[i] == "1"@) {
        Some(ContextError::Connection(ConnectionError::VersionNegotiationFailed))
    } else if s.connection_counter == u64::MAX {
        Some(ContextError::HostInvariantViolated)
    } else {
        None
    }
}

/// The store after a successful try: a fresh `TryOpen` end whose
/// version list is the negotiated singleton.
pub open spec fn conn_open_try_transition(
    s: StoreV,
    m: &MsgConnectionOpenTry,
    picked: Seq<char>,
) -> StoreV {
    StoreV {
        connections: s.connections.insert(
            connection_id_chars(s.connection_counter),
            ConnectionEndV {
                state: ConnectionState::TryOpen,
                client_id: m.client_id_on_b@,
                remote_client_id: m.counterparty_client_id@,
                remote_connection_id: Some(m.counterparty_connection_id@),
                remote_prefix: m.counterparty_prefix@,
                versions: seq![picked],
                delay_period_nanos: m.delay_period_nanos,
            },
        ),
        connection_counter: (s.connection_counter + 1) as u64,
        events: s.events + seq![
            IbcEvent::Message(MessageCategory::Connection),
            IbcEvent::OpenTryConnection,
        ],
        ..s
    }
}

/// Writes the `TryOpen` end of a connection on this chain.
pub fn conn_open_try(ctx: &mut MockContext, msg: &MsgConnectionOpenTry) -> (r: Result<
    (),
    ContextError,
>)
    ensures
        match conn_open_try_check(old(ctx)@, msg) {
            Some(e) => r == Err::<(), ContextError>(e) && final(ctx)@ == old(ctx)@,
            None => r is Ok && exists|picked: Seq<char>|
                negotiated_version(seq!["1"@], versions_view(msg.versions_on_a@), picked)
                    && final(ctx)@ == conn_open_try_transition(old(ctx)@, msg, picked),
        },
{
    match lookup_active_client(ctx, &msg.client_id_on_b) {
        Ok(_) => {},
        Err(e) => {
            return Err(e);
        },
    }
    if msg.proof_conn_end_on_a.len() == 0 {
        return Err(ContextError::Proof(ProofError::MissingProof));
    }
    match lookup_client_consensus(ctx, &msg.client_id_on_b, msg.proof_height_on_a) {
        Ok(_) => {},
        Err(e) => {
            return Err(e);
        },
    }
    match ctx.validate_self_client(&msg.client_state_of_b_on_a) {
        Ok(_) => {},
        Err(e) => {
            return Err(e);
        },
    }
    let host_height = match ctx.host_height() {
        Ok(h) => h,
        Err(e) => {
            return Err(e);
        },
    };
    if host_height.lt(msg.consensus_height_of_b_on_a) {
        return Err(
            ContextError::Connection(
                ConnectionError::InvalidClientState {
                    reason: crate::error::SelfClientRejection::HeightAheadOfChain,
                },
            ),
        );
    }
    let supported = get_compatible_versions();
    let picked = match pick_version(&supported, &msg.versions_on_a) {
        Ok(v) => v,
        Err(e) => {
            proof {
                assert forall|i: int|
                    0 <= i < msg.versions_on_a@.len() implies versions_view(msg.versions_on_a@)[i]
                    != "1"@ by {
                    assert(!crate::version::version_in(
                        versions_view(supported@),
                        versions_view(msg.versions_on_a@)[i],
                    ));
                    assert(versions_view(supported@)[0] == "1"@);
                }
            }
            return Err(ContextError::Connection(e));
        },
    };
    let counter = ctx.connection_counter();
    if counter == u64::MAX {
        return Err(ContextError::HostInvariantViolated);
    }
    let ghost picked_view = picked@;
    proof {
        assert(versions_view(supported@) =~= seq!["1"@]);
        let j = choose|j: int|
            0 <= j < versions_view(msg.versions_on_a@).len() && versions_view(msg.versions_on_a@)[j]
                == picked_view && crate::version::version_in(versions_view(supported@), picked_view)
                && (forall|k: int|
                0 <= k < j ==> !crate::version::version_in(
                    versions_view(supported@),
                    versions_view(msg.versions_on_a@)[k],
                ));
        let l = choose|l: int|
            0 <= l < versions_view(supported@).len() && versions_view(supported@)[l] == picked_view;
        assert(picked_view == "1"@);
        assert(versions_view(msg.versions_on_a@)[j] == "1"@);
    }
    let conn_id = next_connection_id(counter);
    let mut versions: Vec<Version> = Vec::new();
    versions.push(picked);
    let end = ConnectionEnd::new(
        ConnectionState::TryOpen,
        msg.client_id_on_b.clone(),
        ConnectionCounterparty {
            client_id: msg.counterparty_client_id.clone(),
            connection_id: Some(msg.counterparty_connection_id.clone()),
            prefix: crate::bytes::dup_bytes(&msg.counterparty_prefix),
        },
        versions,
        msg.delay_period_nanos,
    );
    ctx.store_connection(conn_id, end);
    ctx.increment_connection_counter();
    ctx.emit_event(IbcEvent::Message(MessageCategory::Connection));
    ctx.emit_event(IbcEvent::OpenTryConnection);
    proof {
        assert(versions_view(versions@) =~= seq![picked_view]);
        assert(ctx@.connections =~~= conn_open_try_transition(
            old(ctx)@,
            msg,
            picked_view,
        ).connections);
        assert(ctx@ =~= conn_open_try_transition(old(ctx)@, msg, picked_view));
        assert(negotiated_version(seq!["1"@], versions_view(msg.versions_on_a@), picked_view));
    }
    Ok(())
}


/// Closes the loop on the initiating side: the counterparty is
/// proven to be in `TryOpen` with matching data, and this end opens.
#[derive(Debug)]
pub struct MsgConnectionOpenAck {
    pub conn_id_on_a: ConnectionId,
    pub conn_id_on_b: ConnectionId,
    pub client_state_of_a_on_b: ProtoAny,
    pub proof_conn_end_on_b: Vec<u8>,
    pub proof_height_on_b: Height,
    pub consensus_height_of_a_on_b: Height,
    pub version: Version,
}

pub open spec fn conn_open_ack_check(s: StoreV, m: &MsgConnectionOpenAck) -> Option<ContextError> {
    if !s.connections.contains_key(m.conn_id_on_a@) {
        Some(ContextError::Connection(ConnectionError::ConnectionNotFound))
    } else {
        let conn = s.connections[m.conn_id_on_a@];
        if conn.state != ConnectionState::Init && conn.state != ConnectionState::TryOpen {
            Some(ContextError::Connection(ConnectionError::InvalidState))
        } else if client_active_check(s, conn.client_id) is Some {
            client_active_check(s, conn.client_id)
        } else if m.proof_conn_end_on_b@.len() == 0 {
            Some(ContextError::Proof(ProofError::MissingProof))
        } else if client_consensus_check(s, conn.client_id, m.proof_height_on_b) is Some {
            client_consensus_check(s, conn.client_id, m.proof_height_on_b)
        } else if self_client_check(s, m.client_state_of_a_on_b@) is Some {
            self_client_check(s, m.client_state_of_a_on_b@)
        } else if s.host_height.lt_spec(m.consensus_height_of_a_on_b) {
            Some(
                ContextError::Connection(
                    ConnectionError::InvalidClientState {
                        reason: crate::error::SelfClientRejection::HeightAheadOfChain,
                    },
                ),
            )
        } else if !crate::version::version_in(conn.versions, m.version@) {
            Some(ContextError::Connection(ConnectionError::VersionNegotiationFailed))
        } else {
            None
        }
    }
}

/// The store after a successful ack: the end opens, records the
/// counterparty's connection identifier, and keeps exactly the
/// confirmed version.
pub open spec fn conn_open_ack_transition(s: StoreV, m: &MsgConnectionOpenAck) -> StoreV {
    let conn = s.connections[m.conn_id_on_a@];
    StoreV {
        connections: s.connections.insert(
            m.conn_id_on_a@,
            ConnectionEndV {
                state: ConnectionState::Open,
                remote_connection_id: Some(m.conn_id_on_b@),
                versions: seq![m.version@],
                ..conn
            },
        ),
        events: s.events + seq![
            IbcEvent::Message(MessageCategory::Connection),
            IbcEvent::OpenAckConnection,
        ],
        ..s
    }
}

/// Opens the initiating end of a connection.
pub fn conn_open_ack(ctx: &mut MockContext, msg: &MsgConnectionOpenAck) -> (r: Result<
    (),
    ContextError,
>)
    ensures
        match conn_open_ack_check(old(ctx)@, msg) {
            Some(e) => r == Err::<(), ContextError>(e) && final(ctx)@ == old(ctx)@,
            None => r is Ok && final(ctx)@ == conn_open_ack_transition(old(ctx)@, msg),
        },
{
    let conn = match ctx.connection_end(&msg.conn_id_on_a) {
        Ok(c) => c,
        Err(e) => {
            return Err(e);
        },
    };
    let state_ok = match conn.state {
        ConnectionState::Init => true,
        ConnectionState::TryOpen => true,
        _ => false,
    };
    if !state_ok {
        return Err(ContextError::Connection(ConnectionError::InvalidState));
    }
    match lookup_active_client(ctx, &conn.client_id) {
        Ok(_) => {},
        Err(e) => {
            return Err(e);
        },
    }
    if msg.proof_conn_end_on_b.len() == 0 {
        return Err(ContextError::Proof(ProofError::MissingProof));
    }
    match lookup_client_consensus(ctx, &conn.client_id, msg.proof_height_on_b) {
        Ok(_) => {},
        Err(e) => {
            return Err(e);
        },
    }
    match ctx.validate_self_client(&msg.client_state_of_a_on_b) {
        Ok(_) => {},
        Err(e) => {
            return Err(e);
        },
    }
    let host_height = match ctx.host_height() {
        Ok(h) => h,
        Err(e) => {
            return Err(e);
        },
    };
    if host_height.lt(msg.consensus_height_of_a_on_b) {
        return Err(
            ContextError::Connection(
                ConnectionError::InvalidClientState {
                    reason: crate::error::SelfClientRejection::HeightAheadOfChain,
                },
            ),
        );
    }
    if !crate::version::contains_version(&conn.versions, &msg.version) {
        return Err(ContextError::Connection(ConnectionError::VersionNegotiationFailed));
    }
    let mut versions: Vec<Version> = Vec::new();
    versions.push(msg.version.clone());
    let new_end = ConnectionEnd::new(
        ConnectionState::Open,
        conn.client_id.clone(),
        ConnectionCounterparty {
            client_id: conn.counterparty.client_id.clone(),
            connection_id: Some(msg.conn_id_on_b.clone()),
            prefix: crate::bytes::dup_bytes(&conn.counterparty.prefix),
        },
        versions,
        conn.delay_period_nanos,
    );
    ctx.store_connection(msg.conn_id_on_a.clone(), new_end);
    ctx.emit_event(IbcEvent::Message(MessageCategory::Connection));
    ctx.emit_event(IbcEvent::OpenAckConnection);
    proof {
        assert(ctx@.connections =~~= conn_open_ack_transition(old(ctx)@, msg).connections);
        assert(ctx@ =~= conn_open_ack_transition(old(ctx)@, msg));
    }
    Ok(())
}

/// Finishes the handshake on the answering side: the counterparty is
/// proven `Open`, and this `TryOpen` end opens too.
#[derive(Debug)]
pub struct MsgConnectionOpenConfirm {
    pub conn_id_on_b: ConnectionId,
    pub proof_conn_end_on_a: Vec<u8>,
    pub proof_height_on_a: Height,
}

pub open spec fn conn_open_confirm_check(s: StoreV, m: &MsgConnectionOpenConfirm) -> Option<
    ContextError,
> {
    if !s.connections.contains_key(m.conn_id_on_b@) {
        Some(ContextError::Connection(ConnectionError::ConnectionNotFound))
    } else {
        let conn = s.connections[m.conn_id_on_b@];
        if conn.state != ConnectionState::TryOpen {
            Some(ContextError::Connection(ConnectionError::InvalidState))
        } else if client_active_check(s, conn.client_id) is Some {
            client_active_check(s, conn.client_id)
        } else if m.proof_conn_end_on_a@.len() == 0 {
            Some(ContextError::Proof(ProofError::MissingProof))
        } else if client_consensus_check(s, conn.client_id, m.proof_height_on_a) is Some {
            client_consensus_check(s, conn.client_id, m.proof_height_on_a)
        } else {
            None
        }
    }
}

/// The store after a successful confirm: the end opens.
pub open spec fn conn_open_confirm_transition(s: StoreV, m: &MsgConnectionOpenConfirm) -> StoreV {
    let conn = s.connections[m.conn_id_on_b@];
    StoreV {
        connections: s.connections.insert(
            m.conn_id_on_b@,
            ConnectionEndV { state: ConnectionState::Open, ..conn },
        ),
        events: s.events + seq![
            IbcEvent::Message(MessageCategory::Connection),
            IbcEvent::OpenConfirmConnection,
        ],
        ..s
    }
}

/// Opens the answering end of a connection.
pub fn conn_open_confirm(ctx: &mut MockContext, msg: &MsgConnectionOpenConfirm) -> (r: Result<
    (),
    ContextError,
>)
    ensures
        match conn_open_confirm_check(old(ctx)@, msg) {
            Some(e) => r == Err::<(), ContextError>(e) && final(ctx)@ == old(ctx)@,
            None => r is Ok && final(ctx)@ == conn_open_confirm_transition(old(ctx)@, msg),
        },
{
    let conn = match ctx.connection_end(&msg.conn_id_on_b) {
        Ok(c) => c,
        Err(e) => {
            return Err(e);
        },
    };
    let state_ok = match conn.state {
        ConnectionState::TryOpen => true,
        _ => false,
    };
    if !state_ok {
        return Err(ContextError::Connection(ConnectionError::InvalidState));
    }
    match lookup_active_client(ctx, &conn.client_id) {
        Ok(_) => {},
        Err(e) => {
            return Err(e);
        },
    }
    if msg.proof_conn_end_on_a.len() == 0 {
        return Err(ContextError::Proof(ProofError::MissingProof));
    }
    match lookup_client_consensus(ctx, &conn.client_id, msg.proof_height_on_a) {
        Ok(_) => {},
        Err(e) => {
            return Err(e);
        },
    }
    let new_end = ConnectionEnd::new(
        ConnectionState::Open,
        conn.client_id.clone(),
        ConnectionCounterparty {
            client_id: conn.counterparty.client_id.clone(),
            connection_id: match &conn.counterparty.connection_id {
                Some(c) => Some(c.clone()),
                None => None,
            },
            prefix: crate::bytes::dup_bytes(&conn.counterparty.prefix),
        },
        crate::version::dup_versions(&conn.versions),
        conn.delay_period_nanos,
    );
    ctx.store_connection(msg.conn_id_on_b.clone(), new_end);
    ctx.emit_event(IbcEvent::Message(MessageCategory::Connection));
    ctx.emit_event(IbcEvent::OpenConfirmConnection);
    proof {
        assert(ctx@.connections =~~= conn_open_confirm_transition(old(ctx)@, msg).connections);
        assert(ctx@ =~= conn_open_confirm_transition(old(ctx)@, msg));
    }
    Ok(())
}


/// The read-only pass of `conn_open_init`.
pub fn validate_conn_open_init(ctx: &MockContext, msg: &MsgConnectionOpenInit) -> (r: Result<
    (),
    ContextError,
>)
    ensures
        match conn_open_init_check(ctx@, msg) {
            Some(e) => r == Err::<(), ContextError>(e),
            None => r == Ok::<(), ContextError>(()),
        },
{
    match lookup_active_client(ctx, &msg.client_id_on_a) {
        Ok(_) => {},
        Err(e) => {
            return Err(e);
        },
    }
    let one = Version::new("1".to_owned());
    match &msg.version {
        Some(v) => {
            if !v.eq(&one) {
                return Err(ContextError::Connection(ConnectionError::VersionNegotiationFailed));
            }
        },
        None => {},
    }
    if ctx.connection_counter() == u64::MAX {
        return Err(ContextError::HostInvariantViolated);
    }
    Ok(())
}

/// The read-only pass of `conn_open_try`.
pub fn validate_conn_open_try(ctx: &MockContext, msg: &MsgConnectionOpenTry) -> (r: Result<
    (),
    ContextError,
>)
    ensures
        match conn_open_try_check(ctx@, msg) {
            Some(e) => r == Err::<(), ContextError>(e),
            None => r == Ok::<(), ContextError>(()),
        },
{
    match lookup_active_client(ctx, &msg.client_id_on_b) {
        Ok(_) => {},
        Err(e) => {
            return Err(e);
        },
    }
    if msg.proof_conn_end_on_a.len() == 0 {
        return Err(ContextError::Proof(ProofError::MissingProof));
    }
    match lookup_client_consensus(ctx, &msg.client_id_on_b, msg.proof_height_on_a) {
        Ok(_) => {},
        Err(e) => {
            return Err(e);
        },
    }
    match ctx.validate_self_client(&msg.client_state_of_b_on_a) {
        Ok(_) => {},
        Err(e) => {
            return Err(e);
        },
    }
    let host_height = match ctx.host_height() {
        Ok(h) => h,
        Err(e) => {
            return Err(e);
        },
    };
    if host_height.lt(msg.consensus_height_of_b_on_a) {
        return Err(
            ContextError::Connection(
                ConnectionError::InvalidClientState {
                    reason: crate::error::SelfClientRejection::HeightAheadOfChain,
                },
            ),
        );
    }
    let supported = get_compatible_versions();
    match pick_version(&supported, &msg.versions_on_a) {
        Ok(picked) => {
            proof {
                let j = choose|j: int|
                    0 <= j < versions_view(msg.versions_on_a@).len() && versions_view(
                        msg.versions_on_a@,
                    )[j] == picked@ && crate::version::version_in(
                        versions_view(supported@),
                        picked@,
                    ) && (forall|k: int|
                        0 <= k < j ==> !crate::version::version_in(
                            versions_view(supported@),
                            versions_view(msg.versions_on_a@)[k],
                        ));
                let l = choose|l: int|
                    0 <= l < versions_view(supported@).len() && versions_view(supported@)[l]
                        == picked@;
                assert(picked@ == "1"@);
                assert(versions_view(msg.versions_on_a@)[j] == "1"@);
            }
        },
        Err(e) => {
            proof {
                assert forall|i: int|
                    0 <= i < msg.versions_on_a@.len() implies versions_view(msg.versions_on_a@)[i]
                    != "1"@ by {
                    assert(!crate::version::version_in(
                        versions_view(supported@),
                        versions_view(msg.versions_on_a@)[i],
                    ));
                    assert(versions_view(supported@)[0] == "1"@);
                }
            }
            return Err(ContextError::Connection(e));
        },
    }
    if ctx.connection_counter() == u64::MAX {
        return Err(ContextError::HostInvariantViolated);
    }
    Ok(())
}

/// The read-only pass of `conn_open_ack`.
pub fn validate_conn_open_ack(ctx: &MockContext, msg: &MsgConnectionOpenAck) -> (r: Result<
    (),
    ContextError,
>)
    ensures
        match conn_open_ack_check(ctx@, msg) {
            Some(e) => r == Err::<(), ContextError>(e),
            None => r == Ok::<(), ContextError>(()),
        },
{
    let conn = match ctx.connection_end(&msg.conn_id_on_a) {
        Ok(c) => c,
        Err(e) => {
            return Err(e);
        },
    };
    let state_ok = match conn.state {
        ConnectionState::Init => true,
        ConnectionState::TryOpen => true,
        _ => false,
    };
    if !state_ok {
        return Err(ContextError::Connection(ConnectionError::InvalidState));
    }
    match lookup_active_client(ctx, &conn.client_id) {
        Ok(_) => {},
        Err(e) => {
            return Err(e);
        },
    }
    if msg.proof_conn_end_on_b.len() == 0 {
        return Err(ContextError::Proof(ProofError::MissingProof));
    }
    match lookup_client_consensus(ctx, &conn.client_id, msg.proof_height_on_b) {
        Ok(_) => {},
        Err(e) => {
            return Err(e);
        },
    }
    match ctx.validate_self_client(&msg.client_state_of_a_on_b) {
        Ok(_) => {},
        Err(e) => {
            return Err(e);
        },
    }
    let host_height = match ctx.host_height() {
        Ok(h) => h,
        Err(e) => {
            return Err(e);
        },
    };
    if host_height.lt(msg.consensus_height_of_a_on_b) {
        return Err(
            ContextError::Connection(
                ConnectionError::InvalidClientState {
                    reason: crate::error::SelfClientRejection::HeightAheadOfChain,
                },
            ),
        );
    }
    if !crate::version::contains_version(&conn.versions, &msg.version) {
        return Err(ContextError::Connection(ConnectionError::VersionNegotiationFailed));
    }
    Ok(())
}

/// The read-only pass of `conn_open_confirm`.
pub fn validate_conn_open_confirm(ctx: &MockContext, msg: &MsgConnectionOpenConfirm) -> (r: Result<
    (),
    ContextError,
>)
    ensures
        match conn_open_confirm_check(ctx@, msg) {
            Some(e) => r == Err::<(), ContextError>(e),
            None => r == Ok::<(), ContextError>(()),
        },
{
    let conn = match ctx.connection_end(&msg.conn_id_on_b) {
        Ok(c) => c,
        Err(e) => {
            return Err(e);
        },
    };
    let state_ok = match conn.state {
        ConnectionState::TryOpen => true,
        _ => false,
    };
    if !state_ok {
        return Err(ContextError::Connection(ConnectionError::InvalidState));
    }
    match lookup_active_client(ctx, &conn.client_id) {
        Ok(_) => {},
        Err(e) => {
            return Err(e);
        },
    }
    if msg.proof_conn_end_on_a.len() == 0 {
        return Err(ContextError::Proof(ProofError::MissingProof));
    }
    match lookup_client_consensus(ctx, &conn.client_id, msg.proof_height_on_a) {
        Ok(_) => {},
        Err(e) => {
            return Err(e);
        },
    }
    Ok(())
}

} // verus!
