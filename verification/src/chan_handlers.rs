use vstd::prelude::*;
use vstd::string::StringExecFns;

use crate::channel::{ChannelCounterparty, ChannelEnd, ChannelEndV, ChannelState, Order};
use crate::conn_handlers::{client_active_check, client_consensus_check};
use crate::context::{MockContext, StoreV};
use crate::error::{ChannelError, ConnectionError, ContextError, ProofError};
use crate::events::{IbcEvent, MessageCategory};
use crate::host::Height;
use crate::identifier::{ChannelId, ConnectionId, PortId};
use crate::packet_handlers::{conn_client_check, consensus_at_check};
use crate::path::{dec_chars, u64_to_dec};
use crate::version::Version;

verus! {

/// The identifier this chain mints for its n-th channel end.
pub open spec fn channel_id_chars(n: u64) -> Seq<char> {
    "channel-"@ + dec_chars(n as nat)
}

fn next_channel_id(n: u64) -> (r: ChannelId)
    ensures
        r@ == channel_id_chars(n),
{
    let mut s = "channel-".to_owned();
    let d = u64_to_dec(n);
    s.append(d.as_str());
    ChannelId::from_raw(s)
}

/// Opens this side of a channel handshake. The version carried into
/// the store is the one the routed application module approved, and
/// possibly rewrote, in its open callback.
#[derive(Debug)]
pub struct MsgChannelOpenInit {
    pub port_id_on_a: PortId,
    pub connection_hops_on_a: Vec<ConnectionId>,
    pub port_id_on_b: PortId,
    pub ordering: Order,
    pub version_proposal: Version,
}

pub open spec fn chan_open_init_check(s: StoreV, m: &MsgChannelOpenInit) -> Option<ContextError> {
    if m.connection_hops_on_a@.len() != 1 {
        Some(ContextError::Channel(ChannelError::UnsupportedMultiHop))
    } else if !s.connections.contains_key(m.connection_hops_on_a@[0]@) {
        Some(ContextError::Connection(ConnectionError::ConnectionNotFound))
    } else if s.connections[m.connection_hops_on_a@[0]@].state
        != crate::connection::ConnectionState::Open {
        Some(ContextError::Channel(ChannelError::ConnectionNotOpen))
    } else if s.channel_counter == u64::MAX {
        Some(ContextError::HostInvariantViolated)
    } else {
        None
    }
}

/// The store after a successful channel init: a fresh `Init` end
/// under a minted identifier, its three sequence counters at 1.
pub open spec fn chan_open_init_transition(
    s: StoreV,
    m: &MsgChannelOpenInit,
    module_version: Seq<char>,
) -> StoreV {
    let key = (m.port_id_on_a@, channel_id_chars(s.channel_counter));
    StoreV {
        channels: s.channels.insert(
            key,
            ChannelEndV {
                state: ChannelState::Init,
                ordering: m.ordering,
                remote_port: m.port_id_on_b@,
                remote_channel: None,
                connection_hops: seq![m.connection_hops_on_a@[0]@],
                version: module_version,
            },
        ),
        next_seq_send: s.next_seq_send.insert(key, 1u64),
        next_seq_recv: s.next_seq_recv.insert(key, 1u64),
        next_seq_ack: s.next_seq_ack.insert(key, 1u64),
        channel_counter: (s.channel_counter + 1) as u64,
        events: s.events + seq![
            IbcEvent::Message(MessageCategory::Channel),
            IbcEvent::OpenInitChannel,
        ],
        ..s
    }
}

/// Creates the `Init` end of a channel on this chain; `module_version`
/// is the version the application module answered with.
pub fn chan_open_init(ctx: &mut MockContext, msg: &MsgChannelOpenInit, module_version: &Version) -> (r:
    Result<(), ContextError>)
    ensures
        match chan_open_init_check(old(ctx)@, msg) {
            Some(e) => r == Err::<(), ContextError>(e) && final(ctx)@ == old(ctx)@,
            None => r is Ok && final(ctx)@ == chan_open_init_transition(
                old(ctx)@,
                msg,
                module_version@,
            ),
        },
{
    if msg.connection_hops_on_a.len() != 1 {
        return Err(ContextError::Channel(ChannelError::UnsupportedMultiHop));
    }
    let conn = match ctx.connection_end(&msg.connection_hops_on_a[0]) {
        Ok(c) => c,
        Err(e) => {
            return Err(e);
        },
    };
    if !conn.is_open() {
        return Err(ContextError::Channel(ChannelError::ConnectionNotOpen));
    }
    let counter = ctx.channel_counter();
    if counter == u64::MAX {
        return Err(ContextError::HostInvariantViolated);
    }
    let chan_id = next_channel_id(counter);
    let mut hops: Vec<ConnectionId> = Vec::new();
    hops.push(msg.connection_hops_on_a[0].clone());
    let end = ChannelEnd {
        state: ChannelState::Init,
        ordering: msg.ordering,
        remote: ChannelCounterparty { port_id: msg.port_id_on_b.clone(), channel_id: None },
        connection_hops: hops,
        version: module_version.clone(),
    };
    ctx.store_channel(msg.port_id_on_a.clone(), chan_id.clone(), end);
    ctx.store_next_sequence_send(msg.port_id_on_a.clone(), chan_id.clone(), 1);
    ctx.store_next_sequence_recv(msg.port_id_on_a.clone(), chan_id.clone(), 1);
    ctx.store_next_sequence_ack(msg.port_id_on_a.clone(), chan_id, 1);
    ctx.increment_channel_counter();
    ctx.emit_event(IbcEvent::Message(MessageCategory::Channel));
    ctx.emit_event(IbcEvent::OpenInitChannel);
    proof {
        assert(ctx@.channels =~~= chan_open_init_transition(
            old(ctx)@,
            msg,
            module_version@,
        ).channels);
        assert(ctx@ =~= chan_open_init_transition(old(ctx)@, msg, module_version@));
    }
    Ok(())
}

/// Answers a counterparty's channel init: its `Init` end is proven,
/// and this side writes `TryOpen`.
#[derive(Debug)]
pub struct MsgChannelOpenTry {
    pub port_id_on_b: PortId,
    pub connection_hops_on_b: Vec<ConnectionId>,
    pub port_id_on_a: PortId,
    pub chan_id_on_a: ChannelId,
    pub ordering: Order,
    pub version_supported_on_a: Version,
    pub proof_chan_end_on_a: Vec<u8>,
    pub proof_height_on_a: Height,
}

pub open spec fn chan_open_try_check(s: StoreV, m: &MsgChannelOpenTry) -> Option<ContextError> {
    if m.connection_hops_on_b@.len() != 1 {
        Some(ContextError::Channel(ChannelError::UnsupportedMultiHop))
    } else if !s.connections.contains_key(m.connection_hops_on_b@[0]@) {
        Some(ContextError::Connection(ConnectionError::ConnectionNotFound))
    } else if s.connections[m.connection_hops_on_b@[0]@].state
        != crate::connection::ConnectionState::Open {
        Some(ContextError::Channel(ChannelError::ConnectionNotOpen))
    } else if client_active_check(s, s.connections[m.connection_hops_on_b@[0]@].client_id)
        is Some {
        client_active_check(s, s.connections[m.connection_hops_on_b@[0]@].client_id)
    } else if m.proof_chan_end_on_a@.len() == 0 {
        Some(ContextError::Proof(ProofError::MissingProof))
    } else if client_consensus_check(
        s,
        s.connections[m.connection_hops_on_b@[0]@].client_id,
        m.proof_height_on_a,
    ) is Some {
        client_consensus_check(
            s,
            s.connections[m.connection_hops_on_b@[0]@].client_id,
            m.proof_height_on_a,
        )
    } else if s.channel_counter == u64::MAX {
        Some(ContextError::HostInvariantViolated)
    } else {
        None
    }
}

/// The store after a successful channel try: a fresh `TryOpen` end
/// facing the initiator, counters at 1.
pub open spec fn chan_open_try_transition(
    s: StoreV,
    m: &MsgChannelOpenTry,
    module_version: Seq<char>,
) -> StoreV {
    let key = (m.port_id_on_b@, channel_id_chars(s.channel_counter));
    StoreV {
        channels: s.channels.insert(
            key,
            ChannelEndV {
                state: ChannelState::TryOpen,
                ordering: m.ordering,
                remote_port: m.port_id_on_a@,
                remote_channel: Some(m.chan_id_on_a@),
                connection_hops: seq![m.connection_hops_on_b@[0]@],
                version: module_version,
            },
        ),
        next_seq_send: s.next_seq_send.insert(key, 1u64),
        next_seq_recv: s.next_seq_recv.insert(key, 1u64),
        next_seq_ack: s.next_seq_ack.insert(key, 1u64),
        channel_counter: (s.channel_counter + 1) as u64,
        events: s.events + seq![
            IbcEvent::Message(MessageCategory::Channel),
            IbcEvent::OpenTryChannel,
        ],
        ..s
    }
}

/// Writes the `TryOpen` end of a channel on this chain.
pub fn chan_open_try(ctx: &mut MockContext, msg: &MsgChannelOpenTry, module_version: &Version) -> (r:
    Result<(), ContextError>)
    ensures
        match chan_open_try_check(old(ctx)@, msg) {
            Some(e) => r == Err::<(), ContextError>(e) && final(ctx)@ == old(ctx)@,
            None => r is Ok && final(ctx)@ == chan_open_try_transition(
                old(ctx)@,
                msg,
                module_version@,
            ),
        },
{
    if msg.connection_hops_on_b.len() != 1 {
        return Err(ContextError::Channel(ChannelError::UnsupportedMultiHop));
    }
    let conn = match ctx.connection_end(&msg.connection_hops_on_b[0]) {
        Ok(c) => c,
        Err(e) => {
            return Err(e);
        },
    };
    if !conn.is_open() {
        return Err(ContextError::Channel(ChannelError::ConnectionNotOpen));
    }
    match crate::conn_handlers::lookup_active_client(ctx, &conn.client_id) {
        Ok(_) => {},
        Err(e) => {
            return Err(e);
        },
    }
    if msg.proof_chan_end_on_a.len() == 0 {
        return Err(ContextError::Proof(ProofError::MissingProof));
    }
    match crate::conn_handlers::lookup_client_consensus(ctx, &conn.client_id, msg.proof_height_on_a)
    {
        Ok(_) => {},
        Err(e) => {
            return Err(e);
        },
    }
    let counter = ctx.channel_counter();
    if counter == u64::MAX {
        return Err(ContextError::HostInvariantViolated);
    }
    let chan_id = next_channel_id(counter);
    let mut hops: Vec<ConnectionId> = Vec::new();
    hops.push(msg.connection_hops_on_b[0].clone());
    let end = ChannelEnd {
        state: ChannelState::TryOpen,
        ordering: msg.ordering,
        remote: ChannelCounterparty {
            port_id: msg.port_id_on_a.clone(),
            channel_id: Some(msg.chan_id_on_a.clone()),
        },
        connection_hops: hops,
        version: module_version.clone(),
    };
    ctx.store_channel(msg.port_id_on_b.clone(), chan_id.clone(), end);
    ctx.store_next_sequence_send(msg.port_id_on_b.clone(), chan_id.clone(), 1);
    ctx.store_next_sequence_recv(msg.port_id_on_b.clone(), chan_id.clone(), 1);
    ctx.store_next_sequence_ack(msg.port_id_on_b.clone(), chan_id, 1);
    ctx.increment_channel_counter();
    ctx.emit_event(IbcEvent::Message(MessageCategory::Channel));
    ctx.emit_event(IbcEvent::OpenTryChannel);
    proof {
        assert(ctx@.channels =~~= chan_open_try_transition(
            old(ctx)@,
            msg,
            module_version@,
        ).channels);
        assert(ctx@ =~= chan_open_try_transition(old(ctx)@, msg, module_version@));
    }
    Ok(())
}

/// Closes the loop on the initiating side of a channel handshake.
#[derive(Debug)]
pub struct MsgChannelOpenAck {
    pub port_id_on_a: PortId,
    pub chan_id_on_a: ChannelId,
    pub chan_id_on_b: ChannelId,
    pub version_on_b: Version,
    pub proof_chan_end_on_b: Vec<u8>,
    pub proof_height_on_b: Height,
}

pub open spec fn chan_open_ack_check(s: StoreV, m: &MsgChannelOpenAck) -> Option<ContextError> {
    let key = (m.port_id_on_a@, m.chan_id_on_a@);
    if !s.channels.contains_key(key) {
        Some(ContextError::Channel(ChannelError::ChannelNotFound))
    } else {
        let ch = s.channels[key];
        if ch.state != ChannelState::Init {
            Some(ContextError::Channel(ChannelError::InvalidChannelState))
        } else if conn_client_check(s, ch) is Some {
            conn_client_check(s, ch)
        } else if m.proof_chan_end_on_b@.len() == 0 {
            Some(ContextError::Proof(ProofError::MissingProof))
        } else if consensus_at_check(s, ch, m.proof_height_on_b) is Some {
            consensus_at_check(s, ch, m.proof_height_on_b)
        } else {
            None
        }
    }
}

/// The store after a successful channel ack: the end opens, recording
/// the counterparty's channel id and version.
pub open spec fn chan_open_ack_transition(s: StoreV, m: &MsgChannelOpenAck) -> StoreV {
    let key = (m.port_id_on_a@, m.chan_id_on_a@);
    let ch = s.channels[key];
    StoreV {
        channels: s.channels.insert(
            key,
            ChannelEndV {
                state: ChannelState::Open,
                remote_channel: Some(m.chan_id_on_b@),
                version: m.version_on_b@,
                ..ch
            },
        ),
        events: s.events + seq![
            IbcEvent::Message(MessageCategory::Channel),
            IbcEvent::OpenAckChannel,
        ],
        ..s
    }
}

/// Opens the initiating end of a channel.
pub fn chan_open_ack(ctx: &mut MockContext, msg: &MsgChannelOpenAck) -> (r: Result<
    (),
    ContextError,
>)
    ensures
        match chan_open_ack_check(old(ctx)@, msg) {
            Some(e) => r == Err::<(), ContextError>(e) && final(ctx)@ == old(ctx)@,
            None => r is Ok && final(ctx)@ == chan_open_ack_transition(old(ctx)@, msg),
        },
{
    let chan = match ctx.channel_end(&msg.port_id_on_a, &msg.chan_id_on_a) {
        Ok(c) => c,
        Err(e) => {
            return Err(e);
        },
    };
    let state_ok = match chan.state {
        ChannelState::Init => true,
        _ => false,
    };
    if !state_ok {
        return Err(ContextError::Channel(ChannelError::InvalidChannelState));
    }
    match crate::packet_handlers::channel_client(ctx, chan) {
        Ok(_) => {},
        Err(e) => {
            return Err(e);
        },
    }
    if msg.proof_chan_end_on_b.len() == 0 {
        return Err(ContextError::Proof(ProofError::MissingProof));
    }
    match crate::packet_handlers::channel_consensus_at(ctx, chan, msg.proof_height_on_b) {
        Ok(_) => {},
        Err(e) => {
            return Err(e);
        },
    }
    let mut new_chan = chan.clone();
    new_chan.state = ChannelState::Open;
    new_chan.remote.channel_id = Some(msg.chan_id_on_b.clone());
    new_chan.version = msg.version_on_b.clone();
    ctx.store_channel(msg.port_id_on_a.clone(), msg.chan_id_on_a.clone(), new_chan);
    ctx.emit_event(IbcEvent::Message(MessageCategory::Channel));
    ctx.emit_event(IbcEvent::OpenAckChannel);
    proof {
        assert(ctx@.channels =~~= chan_open_ack_transition(old(ctx)@, msg).channels);
        assert(ctx@ =~= chan_open_ack_transition(old(ctx)@, msg));
    }
    Ok(())
}

/// Finishes the handshake on the answering side of a channel.
#[derive(Debug)]
pub struct MsgChannelOpenConfirm {
    pub port_id_on_b: PortId,
    pub chan_id_on_b: ChannelId,
    pub proof_chan_end_on_a: Vec<u8>,
    pub proof_height_on_a: Height,
}

pub open spec fn chan_open_confirm_check(s: StoreV, m: &MsgChannelOpenConfirm) -> Option<
    ContextError,
> {
    let key = (m.port_id_on_b@, m.chan_id_on_b@);
    if !s.channels.contains_key(key) {
        Some(ContextError::Channel(ChannelError::ChannelNotFound))
    } else {
        let ch = s.channels[key];
        if ch.state != ChannelState::TryOpen {
            Some(ContextError::Channel(ChannelError::InvalidChannelState))
        } else if conn_client_check(s, ch) is Some {
            conn_client_check(s, ch)
        } else if m.proof_chan_end_on_a@.len() == 0 {
            Some(ContextError::Proof(ProofError::MissingProof))
        } else if consensus_at_check(s, ch, m.proof_height_on_a) is Some {
            consensus_at_check(s, ch, m.proof_height_on_a)
        } else {
            None
        }
    }
}

/// The store after a successful channel confirm: the end opens.
pub open spec fn chan_open_confirm_transition(s: StoreV, m: &MsgChannelOpenConfirm) -> StoreV {
    let key = (m.port_id_on_b@, m.chan_id_on_b@);
    let ch = s.channels[key];
    StoreV {
        channels: s.channels.insert(key, ChannelEndV { state: ChannelState::Open, ..ch }),
        events: s.events + seq![
            IbcEvent::Message(MessageCategory::Channel),
            IbcEvent::OpenConfirmChannel,
        ],
        ..s
    }
}

/// Opens the answering end of a channel.
pub fn chan_open_confirm(ctx: &mut MockContext, msg: &MsgChannelOpenConfirm) -> (r: Result<
    (),
    ContextError,
>)
    ensures
        match chan_open_confirm_check(old(ctx)@, msg) {
            Some(e) => r == Err::<(), ContextError>(e) && final(ctx)@ == old(ctx)@,
            None => r is Ok && final(ctx)@ == chan_open_confirm_transition(old(ctx)@, msg),
        },
{
    let chan = match ctx.channel_end(&msg.port_id_on_b, &msg.chan_id_on_b) {
        Ok(c) => c,
        Err(e) => {
            return Err(e);
        },
    };
    let state_ok = match chan.state {
        ChannelState::TryOpen => true,
        _ => false,
    };
    if !state_ok {
        return Err(ContextError::Channel(ChannelError::InvalidChannelState));
    }
    match crate::packet_handlers::channel_client(ctx, chan) {
        Ok(_) => {},
        Err(e) => {
            return Err(e);
        },
    }
    if msg.proof_chan_end_on_a.len() == 0 {
        return Err(ContextError::Proof(ProofError::MissingProof));
    }
    match crate::packet_handlers::channel_consensus_at(ctx, chan, msg.proof_height_on_a) {
        Ok(_) => {},
        Err(e) => {
            return Err(e);
        },
    }
    let mut new_chan = chan.clone();
    new_chan.state = ChannelState::Open;
    ctx.store_channel(msg.port_id_on_b.clone(), msg.chan_id_on_b.clone(), new_chan);
    ctx.emit_event(IbcEvent::Message(MessageCategory::Channel));
    ctx.emit_event(IbcEvent::OpenConfirmChannel);
    proof {
        assert(ctx@.channels =~~= chan_open_confirm_transition(old(ctx)@, msg).channels);
        assert(ctx@ =~= chan_open_confirm_transition(old(ctx)@, msg));
    }
    Ok(())
}

/// Closes a channel from this side; the caller's authority over the
/// port is the application router's concern.
#[derive(Debug)]
pub struct MsgChannelCloseInit {
    pub port_id_on_a: PortId,
    pub chan_id_on_a: ChannelId,
}

pub open spec fn chan_close_init_check(s: StoreV, m: &MsgChannelCloseInit) -> Option<ContextError> {
    let key = (m.port_id_on_a@, m.chan_id_on_a@);
    if !s.channels.contains_key(key) {
        Some(ContextError::Channel(ChannelError::ChannelNotFound))
    } else {
        let ch = s.channels[key];
        if ch.state == ChannelState::Closed {
            Some(ContextError::Channel(ChannelError::ChannelClosed))
        } else if ch.state != ChannelState::Open {
            Some(ContextError::Channel(ChannelError::InvalidChannelState))
        } else if conn_client_check(s, ch) is Some {
            conn_client_check(s, ch)
        } else {
            None
        }
    }
}

/// The store after a local close: the end is `Closed`, terminally.
pub open spec fn chan_close_init_transition(s: StoreV, m: &MsgChannelCloseInit) -> StoreV {
    let key = (m.port_id_on_a@, m.chan_id_on_a@);
    let ch = s.channels[key];
    StoreV {
        channels: s.channels.insert(key, ChannelEndV { state: ChannelState::Closed, ..ch }),
        events: s.events + seq![
            IbcEvent::Message(MessageCategory::Channel),
            IbcEvent::CloseInitChannel,
        ],
        ..s
    }
}

/// Closes this end of a channel at the owner's request.
pub fn chan_close_init(ctx: &mut MockContext, msg: &MsgChannelCloseInit) -> (r: Result<
    (),
    ContextError,
>)
    ensures
        match chan_close_init_check(old(ctx)@, msg) {
            Some(e) => r == Err::<(), ContextError>(e) && final(ctx)@ == old(ctx)@,
            None => r is Ok && final(ctx)@ == chan_close_init_transition(old(ctx)@, msg),
        },
{
    let chan = match ctx.channel_end(&msg.port_id_on_a, &msg.chan_id_on_a) {
        Ok(c) => c,
        Err(e) => {
            return Err(e);
        },
    };
    if chan.is_closed() {
        return Err(ContextError::Channel(ChannelError::ChannelClosed));
    }
    if !chan.is_open() {
        return Err(ContextError::Channel(ChannelError::InvalidChannelState));
    }
    match crate::packet_handlers::channel_client(ctx, chan) {
        Ok(_) => {},
        Err(e) => {
            return Err(e);
        },
    }
    let mut new_chan = chan.clone();
    new_chan.state = ChannelState::Closed;
    ctx.store_channel(msg.port_id_on_a.clone(), msg.chan_id_on_a.clone(), new_chan);
    ctx.emit_event(IbcEvent::Message(MessageCategory::Channel));
    ctx.emit_event(IbcEvent::CloseInitChannel);
    proof {
        assert(ctx@.channels =~~= chan_close_init_transition(old(ctx)@, msg).channels);
        assert(ctx@ =~= chan_close_init_transition(old(ctx)@, msg));
    }
    Ok(())
}

/// Mirrors a counterparty's closure, which the relayer proves.
#[derive(Debug)]
pub struct MsgChannelCloseConfirm {
    pub port_id_on_b: PortId,
    pub chan_id_on_b: ChannelId,
    pub proof_chan_end_on_a: Vec<u8>,
    pub proof_height_on_a: Height,
}

pub open spec fn chan_close_confirm_check(s: StoreV, m: &MsgChannelCloseConfirm) -> Option<
    ContextError,
> {
    let key = (m.port_id_on_b@, m.chan_id_on_b@);
    if !s.channels.contains_key(key) {
        Some(ContextError::Channel(ChannelError::ChannelNotFound))
    } else {
        let ch = s.channels[key];
        if ch.state == ChannelState::Closed {
            Some(ContextError::Channel(ChannelError::ChannelClosed))
        } else if ch.state != ChannelState::Open {
            Some(ContextError::Channel(ChannelError::InvalidChannelState))
        } else if conn_client_check(s, ch) is Some {
            conn_client_check(s, ch)
        } else if m.proof_chan_end_on_a@.len() == 0 {
            Some(ContextError::Proof(ProofError::MissingProof))
        } else if consensus_at_check(s, ch, m.proof_height_on_a) is Some {
            consensus_at_check(s, ch, m.proof_height_on_a)
        } else {
            None
        }
    }
}

/// The store after a confirmed close: the end is `Closed`.
pub open spec fn chan_close_confirm_transition(s: StoreV, m: &MsgChannelCloseConfirm) -> StoreV {
    let key = (m.port_id_on_b@, m.chan_id_on_b@);
    let ch = s.channels[key];
    StoreV {
        channels: s.channels.insert(key, ChannelEndV { state: ChannelState::Closed, ..ch }),
        events: s.events + seq![
            IbcEvent::Message(MessageCategory::Channel),
            IbcEvent::ChannelClosed,
        ],
        ..s
    }
}

/// Closes this end after the counterparty's closure is proven.
pub fn chan_close_confirm(ctx: &mut MockContext, msg: &MsgChannelCloseConfirm) -> (r: Result<
    (),
    ContextError,
>)
    ensures
        match chan_close_confirm_check(old(ctx)@, msg) {
            Some(e) => r == Err::<(), ContextError>(e) && final(ctx)@ == old(ctx)@,
            None => r is Ok && final(ctx)@ == chan_close_confirm_transition(old(ctx)@, msg),
        },
{
    let chan = match ctx.channel_end(&msg.port_id_on_b, &msg.chan_id_on_b) {
        Ok(c) => c,
        Err(e) => {
            return Err(e);
        },
    };
    if chan.is_closed() {
        return Err(ContextError::Channel(ChannelError::ChannelClosed));
    }
    if !chan.is_open() {
        return Err(ContextError::Channel(ChannelError::InvalidChannelState));
    }
    match crate::packet_handlers::channel_client(ctx, chan) {
        Ok(_) => {},
        Err(e) => {
            return Err(e);
        },
    }
    if msg.proof_chan_end_on_a.len() == 0 {
        return Err(ContextError::Proof(ProofError::MissingProof));
    }
    match crate::packet_handlers::channel_consensus_at(ctx, chan, msg.proof_height_on_a) {
        Ok(_) => {},
        Err(e) => {
            return Err(e);
        },
    }
    let mut new_chan = chan.clone();
    new_chan.state = ChannelState::Closed;
    ctx.store_channel(msg.port_id_on_b.clone(), msg.chan_id_on_b.clone(), new_chan);
    ctx.emit_event(IbcEvent::Message(MessageCategory::Channel));
    ctx.emit_event(IbcEvent::ChannelClosed);
    proof {
        assert(ctx@.channels =~~= chan_close_confirm_transition(old(ctx)@, msg).channels);
        assert(ctx@ =~= chan_close_confirm_transition(old(ctx)@, msg));
    }
    Ok(())
}


/// The read-only pass of `chan_open_init`.
pub fn validate_chan_open_init(ctx: &MockContext, msg: &MsgChannelOpenInit) -> (r: Result<
    (),
    ContextError,
>)
    ensures
        match chan_open_init_check(ctx@, msg) {
            Some(e) => r == Err::<(), ContextError>(e),
            None => r == Ok::<(), ContextError>(()),
        },
{
    if msg.connection_hops_on_a.len() != 1 {
        return Err(ContextError::Channel(ChannelError::UnsupportedMultiHop));
    }
    let conn = match ctx.connection_end(&msg.connection_hops_on_a[0]) {
        Ok(c) => c,
        Err(e) => {
            return Err(e);
        },
    };
    if !conn.is_open() {
        return Err(ContextError::Channel(ChannelError::ConnectionNotOpen));
    }
    if ctx.channel_counter() == u64::MAX {
        return Err(ContextError::HostInvariantViolated);
    }
    Ok(())
}

/// The read-only pass of `chan_open_try`.
pub fn validate_chan_open_try(ctx: &MockContext, msg: &MsgChannelOpenTry) -> (r: Result<
    (),
    ContextError,
>)
    ensures
        match chan_open_try_check(ctx@, msg) {
            Some(e) => r == Err::<(), ContextError>(e),
            None => r == Ok::<(), ContextError>(()),
        },
{
    if msg.connection_hops_on_b.len() != 1 {
        return Err(ContextError::Channel(ChannelError::UnsupportedMultiHop));
    }
    let conn = match ctx.connection_end(&msg.connection_hops_on_b[0]) {
        Ok(c) => c,
        Err(e) => {
            return Err(e);
        },
    };
    if !conn.is_open() {
        return Err(ContextError::Channel(ChannelError::ConnectionNotOpen));
    }
    match crate::conn_handlers::lookup_active_client(ctx, &conn.client_id) {
        Ok(_) => {},
        Err(e) => {
            return Err(e);
        },
    }
    if msg.proof_chan_end_on_a.len() == 0 {
        return Err(ContextError::Proof(ProofError::MissingProof));
    }
    match crate::conn_handlers::lookup_client_consensus(ctx, &conn.client_id, msg.proof_height_on_a)
    {
        Ok(_) => {},
        Err(e) => {
            return Err(e);
        },
    }
    if ctx.channel_counter() == u64::MAX {
        return Err(ContextError::HostInvariantViolated);
    }
    Ok(())
}

/// The read-only pass of `chan_open_ack`.
pub fn validate_chan_open_ack(ctx: &MockContext, msg: &MsgChannelOpenAck) -> (r: Result<
    (),
    ContextError,
>)
    ensures
        match chan_open_ack_check(ctx@, msg) {
            Some(e) => r == Err::<(), ContextError>(e),
            None => r == Ok::<(), ContextError>(()),
        },
{
    let chan = match ctx.channel_end(&msg.port_id_on_a, &msg.chan_id_on_a) {
        Ok(c) => c,
        Err(e) => {
            return Err(e);
        },
    };
    let state_ok = match chan.state {
        ChannelState::Init => true,
        _ => false,
    };
    if !state_ok {
        return Err(ContextError::Channel(ChannelError::InvalidChannelState));
    }
    match crate::packet_handlers::channel_client(ctx, chan) {
        Ok(_) => {},
        Err(e) => {
            return Err(e);
        },
    }
    if msg.proof_chan_end_on_b.len() == 0 {
        return Err(ContextError::Proof(ProofError::MissingProof));
    }
    match crate::packet_handlers::channel_consensus_at(ctx, chan, msg.proof_height_on_b) {
        Ok(_) => {},
        Err(e) => {
            return Err(e);
        },
    }
    Ok(())
}

/// The read-only pass of `chan_open_confirm`.
pub fn validate_chan_open_confirm(ctx: &MockContext, msg: &MsgChannelOpenConfirm) -> (r: Result<
    (),
    ContextError,
>)
    ensures
        match chan_open_confirm_check(ctx@, msg) {
            Some(e) => r == Err::<(), ContextError>(e),
            None => r == Ok::<(), ContextError>(()),
        },
{
    let chan = match ctx.channel_end(&msg.port_id_on_b, &msg.chan_id_on_b) {
        Ok(c) => c,
        Err(e) => {
            return Err(e);
        },
    };
    let state_ok = match chan.state {
        ChannelState::TryOpen => true,
        _ => false,
    };
    if !state_ok {
        return Err(ContextError::Channel(ChannelError::InvalidChannelState));
    }
    match crate::packet_handlers::channel_client(ctx, chan) {
        Ok(_) => {},
        Err(e) => {
            return Err(e);
        },
    }
    if msg.proof_chan_end_on_a.len() == 0 {
        return Err(ContextError::Proof(ProofError::MissingProof));
    }
    match crate::packet_handlers::channel_consensus_at(ctx, chan, msg.proof_height_on_a) {
        Ok(_) => {},
        Err(e) => {
            return Err(e);
        },
    }
    Ok(())
}

/// The read-only pass of `chan_close_init`.
pub fn validate_chan_close_init(ctx: &MockContext, msg: &MsgChannelCloseInit) -> (r: Result<
    (),
    ContextError,
>)
    ensures
        match chan_close_init_check(ctx@, msg) {
            Some(e) => r == Err::<(), ContextError>(e),
            None => r == Ok::<(), ContextError>(()),
        },
{
    let chan = match ctx.channel_end(&msg.port_id_on_a, &msg.chan_id_on_a) {
        Ok(c) => c,
        Err(e) => {
            return Err(e);
        },
    };
    if chan.is_closed() {
        return Err(ContextError::Channel(ChannelError::ChannelClosed));
    }
    if !chan.is_open() {
        return Err(ContextError::Channel(ChannelError::InvalidChannelState));
    }
    match crate::packet_handlers::channel_client(ctx, chan) {
        Ok(_) => {},
        Err(e) => {
            return Err(e);
        },
    }
    Ok(())
}

/// The read-only pass of `chan_close_confirm`.
pub fn validate_chan_close_confirm(ctx: &MockContext, msg: &MsgChannelCloseConfirm) -> (r: Result<
    (),
    ContextError,
>)
    ensures
        match chan_close_confirm_check(ctx@, msg) {
            Some(e) => r == Err::<(), ContextError>(e),
            None => r == Ok::<(), ContextError>(()),
        },
{
    let chan = match ctx.channel_end(&msg.port_id_on_b, &msg.chan_id_on_b) {
        Ok(c) => c,
        Err(e) => {
            return Err(e);
        },
    };
    if chan.is_closed() {
        return Err(ContextError::Channel(ChannelError::ChannelClosed));
    }
    if !chan.is_open() {
        return Err(ContextError::Channel(ChannelError::InvalidChannelState));
    }
    match crate::packet_handlers::channel_client(ctx, chan) {
        Ok(_) => {},
        Err(e) => {
            return Err(e);
        },
    }
    if msg.proof_chan_end_on_a.len() == 0 {
        return Err(ContextError::Proof(ProofError::MissingProof));
    }
    match crate::packet_handlers::channel_consensus_at(ctx, chan, msg.proof_height_on_a) {
        Ok(_) => {},
        Err(e) => {
            return Err(e);
        },
    }
    Ok(())
}

} // verus!
