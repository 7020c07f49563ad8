use vstd::prelude::*;

use crate::acknowledgement::Acknowledgement;
use crate::chan_handlers::{
    chan_close_confirm, chan_close_confirm_check, chan_close_confirm_transition, chan_close_init,
    chan_close_init_check, chan_close_init_transition, chan_open_ack, chan_open_ack_check,
    chan_open_ack_transition, chan_open_confirm, chan_open_confirm_check,
    chan_open_confirm_transition, chan_open_init, chan_open_init_check, chan_open_init_transition,
    chan_open_try, chan_open_try_check, chan_open_try_transition, validate_chan_close_confirm,
    validate_chan_close_init, validate_chan_open_ack, validate_chan_open_confirm,
    validate_chan_open_init, validate_chan_open_try, MsgChannelCloseConfirm, MsgChannelCloseInit,
    MsgChannelOpenAck, MsgChannelOpenConfirm, MsgChannelOpenInit, MsgChannelOpenTry,
};
use crate::client_handlers::{
    execute_update_client, update_client_check, update_client_transition, validate_update_client,
};
use crate::conn_handlers::{
    conn_open_ack, conn_open_ack_check, conn_open_ack_transition, conn_open_confirm,
    conn_open_confirm_check, conn_open_confirm_transition, conn_open_init, conn_open_init_check,
    conn_open_init_transition, conn_open_try, conn_open_try_check, conn_open_try_transition,
    validate_conn_open_ack, validate_conn_open_confirm, validate_conn_open_init,
    validate_conn_open_try, MsgConnectionOpenAck, MsgConnectionOpenConfirm, MsgConnectionOpenInit,
    MsgConnectionOpenTry,
};
use crate::context::{MockContext, StoreV};
use crate::error::{ContextError, PacketError};
use crate::msgs::MsgUpdateClient;
use crate::packet::{MsgAcknowledgement, MsgRecvPacket, MsgTimeout, MsgTimeoutOnClose};
use crate::packet_handlers::{
    acknowledge_packet_check, acknowledge_packet_transition, execute_acknowledge_packet,
    execute_recv_packet, execute_timeout_on_close_packet, execute_timeout_packet,
    recv_packet_check, recv_packet_transition, timeout_on_close_check, timeout_packet_check,
    timeout_packet_transition, validate_acknowledge_packet, validate_recv_packet,
    validate_timeout_on_close_packet, validate_timeout_packet,
};
use crate::version::{negotiated_version, versions_view, Version};

verus! {

/// A relayed client-domain message.
#[derive(Debug)]
pub enum ClientMsg {
    UpdateClient(MsgUpdateClient),
}

/// A relayed connection-handshake message.
#[derive(Debug)]
pub enum ConnectionMsg {
    OpenInit(MsgConnectionOpenInit),
    OpenTry(MsgConnectionOpenTry),
    OpenAck(MsgConnectionOpenAck),
    OpenConfirm(MsgConnectionOpenConfirm),
}

/// A relayed channel-handshake or close message.
#[derive(Debug)]
pub enum ChannelMsg {
    OpenInit(MsgChannelOpenInit),
    OpenTry(MsgChannelOpenTry),
    OpenAck(MsgChannelOpenAck),
    OpenConfirm(MsgChannelOpenConfirm),
    CloseInit(MsgChannelCloseInit),
    CloseConfirm(MsgChannelCloseConfirm),
}

/// A relayed packet-lifecycle message.
#[derive(Debug)]
pub enum PacketMsg {
    Recv(MsgRecvPacket),
    Ack(MsgAcknowledgement),
    Timeout(MsgTimeout),
    TimeoutOnClose(MsgTimeoutOnClose),
}

/// The single entry point's tagged message.
#[derive(Debug)]
pub enum MsgEnvelope {
    Client(ClientMsg),
    Connection(ConnectionMsg),
    Channel(ChannelMsg),
    Packet(PacketMsg),
}

/// What the routed application modules answered while this message
/// was handled: the acknowledgement a receive callback returned
/// synchronously (if any), and the version an open callback approved
/// or rewrote (if any; the message's own version is used otherwise).
#[derive(Debug)]
pub struct ModuleAnswers {
    pub recv_ack: Option<Acknowledgement>,
    pub version: Option<Version>,
}

/// The version a channel-open handler carries into the store: the
/// module's answer where it gave one, else the message's own.
pub open spec fn module_version_of(answers: &ModuleAnswers, msg_version: Seq<char>) -> Seq<char> {
    match answers.version {
        Some(v) => v@,
        None => msg_version,
    }
}

fn pick_module_version<'a>(answers: &'a ModuleAnswers, msg_version: &'a Version) -> (r: &'a Version)
    ensures
        r@ == module_version_of(answers, msg_version@),
{
    match &answers.version {
        Some(v) => v,
        None => msg_version,
    }
}

/// The outcome `validate` reports for an envelope, over the store's
/// mathematical view: exactly the corresponding handler's check.
pub open spec fn validate_outcome(s: StoreV, env: &MsgEnvelope) -> Result<(), ContextError> {
    match env {
        MsgEnvelope::Client(ClientMsg::UpdateClient(m)) => match update_client_check(
            s,
            m.client_id@,
            m.client_message@,
        ) {
            Some(e) => Err(e),
            None => Ok(()),
        },
        MsgEnvelope::Connection(cm) => match cm {
            ConnectionMsg::OpenInit(m) => match conn_open_init_check(s, m) {
                Some(e) => Err(e),
                None => Ok(()),
            },
            ConnectionMsg::OpenTry(m) => match conn_open_try_check(s, m) {
                Some(e) => Err(e),
                None => Ok(()),
            },
            ConnectionMsg::OpenAck(m) => match conn_open_ack_check(s, m) {
                Some(e) => Err(e),
                None => Ok(()),
            },
            ConnectionMsg::OpenConfirm(m) => match conn_open_confirm_check(s, m) {
                Some(e) => Err(e),
                None => Ok(()),
            },
        },
        MsgEnvelope::Channel(chm) => match chm {
            ChannelMsg::OpenInit(m) => match chan_open_init_check(s, m) {
                Some(e) => Err(e),
                None => Ok(()),
            },
            ChannelMsg::OpenTry(m) => match chan_open_try_check(s, m) {
                Some(e) => Err(e),
                None => Ok(()),
            },
            ChannelMsg::OpenAck(m) => match chan_open_ack_check(s, m) {
                Some(e) => Err(e),
                None => Ok(()),
            },
            ChannelMsg::OpenConfirm(m) => match chan_open_confirm_check(s, m) {
                Some(e) => Err(e),
                None => Ok(()),
            },
            ChannelMsg::CloseInit(m) => match chan_close_init_check(s, m) {
                Some(e) => Err(e),
                None => Ok(()),
            },
            ChannelMsg::CloseConfirm(m) => match chan_close_confirm_check(s, m) {
                Some(e) => Err(e),
                None => Ok(()),
            },
        },
        MsgEnvelope::Packet(pm) => match pm {
            PacketMsg::Recv(m) => match recv_packet_check(
                s,
                m.packet@,
                m.proof_commitment_on_a@,
                m.proof_height_on_a,
            ) {
                Ok(_) => Ok(()),
                Err(e) => Err(e),
            },
            PacketMsg::Ack(m) => match acknowledge_packet_check(
                s,
                m.packet@,
                m.acknowledgement@,
                m.proof_acked_on_b@,
                m.proof_height_on_b,
            ) {
                Ok(_) => Ok(()),
                Err(e) => Err(e),
            },
            PacketMsg::Timeout(m) => match timeout_packet_check(
                s,
                m.packet@,
                m.next_seq_recv_on_b,
                m.proof_unreceived_on_b@,
                m.proof_height_on_b,
            ) {
                Ok(_) => Ok(()),
                Err(e) => Err(e),
            },
            PacketMsg::TimeoutOnClose(m) => match timeout_on_close_check(
                s,
                m.packet@,
                m.next_seq_recv_on_b,
                m.proof_unreceived_on_b@,
                m.proof_close_on_b@,
                m.proof_height_on_b,
            ) {
                Ok(_) => Ok(()),
                Err(e) => Err(e),
            },
        },
    }
}

/// The dry-run pass over an envelope: every precondition and every
/// proof verification, and nothing else. It borrows the store
/// immutably, so it cannot have an observable effect: the store
/// before and after the call is the same value, and the outcome is a
/// function of the store's view and the message alone.
pub fn validate(ctx: &MockContext, env: &MsgEnvelope) -> (r: Result<(), ContextError>)
    ensures
        r == validate_outcome(ctx@, env),
{
    match env {
        MsgEnvelope::Client(ClientMsg::UpdateClient(m)) => validate_update_client(ctx, m),
        MsgEnvelope::Connection(cm) => match cm {
            ConnectionMsg::OpenInit(m) => validate_conn_open_init(ctx, m),
            ConnectionMsg::OpenTry(m) => validate_conn_open_try(ctx, m),
            ConnectionMsg::OpenAck(m) => validate_conn_open_ack(ctx, m),
            ConnectionMsg::OpenConfirm(m) => validate_conn_open_confirm(ctx, m),
        },
        MsgEnvelope::Channel(chm) => match chm {
            ChannelMsg::OpenInit(m) => validate_chan_open_init(ctx, m),
            ChannelMsg::OpenTry(m) => validate_chan_open_try(ctx, m),
            ChannelMsg::OpenAck(m) => validate_chan_open_ack(ctx, m),
            ChannelMsg::OpenConfirm(m) => validate_chan_open_confirm(ctx, m),
            ChannelMsg::CloseInit(m) => validate_chan_close_init(ctx, m),
            ChannelMsg::CloseConfirm(m) => validate_chan_close_confirm(ctx, m),
        },
        MsgEnvelope::Packet(pm) => match pm {
            PacketMsg::Recv(m) => validate_recv_packet(ctx, m),
            PacketMsg::Ack(m) => validate_acknowledge_packet(ctx, m),
            PacketMsg::Timeout(m) => validate_timeout_packet(ctx, m),
            PacketMsg::TimeoutOnClose(m) => validate_timeout_on_close_packet(ctx, m),
        },
    }
}

/// What `execute` leaves behind for an envelope that passed its
/// checks and was not an idempotent no-op.
pub open spec fn execute_transition(s: StoreV, env: &MsgEnvelope, answers: &ModuleAnswers) -> StoreV {
    match env {
        MsgEnvelope::Client(ClientMsg::UpdateClient(m)) => update_client_transition(
            s,
            m.client_id@,
            m.client_message@,
        ),
        MsgEnvelope::Connection(cm) => match cm {
            ConnectionMsg::OpenInit(m) => conn_open_init_transition(s, m),
            ConnectionMsg::OpenTry(m) => s,
            ConnectionMsg::OpenAck(m) => conn_open_ack_transition(s, m),
            ConnectionMsg::OpenConfirm(m) => conn_open_confirm_transition(s, m),
        },
        MsgEnvelope::Channel(chm) => match chm {
            ChannelMsg::OpenInit(m) => chan_open_init_transition(
                s,
                m,
                module_version_of(answers, m.version_proposal@),
            ),
            ChannelMsg::OpenTry(m) => chan_open_try_transition(
                s,
                m,
                module_version_of(answers, m.version_supported_on_a@),
            ),
            ChannelMsg::OpenAck(m) => chan_open_ack_transition(s, m),
            ChannelMsg::OpenConfirm(m) => chan_open_confirm_transition(s, m),
            ChannelMsg::CloseInit(m) => chan_close_init_transition(s, m),
            ChannelMsg::CloseConfirm(m) => chan_close_confirm_transition(s, m),
        },
        MsgEnvelope::Packet(pm) => match pm {
            PacketMsg::Recv(m) => recv_packet_transition(
                s,
                m.packet@,
                match answers.recv_ack {
                    Some(a) => Some(a@),
                    None => None,
                },
            ),
            PacketMsg::Ack(m) => acknowledge_packet_transition(s, m.packet@),
            PacketMsg::Timeout(m) => timeout_packet_transition(s, m.packet@),
            PacketMsg::TimeoutOnClose(m) => timeout_packet_transition(s, m.packet@),
        },
    }
}

/// Whether `execute` on this envelope is the idempotent no-op
/// success: a repeated unordered receive, or an acknowledgement or
/// timeout whose commitment is already gone.
pub open spec fn execute_is_noop(s: StoreV, env: &MsgEnvelope) -> bool {
    match env {
        MsgEnvelope::Packet(PacketMsg::Recv(m)) => recv_packet_check(
            s,
            m.packet@,
            m.proof_commitment_on_a@,
            m.proof_height_on_a,
        ) == Ok::<bool, ContextError>(false),
        MsgEnvelope::Packet(PacketMsg::Ack(m)) => acknowledge_packet_check(
            s,
            m.packet@,
            m.acknowledgement@,
            m.proof_acked_on_b@,
            m.proof_height_on_b,
        ) == Ok::<bool, ContextError>(false),
        MsgEnvelope::Packet(PacketMsg::Timeout(m)) => timeout_packet_check(
            s,
            m.packet@,
            m.next_seq_recv_on_b,
            m.proof_unreceived_on_b@,
            m.proof_height_on_b,
        ) == Ok::<bool, ContextError>(false),
        MsgEnvelope::Packet(PacketMsg::TimeoutOnClose(m)) => timeout_on_close_check(
            s,
            m.packet@,
            m.next_seq_recv_on_b,
            m.proof_unreceived_on_b@,
            m.proof_close_on_b@,
            m.proof_height_on_b,
        ) == Ok::<bool, ContextError>(false),
        _ => false,
    }
}

/// The writing pass over an envelope: validates again and then
/// mutates and emits events. On any error, and on the idempotent
/// no-op cases, the store is untouched.
pub fn execute(ctx: &mut MockContext, env: &MsgEnvelope, answers: &ModuleAnswers) -> (r: Result<
    (),
    ContextError,
>)
    ensures
        match validate_outcome(old(ctx)@, env) {
            Err(e) => r == Err::<(), ContextError>(e) && final(ctx)@ == old(ctx)@,
            Ok(_) => {
                if execute_is_noop(old(ctx)@, env) {
                    r is Ok && final(ctx)@ == old(ctx)@
                } else {
                    match env {
                        MsgEnvelope::Connection(ConnectionMsg::OpenTry(m)) => r is Ok && exists|
                            picked: Seq<char>,
                        |
                            negotiated_version(seq!["1"@], versions_view(m.versions_on_a@), picked)
                                && final(ctx)@ == crate::conn_handlers::conn_open_try_transition(
                                old(ctx)@,
                                m,
                                picked,
                            ),
                        MsgEnvelope::Packet(PacketMsg::Recv(_)) => {
                            if answers.recv_ack is Some && answers.recv_ack->0@.len() == 0 {
                                r == Err::<(), ContextError>(
                                    ContextError::Packet(PacketError::InvalidAcknowledgement),
                                ) && final(ctx)@ == old(ctx)@
                            } else {
                                r is Ok && final(ctx)@ == execute_transition(
                                    old(ctx)@,
                                    env,
                                    answers,
                                )
                            }
                        },
                        _ => r is Ok && final(ctx)@ == execute_transition(old(ctx)@, env, answers),
                    }
                }
            },
        },
{
    match env {
        MsgEnvelope::Client(ClientMsg::UpdateClient(m)) => execute_update_client(ctx, m),
        MsgEnvelope::Connection(cm) => match cm {
            ConnectionMsg::OpenInit(m) => conn_open_init(ctx, m),
            ConnectionMsg::OpenTry(m) => conn_open_try(ctx, m),
            ConnectionMsg::OpenAck(m) => conn_open_ack(ctx, m),
            ConnectionMsg::OpenConfirm(m) => conn_open_confirm(ctx, m),
        },
        MsgEnvelope::Channel(chm) => match chm {
            ChannelMsg::OpenInit(m) => chan_open_init(
                ctx,
                m,
                pick_module_version(answers, &m.version_proposal),
            ),
            ChannelMsg::OpenTry(m) => chan_open_try(
                ctx,
                m,
                pick_module_version(answers, &m.version_supported_on_a),
            ),
            ChannelMsg::OpenAck(m) => chan_open_ack(ctx, m),
            ChannelMsg::OpenConfirm(m) => chan_open_confirm(ctx, m),
            ChannelMsg::CloseInit(m) => chan_close_init(ctx, m),
            ChannelMsg::CloseConfirm(m) => chan_close_confirm(ctx, m),
        },
        MsgEnvelope::Packet(pm) => match pm {
            PacketMsg::Recv(m) => execute_recv_packet(
                ctx,
                m,
                match &answers.recv_ack {
                    Some(a) => Some(a),
                    None => None,
                },
            ),
            PacketMsg::Ack(m) => execute_acknowledge_packet(ctx, m),
            PacketMsg::Timeout(m) => execute_timeout_packet(ctx, m),
            PacketMsg::TimeoutOnClose(m) => execute_timeout_on_close_packet(ctx, m),
        },
    }
}

/// The single inbound entry point: a two-pass run, the pure gate and
/// then the writing pass inside the same transaction.
pub fn dispatch(ctx: &mut MockContext, env: &MsgEnvelope, answers: &ModuleAnswers) -> (r: Result<
    (),
    ContextError,
>)
    ensures
        match validate_outcome(old(ctx)@, env) {
            Err(e) => r == Err::<(), ContextError>(e) && final(ctx)@ == old(ctx)@,
            Ok(_) => {
                if execute_is_noop(old(ctx)@, env) {
                    r is Ok && final(ctx)@ == old(ctx)@
                } else {
                    match env {
                        MsgEnvelope::Connection(ConnectionMsg::OpenTry(m)) => r is Ok && exists|
                            picked: Seq<char>,
                        |
                            negotiated_version(seq!["1"@], versions_view(m.versions_on_a@), picked)
                                && final(ctx)@ == crate::conn_handlers::conn_open_try_transition(
                                old(ctx)@,
                                m,
                                picked,
                            ),
                        MsgEnvelope::Packet(PacketMsg::Recv(_)) => {
                            if answers.recv_ack is Some && answers.recv_ack->0@.len() == 0 {
                                r == Err::<(), ContextError>(
                                    ContextError::Packet(PacketError::InvalidAcknowledgement),
                                ) && final(ctx)@ == old(ctx)@
                            } else {
                                r is Ok && final(ctx)@ == execute_transition(
                                    old(ctx)@,
                                    env,
                                    answers,
                                )
                            }
                        },
                        _ => r is Ok && final(ctx)@ == execute_transition(old(ctx)@, env, answers),
                    }
                }
            },
        },
{
    match validate(ctx, env) {
        Ok(_) => {},
        Err(e) => {
            return Err(e);
        },
    }
    execute(ctx, env, answers)
}

} // verus!
