use vstd::prelude::*;

use crate::identifier::{ClientId, ConnectionId};
use crate::version::{versions_view, Version};

verus! {

/// The handshake state of a connection end; it only moves forward.
#[derive(Clone, Copy, Debug, PartialEq, Eq, Structural)]
pub enum ConnectionState {
    Uninitialized,
    Init,
    TryOpen,
    Open,
}

/// The other end of a connection, as this side records it.
#[derive(Debug)]
pub struct ConnectionCounterparty {
    pub client_id: ClientId,
    pub connection_id: Option<ConnectionId>,
    pub prefix: Vec<u8>,
}

/// The mathematical model of a connection end.
#[verifier::ext_equal]
pub struct ConnectionEndV {
    pub state: ConnectionState,
    pub client_id: Seq<char>,
    pub remote_client_id: Seq<char>,
    pub remote_connection_id: Option<Seq<char>>,
    pub remote_prefix: Seq<u8>,
    pub versions: Seq<Seq<char>>,
    pub delay_period_nanos: u64,
}

/// One end of a connection: handshake state, owning client, the
/// counterparty, candidate versions, and the relaying delay.
#[derive(Debug)]
pub struct ConnectionEnd {
    pub state: ConnectionState,
    pub client_id: ClientId,
    pub counterparty: ConnectionCounterparty,
    pub versions: Vec<Version>,
    pub delay_period_nanos: u64,
}

impl View for ConnectionEnd {
    type V = ConnectionEndV;

    open spec fn view(&self) -> ConnectionEndV {
        ConnectionEndV {
            state: self.state,
            client_id: self.client_id@,
            remote_client_id: self.counterparty.client_id@,
            remote_connection_id: match self.counterparty.connection_id {
                Some(c) => Some(c@),
                None => None,
            },
            remote_prefix: self.counterparty.prefix@,
            versions: versions_view(self.versions@),
            delay_period_nanos: self.delay_period_nanos,
        }
    }
}

impl ConnectionEnd {
    pub fn new(
        state: ConnectionState,
        client_id: ClientId,
        counterparty: ConnectionCounterparty,
        versions: Vec<Version>,
        delay_period_nanos: u64,
    ) -> (r: ConnectionEnd)
        ensures
            r@.state == state,
            r@.client_id == client_id@,
            r@.remote_client_id == counterparty.client_id@,
            (r@.remote_connection_id is Some <==> counterparty.connection_id is Some),
            (counterparty.connection_id is Some ==> r@.remote_connection_id->0
                == counterparty.connection_id->0@),
            r@.remote_prefix == counterparty.prefix@,
            r@.versions == versions_view(versions@),
            r@.delay_period_nanos == delay_period_nanos,
    {
        ConnectionEnd { state, client_id, counterparty, versions, delay_period_nanos }
    }

    pub fn is_open(&self) -> (r: bool)
        ensures
            r == (self@.state == ConnectionState::Open),
    {
        self.state == ConnectionState::Open
    }
}

} // verus!
