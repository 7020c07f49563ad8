use vstd::prelude::*;

use crate::error::ChannelError;
use crate::identifier::{ChannelId, ConnectionId, PortId};
use crate::kv::StoreKey;
use crate::version::Version;

verus! {

/// The handshake state of a channel end; `Closed` is terminal but
/// still queryable.
#[derive(Clone, Copy, Debug, PartialEq, Eq, Structural)]
pub enum ChannelState {
    Uninitialized,
    Init,
    TryOpen,
    Open,
    Closed,
}

/// Whether a channel enforces strict sequence order on receive.
#[derive(Clone, Copy, Debug, PartialEq, Eq, Structural)]
pub enum Order {
    Unordered,
    Ordered,
}

/// The other end of a channel, as this side records it.
#[derive(Debug)]
pub struct ChannelCounterparty {
    pub port_id: PortId,
    pub channel_id: Option<ChannelId>,
}

impl ChannelCounterparty {
    pub fn new(port_id: PortId, channel_id: Option<ChannelId>) -> (r: ChannelCounterparty)
        ensures
            r.port_id@ == port_id@,
            r.channel_id is Some <==> channel_id is Some,
            channel_id is Some ==> r.channel_id->0@ == channel_id->0@,
    {
        ChannelCounterparty { port_id, channel_id }
    }
}

/// The mathematical model of a channel end.
#[verifier::ext_equal]
pub struct ChannelEndV {
    pub state: ChannelState,
    pub ordering: Order,
    pub remote_port: Seq<char>,
    pub remote_channel: Option<Seq<char>>,
    pub connection_hops: Seq<Seq<char>>,
    pub version: Seq<char>,
}

/// One end of a channel: its handshake state, ordering discipline,
/// counterparty, underlying connections, and application version.
#[derive(Debug)]
pub struct ChannelEnd {
    pub state: ChannelState,
    pub ordering: Order,
    pub remote: ChannelCounterparty,
    pub connection_hops: Vec<ConnectionId>,
    pub version: Version,
}

impl View for ChannelEnd {
    type V = ChannelEndV;

    open spec fn view(&self) -> ChannelEndV {
        ChannelEndV {
            state: self.state,
            ordering: self.ordering,
            remote_port: self.remote.port_id@,
            remote_channel: match self.remote.channel_id {
                Some(c) => Some(c@),
                None => None,
            },
            connection_hops: self.connection_hops@.map_values(|c: ConnectionId| c@),
            version: self.version@,
        }
    }
}

impl ChannelEnd {
    /// Builds a channel end; only single-hop channels are supported,
    /// and a different hop count is rejected explicitly.
    pub fn new(
        state: ChannelState,
        ordering: Order,
        remote: ChannelCounterparty,
        connection_hops: Vec<ConnectionId>,
        version: Version,
    ) -> (r: Result<ChannelEnd, ChannelError>)
        ensures
            match r {
                Ok(c) => {
                    &&& connection_hops@.len() == 1
                    &&& c@.state == state
                    &&& c@.ordering == ordering
                    &&& c@.remote_port == remote.port_id@
                    &&& (c@.remote_channel is Some <==> remote.channel_id is Some)
                    &&& (remote.channel_id is Some ==> c@.remote_channel->0
                        == remote.channel_id->0@)
                    &&& c@.connection_hops.len() == 1
                    &&& c@.connection_hops[0] == connection_hops@[0]@
                    &&& c@.version == version@
                },
                Err(e) => connection_hops@.len() != 1 && e == ChannelError::UnsupportedMultiHop,
            },
    {
        if connection_hops.len() != 1 {
            Err(ChannelError::UnsupportedMultiHop)
        } else {
            let c = ChannelEnd { state, ordering, remote, connection_hops, version };
            proof {
                assert(c@.connection_hops[0] == c.connection_hops@[0]@);
            }
            Ok(c)
        }
    }

    pub fn is_open(&self) -> (r: bool)
        ensures
            r == (self@.state == ChannelState::Open),
    {
        self.state == ChannelState::Open
    }

    pub fn is_closed(&self) -> (r: bool)
        ensures
            r == (self@.state == ChannelState::Closed),
    {
        self.state == ChannelState::Closed
    }

    pub fn is_ordered(&self) -> (r: bool)
        ensures
            r == (self@.ordering == Order::Ordered),
    {
        self.ordering == Order::Ordered
    }

    /// Whether a packet's source matches this end's counterparty.
    pub open spec fn counterparty_matches_spec(&self, port: Seq<char>, chan: Seq<char>) -> bool {
        self@.remote_port == port && self@.remote_channel == Some(chan)
    }

    pub fn counterparty_matches(&self, port: &PortId, chan: &ChannelId) -> (r: bool)
        ensures
            r == self.counterparty_matches_spec(port@, chan@),
    {
        let port_ok = self.remote.port_id.key_eq(port);
        let chan_ok = match &self.remote.channel_id {
            Some(c) => c.key_eq(chan),
            None => false,
        };
        port_ok && chan_ok
    }
}

impl Clone for ChannelEnd {
    fn clone(&self) -> (r: Self)
        ensures
            r@ == self@,
    {
        let mut hops: Vec<ConnectionId> = Vec::new();
        let n = self.connection_hops.len();
        let mut i: usize = 0;
        while i < n
            invariant
                n == self.connection_hops@.len(),
                i <= n,
                hops@.len() == i,
                forall|j: int| 0 <= j < i ==> hops@[j]@ == self.connection_hops@[j]@,
            decreases n - i,
        {
            hops.push(self.connection_hops[i].clone());
            i = i + 1;
        }
        let r = ChannelEnd {
            state: self.state,
            ordering: self.ordering,
            remote: ChannelCounterparty {
                port_id: self.remote.port_id.clone(),
                channel_id: match &self.remote.channel_id {
                    Some(c) => Some(c.clone()),
                    None => None,
                },
            },
            connection_hops: hops,
            version: self.version.clone(),
        };
        proof {
            assert(r@.connection_hops =~= self@.connection_hops);
            assert(r@ =~= self@);
        }
        r
    }
}

} // verus!
