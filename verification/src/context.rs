use vstd::prelude::*;

use crate::channel::{ChannelEnd, ChannelEndV};
use crate::client::{AnyClientState, AnyConsensusState, ConsensusState, ConsensusStateV};
use crate::connection::{ConnectionEnd, ConnectionEndV};
use crate::error::{ClientError, ConnectionError, ContextError};
use crate::events::IbcEvent;
use crate::host::{Height, Timestamp};
use crate::identifier::{ChannelId, ClientId, ConnectionId, PortId};
use crate::kv::{KvTable, StoreKey};
use crate::msgs::{mock_client_state_of, ProtoAny};
use crate::path::ClientConsensusStatePath;

verus! {

/// Keys a client's update metadata by client and height.
#[derive(Debug)]
pub struct ClientHeightKey {
    pub client_id: ClientId,
    pub height: Height,
}

impl View for ClientHeightKey {
    type V = (Seq<char>, Height);

    open spec fn view(&self) -> (Seq<char>, Height) {
        (self.client_id@, self.height)
    }
}

impl StoreKey for ClientHeightKey {
    fn key_eq(&self, other: &Self) -> (r: bool)
        ensures
            r == (self@ == other@),
    {
        self.client_id.key_eq(&other.client_id) && self.height.key_eq(&other.height)
    }
}

/// Keys a channel end by its port and channel.
#[derive(Debug)]
pub struct PortChanKey {
    pub port_id: PortId,
    pub channel_id: ChannelId,
}

impl View for PortChanKey {
    type V = (Seq<char>, Seq<char>);

    open spec fn view(&self) -> (Seq<char>, Seq<char>) {
        (self.port_id@, self.channel_id@)
    }
}

impl StoreKey for PortChanKey {
    fn key_eq(&self, other: &Self) -> (r: bool)
        ensures
            r == (self@ == other@),
    {
        self.port_id.key_eq(&other.port_id) && self.channel_id.key_eq(&other.channel_id)
    }
}

/// Keys a commitment, receipt or acknowledgement by port, channel and
/// sequence.
#[derive(Debug)]
pub struct PortChanSeqKey {
    pub port_id: PortId,
    pub channel_id: ChannelId,
    pub sequence: u64,
}

impl View for PortChanSeqKey {
    type V = (Seq<char>, Seq<char>, u64);

    open spec fn view(&self) -> (Seq<char>, Seq<char>, u64) {
        (self.port_id@, self.channel_id@, self.sequence)
    }
}

impl StoreKey for PortChanSeqKey {
    fn key_eq(&self, other: &Self) -> (r: bool)
        ensures
            r == (self@ == other@),
    {
        self.port_id.key_eq(&other.port_id) && self.channel_id.key_eq(&other.channel_id)
            && self.sequence == other.sequence
    }
}

/// `h` is the smallest stored height strictly greater than `height`.
pub open spec fn next_height_after(
    m: Map<Height, ConsensusStateV>,
    height: Height,
    h: Height,
) -> bool {
    &&& m.contains_key(h)
    &&& height.lt_spec(h)
    &&& forall|h2: Height| #[trigger] m.contains_key(h2) && height.lt_spec(h2) ==> h.le_spec(h2)
}

/// No stored height lies strictly above `height`.
pub open spec fn no_height_after(m: Map<Height, ConsensusStateV>, height: Height) -> bool {
    forall|h: Height| #[trigger] m.contains_key(h) ==> !height.lt_spec(h)
}

/// `h` is the largest stored height strictly smaller than `height`.
pub open spec fn prev_height_before(
    m: Map<Height, ConsensusStateV>,
    height: Height,
    h: Height,
) -> bool {
    &&& m.contains_key(h)
    &&& h.lt_spec(height)
    &&& forall|h2: Height| #[trigger] m.contains_key(h2) && h2.lt_spec(height) ==> h2.le_spec(h)
}

/// No stored height lies strictly below `height`.
pub open spec fn no_height_before(m: Map<Height, ConsensusStateV>, height: Height) -> bool {
    forall|h: Height| #[trigger] m.contains_key(h) ==> !h.lt_spec(height)
}

/// What this chain answers when a counterparty's view of this
/// chain's client is validated: the view must decode as a mock
/// client, be unfrozen, sit in this chain's revision, and not be
/// ahead of this chain's height.
pub open spec fn self_client_check(s: StoreV, a: crate::msgs::ProtoAnyV) -> Option<ContextError> {
    match mock_client_state_of(a) {
        None => Some(
            ContextError::Connection(
                ConnectionError::InvalidClientState {
                    reason: crate::error::SelfClientRejection::NotAMockClient,
                },
            ),
        ),
        Some(cs) => if cs.frozen {
            Some(ContextError::Client(ClientError::ClientFrozen))
        } else if cs.latest_height.revision_number != s.host_height.revision_number {
            Some(
                ContextError::Connection(
                    ConnectionError::InvalidClientState {
                        reason: crate::error::SelfClientRejection::RevisionMismatch,
                    },
                ),
            )
        } else if s.host_height.lt_spec(cs.latest_height) {
            Some(
                ContextError::Connection(
                    ConnectionError::InvalidClientState {
                        reason: crate::error::SelfClientRejection::HeightAheadOfChain,
                    },
                ),
            )
        } else {
            None
        },
    }
}

/// The mathematical model of one client's record.
#[verifier::ext_equal]
pub struct MockClientRecordV {
    pub client_state: Option<AnyClientState>,
    pub consensus_states: Map<Height, ConsensusStateV>,
}

/// An IBC client record as the host store keeps it: the client state,
/// and the consensus states installed so far, by height.
#[derive(Debug)]
pub struct MockClientRecord {
    pub client_state: Option<AnyClientState>,
    pub consensus_states: KvTable<Height, AnyConsensusState>,
}

impl View for MockClientRecord {
    type V = MockClientRecordV;

    open spec fn view(&self) -> MockClientRecordV {
        MockClientRecordV {
            client_state: self.client_state,
            consensus_states: self.consensus_states@,
        }
    }
}

/// The mathematical model of the whole host store.
#[verifier::ext_equal]
pub struct StoreV {
    pub host_height: Height,
    pub host_timestamp: Timestamp,
    pub clients: Map<Seq<char>, MockClientRecordV>,
    pub processed_times: Map<(Seq<char>, Height), Timestamp>,
    pub processed_heights: Map<(Seq<char>, Height), Height>,
    pub connections: Map<Seq<char>, ConnectionEndV>,
    pub channels: Map<(Seq<char>, Seq<char>), ChannelEndV>,
    pub next_seq_send: Map<(Seq<char>, Seq<char>), u64>,
    pub next_seq_recv: Map<(Seq<char>, Seq<char>), u64>,
    pub next_seq_ack: Map<(Seq<char>, Seq<char>), u64>,
    pub commitments: Map<(Seq<char>, Seq<char>, u64), Seq<u8>>,
    pub receipts: Map<(Seq<char>, Seq<char>, u64), u8>,
    pub acks: Map<(Seq<char>, Seq<char>, u64), Seq<u8>>,
    pub host_consensus_states: Map<Height, ConsensusStateV>,
    pub connection_counter: u64,
    pub channel_counter: u64,
    pub events: Seq<IbcEvent>,
}

/// The host store a handler works against: every persisted entity of
/// the engine, the host clock, and the events of the current
/// transaction.
#[derive(Debug)]
pub struct MockContext {
    host_height: Height,
    host_timestamp: Timestamp,
    clients: KvTable<ClientId, MockClientRecord>,
    processed_times: KvTable<ClientHeightKey, Timestamp>,
    processed_heights: KvTable<ClientHeightKey, Height>,
    connections: KvTable<ConnectionId, ConnectionEnd>,
    channels: KvTable<PortChanKey, ChannelEnd>,
    next_seq_send: KvTable<PortChanKey, u64>,
    next_seq_recv: KvTable<PortChanKey, u64>,
    next_seq_ack: KvTable<PortChanKey, u64>,
    commitments: KvTable<PortChanSeqKey, Vec<u8>>,
    receipts: KvTable<PortChanSeqKey, u8>,
    acks: KvTable<PortChanSeqKey, Vec<u8>>,
    host_consensus_states: KvTable<Height, ConsensusState>,
    connection_counter: u64,
    channel_counter: u64,
    events: Vec<IbcEvent>,
}

impl View for MockContext {
    type V = StoreV;

    closed spec fn view(&self) -> StoreV {
        StoreV {
            host_height: self.host_height,
            host_timestamp: self.host_timestamp,
            clients: self.clients@,
            processed_times: self.processed_times@,
            processed_heights: self.processed_heights@,
            connections: self.connections@,
            channels: self.channels@,
            next_seq_send: self.next_seq_send@,
            next_seq_recv: self.next_seq_recv@,
            next_seq_ack: self.next_seq_ack@,
            commitments: self.commitments@,
            receipts: self.receipts@,
            acks: self.acks@,
            host_consensus_states: self.host_consensus_states@,
            connection_counter: self.connection_counter,
            channel_counter: self.channel_counter,
            events: self.events@,
        }
    }
}

impl MockContext {
    /// An empty store under the given host clock.
    pub fn new(host_height: Height, host_timestamp: Timestamp) -> (r: MockContext)
        ensures
            r@.host_height == host_height,
            r@.host_timestamp == host_timestamp,
            r@.clients == Map::<Seq<char>, MockClientRecordV>::empty(),
            r@.processed_times == Map::<(Seq<char>, Height), Timestamp>::empty(),
            r@.processed_heights == Map::<(Seq<char>, Height), Height>::empty(),
            r@.connections == Map::<Seq<char>, ConnectionEndV>::empty(),
            r@.channels == Map::<(Seq<char>, Seq<char>), ChannelEndV>::empty(),
            r@.next_seq_send == Map::<(Seq<char>, Seq<char>), u64>::empty(),
            r@.next_seq_recv == Map::<(Seq<char>, Seq<char>), u64>::empty(),
            r@.next_seq_ack == Map::<(Seq<char>, Seq<char>), u64>::empty(),
            r@.commitments == Map::<(Seq<char>, Seq<char>, u64), Seq<u8>>::empty(),
            r@.receipts == Map::<(Seq<char>, Seq<char>, u64), u8>::empty(),
            r@.acks == Map::<(Seq<char>, Seq<char>, u64), Seq<u8>>::empty(),
            r@.host_consensus_states == Map::<Height, ConsensusStateV>::empty(),
            r@.connection_counter == 0,
            r@.channel_counter == 0,
            r@.events == Seq::<IbcEvent>::empty(),
    {
        MockContext {
            host_height,
            host_timestamp,
            clients: KvTable::new(),
            processed_times: KvTable::new(),
            processed_heights: KvTable::new(),
            connections: KvTable::new(),
            channels: KvTable::new(),
            next_seq_send: KvTable::new(),
            next_seq_recv: KvTable::new(),
            next_seq_ack: KvTable::new(),
            commitments: KvTable::new(),
            receipts: KvTable::new(),
            acks: KvTable::new(),
            host_consensus_states: KvTable::new(),
            connection_counter: 0,
            channel_counter: 0,
            events: Vec::new(),
        }
    }

    /// How many connection ends this chain has created.
    pub fn connection_counter(&self) -> (r: u64)
        ensures
            r == self@.connection_counter,
    {
        self.connection_counter
    }

    /// How many channel ends this chain has created.
    pub fn channel_counter(&self) -> (r: u64)
        ensures
            r == self@.channel_counter,
    {
        self.channel_counter
    }

    pub(crate) fn increment_connection_counter(&mut self)
        requires
            old(self)@.connection_counter < u64::MAX,
        ensures
            final(self)@ == (StoreV {
                connection_counter: (old(self)@.connection_counter + 1) as u64,
                ..old(self)@
            }),
    {
        self.connection_counter = self.connection_counter + 1;
        proof {
            assert(self@ =~= (StoreV {
                connection_counter: self.connection_counter,
                ..old(self)@
            }));
        }
    }

    pub(crate) fn increment_channel_counter(&mut self)
        requires
            old(self)@.channel_counter < u64::MAX,
        ensures
            final(self)@ == (StoreV {
                channel_counter: (old(self)@.channel_counter + 1) as u64,
                ..old(self)@
            }),
    {
        self.channel_counter = self.channel_counter + 1;
        proof {
            assert(self@ =~= (StoreV {
                channel_counter: self.channel_counter,
                ..old(self)@
            }));
        }
    }

    /// The host chain's current height.
    pub fn host_height(&self) -> (r: Result<Height, ContextError>)
        ensures
            r == Ok::<Height, ContextError>(self@.host_height),
    {
        Ok(self.host_height)
    }

    /// The host chain's current timestamp.
    pub fn host_timestamp(&self) -> (r: Result<Timestamp, ContextError>)
        ensures
            r == Ok::<Timestamp, ContextError>(self@.host_timestamp),
    {
        Ok(self.host_timestamp)
    }

    /// Moves the host clock; everything stored stays as it is.
    pub fn set_host_clock(&mut self, host_height: Height, host_timestamp: Timestamp)
        ensures
            final(self)@ == (StoreV { host_height, host_timestamp, ..old(self)@ }),
    {
        self.host_height = host_height;
        self.host_timestamp = host_timestamp;
        proof {
            assert(self@ =~= (StoreV { host_height, host_timestamp, ..old(self)@ }));
        }
    }

    /// The events emitted so far in this transaction.
    pub fn events(&self) -> (r: &Vec<IbcEvent>)
        ensures
            r@ == self@.events,
    {
        &self.events
    }

    pub(crate) fn emit_event(&mut self, e: IbcEvent)
        ensures
            final(self)@ == (StoreV { events: old(self)@.events.push(e), ..old(self)@ }),
    {
        self.events.push(e);
        proof {
            assert(self@ =~= (StoreV { events: old(self)@.events.push(e), ..old(self)@ }));
        }
    }

    /// The stored client state of a client, if the client exists and
    /// one was installed.
    pub fn client_state(&self, client_id: &ClientId) -> (r: Result<AnyClientState, ContextError>)
        ensures
            match r {
                Ok(cs) => self@.clients.contains_key(client_id@) && self@.clients[client_id@].client_state
                    == Some(cs),
                Err(e) => {
                    &&& e == ContextError::Client(ClientError::ClientStateNotFound)
                    &&& (self@.clients.contains_key(client_id@)
                        ==> self@.clients[client_id@].client_state is None)
                },
            },
    {
        match self.clients.get(client_id) {
            Some(record) => match record.client_state {
                Some(cs) => Ok(cs),
                None => Err(ContextError::Client(ClientError::ClientStateNotFound)),
            },
            None => Err(ContextError::Client(ClientError::ClientStateNotFound)),
        }
    }

    /// The consensus state stored for a client at exactly the
    /// addressed height.
    pub fn consensus_state(&self, path: &ClientConsensusStatePath) -> (r: Result<
        AnyConsensusState,
        ContextError,
    >)
        ensures
            ({
                let key = Height {
                    revision_number: path.revision_number,
                    revision_height: path.revision_height,
                };
                match r {
                    Ok(cs) => self@.clients.contains_key(path.client_id@)
                        && self@.clients[path.client_id@].consensus_states.contains_key(key)
                        && cs@ == self@.clients[path.client_id@].consensus_states[key],
                    Err(e) => {
                        &&& e == ContextError::Client(
                            ClientError::ConsensusStateNotFound { height: key },
                        )
                        &&& (self@.clients.contains_key(path.client_id@)
                            ==> !self@.clients[path.client_id@].consensus_states.contains_key(key))
                    },
                }
            }),
    {
        let key = Height {
            revision_number: path.revision_number,
            revision_height: path.revision_height,
        };
        match self.clients.get(&path.client_id) {
            Some(record) => match record.consensus_states.get(&key) {
                Some(cs) => Ok(cs.clone()),
                None => Err(
                    ContextError::Client(ClientError::ConsensusStateNotFound { height: key }),
                ),
            },
            None => Err(ContextError::Client(ClientError::ConsensusStateNotFound { height: key })),
        }
    }

    /// Every height at which the client has a consensus state, each
    /// exactly once.
    pub fn consensus_state_heights(&self, client_id: &ClientId) -> (r: Result<
        Vec<Height>,
        ContextError,
    >)
        ensures
            match r {
                Ok(heights) => {
                    &&& self@.clients.contains_key(client_id@)
                    &&& (forall|h: Height|
                        self@.clients[client_id@].consensus_states.contains_key(h) <==> heights@.contains(
                            h,
                        ))
                    &&& (forall|i: int, j: int|
                        0 <= i < j < heights@.len() ==> heights@[i] != heights@[j])
                },
                Err(e) => {
                    &&& e == ContextError::Client(ClientError::ClientStateNotFound)
                    &&& !self@.clients.contains_key(client_id@)
                },
            },
    {
        let record = match self.clients.get(client_id) {
            Some(record) => record,
            None => {
                return Err(ContextError::Client(ClientError::ClientStateNotFound));
            },
        };
        let tbl = &record.consensus_states;
        proof {
            use_type_invariant(tbl);
        }
        let n = tbl.num_entries();
        let mut heights: Vec<Height> = Vec::new();
        let mut i: usize = 0;
        while i < n
            invariant
                tbl.inv(),
                n == tbl.entries_seq().len(),
                i <= n,
                heights@.len() == i,
                forall|j: int| 0 <= j < i ==> heights@[j] == tbl.entries_seq()[j].0,
            decreases n - i,
        {
            let e = tbl.entry(i);
            heights.push(e.0);
            i = i + 1;
        }
        proof {
            assert forall|h: Height| tbl@.contains_key(h) implies heights@.contains(h) by {
                tbl.lemma_view_has_entry(h);
                let j = choose|j: int|
                    0 <= j < tbl.entries_seq().len() && tbl.entries_seq()[j].0@ == h;
                assert(heights@[j] == h);
            }
            assert forall|h: Height| heights@.contains(h) implies tbl@.contains_key(h) by {
                let j = choose|j: int| 0 <= j < heights@.len() && heights@[j] == h;
                tbl.lemma_entry_in_view(j);
            }
            assert forall|i0: int, j0: int|
                0 <= i0 < j0 < heights@.len() implies heights@[i0] != heights@[j0] by {
                tbl.lemma_entries_distinct(i0, j0);
            }
        }
        Ok(heights)
    }

    /// The stored consensus state with the smallest height strictly
    /// greater than `height`, or none.
    pub fn next_consensus_state(&self, client_id: &ClientId, height: Height) -> (r: Result<
        Option<AnyConsensusState>,
        ContextError,
    >)
        ensures
            match r {
                Ok(opt) => self@.clients.contains_key(client_id@) && {
                    let m = self@.clients[client_id@].consensus_states;
                    match opt {
                        Some(cs) => exists|h: Height|
                            #[trigger] next_height_after(m, height, h) && cs@ == m[h],
                        None => no_height_after(m, height),
                    }
                },
                Err(e) => {
                    &&& e == ContextError::Client(ClientError::ClientStateNotFound)
                    &&& !self@.clients.contains_key(client_id@)
                },
            },
    {
        let record = match self.clients.get(client_id) {
            Some(record) => record,
            None => {
                return Err(ContextError::Client(ClientError::ClientStateNotFound));
            },
        };
        let tbl = &record.consensus_states;
        proof {
            use_type_invariant(tbl);
        }
        let n = tbl.num_entries();
        let mut best: Option<usize> = None;
        let mut i: usize = 0;
        while i < n
            invariant
                tbl.inv(),
                n == tbl.entries_seq().len(),
                i <= n,
                match best {
                    None => forall|j: int|
                        0 <= j < i ==> !height.lt_spec(tbl.entries_seq()[j].0),
                    Some(b) => {
                        &&& b < n
                        &&& height.lt_spec(tbl.entries_seq()[b as int].0)
                        &&& forall|j: int|
                            0 <= j < i && height.lt_spec(tbl.entries_seq()[j].0)
                                ==> tbl.entries_seq()[b as int].0.le_spec(tbl.entries_seq()[j].0)
                    },
                },
            decreases n - i,
        {
            let k = tbl.entry(i).0;
            if height.lt(k) {
                best = match best {
                    None => Some(i),
                    Some(b) => {
                        if k.lt(tbl.entry(b).0) {
                            Some(i)
                        } else {
                            Some(b)
                        }
                    },
                };
            }
            i = i + 1;
        }
        match best {
            None => {
                proof {
                    assert forall|h: Height| tbl@.contains_key(h) implies !height.lt_spec(h) by {
                        tbl.lemma_view_has_entry(h);
                    }
                    assert(self@.clients[client_id@].consensus_states == tbl@);
                    assert(no_height_after(self@.clients[client_id@].consensus_states, height));
                }
                Ok(None)
            },
            Some(b) => {
                let cs = tbl.entry(b).1.clone();
                proof {
                    tbl.lemma_entry_in_view(b as int);
                    let hb = tbl.entries_seq()[b as int].0;
                    assert forall|h2: Height|
                        #[trigger] tbl@.contains_key(h2) && height.lt_spec(h2) implies hb.le_spec(
                        h2,
                    ) by {
                        tbl.lemma_view_has_entry(h2);
                    }
                    assert(self@.clients[client_id@].consensus_states == tbl@);
                    assert(next_height_after(self@.clients[client_id@].consensus_states, height, hb)
                        && cs@ == self@.clients[client_id@].consensus_states[hb]);
                }
                Ok(Some(cs))
            },
        }
    }

    /// The stored consensus state with the largest height strictly
    /// smaller than `height`, or none.
    pub fn prev_consensus_state(&self, client_id: &ClientId, height: Height) -> (r: Result<
        Option<AnyConsensusState>,
        ContextError,
    >)
        ensures
            match r {
                Ok(opt) => self@.clients.contains_key(client_id@) && {
                    let m = self@.clients[client_id@].consensus_states;
                    match opt {
                        Some(cs) => exists|h: Height|
                            #[trigger] prev_height_before(m, height, h) && cs@ == m[h],
                        None => no_height_before(m, height),
                    }
                },
                Err(e) => {
                    &&& e == ContextError::Client(ClientError::ClientStateNotFound)
                    &&& !self@.clients.contains_key(client_id@)
                },
            },
    {
        let record = match self.clients.get(client_id) {
            Some(record) => record,
            None => {
                return Err(ContextError::Client(ClientError::ClientStateNotFound));
            },
        };
        let tbl = &record.consensus_states;
        proof {
            use_type_invariant(tbl);
        }
        let n = tbl.num_entries();
        let mut best: Option<usize> = None;
        let mut i: usize = 0;
        while i < n
            invariant
                tbl.inv(),
                n == tbl.entries_seq().len(),
                i <= n,
                match best {
                    None => forall|j: int|
                        0 <= j < i ==> !tbl.entries_seq()[j].0.lt_spec(height),
                    Some(b) => {
                        &&& b < n
                        &&& tbl.entries_seq()[b as int].0.lt_spec(height)
                        &&& forall|j: int|
                            0 <= j < i && tbl.entries_seq()[j].0.lt_spec(height)
                                ==> tbl.entries_seq()[j].0.le_spec(tbl.entries_seq()[b as int].0)
                    },
                },
            decreases n - i,
        {
            let k = tbl.entry(i).0;
            if k.lt(height) {
                best = match best {
                    None => Some(i),
                    Some(b) => {
                        if tbl.entry(b).0.lt(k) {
                            Some(i)
                        } else {
                            Some(b)
                        }
                    },
                };
            }
            i = i + 1;
        }
        match best {
            None => {
                proof {
                    assert forall|h: Height| tbl@.contains_key(h) implies !h.lt_spec(height) by {
                        tbl.lemma_view_has_entry(h);
                    }
                    assert(self@.clients[client_id@].consensus_states == tbl@);
                    assert(no_height_before(self@.clients[client_id@].consensus_states, height));
                }
                Ok(None)
            },
            Some(b) => {
                let cs = tbl.entry(b).1.clone();
                proof {
                    tbl.lemma_entry_in_view(b as int);
                    let hb = tbl.entries_seq()[b as int].0;
                    assert forall|h2: Height|
                        #[trigger] tbl@.contains_key(h2) && h2.lt_spec(height) implies h2.le_spec(
                        hb,
                    ) by {
                        tbl.lemma_view_has_entry(h2);
                    }
                    assert(self@.clients[client_id@].consensus_states == tbl@);
                    assert(prev_height_before(self@.clients[client_id@].consensus_states, height, hb)
                        && cs@ == self@.clients[client_id@].consensus_states[hb]);
                }
                Ok(Some(cs))
            },
        }
    }

    /// This chain's own consensus state at a height, for a
    /// counterparty to validate against.
    pub fn self_consensus_state(&self, height: Height) -> (r: Result<
        AnyConsensusState,
        ContextError,
    >)
        ensures
            match r {
                Ok(cs) => self@.host_consensus_states.contains_key(height) && cs@
                    == self@.host_consensus_states[height],
                Err(e) => {
                    &&& e == ContextError::Client(
                        ClientError::MissingLocalConsensusState { height },
                    )
                    &&& !self@.host_consensus_states.contains_key(height)
                },
            },
    {
        match self.host_consensus_states.get(&height) {
            Some(cs) => Ok(AnyConsensusState::Mock(cs.clone())),
            None => Err(ContextError::Client(ClientError::MissingLocalConsensusState { height })),
        }
    }

    /// Validates a counterparty's view of this chain's client: it
    /// must decode as a mock client, be unfrozen, sit in this chain's
    /// revision, and not be ahead of this chain's height.
    pub fn validate_self_client(&self, client_state_of_host_on_counterparty: &ProtoAny) -> (r:
        Result<(), ContextError>)
        ensures
            match self_client_check(self@, client_state_of_host_on_counterparty@) {
                Some(e) => r == Err::<(), ContextError>(e),
                None => r is Ok,
            },
    {
        let cs = match crate::msgs::decode_mock_client_state(client_state_of_host_on_counterparty) {
            Some(cs) => cs,
            None => {
                return Err(
                    ContextError::Connection(
                        ConnectionError::InvalidClientState {
                            reason: crate::error::SelfClientRejection::NotAMockClient,
                        },
                    ),
                );
            },
        };
        if cs.is_frozen() {
            return Err(ContextError::Client(ClientError::ClientFrozen));
        }
        if cs.latest_height().revision_number != self.host_height.revision_number {
            return Err(
                ContextError::Connection(
                    ConnectionError::InvalidClientState {
                        reason: crate::error::SelfClientRejection::RevisionMismatch,
                    },
                ),
            );
        }
        if self.host_height.lt(cs.latest_height()) {
            return Err(
                ContextError::Connection(
                    ConnectionError::InvalidClientState {
                        reason: crate::error::SelfClientRejection::HeightAheadOfChain,
                    },
                ),
            );
        }
        Ok(())
    }

    /// When (host time and host height) a consensus state of the
    /// client was installed.
    pub fn client_update_meta(&self, client_id: &ClientId, height: Height) -> (r: Result<
        (Timestamp, Height),
        ContextError,
    >)
        ensures
            match r {
                Ok(meta) => {
                    &&& self@.processed_times.contains_key((client_id@, height))
                    &&& self@.processed_heights.contains_key((client_id@, height))
                    &&& meta.0 == self@.processed_times[(client_id@, height)]
                    &&& meta.1 == self@.processed_heights[(client_id@, height)]
                },
                Err(e) => {
                    &&& e == ContextError::Client(ClientError::UpdateMetaDataNotFound)
                    &&& (!self@.processed_times.contains_key((client_id@, height))
                        || !self@.processed_heights.contains_key((client_id@, height)))
                },
            },
    {
        let key = ClientHeightKey { client_id: client_id.clone(), height };
        let time = match self.processed_times.get(&key) {
            Some(t) => *t,
            None => {
                return Err(ContextError::Client(ClientError::UpdateMetaDataNotFound));
            },
        };
        let h = match self.processed_heights.get(&key) {
            Some(h) => *h,
            None => {
                return Err(ContextError::Client(ClientError::UpdateMetaDataNotFound));
            },
        };
        Ok((time, h))
    }
}


impl MockContext {
    /// Installs (or replaces) the client state of a client, creating
    /// the record if the client is new; consensus states are kept.
    pub fn store_client_state(&mut self, client_id: ClientId, client_state: AnyClientState) -> (r:
        Result<(), ContextError>)
        ensures
            r is Ok,
            final(self)@ == (StoreV {
                clients: old(self)@.clients.insert(
                    client_id@,
                    MockClientRecordV {
                        client_state: Some(client_state),
                        consensus_states: if old(self)@.clients.contains_key(client_id@) {
                            old(self)@.clients[client_id@].consensus_states
                        } else {
                            Map::empty()
                        },
                    },
                ),
                ..old(self)@
            }),
    {
        let mut record = match self.clients.take(&client_id) {
            Some(record) => record,
            None => MockClientRecord { client_state: None, consensus_states: KvTable::new() },
        };
        record.client_state = Some(client_state);
        self.clients.insert(client_id, record);
        proof {
            assert(self.clients@ =~= old(self)@.clients.insert(
                client_id@,
                MockClientRecordV {
                    client_state: Some(client_state),
                    consensus_states: if old(self)@.clients.contains_key(client_id@) {
                        old(self)@.clients[client_id@].consensus_states
                    } else {
                        Map::empty()
                    },
                },
            ));
            assert(self@ =~= (StoreV { clients: self.clients@, ..old(self)@ }));
        }
        Ok(())
    }

    /// Installs a consensus state of a client at one height, creating
    /// the record if the client is new.
    pub fn store_consensus_state(
        &mut self,
        consensus_state_path: ClientConsensusStatePath,
        consensus_state: AnyConsensusState,
    ) -> (r: Result<(), ContextError>)
        ensures
            r is Ok,
            ({
                let key = Height {
                    revision_number: consensus_state_path.revision_number,
                    revision_height: consensus_state_path.revision_height,
                };
                final(self)@ == (StoreV {
                    clients: old(self)@.clients.insert(
                        consensus_state_path.client_id@,
                        MockClientRecordV {
                            client_state: if old(self)@.clients.contains_key(
                                consensus_state_path.client_id@,
                            ) {
                                old(self)@.clients[consensus_state_path.client_id@].client_state
                            } else {
                                None
                            },
                            consensus_states: (if old(self)@.clients.contains_key(
                                consensus_state_path.client_id@,
                            ) {
                                old(self)@.clients[consensus_state_path.client_id@].consensus_states
                            } else {
                                Map::empty()
                            }).insert(key, consensus_state@),
                        },
                    ),
                    ..old(self)@
                })
            }),
    {
        let key = Height {
            revision_number: consensus_state_path.revision_number,
            revision_height: consensus_state_path.revision_height,
        };
        let mut record = match self.clients.take(&consensus_state_path.client_id) {
            Some(record) => record,
            None => MockClientRecord { client_state: None, consensus_states: KvTable::new() },
        };
        record.consensus_states.insert(key, consensus_state);
        self.clients.insert(consensus_state_path.client_id, record);
        proof {
            assert(self.clients@ =~= old(self)@.clients.insert(
                consensus_state_path.client_id@,
                MockClientRecordV {
                    client_state: if old(self)@.clients.contains_key(
                        consensus_state_path.client_id@,
                    ) {
                        old(self)@.clients[consensus_state_path.client_id@].client_state
                    } else {
                        None
                    },
                    consensus_states: (if old(self)@.clients.contains_key(
                        consensus_state_path.client_id@,
                    ) {
                        old(self)@.clients[consensus_state_path.client_id@].consensus_states
                    } else {
                        Map::empty()
                    }).insert(key, consensus_state@),
                },
            ));
            assert(self@ =~= (StoreV { clients: self.clients@, ..old(self)@ }));
        }
        Ok(())
    }

    /// Removes the consensus state of a client at one height, creating
    /// the (empty) record if the client is new.
    pub fn delete_consensus_state(&mut self, consensus_state_path: ClientConsensusStatePath) -> (r:
        Result<(), ContextError>)
        ensures
            r is Ok,
            ({
                let key = Height {
                    revision_number: consensus_state_path.revision_number,
                    revision_height: consensus_state_path.revision_height,
                };
                final(self)@ == (StoreV {
                    clients: old(self)@.clients.insert(
                        consensus_state_path.client_id@,
                        MockClientRecordV {
                            client_state: if old(self)@.clients.contains_key(
                                consensus_state_path.client_id@,
                            ) {
                                old(self)@.clients[consensus_state_path.client_id@].client_state
                            } else {
                                None
                            },
                            consensus_states: (if old(self)@.clients.contains_key(
                                consensus_state_path.client_id@,
                            ) {
                                old(self)@.clients[consensus_state_path.client_id@].consensus_states
                            } else {
                                Map::empty()
                            }).remove(key),
                        },
                    ),
                    ..old(self)@
                })
            }),
    {
        let key = Height {
            revision_number: consensus_state_path.revision_number,
            revision_height: consensus_state_path.revision_height,
        };
        let mut record = match self.clients.take(&consensus_state_path.client_id) {
            Some(record) => record,
            None => MockClientRecord { client_state: None, consensus_states: KvTable::new() },
        };
        record.consensus_states.delete(&key);
        self.clients.insert(consensus_state_path.client_id, record);
        proof {
            assert((if old(self)@.clients.contains_key(consensus_state_path.client_id@) {
                old(self)@.clients[consensus_state_path.client_id@].consensus_states
            } else {
                Map::<Height, ConsensusStateV>::empty()
            }).remove(key) =~= self.clients@[consensus_state_path.client_id@].consensus_states);
            assert(self.clients@ =~= old(self)@.clients.insert(
                consensus_state_path.client_id@,
                MockClientRecordV {
                    client_state: if old(self)@.clients.contains_key(
                        consensus_state_path.client_id@,
                    ) {
                        old(self)@.clients[consensus_state_path.client_id@].client_state
                    } else {
                        None
                    },
                    consensus_states: (if old(self)@.clients.contains_key(
                        consensus_state_path.client_id@,
                    ) {
                        old(self)@.clients[consensus_state_path.client_id@].consensus_states
                    } else {
                        Map::empty()
                    }).remove(key),
                },
            ));
            assert(self@ =~= (StoreV { clients: self.clients@, ..old(self)@ }));
        }
        Ok(())
    }

    /// Records when (host time and height) a consensus state of the
    /// client was installed.
    pub fn store_update_meta(
        &mut self,
        client_id: ClientId,
        height: Height,
        host_timestamp: Timestamp,
        host_height: Height,
    ) -> (r: Result<(), ContextError>)
        ensures
            r is Ok,
            final(self)@ == (StoreV {
                processed_times: old(self)@.processed_times.insert(
                    (client_id@, height),
                    host_timestamp,
                ),
                processed_heights: old(self)@.processed_heights.insert(
                    (client_id@, height),
                    host_height,
                ),
                ..old(self)@
            }),
    {
        let key2 = ClientHeightKey { client_id: client_id.clone(), height };
        self.processed_times.insert(ClientHeightKey { client_id, height }, host_timestamp);
        self.processed_heights.insert(key2, host_height);
        proof {
            assert(self@ =~= (StoreV {
                processed_times: self.processed_times@,
                processed_heights: self.processed_heights@,
                ..old(self)@
            }));
        }
        Ok(())
    }

    /// Forgets the update metadata of a client at one height.
    pub fn delete_update_meta(&mut self, client_id: ClientId, height: Height) -> (r: Result<
        (),
        ContextError,
    >)
        ensures
            r is Ok,
            final(self)@ == (StoreV {
                processed_times: old(self)@.processed_times.remove((client_id@, height)),
                processed_heights: old(self)@.processed_heights.remove((client_id@, height)),
                ..old(self)@
            }),
    {
        let key = ClientHeightKey { client_id, height };
        self.processed_times.delete(&key);
        self.processed_heights.delete(&key);
        proof {
            assert(self@ =~= (StoreV {
                processed_times: self.processed_times@,
                processed_heights: self.processed_heights@,
                ..old(self)@
            }));
        }
        Ok(())
    }

    /// The stored connection end under an identifier.
    pub fn connection_end(&self, connection_id: &ConnectionId) -> (r: Result<
        &ConnectionEnd,
        ContextError,
    >)
        ensures
            match r {
                Ok(c) => self@.connections.contains_key(connection_id@) && c@
                    == self@.connections[connection_id@],
                Err(e) => {
                    &&& e == ContextError::Connection(ConnectionError::ConnectionNotFound)
                    &&& !self@.connections.contains_key(connection_id@)
                },
            },
    {
        match self.connections.get(connection_id) {
            Some(c) => Ok(c),
            None => Err(ContextError::Connection(ConnectionError::ConnectionNotFound)),
        }
    }

    /// Stores a connection end under an identifier.
    pub fn store_connection(&mut self, connection_id: ConnectionId, connection_end: ConnectionEnd)
        ensures
            final(self)@ == (StoreV {
                connections: old(self)@.connections.insert(connection_id@, connection_end@),
                ..old(self)@
            }),
    {
        self.connections.insert(connection_id, connection_end);
        proof {
            assert(self@ =~= (StoreV { connections: self.connections@, ..old(self)@ }));
        }
    }

    /// The stored channel end on a port.
    pub fn channel_end(&self, port_id: &PortId, channel_id: &ChannelId) -> (r: Result<
        &ChannelEnd,
        ContextError,
    >)
        ensures
            match r {
                Ok(c) => self@.channels.contains_key((port_id@, channel_id@)) && c@
                    == self@.channels[(port_id@, channel_id@)],
                Err(e) => {
                    &&& e == ContextError::Channel(crate::error::ChannelError::ChannelNotFound)
                    &&& !self@.channels.contains_key((port_id@, channel_id@))
                },
            },
    {
        let key = PortChanKey { port_id: port_id.clone(), channel_id: channel_id.clone() };
        match self.channels.get(&key) {
            Some(c) => Ok(c),
            None => Err(ContextError::Channel(crate::error::ChannelError::ChannelNotFound)),
        }
    }

    /// Stores a channel end on a port.
    pub fn store_channel(&mut self, port_id: PortId, channel_id: ChannelId, channel_end: ChannelEnd)
        ensures
            final(self)@ == (StoreV {
                channels: old(self)@.channels.insert((port_id@, channel_id@), channel_end@),
                ..old(self)@
            }),
    {
        self.channels.insert(PortChanKey { port_id, channel_id }, channel_end);
        proof {
            assert(self@ =~= (StoreV { channels: self.channels@, ..old(self)@ }));
        }
    }

    /// The send counter of a channel; a channel without one indicates
    /// a corrupted host store.
    pub fn get_next_sequence_send(&self, port_id: &PortId, channel_id: &ChannelId) -> (r: Result<
        u64,
        ContextError,
    >)
        ensures
            match r {
                Ok(s) => self@.next_seq_send.contains_key((port_id@, channel_id@)) && s
                    == self@.next_seq_send[(port_id@, channel_id@)],
                Err(e) => {
                    &&& e == ContextError::HostInvariantViolated
                    &&& !self@.next_seq_send.contains_key((port_id@, channel_id@))
                },
            },
    {
        let key = PortChanKey { port_id: port_id.clone(), channel_id: channel_id.clone() };
        match self.next_seq_send.get(&key) {
            Some(s) => Ok(*s),
            None => Err(ContextError::HostInvariantViolated),
        }
    }

    /// The receive counter of a channel (ordered channels).
    pub fn get_next_sequence_recv(&self, port_id: &PortId, channel_id: &ChannelId) -> (r: Result<
        u64,
        ContextError,
    >)
        ensures
            match r {
                Ok(s) => self@.next_seq_recv.contains_key((port_id@, channel_id@)) && s
                    == self@.next_seq_recv[(port_id@, channel_id@)],
                Err(e) => {
                    &&& e == ContextError::HostInvariantViolated
                    &&& !self@.next_seq_recv.contains_key((port_id@, channel_id@))
                },
            },
    {
        let key = PortChanKey { port_id: port_id.clone(), channel_id: channel_id.clone() };
        match self.next_seq_recv.get(&key) {
            Some(s) => Ok(*s),
            None => Err(ContextError::HostInvariantViolated),
        }
    }

    /// The acknowledgement counter of a channel (ordered channels).
    pub fn get_next_sequence_ack(&self, port_id: &PortId, channel_id: &ChannelId) -> (r: Result<
        u64,
        ContextError,
    >)
        ensures
            match r {
                Ok(s) => self@.next_seq_ack.contains_key((port_id@, channel_id@)) && s
                    == self@.next_seq_ack[(port_id@, channel_id@)],
                Err(e) => {
                    &&& e == ContextError::HostInvariantViolated
                    &&& !self@.next_seq_ack.contains_key((port_id@, channel_id@))
                },
            },
    {
        let key = PortChanKey { port_id: port_id.clone(), channel_id: channel_id.clone() };
        match self.next_seq_ack.get(&key) {
            Some(s) => Ok(*s),
            None => Err(ContextError::HostInvariantViolated),
        }
    }

    pub fn store_next_sequence_send(&mut self, port_id: PortId, channel_id: ChannelId, seq: u64)
        ensures
            final(self)@ == (StoreV {
                next_seq_send: old(self)@.next_seq_send.insert((port_id@, channel_id@), seq),
                ..old(self)@
            }),
    {
        self.next_seq_send.insert(PortChanKey { port_id, channel_id }, seq);
        proof {
            assert(self@ =~= (StoreV { next_seq_send: self.next_seq_send@, ..old(self)@ }));
        }
    }

    pub fn store_next_sequence_recv(&mut self, port_id: PortId, channel_id: ChannelId, seq: u64)
        ensures
            final(self)@ == (StoreV {
                next_seq_recv: old(self)@.next_seq_recv.insert((port_id@, channel_id@), seq),
                ..old(self)@
            }),
    {
        self.next_seq_recv.insert(PortChanKey { port_id, channel_id }, seq);
        proof {
            assert(self@ =~= (StoreV { next_seq_recv: self.next_seq_recv@, ..old(self)@ }));
        }
    }

    pub fn store_next_sequence_ack(&mut self, port_id: PortId, channel_id: ChannelId, seq: u64)
        ensures
            final(self)@ == (StoreV {
                next_seq_ack: old(self)@.next_seq_ack.insert((port_id@, channel_id@), seq),
                ..old(self)@
            }),
    {
        self.next_seq_ack.insert(PortChanKey { port_id, channel_id }, seq);
        proof {
            assert(self@ =~= (StoreV { next_seq_ack: self.next_seq_ack@, ..old(self)@ }));
        }
    }

    /// The packet commitment stored at a sequence, if any.
    pub fn get_packet_commitment(&self, port_id: &PortId, channel_id: &ChannelId, seq: u64) -> (r:
        Option<&Vec<u8>>)
        ensures
            match r {
                Some(c) => self@.commitments.contains_key((port_id@, channel_id@, seq)) && c@
                    == self@.commitments[(port_id@, channel_id@, seq)],
                None => !self@.commitments.contains_key((port_id@, channel_id@, seq)),
            },
    {
        let key = PortChanSeqKey {
            port_id: port_id.clone(),
            channel_id: channel_id.clone(),
            sequence: seq,
        };
        self.commitments.get(&key)
    }

    pub fn store_packet_commitment(
        &mut self,
        port_id: PortId,
        channel_id: ChannelId,
        seq: u64,
        commitment: Vec<u8>,
    )
        ensures
            final(self)@ == (StoreV {
                commitments: old(self)@.commitments.insert(
                    (port_id@, channel_id@, seq),
                    commitment@,
                ),
                ..old(self)@
            }),
    {
        self.commitments.insert(
            PortChanSeqKey { port_id, channel_id, sequence: seq },
            commitment,
        );
        proof {
            assert(self@ =~= (StoreV { commitments: self.commitments@, ..old(self)@ }));
        }
    }

    pub fn delete_packet_commitment(&mut self, port_id: PortId, channel_id: ChannelId, seq: u64)
        ensures
            final(self)@ == (StoreV {
                commitments: old(self)@.commitments.remove((port_id@, channel_id@, seq)),
                ..old(self)@
            }),
    {
        let key = PortChanSeqKey { port_id, channel_id, sequence: seq };
        self.commitments.delete(&key);
        proof {
            assert(self@ =~= (StoreV { commitments: self.commitments@, ..old(self)@ }));
        }
    }

    /// Whether a receipt marks the sequence as received (unordered
    /// channels).
    pub fn has_packet_receipt(&self, port_id: &PortId, channel_id: &ChannelId, seq: u64) -> (r:
        bool)
        ensures
            r == self@.receipts.contains_key((port_id@, channel_id@, seq)),
    {
        let key = PortChanSeqKey {
            port_id: port_id.clone(),
            channel_id: channel_id.clone(),
            sequence: seq,
        };
        self.receipts.contains(&key)
    }

    /// Writes the one-byte receipt that makes an unordered receive
    /// replay-safe.
    pub fn store_packet_receipt(&mut self, port_id: PortId, channel_id: ChannelId, seq: u64)
        ensures
            final(self)@ == (StoreV {
                receipts: old(self)@.receipts.insert((port_id@, channel_id@, seq), 1u8),
                ..old(self)@
            }),
    {
        self.receipts.insert(PortChanSeqKey { port_id, channel_id, sequence: seq }, 1);
        proof {
            assert(self@ =~= (StoreV { receipts: self.receipts@, ..old(self)@ }));
        }
    }

    /// The acknowledgement commitment stored at a sequence, if any.
    pub fn get_packet_acknowledgement(
        &self,
        port_id: &PortId,
        channel_id: &ChannelId,
        seq: u64,
    ) -> (r: Option<&Vec<u8>>)
        ensures
            match r {
                Some(a) => self@.acks.contains_key((port_id@, channel_id@, seq)) && a@
                    == self@.acks[(port_id@, channel_id@, seq)],
                None => !self@.acks.contains_key((port_id@, channel_id@, seq)),
            },
    {
        let key = PortChanSeqKey {
            port_id: port_id.clone(),
            channel_id: channel_id.clone(),
            sequence: seq,
        };
        self.acks.get(&key)
    }

    pub fn store_packet_acknowledgement(
        &mut self,
        port_id: PortId,
        channel_id: ChannelId,
        seq: u64,
        ack_commitment: Vec<u8>,
    )
        ensures
            final(self)@ == (StoreV {
                acks: old(self)@.acks.insert((port_id@, channel_id@, seq), ack_commitment@),
                ..old(self)@
            }),
    {
        self.acks.insert(PortChanSeqKey { port_id, channel_id, sequence: seq }, ack_commitment);
        proof {
            assert(self@ =~= (StoreV { acks: self.acks@, ..old(self)@ }));
        }
    }

    pub fn delete_packet_acknowledgement(
        &mut self,
        port_id: PortId,
        channel_id: ChannelId,
        seq: u64,
    )
        ensures
            final(self)@ == (StoreV {
                acks: old(self)@.acks.remove((port_id@, channel_id@, seq)),
                ..old(self)@
            }),
    {
        let key = PortChanSeqKey { port_id, channel_id, sequence: seq };
        self.acks.delete(&key);
        proof {
            assert(self@ =~= (StoreV { acks: self.acks@, ..old(self)@ }));
        }
    }

    /// Installs this chain's own consensus state at a height.
    pub fn store_host_consensus_state(&mut self, height: Height, consensus_state: ConsensusState)
        ensures
            final(self)@ == (StoreV {
                host_consensus_states: old(self)@.host_consensus_states.insert(
                    height,
                    consensus_state@,
                ),
                ..old(self)@
            }),
    {
        self.host_consensus_states.insert(height, consensus_state);
        proof {
            assert(self@ =~= (StoreV {
                host_consensus_states: self.host_consensus_states@,
                ..old(self)@
            }));
        }
    }
}

} // verus!
