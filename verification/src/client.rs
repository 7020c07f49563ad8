use vstd::prelude::*;

use crate::bytes::dup_bytes;
use crate::error::ProofError;
use crate::host::{Height, Timestamp};

verus! {

/// The operational status of a light client.
#[derive(Clone, Copy, Debug, PartialEq, Eq, Structural)]
pub enum Status {
    Active,
    Frozen,
    Expired,
}

/// A header of the mock client: enough to install one consensus state.
#[derive(Clone, Copy, Debug, PartialEq, Eq, Structural)]
pub struct MockHeader {
    pub height: Height,
    pub timestamp: Timestamp,
}

/// The mock light-client state: it records only the latest height and
/// whether the client was frozen for misbehaviour.
#[derive(Clone, Copy, Debug, PartialEq, Eq, Structural)]
pub struct MockClientState {
    pub latest_height: Height,
    pub frozen: bool,
}

impl MockClientState {
    pub fn new(latest_height: Height) -> (r: MockClientState)
        ensures
            r == (MockClientState { latest_height, frozen: false }),
    {
        MockClientState { latest_height, frozen: false }
    }

    pub fn is_frozen(&self) -> (r: bool)
        ensures
            r == self.frozen,
    {
        self.frozen
    }

    pub fn latest_height(&self) -> (r: Height)
        ensures
            r == self.latest_height,
    {
        self.latest_height
    }

    pub open spec fn status_spec(&self) -> Status {
        if self.frozen {
            Status::Frozen
        } else {
            Status::Active
        }
    }

    pub fn status(&self) -> (r: Status)
        ensures
            r == self.status_spec(),
    {
        if self.frozen {
            Status::Frozen
        } else {
            Status::Active
        }
    }
}

/// A pruned header stored on chain: the commitment root used for
/// key/value verification, and the header's timestamp.
#[derive(Debug)]
pub struct ConsensusState {
    pub root: Vec<u8>,
    pub timestamp: Timestamp,
}

/// The mathematical model of a consensus state.
#[verifier::ext_equal]
pub struct ConsensusStateV {
    pub root: Seq<u8>,
    pub timestamp: Timestamp,
}

impl View for ConsensusState {
    type V = ConsensusStateV;

    open spec fn view(&self) -> ConsensusStateV {
        ConsensusStateV { root: self.root@, timestamp: self.timestamp }
    }
}

impl ConsensusState {
    pub fn new(root: Vec<u8>, timestamp: Timestamp) -> (r: ConsensusState)
        ensures
            r@.root == root@,
            r@.timestamp == timestamp,
    {
        ConsensusState { root, timestamp }
    }

    /// Commitment root of the consensus state.
    pub fn root(&self) -> (r: &Vec<u8>)
        ensures
            r@ == self@.root,
    {
        &self.root
    }

    /// The timestamp of the consensus state.
    pub fn timestamp(&self) -> (r: Timestamp)
        ensures
            r == self@.timestamp,
    {
        self.timestamp
    }
}

impl Clone for ConsensusState {
    fn clone(&self) -> (r: Self)
        ensures
            r@ == self@,
    {
        ConsensusState { root: dup_bytes(&self.root), timestamp: self.timestamp }
    }
}

/// The client-variant set: a tagged union with total dispatch. New
/// variants register by addition here.
#[derive(Clone, Copy, Debug, PartialEq, Eq, Structural)]
pub enum AnyClientState {
    Mock(MockClientState),
}

impl AnyClientState {
    pub open spec fn status_spec(&self) -> Status {
        match self {
            AnyClientState::Mock(cs) => cs.status_spec(),
        }
    }

    pub fn status(&self) -> (r: Status)
        ensures
            r == self.status_spec(),
    {
        match self {
            AnyClientState::Mock(cs) => cs.status(),
        }
    }

    pub open spec fn latest_height_spec(&self) -> Height {
        match self {
            AnyClientState::Mock(cs) => cs.latest_height,
        }
    }

    pub fn latest_height(&self) -> (r: Height)
        ensures
            r == self.latest_height_spec(),
    {
        match self {
            AnyClientState::Mock(cs) => cs.latest_height,
        }
    }

    /// Checks a membership proof of `value` under `path` against a
    /// stored root. The mock variant accepts every well-formed proof.
    pub fn verify_membership(
        &self,
        _proof: &Vec<u8>,
        _root: &Vec<u8>,
        _path: &String,
        _value: &Vec<u8>,
    ) -> (r: Result<(), ProofError>)
        ensures
            match self {
                AnyClientState::Mock(_) => r == Ok::<(), ProofError>(()),
            },
    {
        match self {
            AnyClientState::Mock(_) => Ok(()),
        }
    }

    /// Checks a non-membership proof of `path` against a stored root.
    /// The mock variant accepts every well-formed proof.
    pub fn verify_non_membership(
        &self,
        _proof: &Vec<u8>,
        _root: &Vec<u8>,
        _path: &String,
    ) -> (r: Result<(), ProofError>)
        ensures
            match self {
                AnyClientState::Mock(_) => r == Ok::<(), ProofError>(()),
            },
    {
        match self {
            AnyClientState::Mock(_) => Ok(()),
        }
    }
}

/// The consensus-state counterpart of the client-variant set.
#[derive(Debug)]
pub enum AnyConsensusState {
    Mock(ConsensusState),
}

impl View for AnyConsensusState {
    type V = ConsensusStateV;

    open spec fn view(&self) -> ConsensusStateV {
        match self {
            AnyConsensusState::Mock(cs) => cs@,
        }
    }
}

impl AnyConsensusState {
    pub fn root(&self) -> (r: &Vec<u8>)
        ensures
            r@ == self@.root,
    {
        match self {
            AnyConsensusState::Mock(cs) => cs.root(),
        }
    }

    pub fn timestamp(&self) -> (r: Timestamp)
        ensures
            r == self@.timestamp,
    {
        match self {
            AnyConsensusState::Mock(cs) => cs.timestamp(),
        }
    }
}

impl Clone for AnyConsensusState {
    fn clone(&self) -> (r: Self)
        ensures
            r@ == self@,
    {
        match self {
            AnyConsensusState::Mock(cs) => AnyConsensusState::Mock(cs.clone()),
        }
    }
}

} // verus!
