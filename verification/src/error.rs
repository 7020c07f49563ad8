use vstd::prelude::*;

use crate::host::Height;

verus! {

/// Rejection of a malformed identifier string.
#[derive(Clone, Copy, Debug, PartialEq, Eq, Structural)]
pub enum IdentifierError {
    InvalidIdentifier,
}

/// Why a counterparty's view of this chain's client was rejected.
#[derive(Clone, Copy, Debug, PartialEq, Eq, Structural)]
pub enum SelfClientRejection {
    NotAMockClient,
    ClientFrozen,
    RevisionMismatch,
    HeightAheadOfChain,
}

/// Failures of the light-client context (ICS-02).
#[derive(Clone, Copy, Debug, PartialEq, Eq, Structural)]
pub enum ClientError {
    ClientStateNotFound,
    ConsensusStateNotFound { height: Height },
    ClientFrozen,
    ClientNotActive,
    HeaderVerificationFailure,
    UpdateMetaDataNotFound,
    InvalidClientIdentifier,
    MissingClientMessage,
    MissingLocalConsensusState { height: Height },
}

/// Failures of the connection handshake (ICS-03).
#[derive(Clone, Copy, Debug, PartialEq, Eq, Structural)]
pub enum ConnectionError {
    ConnectionNotFound,
    InvalidState,
    InvalidCounterparty,
    VersionNegotiationFailed,
    InvalidClientState { reason: SelfClientRejection },
}

/// Failures of the channel handshake and channel queries (ICS-04).
#[derive(Clone, Copy, Debug, PartialEq, Eq, Structural)]
pub enum ChannelError {
    ChannelNotFound,
    InvalidChannelState,
    InvalidChannelOrdering,
    ChannelClosed,
    ConnectionNotOpen,
    UnsupportedMultiHop,
}

/// Failures of the packet engine (ICS-04).
#[derive(Clone, Copy, Debug, PartialEq, Eq, Structural)]
pub enum PacketError {
    PacketCommitmentNotFound,
    PacketCommitmentMismatch,
    PacketReceiptAlreadyExists,
    PacketTimeoutNotReached,
    PacketTimeout,
    InvalidPacketSequence { expected: u64, actual: u64 },
    InvalidAcknowledgement,
    MissingTimeout,
}

/// Failures of proof checking against a stored consensus root.
#[derive(Clone, Copy, Debug, PartialEq, Eq, Structural)]
pub enum ProofError {
    MissingProof,
    MembershipVerificationFailed,
    NonMembershipVerificationFailed,
}

/// Every error a handler can bubble out of `dispatch`.
#[derive(Clone, Copy, Debug, PartialEq, Eq, Structural)]
pub enum ContextError {
    Client(ClientError),
    Connection(ConnectionError),
    Channel(ChannelError),
    Packet(PacketError),
    Proof(ProofError),
    HostInvariantViolated,
}

} // verus!
