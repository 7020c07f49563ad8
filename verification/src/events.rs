use vstd::prelude::*;

verus! {

/// The domain a message belongs to; emitted as a marker before each
/// domain event. Relayers key off these markers, so their places in
/// the event stream are part of the protocol contract.
#[derive(Clone, Copy, Debug, PartialEq, Eq, Structural)]
pub enum MessageCategory {
    Client,
    Connection,
    Channel,
}

/// The closed set of events the engine emits. Packet events carry the
/// packet's sequence number.
#[derive(Clone, Copy, Debug, PartialEq, Eq, Structural)]
pub enum IbcEvent {
    Message(MessageCategory),
    CreateClient,
    UpdateClient,
    ClientMisbehaviour,
    UpgradeClient,
    OpenInitConnection,
    OpenTryConnection,
    OpenAckConnection,
    OpenConfirmConnection,
    OpenInitChannel,
    OpenTryChannel,
    OpenAckChannel,
    OpenConfirmChannel,
    CloseInitChannel,
    ChannelClosed,
    SendPacket { sequence: u64 },
    ReceivePacket { sequence: u64 },
    WriteAcknowledgement { sequence: u64 },
    AcknowledgePacket { sequence: u64 },
    TimeoutPacket { sequence: u64 },
}

} // verus!
