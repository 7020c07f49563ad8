use vstd::prelude::*;
use vstd::string::StringExecFns;

use crate::host::Height;
use crate::identifier::{ChannelId, ClientId, ConnectionId, PortId};

verus! {

pub open spec fn digit_chars(d: nat) -> Seq<char> {
    if d == 0 {
        "0"@
    } else if d == 1 {
        "1"@
    } else if d == 2 {
        "2"@
    } else if d == 3 {
        "3"@
    } else if d == 4 {
        "4"@
    } else if d == 5 {
        "5"@
    } else if d == 6 {
        "6"@
    } else if d == 7 {
        "7"@
    } else if d == 8 {
        "8"@
    } else {
        "9"@
    }
}

fn digit_str(d: u64) -> (r: &'static str)
    requires
        d < 10,
    ensures
        r@ == digit_chars(d as nat),
{
    if d == 0 {
        "0"
    } else if d == 1 {
        "1"
    } else if d == 2 {
        "2"
    } else if d == 3 {
        "3"
    } else if d == 4 {
        "4"
    } else if d == 5 {
        "5"
    } else if d == 6 {
        "6"
    } else if d == 7 {
        "7"
    } else if d == 8 {
        "8"
    } else {
        "9"
    }
}

/// The decimal rendering of a number, most significant digit first,
/// with no leading zeroes (`0` renders as "0").
pub open spec fn dec_chars(n: nat) -> Seq<char>
    decreases n,
{
    if n < 10 {
        digit_chars(n)
    } else {
        dec_chars(n / 10) + digit_chars(n % 10)
    }
}

/// Renders a number in decimal, as the store paths require.
pub fn u64_to_dec(n: u64) -> (r: String)
    ensures
        r@ == dec_chars(n as nat),
    decreases n,
{
    if n < 10 {
        digit_str(n).to_owned()
    } else {
        let mut s = u64_to_dec(n / 10);
        s.append(digit_str(n % 10));
        s
    }
}

/// Addresses the consensus state of a client at one height.
#[derive(Debug)]
pub struct ClientConsensusStatePath {
    pub client_id: ClientId,
    pub revision_number: u64,
    pub revision_height: u64,
}

pub open spec fn client_state_path_chars(client_id: Seq<char>) -> Seq<char> {
    "clients/"@ + client_id + "/clientState"@
}

/// `clients/{id}/clientState`
pub fn client_state_path(client_id: &ClientId) -> (r: String)
    ensures
        r@ == client_state_path_chars(client_id@),
{
    let mut s = String::new();
    s.append("clients/");
    s.append(client_id.as_str());
    s.append("/clientState");
    s
}

pub open spec fn consensus_state_path_chars(client_id: Seq<char>, height: Height) -> Seq<char> {
    "clients/"@ + client_id + "/consensusStates/"@ + dec_chars(height.revision_number as nat)
        + "-"@ + dec_chars(height.revision_height as nat)
}

/// `clients/{id}/consensusStates/{revision_number}-{revision_height}`
pub fn consensus_state_path(client_id: &ClientId, height: Height) -> (r: String)
    ensures
        r@ == consensus_state_path_chars(client_id@, height),
{
    let mut s = String::new();
    s.append("clients/");
    s.append(client_id.as_str());
    s.append("/consensusStates/");
    let rn = u64_to_dec(height.revision_number);
    s.append(rn.as_str());
    s.append("-");
    let rh = u64_to_dec(height.revision_height);
    s.append(rh.as_str());
    s
}

pub open spec fn connection_path_chars(connection_id: Seq<char>) -> Seq<char> {
    "connections/"@ + connection_id
}

/// `connections/{id}`
pub fn connection_path(connection_id: &ConnectionId) -> (r: String)
    ensures
        r@ == connection_path_chars(connection_id@),
{
    let mut s = String::new();
    s.append("connections/");
    s.append(connection_id.as_str());
    s
}

pub open spec fn channel_path_chars(port_id: Seq<char>, channel_id: Seq<char>) -> Seq<char> {
    "channelEnds/ports/"@ + port_id + "/channels/"@ + channel_id
}

/// `channelEnds/ports/{port}/channels/{chan}`
pub fn channel_path(port_id: &PortId, channel_id: &ChannelId) -> (r: String)
    ensures
        r@ == channel_path_chars(port_id@, channel_id@),
{
    let mut s = String::new();
    s.append("channelEnds/ports/");
    s.append(port_id.as_str());
    s.append("/channels/");
    s.append(channel_id.as_str());
    s
}

pub open spec fn next_sequence_recv_path_chars(
    port_id: Seq<char>,
    channel_id: Seq<char>,
) -> Seq<char> {
    "nextSequenceRecv/ports/"@ + port_id + "/channels/"@ + channel_id
}

/// `nextSequenceRecv/ports/{port}/channels/{chan}`
pub fn next_sequence_recv_path(port_id: &PortId, channel_id: &ChannelId) -> (r: String)
    ensures
        r@ == next_sequence_recv_path_chars(port_id@, channel_id@),
{
    let mut s = String::new();
    s.append("nextSequenceRecv/ports/");
    s.append(port_id.as_str());
    s.append("/channels/");
    s.append(channel_id.as_str());
    s
}

pub open spec fn commitment_path_chars(
    port_id: Seq<char>,
    channel_id: Seq<char>,
    sequence: u64,
) -> Seq<char> {
    "commitments/ports/"@ + port_id + "/channels/"@ + channel_id + "/sequences/"@ + dec_chars(
        sequence as nat,
    )
}

/// `commitments/ports/{port}/channels/{chan}/sequences/{seq}`
pub fn commitment_path(port_id: &PortId, channel_id: &ChannelId, sequence: u64) -> (r: String)
    ensures
        r@ == commitment_path_chars(port_id@, channel_id@, sequence),
{
    let mut s = String::new();
    s.append("commitments/ports/");
    s.append(port_id.as_str());
    s.append("/channels/");
    s.append(channel_id.as_str());
    s.append("/sequences/");
    let d = u64_to_dec(sequence);
    s.append(d.as_str());
    s
}

pub open spec fn receipt_path_chars(
    port_id: Seq<char>,
    channel_id: Seq<char>,
    sequence: u64,
) -> Seq<char> {
    "receipts/ports/"@ + port_id + "/channels/"@ + channel_id + "/sequences/"@ + dec_chars(
        sequence as nat,
    )
}

/// `receipts/ports/{port}/channels/{chan}/sequences/{seq}`
pub fn receipt_path(port_id: &PortId, channel_id: &ChannelId, sequence: u64) -> (r: String)
    ensures
        r@ == receipt_path_chars(port_id@, channel_id@, sequence),
{
    let mut s = String::new();
    s.append("receipts/ports/");
    s.append(port_id.as_str());
    s.append("/channels/");
    s.append(channel_id.as_str());
    s.append("/sequences/");
    let d = u64_to_dec(sequence);
    s.append(d.as_str());
    s
}

pub open spec fn ack_path_chars(
    port_id: Seq<char>,
    channel_id: Seq<char>,
    sequence: u64,
) -> Seq<char> {
    "acks/ports/"@ + port_id + "/channels/"@ + channel_id + "/sequences/"@ + dec_chars(
        sequence as nat,
    )
}

/// `acks/ports/{port}/channels/{chan}/sequences/{seq}`
pub fn ack_path(port_id: &PortId, channel_id: &ChannelId, sequence: u64) -> (r: String)
    ensures
        r@ == ack_path_chars(port_id@, channel_id@, sequence),
{
    let mut s = String::new();
    s.append("acks/ports/");
    s.append(port_id.as_str());
    s.append("/channels/");
    s.append(channel_id.as_str());
    s.append("/sequences/");
    let d = u64_to_dec(sequence);
    s.append(d.as_str());
    s
}

} // verus!
