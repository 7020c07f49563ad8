use vstd::prelude::*;

use crate::acknowledgement::Acknowledgement;
use crate::bytes::dup_bytes;
use crate::host::{Height, Timestamp};
use crate::identifier::{ChannelId, PortId};

verus! {

/// The mathematical model of a packet.
#[verifier::ext_equal]
pub struct PacketV {
    pub seq_on_a: u64,
    pub port_on_a: Seq<char>,
    pub chan_on_a: Seq<char>,
    pub port_on_b: Seq<char>,
    pub chan_on_b: Seq<char>,
    pub data: Seq<u8>,
    pub timeout_height_on_b: Option<Height>,
    pub timeout_timestamp_on_b: Timestamp,
}

/// A packet in flight from chain A to chain B.
#[derive(Debug)]
pub struct Packet {
    pub seq_on_a: u64,
    pub port_id_on_a: PortId,
    pub chan_id_on_a: ChannelId,
    pub port_id_on_b: PortId,
    pub chan_id_on_b: ChannelId,
    pub data: Vec<u8>,
    pub timeout_height_on_b: Option<Height>,
    pub timeout_timestamp_on_b: Timestamp,
}

impl View for Packet {
    type V = PacketV;

    open spec fn view(&self) -> PacketV {
        PacketV {
            seq_on_a: self.seq_on_a,
            port_on_a: self.port_id_on_a@,
            chan_on_a: self.chan_id_on_a@,
            port_on_b: self.port_id_on_b@,
            chan_on_b: self.chan_id_on_b@,
            data: self.data@,
            timeout_height_on_b: self.timeout_height_on_b,
            timeout_timestamp_on_b: self.timeout_timestamp_on_b,
        }
    }
}

impl PacketV {
    /// At least one timeout bound must be set on every packet.
    pub open spec fn has_timeout(self) -> bool {
        self.timeout_height_on_b is Some || self.timeout_timestamp_on_b.is_set_spec()
    }

    /// Whether the receive deadline has passed on the host: either
    /// bound that is set and no longer ahead of the host times it out.
    pub open spec fn deadline_passed(self, host_height: Height, host_time: Timestamp) -> bool {
        ||| (match self.timeout_height_on_b {
            Some(h) => !host_height.lt_spec(h),
            None => false,
        })
        ||| (self.timeout_timestamp_on_b.is_set_spec()
            && self.timeout_timestamp_on_b.nanoseconds <= host_time.nanoseconds)
    }

    /// Whether a proven counterparty state lets the sender time the
    /// packet out: every bound that is set must have been exceeded.
    pub open spec fn timeout_reached(self, proof_height: Height, proof_time: Timestamp) -> bool {
        &&& (match self.timeout_height_on_b {
            Some(h) => h.le_spec(proof_height),
            None => true,
        })
        &&& (self.timeout_timestamp_on_b.is_set_spec()
            ==> self.timeout_timestamp_on_b.nanoseconds <= proof_time.nanoseconds)
    }
}

impl Packet {
    pub fn has_timeout(&self) -> (r: bool)
        ensures
            r == self@.has_timeout(),
    {
        self.timeout_height_on_b.is_some() || self.timeout_timestamp_on_b.is_set()
    }

    pub fn deadline_passed(&self, host_height: Height, host_time: Timestamp) -> (r: bool)
        ensures
            r == self@.deadline_passed(host_height, host_time),
    {
        let height_passed = match self.timeout_height_on_b {
            Some(h) => !host_height.lt(h),
            None => false,
        };
        let time_passed = self.timeout_timestamp_on_b.is_set()
            && self.timeout_timestamp_on_b.nanoseconds() <= host_time.nanoseconds();
        height_passed || time_passed
    }

    pub fn timeout_reached(&self, proof_height: Height, proof_time: Timestamp) -> (r: bool)
        ensures
            r == self@.timeout_reached(proof_height, proof_time),
    {
        let height_ok = match self.timeout_height_on_b {
            Some(h) => h.le(proof_height),
            None => true,
        };
        let time_ok = !self.timeout_timestamp_on_b.is_set()
            || self.timeout_timestamp_on_b.nanoseconds() <= proof_time.nanoseconds();
        height_ok && time_ok
    }
}

impl Clone for Packet {
    fn clone(&self) -> (r: Self)
        ensures
            r@ == self@,
    {
        let r = Packet {
            seq_on_a: self.seq_on_a,
            port_id_on_a: self.port_id_on_a.clone(),
            chan_id_on_a: self.chan_id_on_a.clone(),
            port_id_on_b: self.port_id_on_b.clone(),
            chan_id_on_b: self.chan_id_on_b.clone(),
            data: dup_bytes(&self.data),
            timeout_height_on_b: self.timeout_height_on_b,
            timeout_timestamp_on_b: self.timeout_timestamp_on_b,
        };
        proof {
            assert(r@ =~= self@);
        }
        r
    }
}

/// Relays a packet to its destination chain, with the proof that the
/// sender committed to it.
#[derive(Debug)]
pub struct MsgRecvPacket {
    pub packet: Packet,
    pub proof_commitment_on_a: Vec<u8>,
    pub proof_height_on_a: Height,
}

/// Relays an acknowledgement back to the sending chain, with the
/// proof that the receiver wrote it.
#[derive(Debug)]
pub struct MsgAcknowledgement {
    pub packet: Packet,
    pub acknowledgement: Acknowledgement,
    pub proof_acked_on_b: Vec<u8>,
    pub proof_height_on_b: Height,
}

/// Asks the sending chain to time a packet out, with the proof that
/// the receiver never took it.
#[derive(Debug)]
pub struct MsgTimeout {
    pub packet: Packet,
    pub next_seq_recv_on_b: u64,
    pub proof_unreceived_on_b: Vec<u8>,
    pub proof_height_on_b: Height,
}

/// Like a timeout, but justified by the counterparty channel being
/// closed; no deadline check is made.
#[derive(Debug)]
pub struct MsgTimeoutOnClose {
    pub packet: Packet,
    pub next_seq_recv_on_b: u64,
    pub proof_unreceived_on_b: Vec<u8>,
    pub proof_close_on_b: Vec<u8>,
    pub proof_height_on_b: Height,
}

} // verus!
