use vstd::prelude::*;

use crate::bytes::{push_bytes, push_u64_be, u64_be};
use crate::error::PacketError;
use crate::host::{Height, Timestamp};

verus! {

/// The SHA-256 digest of a byte sequence.
pub uninterp spec fn sha256_of(data: Seq<u8>) -> Seq<u8>;

/// Relies on sha2::Sha256::digest: a 32-byte digest determined by the
/// input bytes alone.
#[verifier::external_body]
fn sha256(data: &Vec<u8>) -> (r: Vec<u8>)
    ensures
        r@ == sha256_of(data@),
        r@.len() == 32,
{
    <sha2::Sha256 as sha2::Digest>::digest(data.as_slice()).to_vec()
}

/// The preimage of a packet commitment: timeout timestamp, timeout
/// height (absent height encoded as `(0, 0)`), then the hash of the
/// payload, all fixed-width big-endian.
pub open spec fn packet_commitment_preimage(
    data: Seq<u8>,
    timeout_height: Option<Height>,
    timeout_timestamp: Timestamp,
) -> Seq<u8> {
    u64_be(timeout_timestamp.nanoseconds) + u64_be(
        match timeout_height {
            Some(h) => h.revision_number,
            None => 0,
        },
    ) + u64_be(
        match timeout_height {
            Some(h) => h.revision_height,
            None => 0,
        },
    ) + sha256_of(data)
}

/// The deterministic fingerprint stored on the sender for a packet.
pub open spec fn packet_commitment_spec(
    data: Seq<u8>,
    timeout_height: Option<Height>,
    timeout_timestamp: Timestamp,
) -> Seq<u8> {
    sha256_of(packet_commitment_preimage(data, timeout_height, timeout_timestamp))
}

/// Computes the packet commitment, byte-exact with the wire contract.
pub fn compute_packet_commitment(
    data: &Vec<u8>,
    timeout_height: &Option<Height>,
    timeout_timestamp: Timestamp,
) -> (r: Vec<u8>)
    ensures
        r@ == packet_commitment_spec(data@, *timeout_height, timeout_timestamp),
        r@.len() == 32,
{
    let mut buf: Vec<u8> = Vec::new();
    push_u64_be(&mut buf, timeout_timestamp.nanoseconds);
    match timeout_height {
        Some(h) => {
            push_u64_be(&mut buf, h.revision_number);
            push_u64_be(&mut buf, h.revision_height);
        },
        None => {
            push_u64_be(&mut buf, 0);
            push_u64_be(&mut buf, 0);
        },
    }
    let data_hash = sha256(data);
    push_bytes(&mut buf, &data_hash);
    proof {
        assert(buf@ =~= packet_commitment_preimage(data@, *timeout_height, timeout_timestamp));
    }
    sha256(&buf)
}

/// The fingerprint stored on the receiver for an acknowledgement.
pub open spec fn ack_commitment_spec(ack: Seq<u8>) -> Seq<u8> {
    sha256_of(ack)
}

/// Computes the acknowledgement commitment; the empty acknowledgement
/// is forbidden.
pub fn compute_ack_commitment(ack: &Vec<u8>) -> (r: Result<Vec<u8>, PacketError>)
    ensures
        match r {
            Ok(c) => ack@.len() > 0 && c@ == ack_commitment_spec(ack@) && c@.len() == 32,
            Err(e) => ack@.len() == 0 && e == PacketError::InvalidAcknowledgement,
        },
{
    if ack.len() == 0 {
        Err(PacketError::InvalidAcknowledgement)
    } else {
        Ok(sha256(ack))
    }
}

} // verus!
