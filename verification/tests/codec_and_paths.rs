use ibc_core_engine::codec::{decode_packet, encode_packet};
use ibc_core_engine::commitment::{compute_ack_commitment, compute_packet_commitment};
use ibc_core_engine::host::{Height, Timestamp};
use ibc_core_engine::identifier::{validate_identifier, ChannelId, PortId};
use ibc_core_engine::packet::Packet;
use ibc_core_engine::path::{ack_path, channel_path, commitment_path, receipt_path, u64_to_dec};

fn sample_packet() -> Packet {
    Packet {
        seq_on_a: 9,
        port_id_on_a: PortId::new("transfer".to_string()).unwrap(),
        chan_id_on_a: ChannelId::new("channel-0".to_string()).unwrap(),
        port_id_on_b: PortId::new("transfer".to_string()).unwrap(),
        chan_id_on_b: ChannelId::new("channel-1".to_string()).unwrap(),
        data: b"hello".to_vec(),
        timeout_height_on_b: Some(Height { revision_number: 0, revision_height: 10 }),
        timeout_timestamp_on_b: Timestamp::from_nanoseconds(42),
    }
}

#[test]
fn packet_codec_round_trip() {
    let p = sample_packet();
    let bytes = encode_packet(&p);
    let q = decode_packet(&bytes).unwrap();
    assert_eq!(q.seq_on_a, 9);
    assert_eq!(q.port_id_on_a.as_str(), "transfer");
    assert_eq!(q.chan_id_on_a.as_str(), "channel-0");
    assert_eq!(q.port_id_on_b.as_str(), "transfer");
    assert_eq!(q.chan_id_on_b.as_str(), "channel-1");
    assert_eq!(q.data, b"hello".to_vec());
    assert_eq!(q.timeout_height_on_b, Some(Height { revision_number: 0, revision_height: 10 }));
    assert_eq!(q.timeout_timestamp_on_b, Timestamp::from_nanoseconds(42));

    let c1 = compute_packet_commitment(&p.data, &p.timeout_height_on_b, p.timeout_timestamp_on_b);
    let c2 = compute_packet_commitment(&q.data, &q.timeout_height_on_b, q.timeout_timestamp_on_b);
    assert_eq!(c1, c2);
}

#[test]
fn packet_codec_round_trip_without_height() {
    let mut p = sample_packet();
    p.timeout_height_on_b = None;
    p.timeout_timestamp_on_b = Timestamp::from_nanoseconds(7);
    let bytes = encode_packet(&p);
    let q = decode_packet(&bytes).unwrap();
    assert_eq!(q.timeout_height_on_b, None);
    assert_eq!(q.timeout_timestamp_on_b, Timestamp::from_nanoseconds(7));
}

#[test]
fn decode_rejects_truncated_input() {
    let p = sample_packet();
    let mut bytes = encode_packet(&p);
    bytes.pop();
    assert!(decode_packet(&bytes).is_none());
}

#[test]
fn packet_commitment_matches_reference_construction() {
    // The commitment is sha256 over (timestamp || revision number ||
    // revision height || sha256(data)), all big-endian.
    let data = b"hello".to_vec();
    let th = Some(Height { revision_number: 0, revision_height: 10 });
    let tt = Timestamp::from_nanoseconds(0);
    let got = compute_packet_commitment(&data, &th, tt);

    let inner = <sha2::Sha256 as sha2::Digest>::digest(&data);
    let mut preimage: Vec<u8> = Vec::new();
    preimage.extend_from_slice(&0u64.to_be_bytes());
    preimage.extend_from_slice(&0u64.to_be_bytes());
    preimage.extend_from_slice(&10u64.to_be_bytes());
    preimage.extend_from_slice(&inner);
    let expected = <sha2::Sha256 as sha2::Digest>::digest(&preimage).to_vec();
    assert_eq!(got, expected);
}

#[test]
fn ack_commitment_is_the_sha256_of_the_bytes() {
    let ack = vec![1u8, 2, 3];
    let got = compute_ack_commitment(&ack).unwrap();
    let expected = <sha2::Sha256 as sha2::Digest>::digest(&ack).to_vec();
    assert_eq!(got, expected);
    assert_ne!(got, ack);
    assert!(compute_ack_commitment(&Vec::new()).is_err());
}

#[test]
fn store_paths_are_byte_stable() {
    let port = PortId::new("transfer".to_string()).unwrap();
    let chan = ChannelId::new("channel-0".to_string()).unwrap();
    assert_eq!(
        commitment_path(&port, &chan, 1),
        "commitments/ports/transfer/channels/channel-0/sequences/1"
    );
    assert_eq!(
        receipt_path(&port, &chan, 12),
        "receipts/ports/transfer/channels/channel-0/sequences/12"
    );
    assert_eq!(
        ack_path(&port, &chan, 305),
        "acks/ports/transfer/channels/channel-0/sequences/305"
    );
    assert_eq!(channel_path(&port, &chan), "channelEnds/ports/transfer/channels/channel-0");
}

#[test]
fn decimal_rendering_is_exact() {
    assert_eq!(u64_to_dec(0), "0");
    assert_eq!(u64_to_dec(7), "7");
    assert_eq!(u64_to_dec(12345), "12345");
    assert_eq!(u64_to_dec(u64::MAX), "18446744073709551615");
}

#[test]
fn identifier_form_is_enforced() {
    assert!(validate_identifier("transfer"));
    assert!(validate_identifier("07-tendermint-0"));
    assert!(validate_identifier("a"));
    assert!(!validate_identifier(""));
    assert!(!validate_identifier("has space"));
    assert!(!validate_identifier("slash/inside"));
    let long_ok: String = "x".repeat(64);
    let too_long: String = "x".repeat(65);
    assert!(validate_identifier(&long_ok));
    assert!(!validate_identifier(&too_long));
}
