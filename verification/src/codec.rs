use vstd::prelude::*;
use vstd::string::StrSliceExecFns;

use crate::bytes::{be_merge, lemma_be_roundtrip, push_bytes, push_u64_be, u64_be};
use crate::host::{Height, Timestamp};
use crate::identifier::{valid_id_char, valid_identifier, ChannelId, PortId};
use crate::packet::{Packet, PacketV};

verus! {

/// Identifier characters, one byte each: identifiers are ASCII.
pub open spec fn str_bytes(s: Seq<char>) -> Seq<u8> {
    s.map_values(|c: char| (c as u32) as u8)
}

/// A length-prefixed chunk.
pub open spec fn enc_chunk(b: Seq<u8>) -> Seq<u8> {
    u64_be(b.len() as u64) + b
}

/// The timeout height: a presence flag and the two coordinates;
/// an absent height is encoded as `(0, 0)`.
pub open spec fn enc_timeout(th: Option<Height>) -> Seq<u8> {
    match th {
        Some(h) => u64_be(1) + u64_be(h.revision_number) + u64_be(h.revision_height),
        None => u64_be(0) + u64_be(0) + u64_be(0),
    }
}

/// The deterministic wire shape of a packet: sequence, the four
/// identifiers and the payload as length-prefixed chunks, then the
/// timeout bounds, all fixed-width big-endian.
#[verifier::opaque]
pub open spec fn enc_packet(p: PacketV) -> Seq<u8> {
    u64_be(p.seq_on_a) + enc_chunk(str_bytes(p.port_on_a)) + enc_chunk(str_bytes(p.chan_on_a))
        + enc_chunk(str_bytes(p.port_on_b)) + enc_chunk(str_bytes(p.chan_on_b)) + enc_chunk(p.data)
        + enc_timeout(p.timeout_height_on_b) + u64_be(p.timeout_timestamp_on_b.nanoseconds)
}

/// Whether all four identifiers of a packet are well-formed.
pub open spec fn packet_ids_valid(p: PacketV) -> bool {
    &&& valid_identifier(p.port_on_a)
    &&& valid_identifier(p.chan_on_a)
    &&& valid_identifier(p.port_on_b)
    &&& valid_identifier(p.chan_on_b)
}

/// Every identifier character is ASCII.
pub proof fn lemma_id_char_ascii(c: char)
    requires
        valid_id_char(c),
    ensures
        (c as u32) < 128,
{
}

/// Appends an identifier as a length-prefixed ASCII chunk.
fn push_id_chunk(out: &mut Vec<u8>, s: &str)
    requires
        valid_identifier(s@),
    ensures
        final(out)@ == old(out)@ + enc_chunk(str_bytes(s@)),
{
    let n = s.unicode_len();
    push_u64_be(out, n as u64);
    let mut i: usize = 0;
    while i < n
        invariant
            valid_identifier(s@),
            n == s@.len(),
            i <= n,
            out@ == old(out)@ + u64_be(n as u64) + str_bytes(s@.subrange(0, i as int)),
        decreases n - i,
    {
        let c = s.get_char(i);
        proof {
            lemma_id_char_ascii(c);
        }
        let u = c as u32;
        out.push(u as u8);
        proof {
            assert(str_bytes(s@.subrange(0, i + 1)) =~= str_bytes(s@.subrange(0, i as int)).push(
                (s@[i as int] as u32) as u8,
            ));
            assert(out@ =~= old(out)@ + u64_be(n as u64) + str_bytes(s@.subrange(0, i + 1)));
        }
        i = i + 1;
    }
    proof {
        assert(s@.subrange(0, n as int) =~= s@);
        assert(str_bytes(s@).len() == s@.len());
        assert(out@ =~= old(out)@ + enc_chunk(str_bytes(s@)));
    }
}

/// Renders a packet in its deterministic wire shape.
pub fn encode_packet(p: &Packet) -> (r: Vec<u8>)
    requires
        packet_ids_valid(p@),
    ensures
        r@ == enc_packet(p@),
{
    let mut out: Vec<u8> = Vec::new();
    push_u64_be(&mut out, p.seq_on_a);
    push_id_chunk(&mut out, p.port_id_on_a.as_str());
    push_id_chunk(&mut out, p.chan_id_on_a.as_str());
    push_id_chunk(&mut out, p.port_id_on_b.as_str());
    push_id_chunk(&mut out, p.chan_id_on_b.as_str());
    push_u64_be(&mut out, p.data.len() as u64);
    push_bytes(&mut out, &p.data);
    match p.timeout_height_on_b {
        Some(h) => {
            push_u64_be(&mut out, 1);
            push_u64_be(&mut out, h.revision_number);
            push_u64_be(&mut out, h.revision_height);
        },
        None => {
            push_u64_be(&mut out, 0);
            push_u64_be(&mut out, 0);
            push_u64_be(&mut out, 0);
        },
    }
    push_u64_be(&mut out, p.timeout_timestamp_on_b.nanoseconds());
    proof {
        reveal(enc_packet);
        assert(out@ =~= enc_packet(p@));
    }
    out
}

/// Relies on String::from_utf8: ASCII bytes decode to characters
/// with exactly those codes; nothing is claimed of other inputs.
#[verifier::external_body]
fn string_from_ascii(bytes: Vec<u8>) -> (r: Option<String>)
    ensures
        (forall|i: int| 0 <= i < bytes@.len() ==> bytes@[i] < 128) ==> (r is Some && r->0@.len()
            == bytes@.len() && (forall|i: int|
            0 <= i < bytes@.len() ==> (r->0@[i] as u32) == bytes@[i])),
{
    String::from_utf8(bytes).ok()
}

fn sub_bytes(b: &Vec<u8>, off: usize, len: usize) -> (r: Vec<u8>)
    requires
        off + len <= b@.len(),
    ensures
        r@ == b@.subrange(off as int, off + len),
{
    let total = b.len();
    let mut out: Vec<u8> = Vec::new();
    let mut i: usize = 0;
    while i < len
        invariant
            total == b@.len(),
            off + len <= b@.len(),
            i <= len,
            out@ == b@.subrange(off as int, off + i),
        decreases len - i,
    {
        out.push(b[off + i]);
        proof {
            assert(out@ =~= b@.subrange(off as int, off + i + 1));
        }
        i = i + 1;
    }
    out
}

/// Reads one length-prefixed chunk at `off`.
fn read_chunk(b: &Vec<u8>, off: usize) -> (r: Option<(Vec<u8>, usize)>)
    requires
        off <= b@.len(),
    ensures
        match r {
            Some(pair) => {
                &&& off + 8 <= b@.len()
                &&& merged_at(b@, off as int) == pair.0@.len()
                &&& pair.1 == off + 8 + pair.0@.len()
                &&& pair.1 <= b@.len()
                &&& pair.0@ == b@.subrange(off + 8, pair.1 as int)
            },
            None => off + 8 > b@.len() || merged_at(b@, off as int) > b@.len() - off - 8,
        },
{
    if b.len() < 8 || off > b.len() - 8 {
        return None;
    }
    let len_u64 = crate::bytes::read_u64_be(b, off);
    let avail = b.len() - (off + 8);
    if len_u64 > avail as u64 {
        return None;
    }
    let len = len_u64 as usize;
    let chunk = sub_bytes(b, off + 8, len);
    Some((chunk, off + 8 + len))
}

/// Reads one length-prefixed ASCII chunk at `off` as text.
fn read_id_chunk(b: &Vec<u8>, off: usize) -> (r: Option<(String, usize)>)
    requires
        off <= b@.len(),
    ensures
        match r {
            Some(pair) => {
                &&& off + 8 <= b@.len()
                &&& merged_at(b@, off as int) == pair.0@.len()
                &&& pair.1 == off + 8 + pair.0@.len()
                &&& pair.1 <= b@.len()
                &&& forall|j: int|
                    0 <= j < pair.0@.len() ==> (pair.0@[j] as u32) == b@[off + 8 + j]
            },
            None => off + 8 > b@.len() || merged_at(b@, off as int) > b@.len() - off - 8 || (
            exists|i: int|
                off + 8 <= i < off + 8 + merged_at(b@, off as int) && b@[i] >= 128),
        },
{
    let (chunk, off2) = match read_chunk(b, off) {
        Some(pair) => pair,
        None => {
            return None;
        },
    };
    let n = chunk.len();
    let mut i: usize = 0;
    while i < n
        invariant
            n == chunk@.len(),
            merged_at(b@, off as int) == n,
            i <= n,
            chunk@ == b@.subrange(off + 8, off + 8 + n),
            off + 8 + n <= b@.len(),
            forall|j: int| 0 <= j < i ==> chunk@[j] < 128,
        decreases n - i,
    {
        if chunk[i] >= 128 {
            proof {
                assert(chunk@[i as int] == b@.subrange(off + 8, off + 8 + n)[i as int]);
                let ghost k = off + 8 + i as int;
                assert(b@[k] >= 128);
                assert(off + 8 <= k < off + 8 + merged_at(b@, off as int));
                assert(exists|k2: int|
                    off + 8 <= k2 < off + 8 + merged_at(b@, off as int) && b@[k2] >= 128);
            }
            return None;
        }
        i = i + 1;
    }
    let ghost chunk_view = chunk@;
    match string_from_ascii(chunk) {
        Some(s) => {
            proof {
                assert forall|j: int| 0 <= j < s@.len() implies (s@[j] as u32) == b@[off + 8 + j] by {
                    assert((s@[j] as u32) == chunk_view[j]);
                    assert(chunk_view[j] == b@.subrange(off + 8, off + 8 + n)[j]);
                }
            }
            Some((s, off2))
        },
        None => {
            proof {
                assert(false);
            }
            None
        },
    }
}

/// Characters whose codes are the byte rendering of a well-formed
/// identifier are exactly its characters.
proof fn lemma_chars_from_bytes(schars: Seq<char>, ideal: Seq<char>)
    requires
        valid_identifier(ideal),
        schars.len() == ideal.len(),
        forall|j: int| 0 <= j < schars.len() ==> (schars[j] as u32) == str_bytes(ideal)[j],
    ensures
        schars == ideal,
{
    assert forall|j: int| 0 <= j < schars.len() implies schars[j] == ideal[j] by {
        lemma_id_char_ascii(ideal[j]);
        assert(str_bytes(ideal)[j] == #[verifier::truncate] ((ideal[j] as u32) as u8));
        assert((schars[j] as u32) == (ideal[j] as u32));
        vstd::utf8::char_u32_cast(schars[j], schars[j] as u32);
        vstd::utf8::char_u32_cast(ideal[j], ideal[j] as u32);
    }
    assert(schars =~= ideal);
}


/// Reads a packet back from its deterministic wire shape. Any byte
/// string that `encode_packet` produced for a packet with well-formed
/// identifiers decodes to exactly that packet: the round trip is the
/// identity, so the commitments of the two packets agree.
#[verifier::rlimit(100)]
#[verifier::spinoff_prover]
pub fn decode_packet(b: &Vec<u8>) -> (r: Option<Packet>)
    ensures
        forall|pv: PacketV|
            b@ == enc_packet(pv) && #[trigger] packet_ids_valid(pv) ==> r is Some && r->0@ == pv,
{
    if b.len() < 8 {
        proof {
            assert forall|pv: PacketV|
                b@ == enc_packet(pv) && #[trigger] packet_ids_valid(pv) implies false by {
                lemma_parse(b@, pv);
            }
        }
        return None;
    }
    let seq = crate::bytes::read_u64_be(b, 0);
    let (port_a_str, o1) = match read_id_chunk(b, 8) {
        Some(p) => p,
        None => {
            proof {
                assert forall|pv: PacketV|
                    b@ == enc_packet(pv) && #[trigger] packet_ids_valid(pv) implies false by {
                    lemma_parse(b@, pv);
                }
            }
            return None;
        },
    };
    let (chan_a_str, o2) = match read_id_chunk(b, o1) {
        Some(p) => p,
        None => {
            proof {
                assert forall|pv: PacketV|
                    b@ == enc_packet(pv) && #[trigger] packet_ids_valid(pv) implies false by {
                    lemma_parse(b@, pv);
                }
            }
            return None;
        },
    };
    let (port_b_str, o3) = match read_id_chunk(b, o2) {
        Some(p) => p,
        None => {
            proof {
                assert forall|pv: PacketV|
                    b@ == enc_packet(pv) && #[trigger] packet_ids_valid(pv) implies false by {
                    lemma_parse(b@, pv);
                }
            }
            return None;
        },
    };
    let (chan_b_str, o4) = match read_id_chunk(b, o3) {
        Some(p) => p,
        None => {
            proof {
                assert forall|pv: PacketV|
                    b@ == enc_packet(pv) && #[trigger] packet_ids_valid(pv) implies false by {
                    lemma_parse(b@, pv);
                }
            }
            return None;
        },
    };
    let (data, o5) = match read_chunk(b, o4) {
        Some(p) => p,
        None => {
            proof {
                assert forall|pv: PacketV|
                    b@ == enc_packet(pv) && #[trigger] packet_ids_valid(pv) implies false by {
                    lemma_parse(b@, pv);
                }
            }
            return None;
        },
    };
    if b.len() < 32 || o5 != b.len() - 32 {
        proof {
            assert forall|pv: PacketV|
                b@ == enc_packet(pv) && #[trigger] packet_ids_valid(pv) implies false by {
                lemma_parse(b@, pv);
            }
        }
        return None;
    }
    let flag = crate::bytes::read_u64_be(b, o5);
    if flag != 0 && flag != 1 {
        proof {
            assert forall|pv: PacketV|
                b@ == enc_packet(pv) && #[trigger] packet_ids_valid(pv) implies false by {
                lemma_parse(b@, pv);
            }
        }
        return None;
    }
    let revision_number = crate::bytes::read_u64_be(b, o5 + 8);
    let revision_height = crate::bytes::read_u64_be(b, o5 + 16);
    let nanos = crate::bytes::read_u64_be(b, o5 + 24);
    let ghost pa = port_a_str@;
    let ghost ca = chan_a_str@;
    let ghost pb = port_b_str@;
    let ghost cb = chan_b_str@;
    let port_id_on_a = match PortId::new(port_a_str) {
        Ok(p) => p,
        Err(_) => {
            proof {
                assert forall|pv: PacketV|
                    b@ == enc_packet(pv) && #[trigger] packet_ids_valid(pv) implies false by {
                    lemma_parse(b@, pv);
                    lemma_chars_from_bytes(pa, pv.port_on_a);
                }
            }
            return None;
        },
    };
    let chan_id_on_a = match ChannelId::new(chan_a_str) {
        Ok(c) => c,
        Err(_) => {
            proof {
                assert forall|pv: PacketV|
                    b@ == enc_packet(pv) && #[trigger] packet_ids_valid(pv) implies false by {
                    lemma_parse(b@, pv);
                    lemma_chars_from_bytes(ca, pv.chan_on_a);
                }
            }
            return None;
        },
    };
    let port_id_on_b = match PortId::new(port_b_str) {
        Ok(p) => p,
        Err(_) => {
            proof {
                assert forall|pv: PacketV|
                    b@ == enc_packet(pv) && #[trigger] packet_ids_valid(pv) implies false by {
                    lemma_parse(b@, pv);
                    lemma_chars_from_bytes(pb, pv.port_on_b);
                }
            }
            return None;
        },
    };
    let chan_id_on_b = match ChannelId::new(chan_b_str) {
        Ok(c) => c,
        Err(_) => {
            proof {
                assert forall|pv: PacketV|
                    b@ == enc_packet(pv) && #[trigger] packet_ids_valid(pv) implies false by {
                    lemma_parse(b@, pv);
                    lemma_chars_from_bytes(cb, pv.chan_on_b);
                }
            }
            return None;
        },
    };
    let packet = Packet {
        seq_on_a: seq,
        port_id_on_a,
        chan_id_on_a,
        port_id_on_b,
        chan_id_on_b,
        data,
        timeout_height_on_b: if flag == 1 {
            Some(Height { revision_number, revision_height })
        } else {
            None
        },
        timeout_timestamp_on_b: Timestamp { nanoseconds: nanos },
    };
    proof {
        assert forall|pv: PacketV|
            b@ == enc_packet(pv) && #[trigger] packet_ids_valid(pv) implies packet@ == pv by {
            lemma_parse(b@, pv);
            lemma_chars_from_bytes(pa, pv.port_on_a);
            lemma_chars_from_bytes(ca, pv.chan_on_a);
            lemma_chars_from_bytes(pb, pv.port_on_b);
            lemma_chars_from_bytes(cb, pv.chan_on_b);
            assert(data@ =~= pv.data);
            assert(packet@ =~= pv);
        }
    }
    Some(packet)
}

/// Where each field of an encoded packet stands in the byte string.
pub open spec fn parse_shape(b: Seq<u8>, pv: PacketV) -> bool {
    let l1 = pv.port_on_a.len() as int;
    let l2 = pv.chan_on_a.len() as int;
    let l3 = pv.port_on_b.len() as int;
    let l4 = pv.chan_on_b.len() as int;
    let ld = pv.data.len() as int;
    let o1 = 16 + l1;
    let o2 = o1 + 8 + l2;
    let o3 = o2 + 8 + l3;
    let o4 = o3 + 8 + l4;
    let o5 = o4 + 8 + ld;
    &&& b.len() == o5 + 32
    &&& b.subrange(0, 8) == u64_be(pv.seq_on_a)
    &&& b.subrange(8, 16) == u64_be(l1 as u64)
    &&& b.subrange(16, o1 as int) == str_bytes(pv.port_on_a)
    &&& b.subrange(o1 as int, o1 + 8) == u64_be(l2 as u64)
    &&& b.subrange(o1 + 8, o2 as int) == str_bytes(pv.chan_on_a)
    &&& b.subrange(o2 as int, o2 + 8) == u64_be(l3 as u64)
    &&& b.subrange(o2 + 8, o3 as int) == str_bytes(pv.port_on_b)
    &&& b.subrange(o3 as int, o3 + 8) == u64_be(l4 as u64)
    &&& b.subrange(o3 + 8, o4 as int) == str_bytes(pv.chan_on_b)
    &&& b.subrange(o4 as int, o4 + 8) == u64_be(ld as u64)
    &&& b.subrange(o4 + 8, o5 as int) == pv.data
    &&& b.subrange(o5 as int, o5 + 8) == u64_be(
        match pv.timeout_height_on_b {
            Some(_) => 1u64,
            None => 0u64,
        },
    )
    &&& b.subrange(o5 + 8, o5 + 16) == u64_be(
        match pv.timeout_height_on_b {
            Some(h) => h.revision_number,
            None => 0u64,
        },
    )
    &&& b.subrange(o5 + 16, o5 + 24) == u64_be(
        match pv.timeout_height_on_b {
            Some(h) => h.revision_height,
            None => 0u64,
        },
    )
    &&& b.subrange(o5 + 24, o5 + 32) == u64_be(pv.timeout_timestamp_on_b.nanoseconds)
    &&& merged_at(b, 0) == pv.seq_on_a
    &&& merged_at(b, 8) == l1 as u64
    &&& merged_at(b, o1 as int) == l2 as u64
    &&& merged_at(b, o2 as int) == l3 as u64
    &&& merged_at(b, o3 as int) == l4 as u64
    &&& merged_at(b, o4 as int) == ld as u64
    &&& merged_at(b, o5 as int) == (match pv.timeout_height_on_b {
        Some(_) => 1u64,
        None => 0u64,
    })
    &&& merged_at(b, o5 + 8) == (match pv.timeout_height_on_b {
        Some(h) => h.revision_number,
        None => 0u64,
    })
    &&& merged_at(b, o5 + 16) == (match pv.timeout_height_on_b {
        Some(h) => h.revision_height,
        None => 0u64,
    })
    &&& merged_at(b, o5 + 24) == pv.timeout_timestamp_on_b.nanoseconds
    &&& (forall|i: int| 16 <= i < o1 ==> b[i] < 128)
    &&& (forall|i: int| o1 + 8 <= i < o2 ==> b[i] < 128)
    &&& (forall|i: int| o2 + 8 <= i < o3 ==> b[i] < 128)
    &&& (forall|i: int| o3 + 8 <= i < o4 ==> b[i] < 128)
}

/// The 64-bit big-endian value whose bytes start at `off`.
pub open spec fn merged_at(b: Seq<u8>, off: int) -> u64 {
    be_merge(
        b[off],
        b[off + 1],
        b[off + 2],
        b[off + 3],
        b[off + 4],
        b[off + 5],
        b[off + 6],
        b[off + 7],
    )
}


/// Decomposes an encoded packet into its field regions.
#[verifier::rlimit(100)]
#[verifier::spinoff_prover]
pub proof fn lemma_parse(b: Seq<u8>, pv: PacketV)
    requires
        b == enc_packet(pv),
        packet_ids_valid(pv),
    ensures
        parse_shape(b, pv),
{
    reveal(enc_packet);
    assert(str_bytes(pv.port_on_a).len() == pv.port_on_a.len());
    assert(str_bytes(pv.chan_on_a).len() == pv.chan_on_a.len());
    assert(str_bytes(pv.port_on_b).len() == pv.port_on_b.len());
    assert(str_bytes(pv.chan_on_b).len() == pv.chan_on_b.len());
    let l1 = pv.port_on_a.len() as int;
    let l2 = pv.chan_on_a.len() as int;
    let l3 = pv.port_on_b.len() as int;
    let l4 = pv.chan_on_b.len() as int;
    let ld = pv.data.len() as int;
    let o1 = 16 + l1;
    let o2 = o1 + 8 + l2;
    let o3 = o2 + 8 + l3;
    let o4 = o3 + 8 + l4;
    let o5 = o4 + 8 + ld;
    assert(b.subrange(0, 8) =~= u64_be(pv.seq_on_a));
    assert(b.subrange(8, 16) =~= u64_be(l1 as u64));
    assert(b.subrange(16, o1 as int) =~= str_bytes(pv.port_on_a));
    assert(b.subrange(o1 as int, o1 + 8) =~= u64_be(l2 as u64));
    assert(b.subrange(o1 + 8, o2 as int) =~= str_bytes(pv.chan_on_a));
    assert(b.subrange(o2 as int, o2 + 8) =~= u64_be(l3 as u64));
    assert(b.subrange(o2 + 8, o3 as int) =~= str_bytes(pv.port_on_b));
    assert(b.subrange(o3 as int, o3 + 8) =~= u64_be(l4 as u64));
    assert(b.subrange(o3 + 8, o4 as int) =~= str_bytes(pv.chan_on_b));
    assert(b.subrange(o4 as int, o4 + 8) =~= u64_be(ld as u64));
    assert(b.subrange(o4 + 8, o5 as int) =~= pv.data);
    assert(b.subrange(o5 as int, o5 + 8) =~= u64_be(
        match pv.timeout_height_on_b {
            Some(_) => 1u64,
            None => 0u64,
        },
    ));
    assert(b.subrange(o5 + 8, o5 + 16) =~= u64_be(
        match pv.timeout_height_on_b {
            Some(h) => h.revision_number,
            None => 0u64,
        },
    ));
    assert(b.subrange(o5 + 16, o5 + 24) =~= u64_be(
        match pv.timeout_height_on_b {
            Some(h) => h.revision_height,
            None => 0u64,
        },
    ));
    assert(b.subrange(o5 + 24, o5 + 32) =~= u64_be(pv.timeout_timestamp_on_b.nanoseconds));
    lemma_be_roundtrip(pv.seq_on_a);
    lemma_be_roundtrip(l1 as u64);
    lemma_be_roundtrip(l2 as u64);
    lemma_be_roundtrip(l3 as u64);
    lemma_be_roundtrip(l4 as u64);
    lemma_be_roundtrip(ld as u64);
    lemma_be_roundtrip(
        match pv.timeout_height_on_b {
            Some(_) => 1u64,
            None => 0u64,
        },
    );
    lemma_be_roundtrip(
        match pv.timeout_height_on_b {
            Some(h) => h.revision_number,
            None => 0u64,
        },
    );
    lemma_be_roundtrip(
        match pv.timeout_height_on_b {
            Some(h) => h.revision_height,
            None => 0u64,
        },
    );
    lemma_be_roundtrip(pv.timeout_timestamp_on_b.nanoseconds);
    assert forall|i: int| 16 <= i < o1 implies b[i] < 128 by {
        lemma_id_char_ascii(pv.port_on_a[i - 16]);
        assert(b[i] == str_bytes(pv.port_on_a)[i - 16]);
    }
    assert forall|i: int| o1 + 8 <= i < o2 implies b[i] < 128 by {
        lemma_id_char_ascii(pv.chan_on_a[i - (o1 + 8)]);
        assert(b[i] == str_bytes(pv.chan_on_a)[i - (o1 + 8)]);
    }
    assert forall|i: int| o2 + 8 <= i < o3 implies b[i] < 128 by {
        lemma_id_char_ascii(pv.port_on_b[i - (o2 + 8)]);
        assert(b[i] == str_bytes(pv.port_on_b)[i - (o2 + 8)]);
    }
    assert forall|i: int| o3 + 8 <= i < o4 implies b[i] < 128 by {
        lemma_id_char_ascii(pv.chan_on_b[i - (o3 + 8)]);
        assert(b[i] == str_bytes(pv.chan_on_b)[i - (o3 + 8)]);
    }
}

} // verus!
