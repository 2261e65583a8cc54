use vstd::prelude::*;
use vstd::bytes::{spec_u64_from_le_bytes, spec_u64_to_le_bytes, lemma_auto_spec_u64_to_from_le_bytes};
use vstd::utf8::{
    decode_utf8, decode_utf8_encode_utf8, encode_utf8, encode_utf8_decode_utf8, encode_utf8_valid_utf8,
    valid_utf8,
};
use crate::packet::{Packet, PacketView};

verus! {

// ------------------------------------------------------------------
// The wire format of a packet: the four fields one after another, each
// string and the byte payload preceded by its length in bytes as a
// little-endian u64, and the size as a little-endian u64.
// ------------------------------------------------------------------

/// A byte string preceded by its length as eight little-endian bytes.
pub open spec fn length_prefixed(bytes: Seq<u8>) -> Seq<u8> {
    spec_u64_to_le_bytes(bytes.len() as u64) + bytes
}

/// The bytes that stand for a packet with the given fields.
pub open spec fn packet_wire(p: PacketView) -> Seq<u8> {
    length_prefixed(encode_utf8(p.command)) + length_prefixed(encode_utf8(p.filename))
        + length_prefixed(p.data) + spec_u64_to_le_bytes(p.size as u64)
}

/// The little-endian u64 at `pos`, if eight bytes are there.
pub open spec fn read_u64_at(b: Seq<u8>, pos: int) -> Option<u64> {
    if 0 <= pos && pos + 8 <= b.len() {
        Some(spec_u64_from_le_bytes(b.subrange(pos, pos + 8)))
    } else {
        None
    }
}

/// The length-prefixed byte string at `pos` and the position after it.
pub open spec fn read_field_at(b: Seq<u8>, pos: int) -> Option<(Seq<u8>, int)> {
    match read_u64_at(b, pos) {
        Some(n) => if n <= usize::MAX && pos + 8 + n <= b.len() {
            Some((b.subrange(pos + 8, pos + 8 + n), pos + 8 + n))
        } else {
            None
        },
        None => None,
    }
}

/// The length-prefixed UTF-8 text at `pos` and the position after it.
pub open spec fn read_text_at(b: Seq<u8>, pos: int) -> Option<(Seq<char>, int)> {
    match read_field_at(b, pos) {
        Some((f, next)) => if valid_utf8(f) {
            Some((decode_utf8(f), next))
        } else {
            None
        },
        None => None,
    }
}

/// The packet that a byte buffer starts with, if it starts with one; the
/// bytes after it are ignored.
pub open spec fn packet_from_wire(b: Seq<u8>) -> Option<PacketView> {
    match read_text_at(b, 0) {
        Some((command, p1)) => match read_text_at(b, p1) {
            Some((filename, p2)) => match read_field_at(b, p2) {
                Some((data, p3)) => match read_u64_at(b, p3) {
                    Some(size) => if size <= usize::MAX {
                        Some(PacketView { command, filename, data, size: size as usize })
                    } else {
                        None
                    },
                    None => None,
                },
                None => None,
            },
            None => None,
        },
        None => None,
    }
}

/// Whether every length in the packet fits the length prefix of the wire.
pub open spec fn fits_wire(p: PacketView) -> bool {
    &&& encode_utf8(p.command).len() <= usize::MAX
    &&& encode_utf8(p.filename).len() <= usize::MAX
    &&& p.data.len() <= usize::MAX
}

// ------------------------------------------------------------------
// Calls into bincode.
// ------------------------------------------------------------------

/// Calls `bincode::serialize` on the tuple of the four fields. With its
/// default options bincode writes a `str` as a u64 length in little-endian
/// order followed by its UTF-8 bytes, a byte slice as a u64 length followed
/// by the bytes, and a `usize` as a little-endian u64; the writer is a `Vec`
/// and the size limit is infinite, so the call does not fail. The contract
/// claims exactly these bytes.
#[verifier::external_body]
fn bincode_serialize_fields(command: &str, filename: &str, data: &[u8], size: usize) -> (r: Option<Vec<u8>>)
    ensures
        r is Some,
        r->0@ == packet_wire(
            (PacketView { command: command@, filename: filename@, data: data@, size }),
        ),
{
    bincode::serialize(&(command, filename, data, size)).ok()
}

/// Calls `bincode::deserialize` for the tuple `(String, String, Vec<u8>,
/// usize)` on a byte slice. With its default options bincode reads each
/// string and the byte vector as a little-endian u64 length that must fit a
/// `usize` and that many following bytes (the strings must be valid UTF-8),
/// then the size as a little-endian u64 that must fit a `usize`; bytes after
/// the last field are allowed. The contract claims that the call succeeds
/// exactly on such input and returns those fields.
#[verifier::external_body]
fn bincode_deserialize_fields(bytes: &[u8]) -> (r: Option<(String, String, Vec<u8>, usize)>)
    ensures
        r matches Some(t) ==> packet_from_wire(bytes@) == Some(
            (PacketView { command: t.0@, filename: t.1@, data: t.2@, size: t.3 }),
        ),
        r is None ==> packet_from_wire(bytes@) is None,
{
    bincode::deserialize::<(String, String, Vec<u8>, usize)>(bytes).ok()
}

// ------------------------------------------------------------------
// Encoding and decoding.
// ------------------------------------------------------------------

/// The bytes that the client ships for a packet.
pub fn encode_packet(p: &Packet) -> (bytes: Vec<u8>)
    ensures
        bytes@ == packet_wire(p@),
{
    let r = bincode_serialize_fields(p.command.as_str(), p.filename.as_str(), p.data.as_slice(), p.size);
    r.unwrap()
}

/// The packet that a received buffer starts with, or `None` where the
/// buffer does not start with one.
pub fn decode_packet(bytes: &[u8]) -> (r: Option<Packet>)
    ensures
        match r {
            Some(p) => packet_from_wire(bytes@) == Some(p@),
            None => packet_from_wire(bytes@) is None,
        },
{
    match bincode_deserialize_fields(bytes) {
        Some((command, filename, data, size)) => Some(Packet { command, filename, data, size }),
        None => None,
    }
}

/// Decoding what was encoded gives the packet back, whatever bytes follow
/// it in the buffer.
pub proof fn lemma_wire_roundtrip(p: PacketView, rest: Seq<u8>)
    requires
        fits_wire(p),
    ensures
        packet_from_wire(packet_wire(p) + rest) == Some(p),
{
    lemma_auto_spec_u64_to_from_le_bytes();
    encode_utf8_valid_utf8(p.command);
    encode_utf8_valid_utf8(p.filename);
    encode_utf8_decode_utf8(p.command);
    encode_utf8_decode_utf8(p.filename);
    let c = encode_utf8(p.command);
    let f = encode_utf8(p.filename);
    let d = p.data;
    let b = packet_wire(p) + rest;
    let lc = spec_u64_to_le_bytes(c.len() as u64);
    let lf = spec_u64_to_le_bytes(f.len() as u64);
    let ld = spec_u64_to_le_bytes(d.len() as u64);
    let ls = spec_u64_to_le_bytes(p.size as u64);
    let p1: int = 8 + c.len() as int;
    let p2: int = p1 + 8 + f.len();
    let p3: int = p2 + 8 + d.len();
    assert(b =~= lc + c + lf + f + ld + d + ls + rest);
    assert(b.subrange(0, 8) =~= lc);
    assert(b.subrange(8, p1) =~= c);
    assert(b.subrange(p1, p1 + 8) =~= lf);
    assert(b.subrange(p1 + 8, p2) =~= f);
    assert(b.subrange(p2, p2 + 8) =~= ld);
    assert(b.subrange(p2 + 8, p3) =~= d);
    assert(b.subrange(p3, p3 + 8) =~= ls);
}

/// A buffer that decodes to a packet starts with that packet's encoding:
/// the wire format leaves no two ways to write the same packet, and what
/// follows the encoding plays no part in the decoding.
pub proof fn lemma_decoded_prefix(b: Seq<u8>)
    requires
        packet_from_wire(b) is Some,
    ensures
        packet_wire(packet_from_wire(b)->0).len() <= b.len(),
        b.subrange(0, packet_wire(packet_from_wire(b)->0).len() as int) =~= packet_wire(
            packet_from_wire(b)->0,
        ),
        packet_from_wire(b.subrange(0, packet_wire(packet_from_wire(b)->0).len() as int))
            == packet_from_wire(b),
{
    lemma_auto_spec_u64_to_from_le_bytes();
    let p = packet_from_wire(b)->0;
    let (cb, p1) = read_field_at(b, 0)->0;
    let (fb, p2) = read_field_at(b, p1)->0;
    let (d, p3) = read_field_at(b, p2)->0;
    decode_utf8_encode_utf8(cb);
    decode_utf8_encode_utf8(fb);
    assert(encode_utf8(p.command) == cb);
    assert(encode_utf8(p.filename) == fb);
    assert(spec_u64_to_le_bytes(cb.len() as u64) =~= b.subrange(0, 8));
    assert(spec_u64_to_le_bytes(fb.len() as u64) =~= b.subrange(p1, p1 + 8));
    assert(spec_u64_to_le_bytes(d.len() as u64) =~= b.subrange(p2, p2 + 8));
    assert(spec_u64_to_le_bytes(p.size as u64) =~= b.subrange(p3, p3 + 8));
    assert(packet_wire(p) =~= b.subrange(0, p3 + 8));
    lemma_wire_roundtrip(p, Seq::empty());
    assert(packet_wire(p) + Seq::<u8>::empty() =~= packet_wire(p));
}

} // verus!
