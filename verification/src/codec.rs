//! Binary packet framing: the fixed 16-byte big-endian header, frame
//! parsing, and frame serialization.

use vstd::prelude::*;
use crate::PacketError;

verus! {

/// Byte length of the fixed frame header.
pub const HEADER_LENGTH: u16 = 16;

/// Body encoding: the body is one logical entry, not re-parsed.
pub const ENC_PLAIN: u16 = 0;
/// Body encoding: the body is a raw integer value.
pub const ENC_INTEGER: u16 = 1;
/// Body encoding: the body is a zlib stream of concatenated sub-packets.
pub const ENC_ZLIB: u16 = 2;
/// Body encoding: the body is a brotli stream of concatenated sub-packets.
pub const ENC_BROTLI: u16 = 3;

/// Operation code of an outbound keepalive frame.
pub const OP_HEARTBEAT: u32 = 2;
/// Operation code of a keepalive acknowledgment carrying a popularity count.
pub const OP_HEARTBEAT_ACK: u32 = 3;
/// Operation code of a frame carrying room-event envelopes.
pub const OP_MESSAGE: u32 = 5;
/// Operation code of the outbound handshake frame.
pub const OP_CERTIFICATE: u32 = 7;
/// Operation code of the handshake acknowledgment.
pub const OP_CERTIFICATE_ACK: u32 = 8;

/// The fixed header of one wire frame. All fields are big-endian on the
/// wire; `sequence_id` is informational only.
#[derive(Debug, Clone, Copy, PartialEq, Eq, Structural)]
pub struct PacketHeader {
    pub total_length: u32,
    pub header_length: u16,
    pub encoding: u16,
    pub operation: u32,
    pub sequence_id: u32,
}

/// The two big-endian bytes of a `u16`.
pub open spec fn spec_u16_to_be_bytes(x: u16) -> Seq<u8> {
    seq![((x >> 8) & 0xff) as u8, (x & 0xff) as u8]
}

/// The `u16` read from two big-endian bytes.
pub open spec fn spec_u16_from_be_bytes(s: Seq<u8>) -> u16
    recommends
        s.len() == 2,
{
    ((s[0] as u16) << 8) | (s[1] as u16)
}

/// The four big-endian bytes of a `u32`.
pub open spec fn spec_u32_to_be_bytes(x: u32) -> Seq<u8> {
    seq![
        ((x >> 24) & 0xff) as u8,
        ((x >> 16) & 0xff) as u8,
        ((x >> 8) & 0xff) as u8,
        (x & 0xff) as u8,
    ]
}

/// The `u32` read from four big-endian bytes.
pub open spec fn spec_u32_from_be_bytes(s: Seq<u8>) -> u32
    recommends
        s.len() == 4,
{
    ((s[0] as u32) << 24) | ((s[1] as u32) << 16) | ((s[2] as u32) << 8) | (s[3] as u32)
}

pub proof fn lemma_u16_be_bytes_round_trip(x: u16)
    ensures
        spec_u16_to_be_bytes(x).len() == 2,
        spec_u16_from_be_bytes(spec_u16_to_be_bytes(x)) == x,
{
    assert((((((x >> 8) & 0xff) as u8) as u16) << 8) | (((x & 0xff) as u8) as u16) == x)
        by (bit_vector);
}

pub proof fn lemma_u32_be_bytes_round_trip(x: u32)
    ensures
        spec_u32_to_be_bytes(x).len() == 4,
        spec_u32_from_be_bytes(spec_u32_to_be_bytes(x)) == x,
{
    assert(((((x >> 24) & 0xff) as u8) as u32) << 24
        | ((((x >> 16) & 0xff) as u8) as u32) << 16
        | ((((x >> 8) & 0xff) as u8) as u32) << 8
        | (((x & 0xff) as u8) as u32) == x) by (bit_vector);
}

/// Reads the big-endian `u16` at offset `i`.
pub fn read_u16_be(bytes: &[u8], i: usize) -> (r: u16)
    requires
        i + 2 <= bytes@.len(),
    ensures
        r == spec_u16_from_be_bytes(bytes@.subrange(i as int, i + 2)),
{
    let r = ((bytes[i] as u16) << 8) | (bytes[i + 1] as u16);
    proof {
        let s = bytes@.subrange(i as int, i + 2);
        assert(s[0] == bytes@[i as int] && s[1] == bytes@[i + 1]);
    }
    r
}

/// Reads the big-endian `u32` at offset `i`.
pub fn read_u32_be(bytes: &[u8], i: usize) -> (r: u32)
    requires
        i + 4 <= bytes@.len(),
    ensures
        r == spec_u32_from_be_bytes(bytes@.subrange(i as int, i + 4)),
{
    let r = ((bytes[i] as u32) << 24) | ((bytes[i + 1] as u32) << 16)
        | ((bytes[i + 2] as u32) << 8) | (bytes[i + 3] as u32);
    proof {
        let s = bytes@.subrange(i as int, i + 4);
        assert(s[0] == bytes@[i as int] && s[1] == bytes@[i + 1] && s[2] == bytes@[i + 2]
            && s[3] == bytes@[i + 3]);
    }
    r
}

/// What `parse` returns on a byte buffer: the header read from the first 16
/// bytes and the body it delimits, or `FrameError` when the buffer is too
/// short, the header length is not 16, the declared total length does not fit
/// the buffer, or the encoding is outside the known set. Bytes past
/// `total_length` are left for the caller.
pub open spec fn spec_parse(bytes: Seq<u8>) -> Result<(PacketHeader, Seq<u8>), PacketError> {
    if bytes.len() < 16 {
        Err(PacketError::FrameError)
    } else {
        let h = PacketHeader {
            total_length: spec_u32_from_be_bytes(bytes.subrange(0, 4)),
            header_length: spec_u16_from_be_bytes(bytes.subrange(4, 6)),
            encoding: spec_u16_from_be_bytes(bytes.subrange(6, 8)),
            operation: spec_u32_from_be_bytes(bytes.subrange(8, 12)),
            sequence_id: spec_u32_from_be_bytes(bytes.subrange(12, 16)),
        };
        if h.header_length != 16 || h.total_length < 16 || h.total_length > bytes.len()
            || h.encoding > 3 {
            Err(PacketError::FrameError)
        } else {
            Ok((h, bytes.subrange(16, h.total_length as int)))
        }
    }
}

/// Parses the frame at the start of `bytes` into its header and body.
pub fn parse(bytes: &[u8]) -> (r: Result<(PacketHeader, Vec<u8>), PacketError>)
    ensures
        match r {
            Ok(p) => spec_parse(bytes@) == Ok::<(PacketHeader, Seq<u8>), PacketError>((
                p.0,
                p.1@,
            )),
            Err(e) => spec_parse(bytes@) == Err::<(PacketHeader, Seq<u8>), PacketError>(e),
        },
{
    if bytes.len() < 16 {
        return Err(PacketError::FrameError);
    }
    let header = PacketHeader {
        total_length: read_u32_be(bytes, 0),
        header_length: read_u16_be(bytes, 4),
        encoding: read_u16_be(bytes, 6),
        operation: read_u32_be(bytes, 8),
        sequence_id: read_u32_be(bytes, 12),
    };
    if header.header_length != 16 || header.total_length < 16
        || header.total_length as usize > bytes.len() || header.encoding > 3 {
        return Err(PacketError::FrameError);
    }
    let body = vstd::slice::slice_to_vec(
        vstd::slice::slice_subrange(bytes, 16, header.total_length as usize),
    );
    Ok((header, body))
}

/// The serialized bytes of a header followed by a body.
pub open spec fn spec_serialize(h: PacketHeader, body: Seq<u8>) -> Seq<u8> {
    spec_u32_to_be_bytes(h.total_length) + spec_u16_to_be_bytes(h.header_length)
        + spec_u16_to_be_bytes(h.encoding) + spec_u32_to_be_bytes(h.operation)
        + spec_u32_to_be_bytes(h.sequence_id) + body
}

fn push_u16_be(out: &mut Vec<u8>, x: u16)
    ensures
        final(out)@ == old(out)@ + spec_u16_to_be_bytes(x),
{
    proof {
        assert((x >> 8) & 0xff < 256 && x & 0xff < 256) by (bit_vector);
    }
    out.push(((x >> 8) & 0xff) as u8);
    out.push((x & 0xff) as u8);
    proof {
        assert(out@ =~= old(out)@ + spec_u16_to_be_bytes(x));
    }
}

fn push_u32_be(out: &mut Vec<u8>, x: u32)
    ensures
        final(out)@ == old(out)@ + spec_u32_to_be_bytes(x),
{
    proof {
        assert((x >> 24) & 0xff < 256 && (x >> 16) & 0xff < 256 && (x >> 8) & 0xff < 256
            && x & 0xff < 256) by (bit_vector);
    }
    out.push(((x >> 24) & 0xff) as u8);
    out.push(((x >> 16) & 0xff) as u8);
    out.push(((x >> 8) & 0xff) as u8);
    out.push((x & 0xff) as u8);
    proof {
        assert(out@ =~= old(out)@ + spec_u32_to_be_bytes(x));
    }
}

/// Serializes a header and body into one wire frame.
pub fn serialize(h: &PacketHeader, body: &[u8]) -> (r: Vec<u8>)
    ensures
        r@ == spec_serialize(*h, body@),
{
    let mut out: Vec<u8> = Vec::new();
    push_u32_be(&mut out, h.total_length);
    push_u16_be(&mut out, h.header_length);
    push_u16_be(&mut out, h.encoding);
    push_u32_be(&mut out, h.operation);
    push_u32_be(&mut out, h.sequence_id);
    let mut i: usize = 0;
    while i < body.len()
        invariant
            i <= body@.len(),
            out@ == spec_serialize(*h, body@.subrange(0, i as int)),
        decreases body@.len() - i,
    {
        out.push(body[i]);
        i = i + 1;
        proof {
            assert(spec_serialize(*h, body@.subrange(0, i as int)) =~= spec_serialize(
                *h,
                body@.subrange(0, i - 1),
            ) + seq![body@[i - 1]]);
        }
    }
    proof {
        assert(body@.subrange(0, body@.len() as int) =~= body@);
    }
    out
}

/// A header is syntactically valid for a body of length `body_len` when its
/// header length is 16, its total length covers exactly the header plus that
/// body, and its encoding is in the known set.
pub open spec fn wf_header(h: PacketHeader, body_len: nat) -> bool {
    &&& h.header_length == 16
    &&& h.total_length == 16 + body_len
    &&& h.encoding <= 3
}

/// Round trip: parsing a serialized, syntactically valid frame reproduces
/// the original header and body exactly.
pub proof fn lemma_parse_serialize_round_trip(h: PacketHeader, body: Seq<u8>)
    requires
        wf_header(h, body.len()),
    ensures
        spec_parse(spec_serialize(h, body)) == Ok::<(PacketHeader, Seq<u8>), PacketError>((
            h,
            body,
        )),
{
    let s = spec_serialize(h, body);
    lemma_u32_be_bytes_round_trip(h.total_length);
    lemma_u16_be_bytes_round_trip(h.header_length);
    lemma_u16_be_bytes_round_trip(h.encoding);
    lemma_u32_be_bytes_round_trip(h.operation);
    lemma_u32_be_bytes_round_trip(h.sequence_id);
    assert(s.subrange(0, 4) =~= spec_u32_to_be_bytes(h.total_length));
    assert(s.subrange(4, 6) =~= spec_u16_to_be_bytes(h.header_length));
    assert(s.subrange(6, 8) =~= spec_u16_to_be_bytes(h.encoding));
    assert(s.subrange(8, 12) =~= spec_u32_to_be_bytes(h.operation));
    assert(s.subrange(12, 16) =~= spec_u32_to_be_bytes(h.sequence_id));
    assert(s.subrange(16, h.total_length as int) =~= body);
}

/// Parsing looks only at the frame that `total_length` delimits: a
/// serialized, syntactically valid frame parses back to its header and
/// body whatever bytes follow it in the buffer.
pub proof fn lemma_parse_prefix(h: PacketHeader, body: Seq<u8>, tail: Seq<u8>)
    requires
        wf_header(h, body.len()),
    ensures
        spec_parse(spec_serialize(h, body) + tail) == Ok::<(PacketHeader, Seq<u8>), PacketError>(
            (h, body),
        ),
{
    let s = spec_serialize(h, body) + tail;
    lemma_u32_be_bytes_round_trip(h.total_length);
    lemma_u16_be_bytes_round_trip(h.header_length);
    lemma_u16_be_bytes_round_trip(h.encoding);
    lemma_u32_be_bytes_round_trip(h.operation);
    lemma_u32_be_bytes_round_trip(h.sequence_id);
    assert(s.subrange(0, 4) =~= spec_u32_to_be_bytes(h.total_length));
    assert(s.subrange(4, 6) =~= spec_u16_to_be_bytes(h.header_length));
    assert(s.subrange(6, 8) =~= spec_u16_to_be_bytes(h.encoding));
    assert(s.subrange(8, 12) =~= spec_u32_to_be_bytes(h.operation));
    assert(s.subrange(12, 16) =~= spec_u32_to_be_bytes(h.sequence_id));
    assert(s.subrange(16, h.total_length as int) =~= body);
}

} // verus!
