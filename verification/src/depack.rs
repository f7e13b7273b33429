//! Body decomposition: a frame body is one entry when plain, or a
//! compressed concatenation of fully-framed sub-packets that is inflated and
//! re-framed into an ordered entry list. Nesting is capped at one level.

use vstd::prelude::*;
use crate::PacketError;
use crate::codec::{PacketHeader, spec_parse, parse, ENC_PLAIN, ENC_INTEGER, ENC_ZLIB, ENC_BROTLI};

verus! {

/// One logical entry recovered from a frame body: the header that framed it
/// and its body bytes. A plain body yields a single entry under the outer
/// frame's own header.
#[derive(Debug, Clone)]
pub struct Entry {
    pub header: PacketHeader,
    pub body: Vec<u8>,
}

impl View for Entry {
    type V = (PacketHeader, Seq<u8>);

    open spec fn view(&self) -> (PacketHeader, Seq<u8>) {
        (self.header, self.body@)
    }
}

/// What inflating a zlib stream yields, or `None` when the stream is
/// corrupt. Inflation depends on the input bytes alone.
pub uninterp spec fn zlib_inflate(b: Seq<u8>) -> Option<Seq<u8>>;

/// What inflating a brotli stream yields, or `None` when the stream is
/// corrupt. Inflation depends on the input bytes alone.
pub uninterp spec fn brotli_inflate(b: Seq<u8>) -> Option<Seq<u8>>;

/// Relies on flate2's `ZlibDecoder`: inflates a whole zlib stream, failing
/// on corrupt input; the result depends on the input bytes alone.
#[verifier::external_body]
fn zlib_decompress(b: &[u8]) -> (r: Option<Vec<u8>>)
    ensures
        match r {
            Some(v) => zlib_inflate(b@) == Some(v@),
            None => zlib_inflate(b@) is None,
        },
{
    let mut out: Vec<u8> = Vec::new();
    let mut dec = flate2::read::ZlibDecoder::new(b);
    match std::io::Read::read_to_end(&mut dec, &mut out) {
        Ok(_) => Some(out),
        Err(_) => None,
    }
}

/// Relies on the brotli crate's `Decompressor`: inflates a whole brotli
/// stream, failing on corrupt input; the result depends on the input bytes
/// alone.
#[verifier::external_body]
fn brotli_decompress(b: &[u8]) -> (r: Option<Vec<u8>>)
    ensures
        match r {
            Some(v) => brotli_inflate(b@) == Some(v@),
            None => brotli_inflate(b@) is None,
        },
{
    let mut out: Vec<u8> = Vec::new();
    let mut dec = brotli::Decompressor::new(b, 4096);
    match std::io::Read::read_to_end(&mut dec, &mut out) {
        Ok(_) => Some(out),
        Err(_) => None,
    }
}

/// What re-framing an inflated buffer yields: the ordered (header, body)
/// pairs of the concatenated sub-packets. A sub-packet that itself claims a
/// compressed encoding, or leftover bytes that do not form a full
/// sub-packet, is a `FrameError`.
pub open spec fn spec_split(buf: Seq<u8>) -> Result<Seq<(PacketHeader, Seq<u8>)>, PacketError>
    decreases buf.len(),
{
    if buf.len() == 0 {
        Ok(seq![])
    } else {
        match spec_parse(buf) {
            Err(e) => Err(e),
            Ok(p) => if p.0.encoding == ENC_ZLIB || p.0.encoding == ENC_BROTLI {
                Err(PacketError::FrameError)
            } else {
                match spec_split(buf.skip(p.0.total_length as int)) {
                    Err(e) => Err(e),
                    Ok(rest) => Ok(seq![p] + rest),
                }
            },
        }
    }
}

/// What `decompose` yields for a header and body: a single entry for a
/// plain or integer body, or the re-framed sub-packets of an inflated body.
pub open spec fn spec_decompose(h: PacketHeader, body: Seq<u8>) -> Result<
    Seq<(PacketHeader, Seq<u8>)>,
    PacketError,
> {
    if h.encoding == ENC_PLAIN || h.encoding == ENC_INTEGER {
        Ok(seq![(h, body)])
    } else if h.encoding == ENC_ZLIB {
        match zlib_inflate(body) {
            None => Err(PacketError::DecompressionError),
            Some(buf) => spec_split(buf),
        }
    } else if h.encoding == ENC_BROTLI {
        match brotli_inflate(body) {
            None => Err(PacketError::DecompressionError),
            Some(buf) => spec_split(buf),
        }
    } else {
        Err(PacketError::FrameError)
    }
}

/// A finished prefix of entries joined with the result of splitting the
/// rest of a buffer: errors pass through, entries concatenate in order.
pub open spec fn spec_split_prepend(
    done: Seq<(PacketHeader, Seq<u8>)>,
    rest: Result<Seq<(PacketHeader, Seq<u8>)>, PacketError>,
) -> Result<Seq<(PacketHeader, Seq<u8>)>, PacketError> {
    match rest {
        Ok(t) => Ok(done + t),
        Err(e) => Err(e),
    }
}

/// Repeatedly parses the sub-packets concatenated in an inflated buffer.
fn split_subpackets(buf: &[u8]) -> (r: Result<Vec<Entry>, PacketError>)
    ensures
        match r {
            Ok(entries) => spec_split(buf@) == Ok::<Seq<(PacketHeader, Seq<u8>)>, PacketError>(
                entries@.map_values(|e: Entry| e@),
            ),
            Err(e) => spec_split(buf@) == Err::<Seq<(PacketHeader, Seq<u8>)>, PacketError>(e),
        },
{
    let mut entries: Vec<Entry> = Vec::new();
    let mut pos: usize = 0;
    proof {
        assert(buf@.skip(0) =~= buf@);
        match spec_split(buf@) {
            Ok(t) => {
                assert(entries@.map_values(|e: Entry| e@) + t =~= t);
            },
            Err(_) => {},
        }
    }
    loop
        invariant
            pos <= buf@.len(),
            spec_split(buf@) == spec_split_prepend(
                entries@.map_values(|e: Entry| e@),
                spec_split(buf@.skip(pos as int)),
            ),
        decreases buf@.len() - pos,
    {
        if pos == buf.len() {
            proof {
                assert(buf@.skip(pos as int) =~= Seq::<u8>::empty());
                assert(entries@.map_values(|e: Entry| e@) + seq![] =~= entries@.map_values(
                    |e: Entry| e@,
                ));
            }
            return Ok(entries);
        }
        let tail = vstd::slice::slice_subrange(buf, pos, buf.len());
        proof {
            assert(tail@ =~= buf@.skip(pos as int));
        }
        match parse(tail) {
            Err(e) => {
                return Err(e);
            },
            Ok((h, b)) => {
                if h.encoding == ENC_ZLIB || h.encoding == ENC_BROTLI {
                    return Err(PacketError::FrameError);
                }
                let ghost old_entries = entries@;
                let ghost old_pos = pos as int;
                let tl = h.total_length as usize;
                entries.push(Entry { header: h, body: b });
                pos = pos + tl;
                proof {
                    assert(buf@.skip(old_pos).skip(tl as int) =~= buf@.skip(pos as int));
                    assert(entries@.map_values(|e: Entry| e@) =~= old_entries.map_values(
                        |e: Entry| e@,
                    ) + seq![(h, b@)]);
                    match spec_split(buf@.skip(pos as int)) {
                        Ok(rest) => {
                            assert(old_entries.map_values(|e: Entry| e@) + (seq![(h, b@)] + rest)
                                =~= entries@.map_values(|e: Entry| e@) + rest);
                        },
                        Err(_) => {},
                    }
                }
            },
        }
    }
}

/// Decomposes a frame body into its ordered entries according to the
/// header's encoding: a plain or integer body is one entry; a zlib or brotli
/// body is inflated (`DecompressionError` on corrupt input) and re-framed
/// into one entry per sub-packet, with nesting beyond one compression level
/// rejected as `FrameError`.
pub fn decompose(header: &PacketHeader, body: Vec<u8>) -> (r: Result<Vec<Entry>, PacketError>)
    ensures
        match r {
            Ok(entries) => spec_decompose(*header, body@) == Ok::<
                Seq<(PacketHeader, Seq<u8>)>,
                PacketError,
            >(entries@.map_values(|e: Entry| e@)),
            Err(e) => spec_decompose(*header, body@) == Err::<
                Seq<(PacketHeader, Seq<u8>)>,
                PacketError,
            >(e),
        },
{
    if header.encoding == ENC_PLAIN || header.encoding == ENC_INTEGER {
        let mut entries: Vec<Entry> = Vec::new();
        entries.push(Entry { header: *header, body });
        proof {
            assert(entries@.map_values(|e: Entry| e@) =~= seq![(*header, body@)]);
        }
        Ok(entries)
    } else if header.encoding == ENC_ZLIB {
        match zlib_decompress(body.as_slice()) {
            None => Err(PacketError::DecompressionError),
            Some(buf) => split_subpackets(buf.as_slice()),
        }
    } else if header.encoding == ENC_BROTLI {
        match brotli_decompress(body.as_slice()) {
            None => Err(PacketError::DecompressionError),
            Some(buf) => split_subpackets(buf.as_slice()),
        }
    } else {
        Err(PacketError::FrameError)
    }
}

/// The bytes of a list of (header, body) pairs serialized one after
/// another.
pub open spec fn frames_concat(subs: Seq<(PacketHeader, Seq<u8>)>) -> Seq<u8>
    decreases subs.len(),
{
    if subs.len() == 0 {
        seq![]
    } else {
        crate::codec::spec_serialize(subs.first().0, subs.first().1) + frames_concat(
            subs.drop_first(),
        )
    }
}

/// A buffer that is the concatenation of syntactically valid, uncompressed
/// sub-packets re-frames into exactly those sub-packets, in their original
/// order.
#[verifier::rlimit(100)]
#[verifier::spinoff_prover]
pub proof fn lemma_split_concat(subs: Seq<(PacketHeader, Seq<u8>)>)
    requires
        forall|i: int|
            0 <= i < subs.len() ==> {
                &&& crate::codec::wf_header((#[trigger] subs[i]).0, subs[i].1.len())
                &&& subs[i].0.encoding != ENC_ZLIB
                &&& subs[i].0.encoding != ENC_BROTLI
            },
    ensures
        spec_split(frames_concat(subs)) == Ok::<Seq<(PacketHeader, Seq<u8>)>, PacketError>(subs),
    decreases subs.len(),
{
    if subs.len() == 0 {
        assert(frames_concat(subs) =~= Seq::<u8>::empty());
        assert(subs =~= Seq::<(PacketHeader, Seq<u8>)>::empty());
    } else {
        let h = subs.first().0;
        let b = subs.first().1;
        let rest = subs.drop_first();
        let buf = frames_concat(subs);
        crate::codec::lemma_parse_prefix(h, b, frames_concat(rest));
        assert(spec_parse(buf) == Ok::<(PacketHeader, Seq<u8>), PacketError>((h, b)));
        assert(buf.len() > 0);
        assert(buf.skip(h.total_length as int) =~= frames_concat(rest));
        lemma_split_concat(rest);
        assert(spec_split(buf.skip(h.total_length as int)) == Ok::<
            Seq<(PacketHeader, Seq<u8>)>,
            PacketError,
        >(rest));
        assert(spec_split(buf) == Ok::<Seq<(PacketHeader, Seq<u8>)>, PacketError>(
            seq![(h, b)] + rest,
        ));
        assert(seq![(h, b)] + rest =~= subs);
    }
}

/// Sub-packet nesting beyond one compression level is rejected: a
/// sub-packet that itself claims a compressed encoding makes the whole
/// re-framing a `FrameError`, wherever it stands in the buffer.
pub proof fn lemma_nested_compression_rejected(h: PacketHeader, body: Seq<u8>, tail: Seq<u8>)
    requires
        crate::codec::wf_header(h, body.len()),
        h.encoding == ENC_ZLIB || h.encoding == ENC_BROTLI,
    ensures
        spec_split(crate::codec::spec_serialize(h, body) + tail) == Err::<
            Seq<(PacketHeader, Seq<u8>)>,
            PacketError,
        >(PacketError::FrameError),
{
    crate::codec::lemma_parse_prefix(h, body, tail);
}

/// A compressed body whose inflation is the concatenation of N
/// syntactically valid, uncompressed sub-packets decomposes into exactly
/// those N entries, in their original order.
pub proof fn lemma_compressed_body_entries(
    h: PacketHeader,
    body: Seq<u8>,
    subs: Seq<(PacketHeader, Seq<u8>)>,
)
    requires
        h.encoding == ENC_ZLIB || h.encoding == ENC_BROTLI,
        h.encoding == ENC_ZLIB ==> zlib_inflate(body) == Some(frames_concat(subs)),
        h.encoding == ENC_BROTLI ==> brotli_inflate(body) == Some(frames_concat(subs)),
        forall|i: int|
            0 <= i < subs.len() ==> {
                &&& crate::codec::wf_header((#[trigger] subs[i]).0, subs[i].1.len())
                &&& subs[i].0.encoding != ENC_ZLIB
                &&& subs[i].0.encoding != ENC_BROTLI
            },
    ensures
        spec_decompose(h, body) == Ok::<Seq<(PacketHeader, Seq<u8>)>, PacketError>(subs),
{
    lemma_split_concat(subs);
}

/// Decomposition is deterministic: on identical headers and identical bytes
/// it yields an identical entry list, in identical order.
pub proof fn lemma_decompose_deterministic(
    h1: PacketHeader,
    b1: Seq<u8>,
    h2: PacketHeader,
    b2: Seq<u8>,
)
    requires
        h1 == h2,
        b1 == b2,
    ensures
        spec_decompose(h1, b1) == spec_decompose(h2, b2),
{
}

} // verus!
