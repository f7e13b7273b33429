use roomfeed::codec::{parse, serialize, PacketHeader, ENC_PLAIN, ENC_ZLIB, ENC_BROTLI, OP_MESSAGE};
use roomfeed::depack::{decompose, Entry};
use roomfeed::PacketError;

fn header(total_length: u32, encoding: u16, operation: u32, sequence_id: u32) -> PacketHeader {
    PacketHeader { total_length, header_length: 16, encoding, operation, sequence_id }
}

fn frame(encoding: u16, operation: u32, body: &[u8]) -> Vec<u8> {
    let h = header(16 + body.len() as u32, encoding, operation, 7);
    serialize(&h, body)
}

fn zlib_compress(data: &[u8]) -> Vec<u8> {
    let mut enc = flate2::write::ZlibEncoder::new(Vec::new(), flate2::Compression::default());
    std::io::Write::write_all(&mut enc, data).unwrap();
    enc.finish().unwrap()
}

fn brotli_compress(data: &[u8]) -> Vec<u8> {
    let mut out = Vec::new();
    {
        let mut enc = brotli::CompressorWriter::new(&mut out, 4096, 5, 22);
        std::io::Write::write_all(&mut enc, data).unwrap();
    }
    out
}

#[test]
fn parse_serialize_round_trip() {
    let body = b"hello frame";
    let h = header(16 + body.len() as u32, ENC_PLAIN, OP_MESSAGE, 42);
    let bytes = serialize(&h, body);
    assert_eq!(bytes.len(), 16 + body.len());
    let (h2, b2) = parse(&bytes).unwrap();
    assert_eq!(h2, h);
    assert_eq!(b2, body.to_vec());
}

#[test]
fn parse_rejects_short_buffer() {
    assert_eq!(parse(&[0u8; 15]), Err(PacketError::FrameError));
}

#[test]
fn parse_rejects_wrong_header_length() {
    let mut bytes = frame(ENC_PLAIN, OP_MESSAGE, b"x");
    bytes[5] = 17;
    assert_eq!(parse(&bytes), Err(PacketError::FrameError));
}

#[test]
fn parse_rejects_total_length_past_buffer() {
    let mut bytes = frame(ENC_PLAIN, OP_MESSAGE, b"x");
    bytes[3] = 200;
    assert_eq!(parse(&bytes), Err(PacketError::FrameError));
}

#[test]
fn parse_rejects_unknown_encoding() {
    let bytes = frame(9, OP_MESSAGE, b"x");
    assert_eq!(parse(&bytes), Err(PacketError::FrameError));
}

#[test]
fn parse_reads_big_endian_fields() {
    let bytes = frame(ENC_PLAIN, OP_MESSAGE, b"abc");
    assert_eq!(&bytes[0..4], &[0, 0, 0, 19]);
    assert_eq!(&bytes[4..6], &[0, 16]);
    let (h, _) = parse(&bytes).unwrap();
    assert_eq!(h.total_length, 19);
    assert_eq!(h.operation, OP_MESSAGE);
    assert_eq!(h.sequence_id, 7);
}

#[test]
fn decompose_plain_is_single_entry() {
    let body = b"payload".to_vec();
    let h = header(16 + 7, ENC_PLAIN, OP_MESSAGE, 1);
    let entries = decompose(&h, body.clone()).unwrap();
    assert_eq!(entries.len(), 1);
    assert_eq!(entries[0].header, h);
    assert_eq!(entries[0].body, body);
}

#[test]
fn decompose_is_deterministic() {
    let inner = [frame(ENC_PLAIN, OP_MESSAGE, b"one"), frame(ENC_PLAIN, OP_MESSAGE, b"two")]
        .concat();
    let packed = zlib_compress(&inner);
    let h = header(16 + packed.len() as u32, ENC_ZLIB, OP_MESSAGE, 1);
    let a = decompose(&h, packed.clone()).unwrap();
    let b = decompose(&h, packed).unwrap();
    assert_eq!(a.len(), b.len());
    for (x, y) in a.iter().zip(b.iter()) {
        assert_eq!(x.header, y.header);
        assert_eq!(x.body, y.body);
    }
}

#[test]
fn zlib_body_reframes_into_each_subpacket_in_order() {
    let subs: Vec<Vec<u8>> = vec![b"first".to_vec(), b"second".to_vec(), b"third".to_vec()];
    let mut inner = Vec::new();
    for s in &subs {
        inner.extend_from_slice(&frame(ENC_PLAIN, OP_MESSAGE, s));
    }
    let packed = zlib_compress(&inner);
    let h = header(16 + packed.len() as u32, ENC_ZLIB, OP_MESSAGE, 1);
    let entries: Vec<Entry> = decompose(&h, packed).unwrap();
    assert_eq!(entries.len(), 3);
    for (e, s) in entries.iter().zip(subs.iter()) {
        assert_eq!(&e.body, s);
        // each entry is independently re-parseable as one full frame
        let whole = serialize(&e.header, &e.body);
        let (h2, b2) = parse(&whole).unwrap();
        assert_eq!(h2, e.header);
        assert_eq!(&b2, s);
    }
}

#[test]
fn brotli_body_reframes_into_subpackets() {
    let inner = frame(ENC_PLAIN, OP_MESSAGE, b"inside brotli");
    let packed = brotli_compress(&inner);
    let h = header(16 + packed.len() as u32, ENC_BROTLI, OP_MESSAGE, 1);
    let entries = decompose(&h, packed).unwrap();
    assert_eq!(entries.len(), 1);
    assert_eq!(entries[0].body, b"inside brotli".to_vec());
}

#[test]
fn corrupt_zlib_is_decompression_error() {
    let h = header(16 + 4, ENC_ZLIB, OP_MESSAGE, 1);
    assert_eq!(
        decompose(&h, vec![1, 2, 3, 4]).unwrap_err(),
        PacketError::DecompressionError
    );
}

#[test]
fn nested_compression_is_frame_error() {
    // a sub-packet that itself claims a compressed encoding
    let nested = frame(ENC_ZLIB, OP_MESSAGE, b"deeper");
    let packed = zlib_compress(&nested);
    let h = header(16 + packed.len() as u32, ENC_ZLIB, OP_MESSAGE, 1);
    assert_eq!(decompose(&h, packed).unwrap_err(), PacketError::FrameError);
}

#[test]
fn truncated_subpacket_tail_is_frame_error() {
    let mut inner = frame(ENC_PLAIN, OP_MESSAGE, b"whole");
    inner.extend_from_slice(&[0, 0, 0]);  // leftover too short for a header
    let packed = zlib_compress(&inner);
    let h = header(16 + packed.len() as u32, ENC_ZLIB, OP_MESSAGE, 1);
    assert_eq!(decompose(&h, packed).unwrap_err(), PacketError::FrameError);
}

#[test]
fn empty_compressed_stream_yields_no_entries() {
    let packed = zlib_compress(b"");
    let h = header(16 + packed.len() as u32, ENC_ZLIB, OP_MESSAGE, 1);
    let entries = decompose(&h, packed).unwrap();
    assert!(entries.is_empty());
}

#[test]
fn corrupt_brotli_is_decompression_error() {
    let h = header(16 + 3, ENC_BROTLI, OP_MESSAGE, 1);
    assert_eq!(
        decompose(&h, vec![0xff, 0xfe, 0xfd]).unwrap_err(),
        PacketError::DecompressionError
    );
}
