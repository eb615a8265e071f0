use gzpipe::codec::{compress, compress_round_trip, decompress, CodecError, Encoder};

#[test]
fn roundtrip_small() {
    let data = b"Hello World".to_vec();
    let compressed = compress(&data).unwrap();
    let restored = decompress(&compressed).unwrap();
    assert_eq!(restored, data);
}

#[test]
fn roundtrip_empty() {
    let data: Vec<u8> = Vec::new();
    let compressed = compress(&data).unwrap();
    assert!(compressed.len() > 0);
    let restored = decompress(&compressed).unwrap();
    assert_eq!(restored, data);
}

#[test]
fn roundtrip_binary() {
    let mut data: Vec<u8> = Vec::new();
    for i in 0..4096usize {
        data.push((i % 251) as u8);
        data.push((i / 3) as u8);
    }
    let via_law = compress_round_trip(&data).unwrap();
    assert_eq!(via_law, data);
}

#[test]
fn compression_is_deterministic() {
    let data = b"the same bytes, twice over, give the same stream".to_vec();
    let first = compress(&data).unwrap();
    let second = compress(&data).unwrap();
    assert_eq!(first, second);
}

#[test]
fn compressed_form_differs_from_input() {
    let data = vec![0x61u8; 4096];
    let compressed = compress(&data).unwrap();
    assert_ne!(compressed, data);
    assert!(compressed.len() < data.len());
}

#[test]
fn decompress_rejects_garbage() {
    let garbage = b"this is not a gzip stream at all".to_vec();
    assert_eq!(decompress(&garbage), Err(CodecError));
}

#[test]
fn streamed_encoding_matches_one_shot() {
    let mut data: Vec<u8> = Vec::new();
    for i in 0..100_000usize {
        data.push((i % 17) as u8);
    }
    let mut enc = Encoder::new();
    let mut streamed: Vec<u8> = Vec::new();
    for piece in data.chunks(7919) {
        let out = enc.feed(piece).unwrap();
        streamed.extend_from_slice(&out);
    }
    let tail = enc.finish().unwrap();
    streamed.extend_from_slice(&tail);
    let one_shot = compress(&data).unwrap();
    assert_eq!(streamed, one_shot);
    assert_eq!(decompress(&streamed).unwrap(), data);
}
