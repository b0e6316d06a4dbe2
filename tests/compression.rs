use compressor::error::CoreError;
use compressor::gzip::{compress_bytes, compress_chunks, StreamCompressor, CHUNK_CAP};
use flate2::read::GzDecoder;
use std::io::Read;

fn gunzip(data: &[u8]) -> Vec<u8> {
    let mut out = Vec::new();
    GzDecoder::new(data).read_to_end(&mut out).expect("valid gzip stream");
    out
}

fn sample(len: usize) -> Vec<u8> {
    let mut x: u32 = 12345;
    (0..len)
        .map(|i| {
            x = x.wrapping_mul(1103515245).wrapping_add(12345);
            if i % 7 == 0 { b'a' } else { (x >> 24) as u8 }
        })
        .collect()
}

#[test]
fn round_trip_restores_bytes() {
    let data = b"The quick brown fox jumps over the lazy dog. The quick brown fox.".to_vec();
    let z = compress_bytes(&data).unwrap();
    assert_ne!(z, data);
    assert_eq!(&z[..2], &[0x1f, 0x8b]);
    assert_eq!(gunzip(&z), data);
}

#[test]
fn round_trip_single_byte() {
    let z = compress_bytes(&[0u8]).unwrap();
    assert_eq!(gunzip(&z), vec![0u8]);
}

#[test]
fn round_trip_of_chunked_body() {
    let data = sample(100_000);
    let chunks: Vec<Vec<u8>> = data.chunks(4096).map(|c| c.to_vec()).collect();
    let z = compress_chunks(&chunks).unwrap();
    assert_eq!(gunzip(&z), data);
}

#[test]
fn empty_body_gives_valid_empty_stream() {
    let z = compress_chunks(&Vec::new()).unwrap();
    assert!(z.len() >= 18);
    assert_eq!(&z[..2], &[0x1f, 0x8b]);
    assert_eq!(gunzip(&z), Vec::<u8>::new());
    assert_eq!(compress_bytes(&[]).unwrap(), z);
}

#[test]
fn chunking_does_not_change_output() {
    let data = sample(2 * 1024 * 1024);
    let chunks: Vec<Vec<u8>> = data.chunks(CHUNK_CAP).map(|c| c.to_vec()).collect();
    assert_eq!(chunks.len(), 4);
    let chunked = compress_chunks(&chunks).unwrap();
    let whole = compress_bytes(&data).unwrap();
    assert_eq!(chunked, whole);
    assert_eq!(gunzip(&whole), data);
}

#[test]
fn chunk_cap_is_half_a_mebibyte() {
    assert_eq!(CHUNK_CAP, 512 * 1024);
}

#[test]
fn stream_compressor_feeds_in_order() {
    let mut c = StreamCompressor::new();
    c.feed(b"hello, ").unwrap();
    c.accept(Ok(b"world".to_vec())).unwrap();
    let z = c.finish().unwrap();
    assert_eq!(gunzip(&z), b"hello, world".to_vec());
    assert_eq!(z, compress_bytes(b"hello, world").unwrap());
}

#[test]
fn failed_read_is_a_fetch_error() {
    let mut c = StreamCompressor::new();
    let r = c.accept(Err("connection reset".to_string()));
    assert_eq!(r, Err(CoreError::Fetch("connection reset".to_string())));
}

#[test]
fn empty_chunks_match_absent_body() {
    let empty = compress_chunks(&Vec::new()).unwrap();
    let blanks = compress_chunks(&vec![Vec::new(), Vec::new()]).unwrap();
    assert_eq!(blanks, empty);
}

#[test]
fn different_splits_give_equal_payloads() {
    let data = sample(10_000);
    let a: Vec<Vec<u8>> = data.chunks(3).map(|c| c.to_vec()).collect();
    let b: Vec<Vec<u8>> = vec![data[..7000].to_vec(), Vec::new(), data[7000..].to_vec()];
    assert_eq!(compress_chunks(&a).unwrap(), compress_chunks(&b).unwrap());
}
