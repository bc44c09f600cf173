use std::io::Write;

use imageflash::codec::{accept_scan, by_ext, scan_bytes, Codec};
use imageflash::FlashError;
use sha2::Digest;

/// A deterministic sample image of the given length, carrying the
/// boot-sector signature when it is long enough.
fn sample_image(len: usize) -> Vec<u8> {
    let mut v: Vec<u8> = (0..len).map(|i| (i % 251) as u8).collect();
    if len >= 512 {
        v[510] = 0x55;
        v[511] = 0xAA;
    }
    v
}

fn bz2_compress(data: &[u8]) -> Vec<u8> {
    let mut enc = bzip2::write::BzEncoder::new(Vec::new(), bzip2::Compression::default());
    enc.write_all(data).unwrap();
    enc.finish().unwrap()
}

fn gz_compress(data: &[u8]) -> Vec<u8> {
    let mut enc = flate2::write::GzEncoder::new(Vec::new(), flate2::Compression::default());
    enc.write_all(data).unwrap();
    enc.finish().unwrap()
}

fn xz_compress(data: &[u8]) -> Vec<u8> {
    let mut enc = liblzma::write::XzEncoder::new(Vec::new(), 6);
    enc.write_all(data).unwrap();
    enc.finish().unwrap()
}

fn zstd_compress(data: &[u8]) -> Vec<u8> {
    zstd::stream::encode_all(data, 3).unwrap()
}

fn lz4_compress(data: &[u8]) -> Vec<u8> {
    let mut enc = lz4_flex::frame::FrameEncoder::new(Vec::new());
    enc.write_all(data).unwrap();
    enc.finish().unwrap()
}

/// Scan and stream must agree for one codec and one compressed input.
fn check_scan_matches_stream(ext: &str, data: &[u8], compressed: Vec<u8>) {
    let codec = by_ext(ext).unwrap();
    let opened = codec.open_bytes(&compressed).unwrap();
    assert_eq!(opened, data, "{ext}: decoded stream differs from the source bytes");
    let rep = codec.get_size_sum(&compressed).unwrap();
    assert_eq!(rep.length, opened.len(), "{ext}: scan length vs stream length");
    assert!(rep.signature_ok);
    let expected = sha2::Sha256::digest(data);
    assert_eq!(&rep.checksum[..], &expected[..], "{ext}: scan digest");
}

#[test]
fn scan_length_matches_stream_raw() {
    let data = sample_image(4096);
    check_scan_matches_stream("ISO", &data, data.clone());
}

#[test]
fn scan_length_matches_stream_bzip2() {
    let data = sample_image(3 * 512);
    check_scan_matches_stream("BZ2", &data, bz2_compress(&data));
}

#[test]
fn scan_length_matches_stream_gzip() {
    let data = sample_image(3 * 512);
    check_scan_matches_stream("GZ", &data, gz_compress(&data));
}

#[test]
fn scan_length_matches_stream_xz() {
    let data = sample_image(3 * 512);
    check_scan_matches_stream("XZ", &data, xz_compress(&data));
}

#[test]
fn scan_length_matches_stream_zstd() {
    let data = sample_image(3 * 512);
    check_scan_matches_stream("ZST", &data, zstd_compress(&data));
}

#[test]
fn scan_length_matches_stream_lz4() {
    let data = sample_image(3 * 512);
    check_scan_matches_stream("LZ4", &data, lz4_compress(&data));
}

#[test]
fn multi_member_gzip_decodes_fully() {
    let first = sample_image(1024);
    let second: Vec<u8> = (0..512).map(|i| (i % 7) as u8).collect();
    let mut joined = first.clone();
    joined.extend_from_slice(&second);
    let mut compressed = gz_compress(&first);
    compressed.extend_from_slice(&gz_compress(&second));
    check_scan_matches_stream("GZIP", &joined, compressed);
}

#[test]
fn multi_stream_bzip2_decodes_fully() {
    let first = sample_image(1024);
    let second: Vec<u8> = (0..512).map(|i| (i % 13) as u8).collect();
    let mut joined = first.clone();
    joined.extend_from_slice(&second);
    let mut compressed = bz2_compress(&first);
    compressed.extend_from_slice(&bz2_compress(&second));
    check_scan_matches_stream("BZIP2", &joined, compressed);
}

#[test]
fn corrupt_streams_are_rejected() {
    let garbage: Vec<u8> = (0..256).map(|i| (i * 7 % 256) as u8).collect();
    for ext in ["BZ2", "GZ", "XZ", "ZST", "LZ4"] {
        let codec = by_ext(ext).unwrap();
        assert_eq!(
            codec.open_bytes(&garbage).unwrap_err(),
            FlashError::CorruptStream,
            "{ext}"
        );
        assert_eq!(codec.get_size_sum(&garbage).unwrap_err(), FlashError::CorruptStream, "{ext}");
    }
}

#[test]
fn stream_shorter_than_boot_sector_is_rejected() {
    let codec = by_ext("IMG").unwrap();
    let data = sample_image(100);
    assert_eq!(codec.get_size_sum(&data).unwrap_err(), FlashError::ShortImage);
    assert_eq!(scan_bytes(&data).unwrap_err(), FlashError::ShortImage);
}

#[test]
fn missing_signature_is_a_decision_point() {
    let data = vec![0u8; 1024];
    let rep = scan_bytes(&data).unwrap();
    assert!(!rep.signature_ok);
    assert_eq!(rep.length, 1024);
    assert_eq!(accept_scan(&rep, false).unwrap_err(), FlashError::BadImageFormat);
    let (len, sum) = accept_scan(&rep, true).unwrap();
    assert_eq!(len, 1024);
    assert_eq!(sum, rep.checksum);
}

#[test]
fn present_signature_needs_no_decision() {
    let data = sample_image(512);
    let rep = scan_bytes(&data).unwrap();
    assert!(rep.signature_ok);
    let (len, sum) = accept_scan(&rep, false).unwrap();
    assert_eq!(len, 512);
    assert_eq!(sum, rep.checksum);
}

#[test]
fn direct_codec_passes_bytes_through() {
    let data = sample_image(2048);
    let codec: Codec = by_ext("RAW").unwrap();
    assert_eq!(codec.open_bytes(&data).unwrap(), data);
}
