use std::collections::HashMap;

use alkahest::tagscan::{read_raw_string_blob, scan_tag_data, u32_from_endian, u64_from_endian, Endian, RAW_STRING_MARKER};

fn blob(size: u64, body: &[u8]) -> Vec<u8> {
    let mut d = Vec::new();
    d.extend_from_slice(&RAW_STRING_MARKER.to_le_bytes());
    d.extend_from_slice(&size.to_le_bytes());
    d.extend_from_slice(body);
    d
}

#[test]
fn endian_conversions() {
    let b8 = [1u8, 2, 3, 4, 5, 6, 7, 8];
    assert_eq!(u64_from_endian(Endian::Little, b8), 0x0807060504030201);
    assert_eq!(u64_from_endian(Endian::Big, b8), 0x0102030405060708);
    let b4 = [0xde, 0xad, 0xbe, 0xef];
    assert_eq!(u32_from_endian(Endian::Little, b4), 0xefbeadde);
    assert_eq!(u32_from_endian(Endian::Big, b4), 0xdeadbeef);
}

#[test]
fn blob_strings_with_offsets() {
    let data = blob(8, b"ab\0cd\0\0e");
    let strings = read_raw_string_blob(&data, 0);
    assert_eq!(
        strings,
        vec![(12, "ab".to_string()), (15, "cd".to_string()), (19, "e".to_string())]
    );
}

#[test]
fn blob_at_an_offset() {
    let mut data = vec![0u8; 8];
    data.extend(blob(4, b"\0xy\0"));
    let strings = read_raw_string_blob(&data, 8);
    assert_eq!(strings, vec![(21, "xy".to_string())]);
}

#[test]
fn blob_bytes_read_as_latin1() {
    let data = blob(2, &[0xe9, 0x41]);
    let strings = read_raw_string_blob(&data, 0);
    assert_eq!(strings, vec![(12, "\u{e9}A".to_string())]);
}

#[test]
fn blob_that_does_not_fit_gives_nothing() {
    let data = blob(100, b"abc");
    assert!(read_raw_string_blob(&data, 0).is_empty());
    let short = vec![0x65u8, 0, 0x80, 0x80, 1, 0];
    assert!(read_raw_string_blob(&short, 0).is_empty());
    assert!(read_raw_string_blob(&data, 1000).is_empty());
    // Offsets so large that the size field lies past any data.
    assert!(read_raw_string_blob(&data, u64::MAX - 4).is_empty());
    assert!(read_raw_string_blob(&data, u64::MAX - 11).is_empty());
}

#[test]
fn empty_blob() {
    let data = blob(0, b"");
    assert!(read_raw_string_blob(&data, 0).is_empty());
    let zeros = blob(3, b"\0\0\0");
    assert!(read_raw_string_blob(&zeros, 0).is_empty());
}

#[test]
fn scan_finds_hashes_and_blobs() {
    let mut data = blob(8, b"ab\0cd\0\0e");
    data.extend_from_slice(&0xdeadbeefu32.to_le_bytes());
    data.extend_from_slice(&[1, 2]);
    let mut cache: HashMap<u32, Vec<String>> = HashMap::new();
    cache.insert(0xdeadbeef, vec!["thing".to_string()]);
    let scan = scan_tag_data(&data, &cache);
    assert_eq!(scan.string_hashes, vec![(20, 0xdeadbeef)]);
    assert_eq!(
        scan.raw_strings,
        vec![(12, "ab".to_string()), (15, "cd".to_string()), (19, "e".to_string())]
    );
}

#[test]
fn scan_of_unaligned_tail_and_no_hits() {
    let data = vec![0x65u8, 0, 0x80];
    let cache: HashMap<u32, Vec<String>> = HashMap::new();
    let scan = scan_tag_data(&data, &cache);
    assert!(scan.string_hashes.is_empty());
    assert!(scan.raw_strings.is_empty());
}
