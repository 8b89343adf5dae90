use std::collections::HashMap;

use alkahest::filters::{filter_string_hashes, filter_texts, passes_filter, str_contains};
use alkahest::scan_result::{EntryHeader, ExtendedTagHash, ScannedHashWithEntry};
use alkahest::tagtypes::{DisplayColor, PackageVersion, TagType};
use alkahest::views::{
    file_hash_rows, group_raw_strings, open_tag_outcome, reference_rows, string_hash_rows, string_hash_users,
    OpenTagOutcome,
};

fn strings(v: &[&str]) -> Vec<String> {
    v.iter().map(|s| s.to_string()).collect()
}

#[test]
fn substring_search() {
    assert!(str_contains("hello world", "lo w"));
    assert!(str_contains("hello", ""));
    assert!(str_contains("", ""));
    assert!(!str_contains("", "a"));
    assert!(!str_contains("hello", "hellos"));
    assert!(str_contains("aaab", "aab"));
    assert!(str_contains("héllo", "él"));
}

#[test]
fn search_filters() {
    assert!(passes_filter("Anything", "", false));
    assert!(passes_filter("Player_Head", "head", false));
    // The filter as typed is not lowercased...
    assert!(!passes_filter("Player_Head", "Head", false));
    // ...unless asked for.
    assert!(passes_filter("Player_Head", "Head", true));
    assert!(!passes_filter("abc", "x", true));
}

#[test]
fn filtering_texts_keeps_positions() {
    let texts = strings(&["w64_sr_audio", "w64_ui_startup", "W64_SR_GEAR", "other"]);
    assert_eq!(filter_texts(&texts, "sr", false), vec![0, 2]);
    assert_eq!(filter_texts(&texts, "SR", false), Vec::<usize>::new());
    assert_eq!(filter_texts(&texts, "SR", true), vec![0, 2]);
    assert_eq!(filter_texts(&texts, "", false), vec![0, 1, 2, 3]);
}

#[test]
fn filtering_string_hashes() {
    let cache = vec![
        (1u32, strings(&["Hello", "World"])),
        (2u32, strings(&["nothing"])),
        (3u32, strings(&["WORLDS"])),
    ];
    assert_eq!(filter_string_hashes(&cache, "world"), vec![0, 2]);
    assert_eq!(filter_string_hashes(&cache, "World"), Vec::<usize>::new());
    assert_eq!(filter_string_hashes(&cache, ""), vec![0, 1, 2]);
}

#[test]
fn raw_strings_grouped_by_text() {
    let per_tag = vec![
        (10u32, strings(&["a", "b", "a"])),
        (20u32, strings(&["b"])),
        (30u32, strings(&[])),
        (40u32, strings(&["c", "a"])),
    ];
    let g = group_raw_strings(&per_tag);
    assert_eq!(
        g,
        vec![
            ("a".to_string(), vec![10, 10, 40]),
            ("b".to_string(), vec![10, 20]),
            ("c".to_string(), vec![40]),
        ]
    );
    assert!(group_raw_strings(&vec![]).is_empty());
}

fn entry(file_type: u8, file_subtype: u8) -> EntryHeader {
    EntryHeader { reference: 0x80800000, file_type, file_subtype }
}

#[test]
fn tag_view_rows() {
    let mut table = HashMap::new();
    table.insert(0x55u64, 7u32);
    let hashes = vec![
        ScannedHashWithEntry { offset: 4, hash: ExtendedTagHash::Hash32(7), entry: Some(entry(32, 1)) },
        ScannedHashWithEntry { offset: 8, hash: ExtendedTagHash::Hash64(0x55), entry: None },
        ScannedHashWithEntry { offset: 12, hash: ExtendedTagHash::Hash32(9), entry: Some(entry(8, 0)) },
    ];
    let rows = file_hash_rows(&hashes, 7, &table, PackageVersion::Destiny2Lightfall);
    assert_eq!(rows.len(), 3);
    assert_eq!(rows[0].tag_type, Some(TagType::Texture2D { is_header: true }));
    assert_eq!(rows[0].color, DisplayColor::Green);
    assert!(!rows[0].enabled);
    assert_eq!(rows[1].tag, 7);
    assert_eq!(rows[1].tag_type, None);
    assert_eq!(rows[1].color, DisplayColor::LightRed);
    assert!(!rows[1].enabled);
    assert_eq!((rows[2].tag, rows[2].offset), (9, 12));
    assert_eq!(rows[2].color, DisplayColor::Gray);
    assert!(rows[2].enabled);

    let refs = reference_rows(&vec![(7, entry(26, 6)), (8, entry(26, 6))], 7, PackageVersion::Destiny2Shadowkeep);
    assert_eq!(refs[0].tag_type, TagType::WwiseStream);
    assert!(!refs[0].enabled);
    assert!(refs[1].enabled);
}

#[test]
fn string_hash_lines_cycle_collisions() {
    let mut cache = HashMap::new();
    cache.insert(0xaau32, strings(&["one", "two", "three"]));
    cache.insert(0xbbu32, strings(&["single"]));
    let found = vec![(0x10u64, 0xaau32), (0x14, 0xcc), (0x18, 0xbb)];
    let rows = string_hash_rows(&found, &cache, 4);
    assert_eq!(rows.len(), 2);
    assert_eq!((rows[0].text.as_str(), rows[0].collisions, rows[0].hash, rows[0].offset), ("two", Some(3), 0xaa, 0x10));
    assert_eq!((rows[1].text.as_str(), rows[1].collisions), ("single", None));
    assert_eq!(string_hash_rows(&found, &cache, 6)[0].text, "one");
}

#[test]
fn tags_using_a_string_hash() {
    let scans = vec![
        (1u32, vec![(0u64, 5u32), (4, 6)]),
        (2u32, vec![(0u64, 7u32)]),
        (3u32, vec![(8u64, 6u32)]),
        (4u32, vec![(8u64, 6u32)]),
    ];
    let mut entries = HashMap::new();
    entries.insert(1u32, entry(8, 0));
    entries.insert(4u32, entry(16, 0));
    let users = string_hash_users(&scans, 6, &entries, PackageVersion::Destiny2Lightfall);
    assert_eq!(users, vec![(1, entry(8, 0), TagType::Tag), (4, entry(16, 0), TagType::TagGlobal)]);
    assert!(string_hash_users(&scans, 99, &entries, PackageVersion::Destiny2Lightfall).is_empty());
}

#[test]
fn opening_tags() {
    assert_eq!(open_tag_outcome(true, false), OpenTagOutcome::Opened);
    assert_eq!(open_tag_outcome(false, true), OpenTagOutcome::NotInCache);
    assert_eq!(open_tag_outcome(false, false), OpenTagOutcome::NotFound);
}
