use std::collections::HashMap;

use alkahest::debug_text::{atlas_index, quad_indices, DebugTextAlign, CHARACTER_COUNT};
use alkahest::gpu_buffer::GpuBufferDesc;
use alkahest::gui::{CafeMarker, PackagesView, Panel, CAFE_MARKER};
use alkahest::model::{get_permutation_technique, permutation_count, MaterialVariants};
use alkahest::object::{ArenaIndex, RenderObjectHandle};
use alkahest::scan_result::{
    from_scan_result, reference_list, EntryHeader, ExtendedTagHash, ScanResult, ScannedHashWithEntry,
};

#[test]
fn debug_text_alignment() {
    assert_eq!(DebugTextAlign::TopLeft.origin(), (0, 0));
    assert_eq!(DebugTextAlign::TopRight.origin(), (1, 0));
    assert_eq!(DebugTextAlign::BottomLeft.origin(), (0, 1));
    assert_eq!(DebugTextAlign::BottomRight.origin(), (1, 1));
}

#[test]
fn atlas_cells() {
    assert_eq!(atlas_index('!'), 0);
    assert_eq!(atlas_index('A'), 32);
    assert_eq!(atlas_index('~'), 93);
    assert_eq!(atlas_index('?'), 30);
    // Anything else is drawn as '?'.
    assert_eq!(atlas_index(' '), 30);
    assert_eq!(atlas_index('é'), 30);
    assert!(atlas_index('~') < CHARACTER_COUNT);
}

#[test]
fn glyph_quad_indices() {
    assert!(quad_indices(0).is_empty());
    assert_eq!(quad_indices(2), vec![0, 1, 3, 0, 3, 2, 4, 5, 7, 4, 7, 6]);
    let many = quad_indices(1000);
    assert_eq!(many.len(), 6000);
    assert_eq!(&many[5994..], &[3996, 3997, 3999, 3996, 3999, 3998]);
}

#[test]
fn gpu_buffer_description() {
    let d = GpuBufferDesc::builder("hzb readback".to_string());
    assert_eq!(d.capacity, 1);
    let d = d.capacity(16).with_name("depth".to_string());
    assert_eq!(d.label, "depth");
    assert_eq!(d.capacity, 16);
    assert_eq!(d.byte_width(12), 192);
    assert!(d.holds_element(15));
    assert!(!d.holds_element(16));
}

#[test]
fn package_view_and_markers() {
    let v = PackagesView::new();
    assert!(!v.has_selection());
    assert!(v.package_filter.is_empty());
    let w = PackagesView { selected_package: 3, ..PackagesView::new() };
    assert!(w.has_selection());
    assert_ne!(Panel::Tag, Panel::Packages);
    assert_eq!(CafeMarker::from_word(CAFE_MARKER), Some(CafeMarker(0xcafe)));
    assert_eq!(CafeMarker::from_word(0xbeef), None);
}

#[test]
fn render_object_handles() {
    let invalid = RenderObjectHandle::invalid();
    assert!(!invalid.is_valid());
    assert_eq!(invalid.index(), ArenaIndex::invalid());
    let h = RenderObjectHandle(ArenaIndex { slot: 4, generation: 2 });
    assert!(h.is_valid());
    assert_eq!(h.index().slot, 4);
    assert!(RenderObjectHandle(ArenaIndex { slot: u32::MAX, generation: 0 }).is_valid());
}

#[test]
fn model_permutations() {
    let map = vec![
        MaterialVariants { technique_start: 0, technique_count: 3, unk8: 1 },
        MaterialVariants { technique_start: 3, technique_count: 2, unk8: 0 },
        MaterialVariants { technique_start: 5, technique_count: 1, unk8: 0 },
    ];
    assert_eq!(permutation_count(&map), 2);
    assert_eq!(permutation_count(&vec![]), 1);
    assert_eq!(permutation_count(&map[..1].to_vec()), 1);

    let techniques = vec!["a", "b", "c", "d", "e", "f"];
    assert_eq!(get_permutation_technique(&map, &techniques, 0, 4), Some(&"b"));
    assert_eq!(get_permutation_technique(&map, &techniques, 1, 4), Some(&"d"));
    assert_eq!(get_permutation_technique(&map, &techniques, 1, 5), Some(&"e"));
    assert_eq!(get_permutation_technique(&map, &techniques, 2, 9), Some(&"f"));
    assert_eq!(get_permutation_technique(&map, &techniques, 3, 0), None);
    assert_eq!(get_permutation_technique(&map, &techniques, u16::MAX, 0), None);
}

fn entry(reference: u32) -> EntryHeader {
    EntryHeader { reference, file_type: 8, file_subtype: 0 }
}

#[test]
fn scan_results_resolve_and_sort() {
    let mut table = HashMap::new();
    table.insert(0xaaaa_0000_0000_0001u64, 20u32);
    let mut entries = HashMap::new();
    entries.insert(10u32, entry(1));
    entries.insert(20u32, entry(2));
    entries.insert(30u32, entry(3));
    let scan = ScanResult {
        file_hashes: vec![(0x40, 10), (0x10, 11)],
        file_hashes64: vec![(0x20, 0xaaaa_0000_0000_0001)],
        string_hashes: vec![(0x8, 0x1234)],
        references: vec![30, 10],
    };
    let r = from_scan_result(scan, &table, &entries);
    assert_eq!(
        r.file_hashes,
        vec![
            ScannedHashWithEntry { offset: 0x10, hash: ExtendedTagHash::Hash32(11), entry: None },
            ScannedHashWithEntry {
                offset: 0x20,
                hash: ExtendedTagHash::Hash64(0xaaaa_0000_0000_0001),
                entry: Some(entry(2)),
            },
            ScannedHashWithEntry { offset: 0x40, hash: ExtendedTagHash::Hash32(10), entry: Some(entry(1)) },
        ]
    );
    assert_eq!(r.string_hashes, vec![(0x8, 0x1234)]);
    assert_eq!(r.references, vec![(30, entry(3)), (10, entry(1))]);

    assert_eq!(ExtendedTagHash::Hash32(7).hash32(&table), 7);
    assert_eq!(ExtendedTagHash::Hash64(0xaaaa_0000_0000_0001).hash32(&table), 20);
    assert_eq!(reference_list(&r.file_hashes, &table), vec![(11, 0x10), (20, 0x20), (10, 0x40)]);
}

#[test]
fn scan_results_keep_hashes_at_one_offset() {
    let table = HashMap::new();
    let entries = HashMap::new();
    let scan = ScanResult {
        file_hashes: vec![(8, 1), (4, 2), (8, 3), (0, 4)],
        file_hashes64: vec![],
        string_hashes: vec![],
        references: vec![],
    };
    let r = from_scan_result(scan, &table, &entries);
    let offsets: Vec<u64> = r.file_hashes.iter().map(|h| h.offset).collect();
    assert_eq!(offsets, vec![0, 4, 8, 8]);
    let mut tags: Vec<u32> = r
        .file_hashes
        .iter()
        .map(|h| match h.hash {
            ExtendedTagHash::Hash32(t) => t,
            ExtendedTagHash::Hash64(_) => 0,
        })
        .collect();
    assert_eq!(&tags[..2], &[4, 2]);
    tags.sort();
    assert_eq!(tags, vec![1, 2, 3, 4]);
}
