use alkahest::object::ArenaIndex;
use alkahest::submit::{linear_submit_chunks, select_stage_objects, FrameNode, RenderObjectSlot, SubmitChunk};

fn ranges(chunks: &[SubmitChunk]) -> Vec<(usize, usize)> {
    chunks.iter().map(|c| (c.start, c.end)).collect()
}

#[test]
fn chunks_of_ten_objects_on_two_threads() {
    let c = linear_submit_chunks(10, 2);
    // Six jobs of ceil(10 / 6) = 2 objects; the last job has none.
    assert_eq!(ranges(&c), vec![(0, 2), (2, 4), (4, 6), (6, 8), (8, 10)]);
    assert_eq!(
        c.iter().map(|c| (c.chunk_idx, c.cmd_set, c.list_index)).collect::<Vec<_>>(),
        vec![(0, 0, 0), (1, 0, 1), (2, 1, 0), (3, 1, 1), (4, 2, 0)]
    );
}

#[test]
fn chunks_cover_everything_in_order() {
    for threads in 1..5 {
        for count in 0..40 {
            let c = linear_submit_chunks(count, threads);
            assert_eq!(c.is_empty(), count == 0);
            if let (Some(first), Some(last)) = (c.first(), c.last()) {
                assert_eq!(first.start, 0);
                assert_eq!(last.end, count);
            }
            for w in c.windows(2) {
                assert_eq!(w[0].end, w[1].start);
            }
            assert!(c.iter().all(|c| c.start < c.end && c.cmd_set < 3 && c.list_index < threads));
        }
    }
}

#[test]
fn chunks_with_fewer_objects_than_jobs() {
    let c = linear_submit_chunks(2, 4);
    assert_eq!(ranges(&c), vec![(0, 1), (1, 2)]);
    assert!(linear_submit_chunks(0, 3).is_empty());
}

fn idx(slot: u32, generation: u32) -> ArenaIndex {
    ArenaIndex { slot, generation }
}

fn node(visible: bool, slot: u32, generation: u32) -> FrameNode {
    FrameNode { visible, handle: idx(slot, generation) }
}

fn objects() -> Vec<Option<RenderObjectSlot>> {
    vec![
        // Subscribes to stages 0 and 2, feature 1.
        Some(RenderObjectSlot { generation: 0, stages: 0b101, feature_type: 1 }),
        // Subscribes to stage 2, feature 3.
        Some(RenderObjectSlot { generation: 4, stages: 0b100, feature_type: 3 }),
        None,
        // Feature 40 is past the feature mask.
        Some(RenderObjectSlot { generation: 0, stages: 0b100, feature_type: 40 }),
    ]
}

#[test]
fn stage_selection_filters_nodes() {
    let nodes = vec![
        node(true, 0, 0),
        node(true, 1, 4),
        node(false, 0, 0),
        node(true, 2, 0),
        node(true, 1, 3),
        node(true, 9, 0),
        node(true, 3, 0),
    ];
    let objs = objects();
    let all = select_stage_objects(&nodes, 0, nodes.len(), &objs, 2, u32::MAX, u32::MAX, false);
    assert_eq!(all, vec![idx(0, 0), idx(1, 4)]);
    let stage0 = select_stage_objects(&nodes, 0, nodes.len(), &objs, 0, u32::MAX, u32::MAX, false);
    assert_eq!(stage0, vec![idx(0, 0)]);
    // Hidden nodes count for shadow generation.
    let shadows = select_stage_objects(&nodes, 0, nodes.len(), &objs, 0, u32::MAX, u32::MAX, true);
    assert_eq!(shadows, vec![idx(0, 0), idx(0, 0)]);
    // Only feature 3 is both active and requested.
    let features = select_stage_objects(&nodes, 0, nodes.len(), &objs, 2, 0b1010, 0b1100, false);
    assert_eq!(features, vec![idx(1, 4)]);
    assert!(select_stage_objects(&nodes, 0, nodes.len(), &objs, 2, 0b0010, 0b1000, false).is_empty());
    // A sub-range of the nodes.
    assert_eq!(select_stage_objects(&nodes, 1, 3, &objs, 2, u32::MAX, u32::MAX, true), vec![idx(1, 4), idx(0, 0)]);
    assert!(select_stage_objects(&nodes, 2, 2, &objs, 2, u32::MAX, u32::MAX, true).is_empty());
}

#[test]
fn stage_selection_of_chunks_concatenates() {
    let nodes: Vec<FrameNode> = (0..12).map(|i| node(i % 3 != 0, (i % 4) as u32, 0)).collect();
    let objs = vec![
        Some(RenderObjectSlot { generation: 0, stages: 1, feature_type: 0 }),
        Some(RenderObjectSlot { generation: 0, stages: 2, feature_type: 0 }),
        Some(RenderObjectSlot { generation: 0, stages: 3, feature_type: 0 }),
        None,
    ];
    let whole = select_stage_objects(&nodes, 0, 12, &objs, 0, 1, 1, false);
    let mut parts = Vec::new();
    for c in linear_submit_chunks(12, 2) {
        parts.extend(select_stage_objects(&nodes, c.start, c.end, &objs, 0, 1, 1, false));
    }
    assert_eq!(parts, whole);
    assert_eq!(whole, vec![idx(2, 0), idx(0, 0), idx(0, 0), idx(2, 0)]);
}
