use std::collections::HashMap;

use alkahest::traverse::{traverse_tags, LineBody, TagGraph, TagNote, TraversalLine};

fn graph(refs: &[(u32, Vec<(u32, u64)>)], types: &[(u32, (u8, u8))]) -> TagGraph {
    let mut references = HashMap::new();
    for (t, r) in refs {
        references.insert(*t, r.clone());
    }
    let mut entry_types = HashMap::new();
    for (t, e) in types {
        entry_types.insert(*t, *e);
    }
    TagGraph { references, entry_types }
}

fn line(l: &TraversalLine) -> (String, Option<char>, LineBody) {
    (l.pipes.iter().collect(), l.branch, l.body)
}

fn tag(tag: u32, offset: u64, note: TagNote) -> LineBody {
    LineBody::Tag { tag, offset, note }
}

#[test]
fn traversal_of_a_small_graph() {
    let g = graph(
        &[(1, vec![(2, 0x10), (3, 0x20)]), (2, vec![(3, 0x8), (1, 0x18)]), (3, vec![])],
        &[(1, (8, 0)), (2, (8, 0)), (3, (32, 1))],
    );
    let lines: Vec<_> = traverse_tags(&g, 1, 10).iter().map(line).collect();
    assert_eq!(
        lines,
        vec![
            (String::new(), None, tag(1, 0, TagNote::Expanded)),
            (String::new(), Some('├'), tag(2, 0x10, TagNote::Expanded)),
            ("│".to_string(), Some('├'), tag(3, 0x8, TagNote::Expanded)),
            ("│".to_string(), Some('└'), tag(1, 0x18, TagNote::Parent)),
            ("│".to_string(), None, LineBody::Blank),
            (String::new(), Some('└'), tag(3, 0x20, TagNote::Reference)),
            (String::new(), None, LineBody::Blank),
        ]
    );
}

#[test]
fn traversal_stops_at_depth_limit() {
    let g = graph(&[(1, vec![(2, 4)]), (2, vec![(3, 4)])], &[]);
    let lines: Vec<_> = traverse_tags(&g, 1, 0).iter().map(line).collect();
    assert_eq!(
        lines,
        vec![
            (String::new(), None, tag(1, 0, TagNote::Expanded)),
            (String::new(), None, LineBody::DepthLimit { limit: 0 }),
        ]
    );
    let lines: Vec<_> = traverse_tags(&g, 1, 1).iter().map(line).collect();
    assert_eq!(
        lines,
        vec![
            (String::new(), None, tag(1, 0, TagNote::Expanded)),
            (String::new(), Some('└'), tag(2, 4, TagNote::Expanded)),
            (" ".to_string(), None, LineBody::DepthLimit { limit: 1 }),
            (String::new(), None, LineBody::Blank),
        ]
    );
}

#[test]
fn traversal_notes_self_references_and_revisits() {
    let g = graph(
        &[(4, vec![(4, 0), (5, 8), (6, 12)]), (5, vec![(6, 0)]), (6, vec![])],
        &[(4, (8, 0)), (5, (8, 0)), (6, (8, 0))],
    );
    let lines: Vec<_> = traverse_tags(&g, 4, 5).iter().map(line).collect();
    assert_eq!(
        lines,
        vec![
            (String::new(), None, tag(4, 0, TagNote::Expanded)),
            (String::new(), Some('├'), tag(4, 0, TagNote::SelfReference)),
            (String::new(), Some('├'), tag(5, 8, TagNote::Expanded)),
            ("│".to_string(), Some('└'), tag(6, 0, TagNote::Expanded)),
            ("│".to_string(), None, LineBody::Blank),
            (String::new(), Some('└'), tag(6, 12, TagNote::AlreadyTraversed)),
            (String::new(), None, LineBody::Blank),
        ]
    );
}

#[test]
fn traversal_of_an_unscanned_tag() {
    let g = graph(&[], &[]);
    let lines: Vec<_> = traverse_tags(&g, 9, 3).iter().map(line).collect();
    assert_eq!(lines, vec![(String::new(), None, tag(9, 0, TagNote::Expanded))]);
}

#[test]
fn traversal_expands_each_tag_once() {
    let g = graph(
        &[(1, vec![(2, 0), (3, 4), (2, 8)]), (2, vec![(3, 0), (1, 4)]), (3, vec![(2, 0), (3, 4)])],
        &[],
    );
    let lines = traverse_tags(&g, 1, 8);
    let mut expanded: Vec<u32> = lines
        .iter()
        .filter_map(|l| match l.body {
            LineBody::Tag { tag, note: TagNote::Expanded, .. } => Some(tag),
            _ => None,
        })
        .collect();
    expanded.sort();
    assert_eq!(expanded, vec![1, 2, 3]);
    assert!(lines.iter().all(|l| l.pipes.len() <= 8));
}

#[test]
fn revisits_of_plain_entries_carry_no_note() {
    // Type 16 with a subtype other than 16 is a plain reference.
    let g = graph(&[(1, vec![(2, 0), (2, 4)])], &[(2, (16, 0))]);
    let lines: Vec<_> = traverse_tags(&g, 1, 4).iter().map(line).collect();
    assert_eq!(lines[2], (String::new(), Some('└'), tag(2, 4, TagNote::Reference)));
    // Subtype 16 is not.
    let g = graph(&[(1, vec![(2, 0), (2, 4)])], &[(2, (16, 16))]);
    let lines: Vec<_> = traverse_tags(&g, 1, 4).iter().map(line).collect();
    assert_eq!(lines[2], (String::new(), Some('└'), tag(2, 4, TagNote::AlreadyTraversed)));
}
