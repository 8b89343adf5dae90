use alkahest::profiler::{ProfilerState, ScopeEnd, MAX_PENDING_FRAMES, MAX_RESULT_FRAMES};

#[test]
fn scopes_nest_and_end() {
    let mut p: ProfilerState<u32, u64> = ProfilerState::new();
    assert!(p.is_enabled());
    let a = p.start_scope("frame".to_string(), 10);
    let b = p.start_scope("shadows".to_string(), 11);
    assert_eq!((a, b), (0, 1));
    assert_eq!(p.current_frame.queries[0].depth, 0);
    assert_eq!(p.current_frame.queries[1].depth, 1);
    assert_eq!(p.current_frame.queries[1].name, "shadows");
    assert_eq!(p.current_frame.queries[1].query, 11);
    assert_eq!(p.end_scope(b), ScopeEnd::Ended);
    assert_eq!(p.end_scope(a), ScopeEnd::Ended);
    assert_eq!(p.scope_depth, 0);
    assert_eq!(p.end_scope(a), ScopeEnd::EndedUnbalanced);
    assert_eq!(p.end_scope(7), ScopeEnd::InvalidHandle);
}

#[test]
fn disabled_profiler_ignores_frames() {
    let mut p: ProfilerState<u32, u64> = ProfilerState::new();
    p.enabled = false;
    assert_eq!(p.end_scope(0), ScopeEnd::Disabled);
    assert!(!p.begin_frame_end());
    assert_eq!(p.frame_index, 0);
    assert!(p.pending_frames.is_empty());
}

#[test]
fn pending_frames_are_capped() {
    let mut p: ProfilerState<u32, u64> = ProfilerState::new();
    for i in 0..10u64 {
        p.start_scope(format!("f{i}"), i as u32);
        assert!(p.begin_frame_end());
        // The GPU never has results: every frame stays pending.
        p.finish_frame(None);
    }
    assert_eq!(p.frame_index, 10);
    assert_eq!(p.pending_frames.len(), MAX_PENDING_FRAMES);
    let kept: Vec<u64> = p.pending_frames.iter().map(|f| f.frame_index).collect();
    // A new frame takes the counter before it goes up, so the first two
    // frames share index 0.
    assert_eq!(kept, vec![5, 6, 7, 8]);
    assert!(p.current_frame.queries.is_empty());
    assert_eq!(p.current_frame.frame_index, 9);
    // Unbalanced scopes are forgotten at the end of each frame.
    assert_eq!(p.scope_depth, 0);
}

#[test]
fn results_are_capped() {
    let mut p: ProfilerState<u32, u64> = ProfilerState::new();
    for i in 0..70u64 {
        assert!(p.begin_frame_end());
        p.finish_frame(Some(vec![i]));
        assert!(p.pending_frames.is_empty());
    }
    assert_eq!(MAX_RESULT_FRAMES, 10);
    assert_eq!(p.results.len(), MAX_RESULT_FRAMES);
    assert_eq!(p.results[0], vec![60]);
    assert_eq!(p.results[9], vec![69]);
}

#[test]
fn scopes_open_only_when_enabled() {
    let mut p: ProfilerState<u32, u64> = ProfilerState::new();
    assert_eq!(p.scope("a".to_string(), 1), Some(0));
    assert_eq!(p.scope("b".to_string(), 2), Some(1));
    assert_eq!(p.scope_depth, 2);
    p.enabled = false;
    assert_eq!(p.scope("c".to_string(), 3), None);
    assert_eq!(p.current_frame.queries.len(), 2);
    assert_eq!(p.scope_depth, 2);
}
