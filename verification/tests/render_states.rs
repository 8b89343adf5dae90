use alkahest::render_state::{
    DepthMode, GpuCommand, GpuState, PipelineState, PrimitiveType, StateTracker, TAG_NONE, UNBOUND,
};

fn state(blend: Option<usize>, depth: Option<usize>, raster: Option<usize>, bias: Option<usize>) -> PipelineState {
    PipelineState { blend, depth_stencil: depth, rasterizer: raster, depth_bias: bias }
}

#[test]
fn fresh_tracker() {
    let t = StateTracker::new();
    assert_eq!(t.current_blend_state, UNBOUND);
    assert_eq!(t.current_input_topology, UNBOUND);
    assert_eq!(t.depth_mode(), DepthMode::Reverse);
    assert_eq!(t.bound_technique, TAG_NONE);
    assert_eq!(t.state, PipelineState::new());
}

#[test]
fn redundant_changes_are_skipped() {
    let mut t = StateTracker::new();
    assert_eq!(t.set_blend_state(3), Some(GpuCommand::SetBlendState { index: 3 }));
    assert_eq!(t.set_blend_state(3), None);
    assert_eq!(t.set_input_layout(2), Some(GpuCommand::SetInputLayout { index: 2 }));
    assert_eq!(t.set_input_layout(2), None);
    t.set_input_layout_custom();
    assert_eq!(t.set_input_layout(2), Some(GpuCommand::SetInputLayout { index: 2 }));
    assert_eq!(
        t.set_input_topology(PrimitiveType::Triangles),
        Some(GpuCommand::SetTopology { topology: PrimitiveType::Triangles })
    );
    assert_eq!(t.set_input_topology(PrimitiveType::Triangles), None);
    assert_eq!(PrimitiveType::TriangleStrip.index(), 4);
}

#[test]
fn depth_stencil_follows_mode_and_reference() {
    let mut t = StateTracker::new();
    // Nothing bound yet: switching mode binds nothing.
    assert_eq!(t.set_depth_mode(DepthMode::Forward), None);
    assert_eq!(t.set_depth_mode(DepthMode::Reverse), None);
    assert_eq!(
        t.set_depth_stencil_state(2),
        Some(GpuCommand::SetDepthStencilState { index: 2, mode: DepthMode::Reverse, stencil_ref: 0 })
    );
    assert_eq!(
        t.set_depth_mode(DepthMode::Forward),
        Some(GpuCommand::SetDepthStencilState { index: 2, mode: DepthMode::Forward, stencil_ref: 0 })
    );
    assert_eq!(t.set_depth_mode(DepthMode::Forward), None);
    assert_eq!(
        t.set_stencil_ref(5),
        Some(GpuCommand::SetDepthStencilState { index: 2, mode: DepthMode::Forward, stencil_ref: 5 })
    );
    assert_eq!(t.set_stencil_ref(5), None);
    assert_eq!(t.current_depth_state, 2);
}

#[test]
fn rasterizer_needs_both_indices() {
    let mut t = StateTracker::new();
    assert_eq!(t.set_rasterizer_state(1), None);
    assert_eq!(
        t.set_depth_bias(0),
        Some(GpuCommand::SetRasterizerState { depth_bias: 0, rasterizer: 1 })
    );
    assert_eq!(
        t.set_rasterizer_state(8),
        Some(GpuCommand::SetRasterizerState { depth_bias: 0, rasterizer: 8 })
    );
    // Index 9 is past the table: remembered, not sent.
    assert_eq!(t.set_rasterizer_state(9), None);
    assert_eq!(t.current_rasterizer_state, 9);
    assert_eq!(t.set_depth_bias(4), None);
}

#[test]
fn technique_binding() {
    let mut t = StateTracker::new();
    assert!(!t.set_bound_technique(7));
    // Already bound: true, whether smart binding is on or not.
    assert!(t.set_bound_technique(7));
    t.enable_smart_technique_binding();
    assert!(t.smart_rebind);
    assert!(t.set_bound_technique(7));
    assert!(!t.set_bound_technique(8));
    t.disable_smart_technique_binding();
    assert!(!t.smart_rebind);
    assert!(t.set_bound_technique(8));
    assert_eq!(t.bound_technique, 8);
}

#[test]
fn applying_a_state_twice_is_silent() {
    let mut t = StateTracker::new();
    let ps = state(Some(1), Some(2), Some(3), Some(4));
    assert_eq!(
        t.apply_state(&ps),
        vec![
            GpuCommand::SetBlendState { index: 1 },
            GpuCommand::SetDepthStencilState { index: 2, mode: DepthMode::Reverse, stencil_ref: 0 },
            GpuCommand::SetRasterizerState { depth_bias: 4, rasterizer: 3 },
        ]
    );
    assert!(t.apply_state(&ps).is_empty());
    assert!(t.apply_state(&state(None, None, None, None)).is_empty());
    assert_eq!(t.apply_state(&state(None, Some(5), None, None)).len(), 1);
}

#[test]
fn flush_rebinds_the_pipeline_state() {
    let mut t = StateTracker::new();
    t.state = state(Some(1), None, Some(2), Some(0));
    t.set_blend_state(6);
    t.set_input_layout(3);
    t.enable_smart_technique_binding();
    let cmds = t.flush_states();
    assert_eq!(
        cmds,
        vec![
            GpuCommand::SetBlendState { index: 1 },
            GpuCommand::SetRasterizerState { depth_bias: 0, rasterizer: 2 },
        ]
    );
    assert_eq!(t.current_blend_state, 1);
    assert_eq!(t.current_depth_state, UNBOUND);
    assert_eq!(t.current_input_layout, UNBOUND);
    assert!(!t.smart_rebind);
}

#[test]
fn sublists_keep_the_pipeline_state() {
    let mut t = StateTracker::new();
    t.state = state(Some(1), None, None, None);
    t.set_depth_mode(DepthMode::Forward);
    t.set_blend_state(4);
    let s = t.new_sublist();
    assert_eq!(s.state, t.state);
    assert_eq!(s.depth_mode, DepthMode::Forward);
    assert_eq!(s.current_blend_state, UNBOUND);
}

#[test]
fn backup_and_restore() {
    let mut t = StateTracker::new();
    t.state = state(Some(1), Some(2), None, None);
    let ps = t.state;
    t.apply_state(&ps);
    let saved = GpuState::backup(&t);
    assert_eq!(saved.current_blend_state, 1);

    t.state = state(Some(7), None, None, None);
    t.set_depth_mode(DepthMode::Forward);
    t.set_blend_state(7);
    t.reset_states();

    let cmds = saved.restore(&mut t);
    assert_eq!(t.state, state(Some(1), Some(2), None, None));
    assert_eq!(t.depth_mode, DepthMode::Reverse);
    assert_eq!(t.current_blend_state, 1);
    assert_eq!(
        cmds,
        vec![
            GpuCommand::SetBlendState { index: 1 },
            GpuCommand::SetDepthStencilState { index: 2, mode: DepthMode::Forward, stencil_ref: 0 },
            GpuCommand::SetDepthStencilState { index: 2, mode: DepthMode::Reverse, stencil_ref: 0 },
        ]
    );
}
