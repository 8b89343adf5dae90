use vstd::prelude::*;

verus! {

/// Depth comparison direction.
#[derive(Clone, Copy, Debug, PartialEq, Eq, Structural)]
pub enum DepthMode {
    /// Commonly used for shadow maps and decals
    Forward,
    /// Used by default
    Reverse,
}

/// Primitive topology of the input assembler, numbered in declaration order.
#[derive(Clone, Copy, Debug, PartialEq, Eq, Structural)]
pub enum PrimitiveType {
    PointList,
    LineList,
    LineStrip,
    Triangles,
    TriangleStrip,
}

impl PrimitiveType {
    pub open spec fn spec_index(self) -> usize {
        match self {
            PrimitiveType::PointList => 0,
            PrimitiveType::LineList => 1,
            PrimitiveType::LineStrip => 2,
            PrimitiveType::Triangles => 3,
            PrimitiveType::TriangleStrip => 4,
        }
    }

    /// The number of the topology (its position in the declaration).
    pub fn index(self) -> (r: usize)
        ensures
            r == self.spec_index(),
    {
        match self {
            PrimitiveType::PointList => 0,
            PrimitiveType::LineList => 1,
            PrimitiveType::LineStrip => 2,
            PrimitiveType::Triangles => 3,
            PrimitiveType::TriangleStrip => 4,
        }
    }
}

/// The fixed-function state indices a technique asks for; `None` leaves a
/// state as it is.
#[derive(Clone, Copy, Debug, PartialEq, Eq, Structural)]
pub struct PipelineState {
    pub blend: Option<usize>,
    pub depth_stencil: Option<usize>,
    pub rasterizer: Option<usize>,
    pub depth_bias: Option<usize>,
}

impl PipelineState {
    pub open spec fn spec_empty() -> PipelineState {
        PipelineState { blend: None, depth_stencil: None, rasterizer: None, depth_bias: None }
    }

    /// A state that asks for nothing.
    pub fn new() -> (r: PipelineState)
        ensures
            r == PipelineState::spec_empty(),
    {
        PipelineState { blend: None, depth_stencil: None, rasterizer: None, depth_bias: None }
    }

    pub fn blend_state(&self) -> (r: Option<usize>)
        ensures
            r == self.blend,
    {
        self.blend
    }

    pub fn depth_stencil_state(&self) -> (r: Option<usize>)
        ensures
            r == self.depth_stencil,
    {
        self.depth_stencil
    }

    pub fn rasterizer_state(&self) -> (r: Option<usize>)
        ensures
            r == self.rasterizer,
    {
        self.rasterizer
    }

    pub fn depth_bias_state(&self) -> (r: Option<usize>)
        ensures
            r == self.depth_bias,
    {
        self.depth_bias
    }
}

/// A state change that has to reach the device context.
#[derive(Clone, Copy, Debug, PartialEq, Eq, Structural)]
pub enum GpuCommand {
    /// Bind blend state `index` (blend factor 1,1,1,1, sample mask all ones).
    SetBlendState { index: usize },
    /// Bind depth-stencil state `index` in the variant of `mode`, with the
    /// stencil reference value.
    SetDepthStencilState { index: usize, mode: DepthMode, stencil_ref: u32 },
    /// Bind rasterizer state `rasterizer` of depth bias row `depth_bias`.
    SetRasterizerState { depth_bias: usize, rasterizer: usize },
    /// Bind input layout `index`.
    SetInputLayout { index: usize },
    /// Set the primitive topology.
    SetTopology { topology: PrimitiveType },
}

/// The number of rasterizer states and of depth bias rows.
pub const RASTERIZER_STATE_COUNT: usize = 9;

/// "Nothing bound": the value a cached state index has after a reset.
pub const UNBOUND: usize = usize::MAX;

/// The render state that a command list keeps to skip redundant state changes.
pub struct StateTracker {
    pub state: PipelineState,
    pub state_override: PipelineState,
    pub current_blend_state: usize,
    pub current_depth_state: usize,
    pub current_rasterizer_state: usize,
    pub current_depth_bias: usize,
    pub current_input_layout: usize,
    pub current_input_topology: usize,
    pub current_stencil_ref: u32,
    pub depth_mode: DepthMode,
    /// Hash of the bound technique (0xFFFFFFFF when none is bound).
    pub bound_technique: u32,
    pub smart_rebind: bool,
}

/// The tag hash that names no tag.
pub const TAG_NONE: u32 = u32::MAX;

/// The command issued by binding depth-stencil state `index` when `current`
/// is bound.
pub open spec fn spec_depth_stencil_command(
    current: usize,
    index: usize,
    mode: DepthMode,
    stencil_ref: u32,
) -> Option<GpuCommand> {
    if current != index {
        Some(GpuCommand::SetDepthStencilState { index, mode, stencil_ref })
    } else {
        None
    }
}

impl StateTracker {
    /// The state of a fresh command list: nothing bound, reverse depth.
    pub open spec fn spec_fresh(self) -> bool {
        &&& self.current_blend_state == UNBOUND
        &&& self.current_depth_state == UNBOUND
        &&& self.current_rasterizer_state == UNBOUND
        &&& self.current_depth_bias == UNBOUND
        &&& self.current_input_layout == UNBOUND
        &&& self.current_input_topology == UNBOUND
        &&& self.current_stencil_ref == 0
        &&& self.depth_mode == DepthMode::Reverse
        &&& self.bound_technique == TAG_NONE
        &&& !self.smart_rebind
    }

    /// A tracker for a new command list.
    pub fn new() -> (r: StateTracker)
        ensures
            r.spec_fresh(),
            r.state == PipelineState::spec_empty(),
            r.state_override == PipelineState::spec_empty(),
    {
        StateTracker {
            state: PipelineState::new(),
            state_override: PipelineState::new(),
            current_blend_state: UNBOUND,
            current_depth_state: UNBOUND,
            current_rasterizer_state: UNBOUND,
            current_depth_bias: UNBOUND,
            current_input_layout: UNBOUND,
            current_input_topology: UNBOUND,
            current_stencil_ref: 0,
            depth_mode: DepthMode::Reverse,
            bound_technique: TAG_NONE,
            smart_rebind: false,
        }
    }

    /// A tracker for a sub-list: fresh, but with the pipeline state, the
    /// override and the depth mode of this one.
    pub fn new_sublist(&self) -> (r: StateTracker)
        ensures
            r.state == self.state,
            r.state_override == self.state_override,
            r.depth_mode == self.depth_mode,
            r.current_blend_state == UNBOUND,
            r.current_depth_state == UNBOUND,
            r.current_rasterizer_state == UNBOUND,
            r.current_depth_bias == UNBOUND,
            r.current_input_layout == UNBOUND,
            r.current_input_topology == UNBOUND,
            r.current_stencil_ref == 0,
            r.bound_technique == TAG_NONE,
            !r.smart_rebind,
    {
        let mut new = StateTracker::new();
        new.state = self.state;
        new.state_override = self.state_override;
        new.depth_mode = self.depth_mode;
        new
    }

    pub fn depth_mode(&self) -> (r: DepthMode)
        ensures
            r == self.depth_mode,
    {
        self.depth_mode
    }

    /// Rebinds techniques even if they are already bound
    pub fn disable_smart_technique_binding(&mut self)
        ensures
            *final(self) == (StateTracker { smart_rebind: false, ..*old(self) }),
    {
        self.smart_rebind = false;
    }

    /// Skips rebinding techniques that are already bound
    pub fn enable_smart_technique_binding(&mut self)
        ensures
            *final(self) == (StateTracker { smart_rebind: true, ..*old(self) }),
    {
        self.smart_rebind = true;
    }

    /// Forgets every cached binding.
    pub fn reset_states(&mut self)
        ensures
            *final(self) == (StateTracker {
                current_blend_state: UNBOUND,
                current_depth_state: UNBOUND,
                current_input_layout: UNBOUND,
                current_rasterizer_state: UNBOUND,
                current_depth_bias: UNBOUND,
                current_input_topology: UNBOUND,
                bound_technique: TAG_NONE,
                smart_rebind: false,
                ..*old(self)
            }),
    {
        self.current_blend_state = UNBOUND;
        self.current_depth_state = UNBOUND;
        self.current_input_layout = UNBOUND;
        self.current_rasterizer_state = UNBOUND;
        self.current_depth_bias = UNBOUND;
        self.current_input_topology = UNBOUND;
        self.bound_technique = TAG_NONE;
        self.smart_rebind = false;
    }

    /// Binds blend state `index` unless it is bound already.
    pub fn set_blend_state(&mut self, index: usize) -> (cmd: Option<GpuCommand>)
        ensures
            *final(self) == (StateTracker { current_blend_state: index, ..*old(self) }),
            cmd == (if old(self).current_blend_state != index {
                Some(GpuCommand::SetBlendState { index })
            } else {
                None
            }),
    {
        if self.current_blend_state != index {
            self.current_blend_state = index;
            Some(GpuCommand::SetBlendState { index })
        } else {
            None
        }
    }

    /// Binds depth-stencil state `index` unless it is bound already.
    pub fn set_depth_stencil_state(&mut self, index: usize) -> (cmd: Option<GpuCommand>)
        ensures
            *final(self) == (StateTracker { current_depth_state: index, ..*old(self) }),
            cmd == spec_depth_stencil_command(
                old(self).current_depth_state,
                index,
                old(self).depth_mode,
                old(self).current_stencil_ref,
            ),
    {
        if self.current_depth_state != index {
            self.current_depth_state = index;
            Some(
                GpuCommand::SetDepthStencilState {
                    index,
                    mode: self.depth_mode,
                    stencil_ref: self.current_stencil_ref,
                },
            )
        } else {
            None
        }
    }

    /// Switches the depth mode; a change rebinds the bound depth-stencil
    /// state in the new mode (when one is bound).
    pub fn set_depth_mode(&mut self, mode: DepthMode) -> (cmd: Option<GpuCommand>)
        ensures
            *final(self) == (StateTracker { depth_mode: mode, ..*old(self) }),
            cmd == (if old(self).depth_mode != mode {
                spec_depth_stencil_command(
                    UNBOUND,
                    old(self).current_depth_state,
                    mode,
                    old(self).current_stencil_ref,
                )
            } else {
                None
            }),
    {
        if self.depth_mode != mode {
            self.depth_mode = mode;
            let d = self.current_depth_state;
            self.current_depth_state = UNBOUND;
            self.set_depth_stencil_state(d)
        } else {
            None
        }
    }

    /// Changes the stencil reference value; a change rebinds the bound
    /// depth-stencil state with the new value (when one is bound).
    pub fn set_stencil_ref(&mut self, ref_value: u32) -> (cmd: Option<GpuCommand>)
        ensures
            *final(self) == (StateTracker { current_stencil_ref: ref_value, ..*old(self) }),
            cmd == (if old(self).current_stencil_ref != ref_value {
                spec_depth_stencil_command(
                    UNBOUND,
                    old(self).current_depth_state,
                    old(self).depth_mode,
                    ref_value,
                )
            } else {
                None
            }),
    {
        if self.current_stencil_ref != ref_value {
            self.current_stencil_ref = ref_value;
            let d = self.current_depth_state;
            self.current_depth_state = UNBOUND;
            self.set_depth_stencil_state(d)
        } else {
            None
        }
    }

    /// Selects rasterizer state `index`; the device state is set once both
    /// the rasterizer state and the depth bias are valid indices.
    pub fn set_rasterizer_state(&mut self, index: usize) -> (cmd: Option<GpuCommand>)
        ensures
            *final(self) == (StateTracker { current_rasterizer_state: index, ..*old(self) }),
            cmd == (if old(self).current_rasterizer_state != index && index
                < RASTERIZER_STATE_COUNT && old(self).current_depth_bias < RASTERIZER_STATE_COUNT {
                Some(
                    GpuCommand::SetRasterizerState {
                        depth_bias: old(self).current_depth_bias,
                        rasterizer: index,
                    },
                )
            } else {
                None
            }),
    {
        if self.current_rasterizer_state != index {
            let depth_bias = self.current_depth_bias;
            self.current_rasterizer_state = index;
            if index < RASTERIZER_STATE_COUNT && depth_bias < RASTERIZER_STATE_COUNT {
                Some(GpuCommand::SetRasterizerState { depth_bias, rasterizer: index })
            } else {
                None
            }
        } else {
            None
        }
    }

    /// Selects depth bias row `index`; the device state is set once both the
    /// rasterizer state and the depth bias are valid indices.
    pub fn set_depth_bias(&mut self, index: usize) -> (cmd: Option<GpuCommand>)
        ensures
            *final(self) == (StateTracker { current_depth_bias: index, ..*old(self) }),
            cmd == (if old(self).current_depth_bias != index && index < RASTERIZER_STATE_COUNT
                && old(self).current_rasterizer_state < RASTERIZER_STATE_COUNT {
                Some(
                    GpuCommand::SetRasterizerState {
                        depth_bias: index,
                        rasterizer: old(self).current_rasterizer_state,
                    },
                )
            } else {
                None
            }),
    {
        if self.current_depth_bias != index {
            let rasterizer_state = self.current_rasterizer_state;
            self.current_depth_bias = index;
            if index < RASTERIZER_STATE_COUNT && rasterizer_state < RASTERIZER_STATE_COUNT {
                Some(GpuCommand::SetRasterizerState { depth_bias: index, rasterizer: rasterizer_state })
            } else {
                None
            }
        } else {
            None
        }
    }

    /// Records `technique` as bound. Returns true if it was bound already.
    pub fn set_bound_technique(&mut self, technique: u32) -> (already_bound: bool)
        ensures
            *final(self) == (StateTracker { bound_technique: technique, ..*old(self) }),
            already_bound == (old(self).bound_technique == technique),
    {
        if self.bound_technique != technique {
            self.bound_technique = technique;
            false
        } else {
            true
        }
    }

    /// Binds input layout `index` unless it is bound already.
    pub fn set_input_layout(&mut self, index: usize) -> (cmd: Option<GpuCommand>)
        ensures
            *final(self) == (StateTracker { current_input_layout: index, ..*old(self) }),
            cmd == (if old(self).current_input_layout != index {
                Some(GpuCommand::SetInputLayout { index })
            } else {
                None
            }),
    {
        if self.current_input_layout != index {
            self.current_input_layout = index;
            Some(GpuCommand::SetInputLayout { index })
        } else {
            None
        }
    }

    /// Records that a layout outside the table was bound directly.
    pub fn set_input_layout_custom(&mut self)
        ensures
            *final(self) == (StateTracker { current_input_layout: UNBOUND, ..*old(self) }),
    {
        self.current_input_layout = UNBOUND;
    }

    /// Sets the primitive topology unless it is set already.
    pub fn set_input_topology(&mut self, topology: PrimitiveType) -> (cmd: Option<GpuCommand>)
        ensures
            *final(self) == (StateTracker {
                current_input_topology: topology.spec_index(),
                ..*old(self)
            }),
            cmd == (if old(self).current_input_topology != topology.spec_index() {
                Some(GpuCommand::SetTopology { topology })
            } else {
                None
            }),
    {
        let t = topology.index();
        if self.current_input_topology != t {
            self.current_input_topology = t;
            Some(GpuCommand::SetTopology { topology })
        } else {
            None
        }
    }
}


/// The command, if any, as a sequence.
pub open spec fn command_seq(c: Option<GpuCommand>) -> Seq<GpuCommand> {
    match c {
        Some(c) => seq![c],
        None => Seq::empty(),
    }
}

impl StateTracker {
    pub open spec fn spec_set_blend(self, index: usize) -> (StateTracker, Option<GpuCommand>) {
        (
            StateTracker { current_blend_state: index, ..self },
            if self.current_blend_state != index {
                Some(GpuCommand::SetBlendState { index })
            } else {
                None
            },
        )
    }

    pub open spec fn spec_set_depth_stencil(self, index: usize) -> (StateTracker, Option<GpuCommand>) {
        (
            StateTracker { current_depth_state: index, ..self },
            spec_depth_stencil_command(self.current_depth_state, index, self.depth_mode, self.current_stencil_ref),
        )
    }

    pub open spec fn spec_set_rasterizer(self, index: usize) -> (StateTracker, Option<GpuCommand>) {
        (
            StateTracker { current_rasterizer_state: index, ..self },
            if self.current_rasterizer_state != index && index < RASTERIZER_STATE_COUNT
                && self.current_depth_bias < RASTERIZER_STATE_COUNT {
                Some(GpuCommand::SetRasterizerState { depth_bias: self.current_depth_bias, rasterizer: index })
            } else {
                None
            },
        )
    }

    pub open spec fn spec_set_depth_bias(self, index: usize) -> (StateTracker, Option<GpuCommand>) {
        (
            StateTracker { current_depth_bias: index, ..self },
            if self.current_depth_bias != index && index < RASTERIZER_STATE_COUNT
                && self.current_rasterizer_state < RASTERIZER_STATE_COUNT {
                Some(GpuCommand::SetRasterizerState { depth_bias: index, rasterizer: self.current_rasterizer_state })
            } else {
                None
            },
        )
    }

    /// Applying a pipeline state: blend, depth-stencil, rasterizer, then depth
    /// bias, each only when the state asks for it.
    pub open spec fn spec_apply_state(self, ps: PipelineState) -> (StateTracker, Seq<GpuCommand>) {
        let s1 = match ps.blend {
            Some(u) => self.spec_set_blend(u),
            None => (self, None),
        };
        let s2 = match ps.depth_stencil {
            Some(u) => s1.0.spec_set_depth_stencil(u),
            None => (s1.0, None),
        };
        let s3 = match ps.rasterizer {
            Some(u) => s2.0.spec_set_rasterizer(u),
            None => (s2.0, None),
        };
        let s4 = match ps.depth_bias {
            Some(u) => s3.0.spec_set_depth_bias(u),
            None => (s3.0, None),
        };
        (s4.0, command_seq(s1.1) + command_seq(s2.1) + command_seq(s3.1) + command_seq(s4.1))
    }

    pub open spec fn spec_reset(self) -> StateTracker {
        StateTracker {
            current_blend_state: UNBOUND,
            current_depth_state: UNBOUND,
            current_input_layout: UNBOUND,
            current_rasterizer_state: UNBOUND,
            current_depth_bias: UNBOUND,
            current_input_topology: UNBOUND,
            bound_technique: TAG_NONE,
            smart_rebind: false,
            ..self
        }
    }

    /// Flushing: forget every cached binding, then apply the pipeline state.
    pub open spec fn spec_flush_states(self) -> (StateTracker, Seq<GpuCommand>) {
        self.spec_reset().spec_apply_state(self.state)
    }

    /// Applies a one-time state override.
    pub fn apply_state(&mut self, states: &PipelineState) -> (cmds: Vec<GpuCommand>)
        ensures
            (*final(self), cmds@) == old(self).spec_apply_state(*states),
    {
        let mut cmds: Vec<GpuCommand> = Vec::new();
        let ghost t0 = *self;
        let ghost s1 = match states.blend {
            Some(u) => t0.spec_set_blend(u),
            None => (t0, None),
        };
        if let Some(u) = states.blend_state() {
            if let Some(c) = self.set_blend_state(u) {
                cmds.push(c);
            }
        }
        assert(*self == s1.0 && cmds@ == command_seq(s1.1));
        let ghost s2 = match states.depth_stencil {
            Some(u) => s1.0.spec_set_depth_stencil(u),
            None => (s1.0, None),
        };
        if let Some(u) = states.depth_stencil_state() {
            if let Some(c) = self.set_depth_stencil_state(u) {
                cmds.push(c);
            }
        }
        assert(*self == s2.0 && cmds@ =~= command_seq(s1.1) + command_seq(s2.1));
        let ghost s3 = match states.rasterizer {
            Some(u) => s2.0.spec_set_rasterizer(u),
            None => (s2.0, None),
        };
        if let Some(u) = states.rasterizer_state() {
            if let Some(c) = self.set_rasterizer_state(u) {
                cmds.push(c);
            }
        }
        assert(*self == s3.0 && cmds@ =~= command_seq(s1.1) + command_seq(s2.1) + command_seq(s3.1));
        let ghost s4 = match states.depth_bias {
            Some(u) => s3.0.spec_set_depth_bias(u),
            None => (s3.0, None),
        };
        if let Some(u) = states.depth_bias_state() {
            if let Some(c) = self.set_depth_bias(u) {
                cmds.push(c);
            }
        }
        assert(cmds@ =~= command_seq(s1.1) + command_seq(s2.1) + command_seq(s3.1) + command_seq(s4.1));
        cmds
    }

    /// Forgets every cached binding and applies the pipeline state again.
    pub fn flush_states(&mut self) -> (cmds: Vec<GpuCommand>)
        ensures
            (*final(self), cmds@) == old(self).spec_flush_states(),
    {
        self.reset_states();
        let state = self.state;
        self.apply_state(&state)
    }
}

/// The render state saved before work that changes it, to be put back after.
pub struct GpuState {
    pub tfx_state: PipelineState,
    pub current_blend_state: usize,
    pub current_depth_state: usize,
    pub current_rasterizer_state: usize,
    pub current_depth_bias: usize,
    pub current_input_layout: usize,
    pub current_input_topology: usize,
    pub depth_mode: DepthMode,
}

impl GpuState {
    /// Saves the tracked state of a command list.
    pub fn backup(cmd: &StateTracker) -> (r: GpuState)
        ensures
            r == (GpuState {
                tfx_state: cmd.state,
                current_blend_state: cmd.current_blend_state,
                current_depth_state: cmd.current_depth_state,
                current_rasterizer_state: cmd.current_rasterizer_state,
                current_depth_bias: cmd.current_depth_bias,
                current_input_layout: cmd.current_input_layout,
                current_input_topology: cmd.current_input_topology,
                depth_mode: cmd.depth_mode,
            }),
    {
        GpuState {
            tfx_state: cmd.state,
            current_blend_state: cmd.current_blend_state,
            current_depth_state: cmd.current_depth_state,
            current_rasterizer_state: cmd.current_rasterizer_state,
            current_depth_bias: cmd.current_depth_bias,
            current_input_layout: cmd.current_input_layout,
            current_input_topology: cmd.current_input_topology,
            depth_mode: cmd.depth_mode,
        }
    }

    /// The tracker with the saved values written back, before it is flushed.
    pub open spec fn spec_written_back(self, t: StateTracker) -> StateTracker {
        StateTracker {
            state: self.tfx_state,
            current_blend_state: self.current_blend_state,
            current_depth_state: self.current_depth_state,
            current_rasterizer_state: self.current_rasterizer_state,
            current_depth_bias: self.current_depth_bias,
            current_input_layout: self.current_input_layout,
            current_input_topology: self.current_input_topology,
            ..t
        }
    }

    /// Restoring: write the saved values back, flush the states, then switch
    /// to the saved depth mode.
    pub open spec fn spec_restore(self, t: StateTracker) -> (StateTracker, Seq<GpuCommand>) {
        let flushed = self.spec_written_back(t).spec_flush_states();
        let last = flushed.0;
        let mode_cmd = if last.depth_mode != self.depth_mode {
            spec_depth_stencil_command(UNBOUND, last.current_depth_state, self.depth_mode, last.current_stencil_ref)
        } else {
            None
        };
        (StateTracker { depth_mode: self.depth_mode, ..last }, flushed.1 + command_seq(mode_cmd))
    }

    /// Puts the saved state back into a command list's tracker and returns
    /// the state changes that the device context needs.
    pub fn restore(&self, cmd: &mut StateTracker) -> (cmds: Vec<GpuCommand>)
        ensures
            (*final(cmd), cmds@) == self.spec_restore(*old(cmd)),
    {
        cmd.state = self.tfx_state;
        cmd.current_blend_state = self.current_blend_state;
        cmd.current_depth_state = self.current_depth_state;
        cmd.current_rasterizer_state = self.current_rasterizer_state;
        cmd.current_depth_bias = self.current_depth_bias;
        cmd.current_input_layout = self.current_input_layout;
        cmd.current_input_topology = self.current_input_topology;
        let mut cmds = cmd.flush_states();
        let ghost flushed = cmds@;
        if let Some(c) = cmd.set_depth_mode(self.depth_mode) {
            cmds.push(c);
        }
        assert(cmds@ =~= self.spec_restore(*old(cmd)).1);
        cmds
    }
}


/// The cached index a state slot ends up with after flushing `requested`.
pub open spec fn flushed_index(requested: Option<usize>) -> usize {
    match requested {
        Some(i) => i,
        None => UNBOUND,
    }
}

/// Applying a pipeline state a second time is silent: no command, no change.
pub proof fn lemma_apply_state_idempotent(t: StateTracker, ps: PipelineState)
    ensures
        t.spec_apply_state(ps).0.spec_apply_state(ps) == (t.spec_apply_state(ps).0, Seq::<GpuCommand>::empty()),
{
    let t1 = t.spec_apply_state(ps).0;
    assert(t1.spec_apply_state(ps).1 =~= Seq::<GpuCommand>::empty());
}

/// After a flush the cached indices are exactly those the pipeline state asks
/// for (the others are unbound); the pipeline state, depth mode and stencil
/// reference are untouched.
pub proof fn lemma_flush_binds_pipeline_state(t: StateTracker)
    ensures
        ({
            let f = t.spec_flush_states().0;
            &&& f.current_blend_state == flushed_index(t.state.blend)
            &&& f.current_depth_state == flushed_index(t.state.depth_stencil)
            &&& f.current_rasterizer_state == flushed_index(t.state.rasterizer)
            &&& f.current_depth_bias == flushed_index(t.state.depth_bias)
            &&& f.current_input_layout == UNBOUND
            &&& f.current_input_topology == UNBOUND
            &&& f.bound_technique == TAG_NONE
            &&& !f.smart_rebind
            &&& f.state == t.state
            &&& f.depth_mode == t.depth_mode
            &&& f.current_stencil_ref == t.current_stencil_ref
        }),
{
}

/// Restoring a saved state brings back its pipeline state and depth mode,
/// whatever happened to the command list in between.
pub proof fn lemma_restore_brings_back(saved: GpuState, t: StateTracker)
    ensures
        saved.spec_restore(t).0.state == saved.tfx_state,
        saved.spec_restore(t).0.depth_mode == saved.depth_mode,
        saved.spec_restore(t).0.current_blend_state == flushed_index(saved.tfx_state.blend),
        saved.spec_restore(t).0.current_depth_bias == flushed_index(saved.tfx_state.depth_bias),
        saved.spec_restore(t).0.current_rasterizer_state == flushed_index(saved.tfx_state.rasterizer),
{
    lemma_flush_binds_pipeline_state(saved.spec_written_back(t));
}

} // verus!
