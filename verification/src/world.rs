use vstd::prelude::*;
use crate::render_types::DebugPipeline;

verus! {

/// A pass of a world frame, in the order they are submitted.
#[derive(Clone, Copy, Debug, PartialEq, Eq, Structural)]
pub enum WorldPass {
    /// Record the geometry command lists on worker threads.
    GeometryCommandLists,
    GbufferGeneration,
    Lighting,
    Atmosphere,
    /// Global lighting and shading in one pass (`global_lighting_and_shading_gel`).
    GlobalLightingAndShading,
    /// Deferred shading (`deferred_shading`).
    DeferredShading,
    /// Show a debug view of the frame with the global technique of a debug
    /// pipeline.
    DebugTechnique { debug: DebugPipeline },
    /// Show the frame through the debug shader over the gbuffers.
    DebugComposite,
    Transparent,
    Water,
    VolumeFog,
    Bloom,
    /// The final color grade: the distorting LUT3D technique.
    FinalLut3d,
}

/// What decides the passes of a world frame besides the debug pipeline.
#[derive(Clone, Copy, Debug, PartialEq, Eq, Structural)]
pub struct WorldFlags {
    pub multithreading: bool,
    pub global_lighting: bool,
}

/// Whether a debug pipeline needs the lighting pass.
pub open spec fn needs_lighting(debug: Option<DebugPipeline>) -> bool {
    match debug {
        Some(DebugPipeline::DeferredShading) | Some(DebugPipeline::DeferredShadingNoSun) | Some(
            DebugPipeline::LightDiffuse,
        ) | Some(DebugPipeline::LightSpecular) => true,
        _ => false,
    }
}

/// Whether a frame shows the shaded image (no debug pipeline, or one of the
/// two deferred shading ones), so that the post passes run.
pub open spec fn shows_shading(debug: Option<DebugPipeline>) -> bool {
    match debug {
        None | Some(DebugPipeline::DeferredShading) | Some(DebugPipeline::DeferredShadingNoSun) => true,
        _ => false,
    }
}

pub open spec fn pass_if(cond: bool, p: WorldPass) -> Seq<WorldPass> {
    if cond {
        seq![p]
    } else {
        Seq::empty()
    }
}

/// The passes of a world frame, in order.
pub open spec fn spec_world_passes(debug: Option<DebugPipeline>, flags: WorldFlags) -> Seq<WorldPass> {
    pass_if(flags.multithreading, WorldPass::GeometryCommandLists) + seq![WorldPass::GbufferGeneration]
        + pass_if(needs_lighting(debug), WorldPass::Lighting) + seq![
        WorldPass::Atmosphere,
        if flags.global_lighting {
            WorldPass::GlobalLightingAndShading
        } else {
            WorldPass::DeferredShading
        },
        match debug {
            Some(d) => WorldPass::DebugTechnique { debug: d },
            None => WorldPass::DebugComposite,
        },
    ] + if shows_shading(debug) {
        seq![WorldPass::Transparent, WorldPass::Water] + pass_if(debug is Some, WorldPass::VolumeFog) + seq![
            WorldPass::Bloom,
            WorldPass::FinalLut3d,
        ]
    } else {
        Seq::empty()
    }
}

/// The passes a world frame submits, in order: geometry command lists when
/// rendering is multithreaded, the gbuffers, lighting when the debug view
/// needs it, the atmosphere, shading, the debug view, and, when the frame
/// shows the shaded image, transparents, water, volume fog (debug views
/// only), bloom and the final color grade.
pub fn world_passes(debug: Option<DebugPipeline>, flags: WorldFlags) -> (r: Vec<WorldPass>)
    ensures
        r@ == spec_world_passes(debug, flags),
{
    let mut r: Vec<WorldPass> = Vec::new();
    if flags.multithreading {
        r.push(WorldPass::GeometryCommandLists);
    }
    r.push(WorldPass::GbufferGeneration);
    let lighting = match debug {
        Some(DebugPipeline::DeferredShading) | Some(DebugPipeline::DeferredShadingNoSun) | Some(
            DebugPipeline::LightDiffuse,
        ) | Some(DebugPipeline::LightSpecular) => true,
        _ => false,
    };
    if lighting {
        r.push(WorldPass::Lighting);
    }
    r.push(WorldPass::Atmosphere);
    if flags.global_lighting {
        r.push(WorldPass::GlobalLightingAndShading);
    } else {
        r.push(WorldPass::DeferredShading);
    }
    match debug {
        Some(d) => r.push(WorldPass::DebugTechnique { debug: d }),
        None => r.push(WorldPass::DebugComposite),
    }
    let shading = match debug {
        None | Some(DebugPipeline::DeferredShading) | Some(DebugPipeline::DeferredShadingNoSun) => true,
        _ => false,
    };
    if shading {
        r.push(WorldPass::Transparent);
        r.push(WorldPass::Water);
        if debug.is_some() {
            r.push(WorldPass::VolumeFog);
        }
        r.push(WorldPass::Bloom);
        r.push(WorldPass::FinalLut3d);
    }
    assert(r@ =~= spec_world_passes(debug, flags));
    r
}

} // verus!
