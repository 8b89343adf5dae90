use vstd::prelude::*;
use crate::surface::SurfaceHandle;

verus! {

/// The projection of a camera.
#[derive(Clone, Copy, Debug, PartialEq, Eq, Structural)]
pub enum CameraProjection {
    Perspective,
    Orthographic,
}

/// The blur kernel of a bloom pass.
#[derive(Clone, Copy, Debug, PartialEq, Eq, Structural)]
pub enum BlurVariant {
    Gaussian10,
    Weighted6,
}

/// What the final image shows, for debugging.
#[derive(Clone, Copy, Debug, PartialEq, Eq, Structural)]
pub enum DebugPipeline {
    DeferredShading,
    DeferredShadingNoSun,

    Albedo,
    Smoothness,
    Metalness,
    AmbientOcclusion,
    Emission,
    EmissionIntensity,
    Transmission,
    Overcoat,

    DepthEdges,
    WorldNormal,

    LightDiffuse,
    LightSpecular,
}

/// The number of a submission job.
#[derive(Clone, Copy, Debug, PartialEq, Eq, Structural)]
pub struct SubmitJobId(pub usize);

/// A view that culls nothing.
#[derive(Clone, Copy, Debug, PartialEq, Eq, Structural)]
pub struct NoCulling;

/// The surfaces of the lighting passes.
pub struct LightBuffers {
    pub light_diffuse: SurfaceHandle,
    pub light_specular: SurfaceHandle,
    pub light_specular_ibl: SurfaceHandle,
    pub vertex_ao: SurfaceHandle,
    pub distortion: SurfaceHandle,

    pub volumetrics_rt0: SurfaceHandle,
    pub volumetrics_rt1: SurfaceHandle,
    pub volumetrics_rt2: SurfaceHandle,
    pub volumetrics_rt3: SurfaceHandle,

    pub volumetrics_upres: SurfaceHandle,

    pub ssao: SurfaceHandle,
    /// Intermediate buffer used for holding the horizontal blur result of the SSAO pass
    pub ssao_pong: SurfaceHandle,
}

/// The surfaces of the water passes.
pub struct WaterBuffers {
    pub water_uv: SurfaceHandle,
    pub water_uv_healed: SurfaceHandle,
    pub water_depth: SurfaceHandle,

    pub water_reflection: SurfaceHandle,
    pub water_reflection_healed: SurfaceHandle,
}

/// The surfaces of the atmosphere passes.
pub struct AtmosphereBuffers {
    pub sky_mask_initial: SurfaceHandle,
    pub sky_mask: SurfaceHandle,
    pub sky_mask_temp: SurfaceHandle,

    pub sky_lookup_near: SurfaceHandle,
    pub sky_lookup_far: SurfaceHandle,
}

} // verus!
