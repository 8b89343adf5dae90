use vstd::prelude::*;
use crate::text::str_eq;
use crate::render_types::DebugPipeline;

verus! {

/// The view of a list of names.
pub open spec fn names_view(v: Seq<&str>) -> Seq<Seq<char>> {
    v.map_values(|s: &str| s@)
}

/// The view of a list of named tags.
pub open spec fn entries_view(v: Seq<(String, u32)>) -> Seq<(Seq<char>, u32)> {
    v.map_values(|e: (String, u32)| (e.0@, e.1))
}

/// The tag of the last entry with the given name, if any (the entries are
/// collected into a map, so a later entry replaces an earlier one).
pub open spec fn spec_find_last(entries: Seq<(Seq<char>, u32)>, name: Seq<char>) -> Option<u32>
    decreases entries.len(),
{
    if entries.len() == 0 {
        None
    } else if entries.last().0 == name {
        Some(entries.last().1)
    } else {
        spec_find_last(entries.drop_last(), name)
    }
}

/// The tag of the last entry with the given name, if any.
pub fn find_named_tag(entries: &Vec<(String, u32)>, name: &str) -> (r: Option<u32>)
    ensures
        r == spec_find_last(entries_view(entries@), name@),
{
    let mut i = entries.len();
    assert(entries_view(entries@).subrange(0, i as int) =~= entries_view(entries@));
    while i > 0
        invariant
            i <= entries@.len(),
            spec_find_last(entries_view(entries@), name@) == spec_find_last(entries_view(entries@).subrange(0, i as int), name@),
        decreases i,
    {
        let ghost pre = entries_view(entries@).subrange(0, i as int);
        if str_eq(entries[i - 1].0.as_str(), name) {
            return Some(entries[i - 1].1);
        }
        assert(pre.drop_last() =~= entries_view(entries@).subrange(0, i - 1));
        i = i - 1;
    }
    assert(entries_view(entries@).subrange(0, 0) =~= Seq::<(Seq<char>, u32)>::empty());
    None
}

/// The tag of every name, or the position of the first name without one.
pub fn resolve_named_tags(entries: &Vec<(String, u32)>, names: &Vec<&str>) -> (r: Result<Vec<u32>, usize>)
    ensures
        r matches Ok(v) ==> v@.len() == names@.len() && forall|k: int| 0 <= k < names@.len()
            ==> spec_find_last(entries_view(entries@), names@[k]@) == Some(#[trigger] v@[k]),
        r matches Err(k) ==> k < names@.len() && spec_find_last(entries_view(entries@), names@[k as int]@) is None
            && forall|j: int| 0 <= j < k ==> #[trigger] spec_find_last(entries_view(entries@), names@[j]@) is Some,
{
    let mut tags: Vec<u32> = Vec::new();
    let mut k: usize = 0;
    while k < names.len()
        invariant
            k <= names@.len(),
            tags@.len() == k,
            forall|j: int| 0 <= j < k ==> spec_find_last(entries_view(entries@), names@[j]@) == Some(#[trigger] tags@[j]),
        decreases names@.len() - k,
    {
        match find_named_tag(entries, names[k]) {
            Some(t) => tags.push(t),
            None => {
                assert forall|j: int| 0 <= j < k implies #[trigger] spec_find_last(entries_view(entries@), names@[j]@) is Some by {
                    assert(spec_find_last(entries_view(entries@), names@[j]@) == Some(tags@[j]));
                }
                return Err(k);
            },
        }
        k = k + 1;
    }
    Ok(tags)
}

/// The global techniques of the renderer, one field per technique name.
pub struct GlobalPipelines<T> {
    pub clear_color_2_mrt: T,
    pub deferred_shading: T,
    pub deferred_shading_no_atm: T,
    pub global_lighting: T,
    pub global_lighting_and_shading: T,
    pub global_lighting_and_shading_gel: T,
    pub final_combine_no_film_curve: T,
    pub final_combine: T,
    pub hdao: T,
    pub apply_ssao_to_light_buffers: T,
    pub ssao_bilateral_filter: T,
    pub fxaa: T,
    pub fxaa_noise: T,
    pub autoexposure_sample_columns: T,
    pub copy_texture_bilinear: T,
    pub copy_texture_bilinear_tiled: T,
    pub cubemap_apply_cube_alpha_off_probes_off_relighting_off: T,
    pub cubemap_apply_cube_alpha_off_probes_off_relighting_on: T,
    pub cubemap_apply_cube_alpha_off_probes_on_relighting_off: T,
    pub cubemap_apply_cube_alpha_off_probes_on_relighting_on: T,
    pub cubemap_apply_cube_alpha_on_probes_off_relighting_off: T,
    pub cubemap_apply_cube_alpha_on_probes_off_relighting_on: T,
    pub cubemap_apply_cube_alpha_on_probes_on_relighting_off: T,
    pub cubemap_apply_cube_alpha_on_probes_on_relighting_on: T,
    pub cubemap_apply_cube_sphere_alpha_off_probes_off_relighting_off: T,
    pub cubemap_apply_cube_sphere_alpha_off_probes_off_relighting_on: T,
    pub cubemap_apply_cube_sphere_alpha_off_probes_on_relighting_off: T,
    pub cubemap_apply_cube_sphere_alpha_off_probes_on_relighting_on: T,
    pub cubemap_apply_cube_sphere_alpha_on_probes_off_relighting_off: T,
    pub cubemap_apply_cube_sphere_alpha_on_probes_off_relighting_on: T,
    pub cubemap_apply_cube_sphere_alpha_on_probes_on_relighting_off: T,
    pub cubemap_apply_cube_sphere_alpha_on_probes_on_relighting_on: T,
    pub cubemap_apply_sphere_alpha_off_probes_off_relighting_off: T,
    pub cubemap_apply_sphere_alpha_off_probes_off_relighting_on: T,
    pub cubemap_apply_sphere_alpha_off_probes_on_relighting_off: T,
    pub cubemap_apply_sphere_alpha_off_probes_on_relighting_on: T,
    pub cubemap_apply_sphere_alpha_on_probes_off_relighting_off: T,
    pub cubemap_apply_sphere_alpha_on_probes_off_relighting_on: T,
    pub cubemap_apply_sphere_alpha_on_probes_on_relighting_off: T,
    pub cubemap_apply_sphere_alpha_on_probes_on_relighting_on: T,
    pub cubemap_apply_parall_cube_alpha_off_probes_off_relighting_off: T,
    pub cubemap_apply_parall_cube_alpha_off_probes_off_relighting_on: T,
    pub cubemap_apply_parall_cube_alpha_off_probes_on_relighting_off: T,
    pub cubemap_apply_parall_cube_alpha_off_probes_on_relighting_on: T,
    pub cubemap_apply_parall_cube_alpha_on_probes_off_relighting_off: T,
    pub cubemap_apply_parall_cube_alpha_on_probes_off_relighting_on: T,
    pub cubemap_apply_parall_cube_alpha_on_probes_on_relighting_off: T,
    pub cubemap_apply_parall_cube_alpha_on_probes_on_relighting_on: T,
    pub cubemap_apply_parall_cube_sphere_alpha_off_probes_off_relighting_off: T,
    pub cubemap_apply_parall_cube_sphere_alpha_off_probes_off_relighting_on: T,
    pub cubemap_apply_parall_cube_sphere_alpha_off_probes_on_relighting_off: T,
    pub cubemap_apply_parall_cube_sphere_alpha_off_probes_on_relighting_on: T,
    pub cubemap_apply_parall_cube_sphere_alpha_on_probes_off_relighting_off: T,
    pub cubemap_apply_parall_cube_sphere_alpha_on_probes_off_relighting_on: T,
    pub cubemap_apply_parall_cube_sphere_alpha_on_probes_on_relighting_off: T,
    pub cubemap_apply_parall_cube_sphere_alpha_on_probes_on_relighting_on: T,
    pub cubemap_apply_parall_sphere_alpha_off_probes_off_relighting_off: T,
    pub cubemap_apply_parall_sphere_alpha_off_probes_off_relighting_on: T,
    pub cubemap_apply_parall_sphere_alpha_off_probes_on_relighting_off: T,
    pub cubemap_apply_parall_sphere_alpha_off_probes_on_relighting_on: T,
    pub cubemap_apply_parall_sphere_alpha_on_probes_off_relighting_off: T,
    pub cubemap_apply_parall_sphere_alpha_on_probes_off_relighting_on: T,
    pub cubemap_apply_parall_sphere_alpha_on_probes_on_relighting_off: T,
    pub cubemap_apply_parall_sphere_alpha_on_probes_on_relighting_on: T,
    pub cubemap_apply_sky_copy_ao: T,
    pub debug_cubemap_diffuse_probes: T,
    pub debug_source_color: T,
    pub debug_specular_smoothness: T,
    pub debug_metalness: T,
    pub debug_texture_ao: T,
    pub debug_ambient_occlusion: T,
    pub debug_emissive: T,
    pub debug_emissive_intensity: T,
    pub debug_transmission: T,
    pub debug_colored_overcoat_id: T,
    pub debug_depth_edges: T,
    pub debug_world_normal: T,
    pub debug_diffuse_light: T,
    pub debug_specular_light: T,
    pub screen_area_global_lut3d_distort: T,
    pub screen_area_global_lut3d_distort_hdr: T,
    pub screen_area_global_lut3d_distort_noise: T,
    pub screen_area_global_lut3d_distort_noise_hdr: T,
    pub screen_area_global_lut3d: T,
    pub screen_area_global_lut3d_hdr: T,
    pub screen_area_global_lut3d_noise: T,
    pub screen_area_global_lut3d_noise_hdr: T,
    pub screen_area_global_lut3d_no_tonemap: T,
    pub downsample_depth_buffer: T,
    pub uber_depth_default: T,
    pub downsample_max_min_avg_no_swizzle: T,
    pub bloom_initial_downsample_block_2x2: T,
    pub downsample_block_2x2_with_nan_kill: T,
    pub volumetrics_upres_1: T,
    pub water_sky_color_generate: T,
    pub water_reflection_healing: T,
    pub water_reflection_resolve: T,
    pub water_reflection_uv_healing: T,
}

/// The names of the fields of `GlobalPipelines`, in declaration order.
pub open spec fn spec_pipeline_names() -> Seq<Seq<char>> {
    seq!["clear_color_2_mrt"@, "deferred_shading"@, "deferred_shading_no_atm"@, "global_lighting"@, "global_lighting_and_shading"@, "global_lighting_and_shading_gel"@, "final_combine_no_film_curve"@, "final_combine"@, "hdao"@, "apply_ssao_to_light_buffers"@, "ssao_bilateral_filter"@, "fxaa"@, "fxaa_noise"@, "autoexposure_sample_columns"@, "copy_texture_bilinear"@, "copy_texture_bilinear_tiled"@, "cubemap_apply_cube_alpha_off_probes_off_relighting_off"@, "cubemap_apply_cube_alpha_off_probes_off_relighting_on"@, "cubemap_apply_cube_alpha_off_probes_on_relighting_off"@, "cubemap_apply_cube_alpha_off_probes_on_relighting_on"@, "cubemap_apply_cube_alpha_on_probes_off_relighting_off"@, "cubemap_apply_cube_alpha_on_probes_off_relighting_on"@, "cubemap_apply_cube_alpha_on_probes_on_relighting_off"@, "cubemap_apply_cube_alpha_on_probes_on_relighting_on"@, "cubemap_apply_cube_sphere_alpha_off_probes_off_relighting_off"@, "cubemap_apply_cube_sphere_alpha_off_probes_off_relighting_on"@, "cubemap_apply_cube_sphere_alpha_off_probes_on_relighting_off"@, "cubemap_apply_cube_sphere_alpha_off_probes_on_relighting_on"@, "cubemap_apply_cube_sphere_alpha_on_probes_off_relighting_off"@, "cubemap_apply_cube_sphere_alpha_on_probes_off_relighting_on"@, "cubemap_apply_cube_sphere_alpha_on_probes_on_relighting_off"@, "cubemap_apply_cube_sphere_alpha_on_probes_on_relighting_on"@, "cubemap_apply_sphere_alpha_off_probes_off_relighting_off"@, "cubemap_apply_sphere_alpha_off_probes_off_relighting_on"@, "cubemap_apply_sphere_alpha_off_probes_on_relighting_off"@, "cubemap_apply_sphere_alpha_off_probes_on_relighting_on"@, "cubemap_apply_sphere_alpha_on_probes_off_relighting_off"@, "cubemap_apply_sphere_alpha_on_probes_off_relighting_on"@, "cubemap_apply_sphere_alpha_on_probes_on_relighting_off"@, "cubemap_apply_sphere_alpha_on_probes_on_relighting_on"@, "cubemap_apply_parall_cube_alpha_off_probes_off_relighting_off"@, "cubemap_apply_parall_cube_alpha_off_probes_off_relighting_on"@, "cubemap_apply_parall_cube_alpha_off_probes_on_relighting_off"@, "cubemap_apply_parall_cube_alpha_off_probes_on_relighting_on"@, "cubemap_apply_parall_cube_alpha_on_probes_off_relighting_off"@, "cubemap_apply_parall_cube_alpha_on_probes_off_relighting_on"@, "cubemap_apply_parall_cube_alpha_on_probes_on_relighting_off"@, "cubemap_apply_parall_cube_alpha_on_probes_on_relighting_on"@, "cubemap_apply_parall_cube_sphere_alpha_off_probes_off_relighting_off"@, "cubemap_apply_parall_cube_sphere_alpha_off_probes_off_relighting_on"@, "cubemap_apply_parall_cube_sphere_alpha_off_probes_on_relighting_off"@, "cubemap_apply_parall_cube_sphere_alpha_off_probes_on_relighting_on"@, "cubemap_apply_parall_cube_sphere_alpha_on_probes_off_relighting_off"@, "cubemap_apply_parall_cube_sphere_alpha_on_probes_off_relighting_on"@, "cubemap_apply_parall_cube_sphere_alpha_on_probes_on_relighting_off"@, "cubemap_apply_parall_cube_sphere_alpha_on_probes_on_relighting_on"@, "cubemap_apply_parall_sphere_alpha_off_probes_off_relighting_off"@, "cubemap_apply_parall_sphere_alpha_off_probes_off_relighting_on"@, "cubemap_apply_parall_sphere_alpha_off_probes_on_relighting_off"@, "cubemap_apply_parall_sphere_alpha_off_probes_on_relighting_on"@, "cubemap_apply_parall_sphere_alpha_on_probes_off_relighting_off"@, "cubemap_apply_parall_sphere_alpha_on_probes_off_relighting_on"@, "cubemap_apply_parall_sphere_alpha_on_probes_on_relighting_off"@, "cubemap_apply_parall_sphere_alpha_on_probes_on_relighting_on"@, "cubemap_apply_sky_copy_ao"@, "debug_cubemap_diffuse_probes"@, "debug_source_color"@, "debug_specular_smoothness"@, "debug_metalness"@, "debug_texture_ao"@, "debug_ambient_occlusion"@, "debug_emissive"@, "debug_emissive_intensity"@, "debug_transmission"@, "debug_colored_overcoat_id"@, "debug_depth_edges"@, "debug_world_normal"@, "debug_diffuse_light"@, "debug_specular_light"@, "screen_area_global_lut3d_distort"@, "screen_area_global_lut3d_distort_hdr"@, "screen_area_global_lut3d_distort_noise"@, "screen_area_global_lut3d_distort_noise_hdr"@, "screen_area_global_lut3d"@, "screen_area_global_lut3d_hdr"@, "screen_area_global_lut3d_noise"@, "screen_area_global_lut3d_noise_hdr"@, "screen_area_global_lut3d_no_tonemap"@, "downsample_depth_buffer"@, "uber_depth_default"@, "downsample_max_min_avg_no_swizzle"@, "bloom_initial_downsample_block_2x2"@, "downsample_block_2x2_with_nan_kill"@, "volumetrics_upres_1"@, "water_sky_color_generate"@, "water_reflection_healing"@, "water_reflection_resolve"@, "water_reflection_uv_healing"@]
}

/// The names of the fields of `GlobalPipelines`, in declaration order.
pub fn pipeline_names() -> (r: Vec<&'static str>)
    ensures
        names_view(r@) == spec_pipeline_names(),
{
    let r: Vec<&'static str> = vec!["clear_color_2_mrt", "deferred_shading", "deferred_shading_no_atm", "global_lighting", "global_lighting_and_shading", "global_lighting_and_shading_gel", "final_combine_no_film_curve", "final_combine", "hdao", "apply_ssao_to_light_buffers", "ssao_bilateral_filter", "fxaa", "fxaa_noise", "autoexposure_sample_columns", "copy_texture_bilinear", "copy_texture_bilinear_tiled", "cubemap_apply_cube_alpha_off_probes_off_relighting_off", "cubemap_apply_cube_alpha_off_probes_off_relighting_on", "cubemap_apply_cube_alpha_off_probes_on_relighting_off", "cubemap_apply_cube_alpha_off_probes_on_relighting_on", "cubemap_apply_cube_alpha_on_probes_off_relighting_off", "cubemap_apply_cube_alpha_on_probes_off_relighting_on", "cubemap_apply_cube_alpha_on_probes_on_relighting_off", "cubemap_apply_cube_alpha_on_probes_on_relighting_on", "cubemap_apply_cube_sphere_alpha_off_probes_off_relighting_off", "cubemap_apply_cube_sphere_alpha_off_probes_off_relighting_on", "cubemap_apply_cube_sphere_alpha_off_probes_on_relighting_off", "cubemap_apply_cube_sphere_alpha_off_probes_on_relighting_on", "cubemap_apply_cube_sphere_alpha_on_probes_off_relighting_off", "cubemap_apply_cube_sphere_alpha_on_probes_off_relighting_on", "cubemap_apply_cube_sphere_alpha_on_probes_on_relighting_off", "cubemap_apply_cube_sphere_alpha_on_probes_on_relighting_on", "cubemap_apply_sphere_alpha_off_probes_off_relighting_off", "cubemap_apply_sphere_alpha_off_probes_off_relighting_on", "cubemap_apply_sphere_alpha_off_probes_on_relighting_off", "cubemap_apply_sphere_alpha_off_probes_on_relighting_on", "cubemap_apply_sphere_alpha_on_probes_off_relighting_off", "cubemap_apply_sphere_alpha_on_probes_off_relighting_on", "cubemap_apply_sphere_alpha_on_probes_on_relighting_off", "cubemap_apply_sphere_alpha_on_probes_on_relighting_on", "cubemap_apply_parall_cube_alpha_off_probes_off_relighting_off", "cubemap_apply_parall_cube_alpha_off_probes_off_relighting_on", "cubemap_apply_parall_cube_alpha_off_probes_on_relighting_off", "cubemap_apply_parall_cube_alpha_off_probes_on_relighting_on", "cubemap_apply_parall_cube_alpha_on_probes_off_relighting_off", "cubemap_apply_parall_cube_alpha_on_probes_off_relighting_on", "cubemap_apply_parall_cube_alpha_on_probes_on_relighting_off", "cubemap_apply_parall_cube_alpha_on_probes_on_relighting_on", "cubemap_apply_parall_cube_sphere_alpha_off_probes_off_relighting_off", "cubemap_apply_parall_cube_sphere_alpha_off_probes_off_relighting_on", "cubemap_apply_parall_cube_sphere_alpha_off_probes_on_relighting_off", "cubemap_apply_parall_cube_sphere_alpha_off_probes_on_relighting_on", "cubemap_apply_parall_cube_sphere_alpha_on_probes_off_relighting_off", "cubemap_apply_parall_cube_sphere_alpha_on_probes_off_relighting_on", "cubemap_apply_parall_cube_sphere_alpha_on_probes_on_relighting_off", "cubemap_apply_parall_cube_sphere_alpha_on_probes_on_relighting_on", "cubemap_apply_parall_sphere_alpha_off_probes_off_relighting_off", "cubemap_apply_parall_sphere_alpha_off_probes_off_relighting_on", "cubemap_apply_parall_sphere_alpha_off_probes_on_relighting_off", "cubemap_apply_parall_sphere_alpha_off_probes_on_relighting_on", "cubemap_apply_parall_sphere_alpha_on_probes_off_relighting_off", "cubemap_apply_parall_sphere_alpha_on_probes_off_relighting_on", "cubemap_apply_parall_sphere_alpha_on_probes_on_relighting_off", "cubemap_apply_parall_sphere_alpha_on_probes_on_relighting_on", "cubemap_apply_sky_copy_ao", "debug_cubemap_diffuse_probes", "debug_source_color", "debug_specular_smoothness", "debug_metalness", "debug_texture_ao", "debug_ambient_occlusion", "debug_emissive", "debug_emissive_intensity", "debug_transmission", "debug_colored_overcoat_id", "debug_depth_edges", "debug_world_normal", "debug_diffuse_light", "debug_specular_light", "screen_area_global_lut3d_distort", "screen_area_global_lut3d_distort_hdr", "screen_area_global_lut3d_distort_noise", "screen_area_global_lut3d_distort_noise_hdr", "screen_area_global_lut3d", "screen_area_global_lut3d_hdr", "screen_area_global_lut3d_noise", "screen_area_global_lut3d_noise_hdr", "screen_area_global_lut3d_no_tonemap", "downsample_depth_buffer", "uber_depth_default", "downsample_max_min_avg_no_swizzle", "bloom_initial_downsample_block_2x2", "downsample_block_2x2_with_nan_kill", "volumetrics_upres_1", "water_sky_color_generate", "water_reflection_healing", "water_reflection_resolve", "water_reflection_uv_healing"];
    assert(names_view(r@) =~= spec_pipeline_names());
    r
}

impl<T> GlobalPipelines<T> {
    /// The fields in declaration order.
    pub open spec fn spec_fields(self) -> Seq<T> {
        seq![self.clear_color_2_mrt, self.deferred_shading, self.deferred_shading_no_atm, self.global_lighting, self.global_lighting_and_shading, self.global_lighting_and_shading_gel, self.final_combine_no_film_curve, self.final_combine, self.hdao, self.apply_ssao_to_light_buffers, self.ssao_bilateral_filter, self.fxaa, self.fxaa_noise, self.autoexposure_sample_columns, self.copy_texture_bilinear, self.copy_texture_bilinear_tiled, self.cubemap_apply_cube_alpha_off_probes_off_relighting_off, self.cubemap_apply_cube_alpha_off_probes_off_relighting_on, self.cubemap_apply_cube_alpha_off_probes_on_relighting_off, self.cubemap_apply_cube_alpha_off_probes_on_relighting_on, self.cubemap_apply_cube_alpha_on_probes_off_relighting_off, self.cubemap_apply_cube_alpha_on_probes_off_relighting_on, self.cubemap_apply_cube_alpha_on_probes_on_relighting_off, self.cubemap_apply_cube_alpha_on_probes_on_relighting_on, self.cubemap_apply_cube_sphere_alpha_off_probes_off_relighting_off, self.cubemap_apply_cube_sphere_alpha_off_probes_off_relighting_on, self.cubemap_apply_cube_sphere_alpha_off_probes_on_relighting_off, self.cubemap_apply_cube_sphere_alpha_off_probes_on_relighting_on, self.cubemap_apply_cube_sphere_alpha_on_probes_off_relighting_off, self.cubemap_apply_cube_sphere_alpha_on_probes_off_relighting_on, self.cubemap_apply_cube_sphere_alpha_on_probes_on_relighting_off, self.cubemap_apply_cube_sphere_alpha_on_probes_on_relighting_on, self.cubemap_apply_sphere_alpha_off_probes_off_relighting_off, self.cubemap_apply_sphere_alpha_off_probes_off_relighting_on, self.cubemap_apply_sphere_alpha_off_probes_on_relighting_off, self.cubemap_apply_sphere_alpha_off_probes_on_relighting_on, self.cubemap_apply_sphere_alpha_on_probes_off_relighting_off, self.cubemap_apply_sphere_alpha_on_probes_off_relighting_on, self.cubemap_apply_sphere_alpha_on_probes_on_relighting_off, self.cubemap_apply_sphere_alpha_on_probes_on_relighting_on, self.cubemap_apply_parall_cube_alpha_off_probes_off_relighting_off, self.cubemap_apply_parall_cube_alpha_off_probes_off_relighting_on, self.cubemap_apply_parall_cube_alpha_off_probes_on_relighting_off, self.cubemap_apply_parall_cube_alpha_off_probes_on_relighting_on, self.cubemap_apply_parall_cube_alpha_on_probes_off_relighting_off, self.cubemap_apply_parall_cube_alpha_on_probes_off_relighting_on, self.cubemap_apply_parall_cube_alpha_on_probes_on_relighting_off, self.cubemap_apply_parall_cube_alpha_on_probes_on_relighting_on, self.cubemap_apply_parall_cube_sphere_alpha_off_probes_off_relighting_off, self.cubemap_apply_parall_cube_sphere_alpha_off_probes_off_relighting_on, self.cubemap_apply_parall_cube_sphere_alpha_off_probes_on_relighting_off, self.cubemap_apply_parall_cube_sphere_alpha_off_probes_on_relighting_on, self.cubemap_apply_parall_cube_sphere_alpha_on_probes_off_relighting_off, self.cubemap_apply_parall_cube_sphere_alpha_on_probes_off_relighting_on, self.cubemap_apply_parall_cube_sphere_alpha_on_probes_on_relighting_off, self.cubemap_apply_parall_cube_sphere_alpha_on_probes_on_relighting_on, self.cubemap_apply_parall_sphere_alpha_off_probes_off_relighting_off, self.cubemap_apply_parall_sphere_alpha_off_probes_off_relighting_on, self.cubemap_apply_parall_sphere_alpha_off_probes_on_relighting_off, self.cubemap_apply_parall_sphere_alpha_off_probes_on_relighting_on, self.cubemap_apply_parall_sphere_alpha_on_probes_off_relighting_off, self.cubemap_apply_parall_sphere_alpha_on_probes_off_relighting_on, self.cubemap_apply_parall_sphere_alpha_on_probes_on_relighting_off, self.cubemap_apply_parall_sphere_alpha_on_probes_on_relighting_on, self.cubemap_apply_sky_copy_ao, self.debug_cubemap_diffuse_probes, self.debug_source_color, self.debug_specular_smoothness, self.debug_metalness, self.debug_texture_ao, self.debug_ambient_occlusion, self.debug_emissive, self.debug_emissive_intensity, self.debug_transmission, self.debug_colored_overcoat_id, self.debug_depth_edges, self.debug_world_normal, self.debug_diffuse_light, self.debug_specular_light, self.screen_area_global_lut3d_distort, self.screen_area_global_lut3d_distort_hdr, self.screen_area_global_lut3d_distort_noise, self.screen_area_global_lut3d_distort_noise_hdr, self.screen_area_global_lut3d, self.screen_area_global_lut3d_hdr, self.screen_area_global_lut3d_noise, self.screen_area_global_lut3d_noise_hdr, self.screen_area_global_lut3d_no_tonemap, self.downsample_depth_buffer, self.uber_depth_default, self.downsample_max_min_avg_no_swizzle, self.bloom_initial_downsample_block_2x2, self.downsample_block_2x2_with_nan_kill, self.volumetrics_upres_1, self.water_sky_color_generate, self.water_reflection_healing, self.water_reflection_resolve, self.water_reflection_uv_healing]
    }

    /// Applies `f` to every field, in declaration order.
    pub fn map<U, F: Fn(T) -> U>(self, f: F) -> (r: GlobalPipelines<U>)
        requires
            forall|t: T| f.requires((t,)),
        ensures
            forall|k: int| 0 <= k < 98 ==> f.ensures((self.spec_fields()[k],), #[trigger] r.spec_fields()[k]),
    {
        let r = GlobalPipelines { clear_color_2_mrt: f(self.clear_color_2_mrt), deferred_shading: f(self.deferred_shading), deferred_shading_no_atm: f(self.deferred_shading_no_atm), global_lighting: f(self.global_lighting), global_lighting_and_shading: f(self.global_lighting_and_shading), global_lighting_and_shading_gel: f(self.global_lighting_and_shading_gel), final_combine_no_film_curve: f(self.final_combine_no_film_curve), final_combine: f(self.final_combine), hdao: f(self.hdao), apply_ssao_to_light_buffers: f(self.apply_ssao_to_light_buffers), ssao_bilateral_filter: f(self.ssao_bilateral_filter), fxaa: f(self.fxaa), fxaa_noise: f(self.fxaa_noise), autoexposure_sample_columns: f(self.autoexposure_sample_columns), copy_texture_bilinear: f(self.copy_texture_bilinear), copy_texture_bilinear_tiled: f(self.copy_texture_bilinear_tiled), cubemap_apply_cube_alpha_off_probes_off_relighting_off: f(self.cubemap_apply_cube_alpha_off_probes_off_relighting_off), cubemap_apply_cube_alpha_off_probes_off_relighting_on: f(self.cubemap_apply_cube_alpha_off_probes_off_relighting_on), cubemap_apply_cube_alpha_off_probes_on_relighting_off: f(self.cubemap_apply_cube_alpha_off_probes_on_relighting_off), cubemap_apply_cube_alpha_off_probes_on_relighting_on: f(self.cubemap_apply_cube_alpha_off_probes_on_relighting_on), cubemap_apply_cube_alpha_on_probes_off_relighting_off: f(self.cubemap_apply_cube_alpha_on_probes_off_relighting_off), cubemap_apply_cube_alpha_on_probes_off_relighting_on: f(self.cubemap_apply_cube_alpha_on_probes_off_relighting_on), cubemap_apply_cube_alpha_on_probes_on_relighting_off: f(self.cubemap_apply_cube_alpha_on_probes_on_relighting_off), cubemap_apply_cube_alpha_on_probes_on_relighting_on: f(self.cubemap_apply_cube_alpha_on_probes_on_relighting_on), cubemap_apply_cube_sphere_alpha_off_probes_off_relighting_off: f(self.cubemap_apply_cube_sphere_alpha_off_probes_off_relighting_off), cubemap_apply_cube_sphere_alpha_off_probes_off_relighting_on: f(self.cubemap_apply_cube_sphere_alpha_off_probes_off_relighting_on), cubemap_apply_cube_sphere_alpha_off_probes_on_relighting_off: f(self.cubemap_apply_cube_sphere_alpha_off_probes_on_relighting_off), cubemap_apply_cube_sphere_alpha_off_probes_on_relighting_on: f(self.cubemap_apply_cube_sphere_alpha_off_probes_on_relighting_on), cubemap_apply_cube_sphere_alpha_on_probes_off_relighting_off: f(self.cubemap_apply_cube_sphere_alpha_on_probes_off_relighting_off), cubemap_apply_cube_sphere_alpha_on_probes_off_relighting_on: f(self.cubemap_apply_cube_sphere_alpha_on_probes_off_relighting_on), cubemap_apply_cube_sphere_alpha_on_probes_on_relighting_off: f(self.cubemap_apply_cube_sphere_alpha_on_probes_on_relighting_off), cubemap_apply_cube_sphere_alpha_on_probes_on_relighting_on: f(self.cubemap_apply_cube_sphere_alpha_on_probes_on_relighting_on), cubemap_apply_sphere_alpha_off_probes_off_relighting_off: f(self.cubemap_apply_sphere_alpha_off_probes_off_relighting_off), cubemap_apply_sphere_alpha_off_probes_off_relighting_on: f(self.cubemap_apply_sphere_alpha_off_probes_off_relighting_on), cubemap_apply_sphere_alpha_off_probes_on_relighting_off: f(self.cubemap_apply_sphere_alpha_off_probes_on_relighting_off), cubemap_apply_sphere_alpha_off_probes_on_relighting_on: f(self.cubemap_apply_sphere_alpha_off_probes_on_relighting_on), cubemap_apply_sphere_alpha_on_probes_off_relighting_off: f(self.cubemap_apply_sphere_alpha_on_probes_off_relighting_off), cubemap_apply_sphere_alpha_on_probes_off_relighting_on: f(self.cubemap_apply_sphere_alpha_on_probes_off_relighting_on), cubemap_apply_sphere_alpha_on_probes_on_relighting_off: f(self.cubemap_apply_sphere_alpha_on_probes_on_relighting_off), cubemap_apply_sphere_alpha_on_probes_on_relighting_on: f(self.cubemap_apply_sphere_alpha_on_probes_on_relighting_on), cubemap_apply_parall_cube_alpha_off_probes_off_relighting_off: f(self.cubemap_apply_parall_cube_alpha_off_probes_off_relighting_off), cubemap_apply_parall_cube_alpha_off_probes_off_relighting_on: f(self.cubemap_apply_parall_cube_alpha_off_probes_off_relighting_on), cubemap_apply_parall_cube_alpha_off_probes_on_relighting_off: f(self.cubemap_apply_parall_cube_alpha_off_probes_on_relighting_off), cubemap_apply_parall_cube_alpha_off_probes_on_relighting_on: f(self.cubemap_apply_parall_cube_alpha_off_probes_on_relighting_on), cubemap_apply_parall_cube_alpha_on_probes_off_relighting_off: f(self.cubemap_apply_parall_cube_alpha_on_probes_off_relighting_off), cubemap_apply_parall_cube_alpha_on_probes_off_relighting_on: f(self.cubemap_apply_parall_cube_alpha_on_probes_off_relighting_on), cubemap_apply_parall_cube_alpha_on_probes_on_relighting_off: f(self.cubemap_apply_parall_cube_alpha_on_probes_on_relighting_off), cubemap_apply_parall_cube_alpha_on_probes_on_relighting_on: f(self.cubemap_apply_parall_cube_alpha_on_probes_on_relighting_on), cubemap_apply_parall_cube_sphere_alpha_off_probes_off_relighting_off: f(self.cubemap_apply_parall_cube_sphere_alpha_off_probes_off_relighting_off), cubemap_apply_parall_cube_sphere_alpha_off_probes_off_relighting_on: f(self.cubemap_apply_parall_cube_sphere_alpha_off_probes_off_relighting_on), cubemap_apply_parall_cube_sphere_alpha_off_probes_on_relighting_off: f(self.cubemap_apply_parall_cube_sphere_alpha_off_probes_on_relighting_off), cubemap_apply_parall_cube_sphere_alpha_off_probes_on_relighting_on: f(self.cubemap_apply_parall_cube_sphere_alpha_off_probes_on_relighting_on), cubemap_apply_parall_cube_sphere_alpha_on_probes_off_relighting_off: f(self.cubemap_apply_parall_cube_sphere_alpha_on_probes_off_relighting_off), cubemap_apply_parall_cube_sphere_alpha_on_probes_off_relighting_on: f(self.cubemap_apply_parall_cube_sphere_alpha_on_probes_off_relighting_on), cubemap_apply_parall_cube_sphere_alpha_on_probes_on_relighting_off: f(self.cubemap_apply_parall_cube_sphere_alpha_on_probes_on_relighting_off), cubemap_apply_parall_cube_sphere_alpha_on_probes_on_relighting_on: f(self.cubemap_apply_parall_cube_sphere_alpha_on_probes_on_relighting_on), cubemap_apply_parall_sphere_alpha_off_probes_off_relighting_off: f(self.cubemap_apply_parall_sphere_alpha_off_probes_off_relighting_off), cubemap_apply_parall_sphere_alpha_off_probes_off_relighting_on: f(self.cubemap_apply_parall_sphere_alpha_off_probes_off_relighting_on), cubemap_apply_parall_sphere_alpha_off_probes_on_relighting_off: f(self.cubemap_apply_parall_sphere_alpha_off_probes_on_relighting_off), cubemap_apply_parall_sphere_alpha_off_probes_on_relighting_on: f(self.cubemap_apply_parall_sphere_alpha_off_probes_on_relighting_on), cubemap_apply_parall_sphere_alpha_on_probes_off_relighting_off: f(self.cubemap_apply_parall_sphere_alpha_on_probes_off_relighting_off), cubemap_apply_parall_sphere_alpha_on_probes_off_relighting_on: f(self.cubemap_apply_parall_sphere_alpha_on_probes_off_relighting_on), cubemap_apply_parall_sphere_alpha_on_probes_on_relighting_off: f(self.cubemap_apply_parall_sphere_alpha_on_probes_on_relighting_off), cubemap_apply_parall_sphere_alpha_on_probes_on_relighting_on: f(self.cubemap_apply_parall_sphere_alpha_on_probes_on_relighting_on), cubemap_apply_sky_copy_ao: f(self.cubemap_apply_sky_copy_ao), debug_cubemap_diffuse_probes: f(self.debug_cubemap_diffuse_probes), debug_source_color: f(self.debug_source_color), debug_specular_smoothness: f(self.debug_specular_smoothness), debug_metalness: f(self.debug_metalness), debug_texture_ao: f(self.debug_texture_ao), debug_ambient_occlusion: f(self.debug_ambient_occlusion), debug_emissive: f(self.debug_emissive), debug_emissive_intensity: f(self.debug_emissive_intensity), debug_transmission: f(self.debug_transmission), debug_colored_overcoat_id: f(self.debug_colored_overcoat_id), debug_depth_edges: f(self.debug_depth_edges), debug_world_normal: f(self.debug_world_normal), debug_diffuse_light: f(self.debug_diffuse_light), debug_specular_light: f(self.debug_specular_light), screen_area_global_lut3d_distort: f(self.screen_area_global_lut3d_distort), screen_area_global_lut3d_distort_hdr: f(self.screen_area_global_lut3d_distort_hdr), screen_area_global_lut3d_distort_noise: f(self.screen_area_global_lut3d_distort_noise), screen_area_global_lut3d_distort_noise_hdr: f(self.screen_area_global_lut3d_distort_noise_hdr), screen_area_global_lut3d: f(self.screen_area_global_lut3d), screen_area_global_lut3d_hdr: f(self.screen_area_global_lut3d_hdr), screen_area_global_lut3d_noise: f(self.screen_area_global_lut3d_noise), screen_area_global_lut3d_noise_hdr: f(self.screen_area_global_lut3d_noise_hdr), screen_area_global_lut3d_no_tonemap: f(self.screen_area_global_lut3d_no_tonemap), downsample_depth_buffer: f(self.downsample_depth_buffer), uber_depth_default: f(self.uber_depth_default), downsample_max_min_avg_no_swizzle: f(self.downsample_max_min_avg_no_swizzle), bloom_initial_downsample_block_2x2: f(self.bloom_initial_downsample_block_2x2), downsample_block_2x2_with_nan_kill: f(self.downsample_block_2x2_with_nan_kill), volumetrics_upres_1: f(self.volumetrics_upres_1), water_sky_color_generate: f(self.water_sky_color_generate), water_reflection_healing: f(self.water_reflection_healing), water_reflection_resolve: f(self.water_reflection_resolve), water_reflection_uv_healing: f(self.water_reflection_uv_healing) };
        assert forall|k: int| 0 <= k < 98 implies f.ensures((self.spec_fields()[k],), #[trigger] r.spec_fields()[k]) by {
        }
        r
    }
}

impl GlobalPipelines<u32> {
    /// Looks up the tag of every field by name (the last entry of a name
    /// counts); the error is the position of the first name without one.
    pub fn resolve(entries: &Vec<(String, u32)>) -> (r: Result<GlobalPipelines<u32>, usize>)
        ensures
            r matches Ok(p) ==> forall|k: int| 0 <= k < 98 ==> spec_find_last(entries_view(entries@), spec_pipeline_names()[k]) == Some(#[trigger] p.spec_fields()[k]),
            r matches Err(k) ==> k < 98 && spec_find_last(entries_view(entries@), spec_pipeline_names()[k as int]) is None
                && forall|j: int| 0 <= j < k ==> #[trigger] spec_find_last(entries_view(entries@), spec_pipeline_names()[j]) is Some,
            r is Ok <==> forall|k: int| 0 <= k < 98 ==> #[trigger] spec_find_last(entries_view(entries@), spec_pipeline_names()[k]) is Some,
    {
        let names = pipeline_names();
        assert(names_view(names@).len() == names@.len());
        match resolve_named_tags(entries, &names) {
            Ok(tags) => {
                assert forall|k: int| 0 <= k < 98 implies spec_find_last(entries_view(entries@), spec_pipeline_names()[k]) == Some(#[trigger] tags@[k]) by {
                    assert(names_view(names@)[k] == names@[k]@);
                }
                let p = GlobalPipelines { clear_color_2_mrt: tags[0], deferred_shading: tags[1], deferred_shading_no_atm: tags[2], global_lighting: tags[3], global_lighting_and_shading: tags[4], global_lighting_and_shading_gel: tags[5], final_combine_no_film_curve: tags[6], final_combine: tags[7], hdao: tags[8], apply_ssao_to_light_buffers: tags[9], ssao_bilateral_filter: tags[10], fxaa: tags[11], fxaa_noise: tags[12], autoexposure_sample_columns: tags[13], copy_texture_bilinear: tags[14], copy_texture_bilinear_tiled: tags[15], cubemap_apply_cube_alpha_off_probes_off_relighting_off: tags[16], cubemap_apply_cube_alpha_off_probes_off_relighting_on: tags[17], cubemap_apply_cube_alpha_off_probes_on_relighting_off: tags[18], cubemap_apply_cube_alpha_off_probes_on_relighting_on: tags[19], cubemap_apply_cube_alpha_on_probes_off_relighting_off: tags[20], cubemap_apply_cube_alpha_on_probes_off_relighting_on: tags[21], cubemap_apply_cube_alpha_on_probes_on_relighting_off: tags[22], cubemap_apply_cube_alpha_on_probes_on_relighting_on: tags[23], cubemap_apply_cube_sphere_alpha_off_probes_off_relighting_off: tags[24], cubemap_apply_cube_sphere_alpha_off_probes_off_relighting_on: tags[25], cubemap_apply_cube_sphere_alpha_off_probes_on_relighting_off: tags[26], cubemap_apply_cube_sphere_alpha_off_probes_on_relighting_on: tags[27], cubemap_apply_cube_sphere_alpha_on_probes_off_relighting_off: tags[28], cubemap_apply_cube_sphere_alpha_on_probes_off_relighting_on: tags[29], cubemap_apply_cube_sphere_alpha_on_probes_on_relighting_off: tags[30], cubemap_apply_cube_sphere_alpha_on_probes_on_relighting_on: tags[31], cubemap_apply_sphere_alpha_off_probes_off_relighting_off: tags[32], cubemap_apply_sphere_alpha_off_probes_off_relighting_on: tags[33], cubemap_apply_sphere_alpha_off_probes_on_relighting_off: tags[34], cubemap_apply_sphere_alpha_off_probes_on_relighting_on: tags[35], cubemap_apply_sphere_alpha_on_probes_off_relighting_off: tags[36], cubemap_apply_sphere_alpha_on_probes_off_relighting_on: tags[37], cubemap_apply_sphere_alpha_on_probes_on_relighting_off: tags[38], cubemap_apply_sphere_alpha_on_probes_on_relighting_on: tags[39], cubemap_apply_parall_cube_alpha_off_probes_off_relighting_off: tags[40], cubemap_apply_parall_cube_alpha_off_probes_off_relighting_on: tags[41], cubemap_apply_parall_cube_alpha_off_probes_on_relighting_off: tags[42], cubemap_apply_parall_cube_alpha_off_probes_on_relighting_on: tags[43], cubemap_apply_parall_cube_alpha_on_probes_off_relighting_off: tags[44], cubemap_apply_parall_cube_alpha_on_probes_off_relighting_on: tags[45], cubemap_apply_parall_cube_alpha_on_probes_on_relighting_off: tags[46], cubemap_apply_parall_cube_alpha_on_probes_on_relighting_on: tags[47], cubemap_apply_parall_cube_sphere_alpha_off_probes_off_relighting_off: tags[48], cubemap_apply_parall_cube_sphere_alpha_off_probes_off_relighting_on: tags[49], cubemap_apply_parall_cube_sphere_alpha_off_probes_on_relighting_off: tags[50], cubemap_apply_parall_cube_sphere_alpha_off_probes_on_relighting_on: tags[51], cubemap_apply_parall_cube_sphere_alpha_on_probes_off_relighting_off: tags[52], cubemap_apply_parall_cube_sphere_alpha_on_probes_off_relighting_on: tags[53], cubemap_apply_parall_cube_sphere_alpha_on_probes_on_relighting_off: tags[54], cubemap_apply_parall_cube_sphere_alpha_on_probes_on_relighting_on: tags[55], cubemap_apply_parall_sphere_alpha_off_probes_off_relighting_off: tags[56], cubemap_apply_parall_sphere_alpha_off_probes_off_relighting_on: tags[57], cubemap_apply_parall_sphere_alpha_off_probes_on_relighting_off: tags[58], cubemap_apply_parall_sphere_alpha_off_probes_on_relighting_on: tags[59], cubemap_apply_parall_sphere_alpha_on_probes_off_relighting_off: tags[60], cubemap_apply_parall_sphere_alpha_on_probes_off_relighting_on: tags[61], cubemap_apply_parall_sphere_alpha_on_probes_on_relighting_off: tags[62], cubemap_apply_parall_sphere_alpha_on_probes_on_relighting_on: tags[63], cubemap_apply_sky_copy_ao: tags[64], debug_cubemap_diffuse_probes: tags[65], debug_source_color: tags[66], debug_specular_smoothness: tags[67], debug_metalness: tags[68], debug_texture_ao: tags[69], debug_ambient_occlusion: tags[70], debug_emissive: tags[71], debug_emissive_intensity: tags[72], debug_transmission: tags[73], debug_colored_overcoat_id: tags[74], debug_depth_edges: tags[75], debug_world_normal: tags[76], debug_diffuse_light: tags[77], debug_specular_light: tags[78], screen_area_global_lut3d_distort: tags[79], screen_area_global_lut3d_distort_hdr: tags[80], screen_area_global_lut3d_distort_noise: tags[81], screen_area_global_lut3d_distort_noise_hdr: tags[82], screen_area_global_lut3d: tags[83], screen_area_global_lut3d_hdr: tags[84], screen_area_global_lut3d_noise: tags[85], screen_area_global_lut3d_noise_hdr: tags[86], screen_area_global_lut3d_no_tonemap: tags[87], downsample_depth_buffer: tags[88], uber_depth_default: tags[89], downsample_max_min_avg_no_swizzle: tags[90], bloom_initial_downsample_block_2x2: tags[91], downsample_block_2x2_with_nan_kill: tags[92], volumetrics_upres_1: tags[93], water_sky_color_generate: tags[94], water_reflection_healing: tags[95], water_reflection_resolve: tags[96], water_reflection_uv_healing: tags[97] };
                assert(p.spec_fields() =~= tags@);
                Ok(p)
            },
            Err(k) => {
                assert(names_view(names@)[k as int] == names@[k as int]@);
                assert forall|j: int| 0 <= j < k implies #[trigger] spec_find_last(entries_view(entries@), spec_pipeline_names()[j]) is Some by {
                    assert(names_view(names@)[j] == names@[j]@);
                }
                assert(!(spec_find_last(entries_view(entries@), spec_pipeline_names()[k as int]) is Some));
                Err(k)
            },
        }
    }
}

/// The global scopes of the renderer, one field per scope name.
pub struct GlobalScopes<T> {
    pub frame: T,
    pub view: T,
    pub rigid_model: T,
    pub editor_mesh: T,
    pub editor_terrain: T,
    pub cui_view: T,
    pub cui_object: T,
    pub skinning: T,
    pub speedtree: T,
    pub chunk_model: T,
    pub decal: T,
    pub instances: T,
    pub speedtree_lod_drawcall_data: T,
    pub transparent: T,
    pub transparent_advanced: T,
    pub sdsm_bias_and_scale_textures: T,
    pub terrain: T,
    pub postprocess: T,
    pub cui_bitmap: T,
    pub cui_standard: T,
    pub ui_font: T,
    pub cui_hud: T,
    pub particle_transforms: T,
    pub particle_location_metadata: T,
    pub cubemap_volume: T,
    pub gear_plated_textures: T,
    pub generic_array: T,
}

/// The names of the fields of `GlobalScopes`, in declaration order.
pub open spec fn spec_scope_names() -> Seq<Seq<char>> {
    seq!["frame"@, "view"@, "rigid_model"@, "editor_mesh"@, "editor_terrain"@, "cui_view"@, "cui_object"@, "skinning"@, "speedtree"@, "chunk_model"@, "decal"@, "instances"@, "speedtree_lod_drawcall_data"@, "transparent"@, "transparent_advanced"@, "sdsm_bias_and_scale_textures"@, "terrain"@, "postprocess"@, "cui_bitmap"@, "cui_standard"@, "ui_font"@, "cui_hud"@, "particle_transforms"@, "particle_location_metadata"@, "cubemap_volume"@, "gear_plated_textures"@, "generic_array"@]
}

/// The names of the fields of `GlobalScopes`, in declaration order.
pub fn scope_names() -> (r: Vec<&'static str>)
    ensures
        names_view(r@) == spec_scope_names(),
{
    let r: Vec<&'static str> = vec!["frame", "view", "rigid_model", "editor_mesh", "editor_terrain", "cui_view", "cui_object", "skinning", "speedtree", "chunk_model", "decal", "instances", "speedtree_lod_drawcall_data", "transparent", "transparent_advanced", "sdsm_bias_and_scale_textures", "terrain", "postprocess", "cui_bitmap", "cui_standard", "ui_font", "cui_hud", "particle_transforms", "particle_location_metadata", "cubemap_volume", "gear_plated_textures", "generic_array"];
    assert(names_view(r@) =~= spec_scope_names());
    r
}

impl<T> GlobalScopes<T> {
    /// The fields in declaration order.
    pub open spec fn spec_fields(self) -> Seq<T> {
        seq![self.frame, self.view, self.rigid_model, self.editor_mesh, self.editor_terrain, self.cui_view, self.cui_object, self.skinning, self.speedtree, self.chunk_model, self.decal, self.instances, self.speedtree_lod_drawcall_data, self.transparent, self.transparent_advanced, self.sdsm_bias_and_scale_textures, self.terrain, self.postprocess, self.cui_bitmap, self.cui_standard, self.ui_font, self.cui_hud, self.particle_transforms, self.particle_location_metadata, self.cubemap_volume, self.gear_plated_textures, self.generic_array]
    }

    /// Applies `f` to every field, in declaration order.
    pub fn map<U, F: Fn(T) -> U>(self, f: F) -> (r: GlobalScopes<U>)
        requires
            forall|t: T| f.requires((t,)),
        ensures
            forall|k: int| 0 <= k < 27 ==> f.ensures((self.spec_fields()[k],), #[trigger] r.spec_fields()[k]),
    {
        let r = GlobalScopes { frame: f(self.frame), view: f(self.view), rigid_model: f(self.rigid_model), editor_mesh: f(self.editor_mesh), editor_terrain: f(self.editor_terrain), cui_view: f(self.cui_view), cui_object: f(self.cui_object), skinning: f(self.skinning), speedtree: f(self.speedtree), chunk_model: f(self.chunk_model), decal: f(self.decal), instances: f(self.instances), speedtree_lod_drawcall_data: f(self.speedtree_lod_drawcall_data), transparent: f(self.transparent), transparent_advanced: f(self.transparent_advanced), sdsm_bias_and_scale_textures: f(self.sdsm_bias_and_scale_textures), terrain: f(self.terrain), postprocess: f(self.postprocess), cui_bitmap: f(self.cui_bitmap), cui_standard: f(self.cui_standard), ui_font: f(self.ui_font), cui_hud: f(self.cui_hud), particle_transforms: f(self.particle_transforms), particle_location_metadata: f(self.particle_location_metadata), cubemap_volume: f(self.cubemap_volume), gear_plated_textures: f(self.gear_plated_textures), generic_array: f(self.generic_array) };
        assert forall|k: int| 0 <= k < 27 implies f.ensures((self.spec_fields()[k],), #[trigger] r.spec_fields()[k]) by {
        }
        r
    }
}

impl GlobalScopes<u32> {
    /// Looks up the tag of every field by name (the last entry of a name
    /// counts); the error is the position of the first name without one.
    pub fn resolve(entries: &Vec<(String, u32)>) -> (r: Result<GlobalScopes<u32>, usize>)
        ensures
            r matches Ok(p) ==> forall|k: int| 0 <= k < 27 ==> spec_find_last(entries_view(entries@), spec_scope_names()[k]) == Some(#[trigger] p.spec_fields()[k]),
            r matches Err(k) ==> k < 27 && spec_find_last(entries_view(entries@), spec_scope_names()[k as int]) is None
                && forall|j: int| 0 <= j < k ==> #[trigger] spec_find_last(entries_view(entries@), spec_scope_names()[j]) is Some,
            r is Ok <==> forall|k: int| 0 <= k < 27 ==> #[trigger] spec_find_last(entries_view(entries@), spec_scope_names()[k]) is Some,
    {
        let names = scope_names();
        assert(names_view(names@).len() == names@.len());
        match resolve_named_tags(entries, &names) {
            Ok(tags) => {
                assert forall|k: int| 0 <= k < 27 implies spec_find_last(entries_view(entries@), spec_scope_names()[k]) == Some(#[trigger] tags@[k]) by {
                    assert(names_view(names@)[k] == names@[k]@);
                }
                let p = GlobalScopes { frame: tags[0], view: tags[1], rigid_model: tags[2], editor_mesh: tags[3], editor_terrain: tags[4], cui_view: tags[5], cui_object: tags[6], skinning: tags[7], speedtree: tags[8], chunk_model: tags[9], decal: tags[10], instances: tags[11], speedtree_lod_drawcall_data: tags[12], transparent: tags[13], transparent_advanced: tags[14], sdsm_bias_and_scale_textures: tags[15], terrain: tags[16], postprocess: tags[17], cui_bitmap: tags[18], cui_standard: tags[19], ui_font: tags[20], cui_hud: tags[21], particle_transforms: tags[22], particle_location_metadata: tags[23], cubemap_volume: tags[24], gear_plated_textures: tags[25], generic_array: tags[26] };
                assert(p.spec_fields() =~= tags@);
                Ok(p)
            },
            Err(k) => {
                assert(names_view(names@)[k as int] == names@[k as int]@);
                assert forall|j: int| 0 <= j < k implies #[trigger] spec_find_last(entries_view(entries@), spec_scope_names()[j]) is Some by {
                    assert(names_view(names@)[j] == names@[j]@);
                }
                assert(!(spec_find_last(entries_view(entries@), spec_scope_names()[k as int]) is Some));
                Err(k)
            },
        }
    }
}


/// The shape of a cubemap volume.
#[derive(Clone, Copy, Debug, PartialEq, Eq, Structural)]
pub enum CubemapShape {
    Cube,
    Sphere,
    CubeSphere,
}

impl CubemapShape {
    pub open spec fn spec_index(self) -> int {
        match self {
            CubemapShape::Cube => 0,
            CubemapShape::Sphere => 1,
            CubemapShape::CubeSphere => 2,
        }
    }
}

pub open spec fn bool_index(b: bool) -> int {
    if b {
        1
    } else {
        0
    }
}

impl<T> GlobalPipelines<T> {
    /// The cubemap variants: shapes cube, sphere, cube-sphere without, then
    /// with parallax; within a shape alpha, probes and relighting off/on.
    pub open spec fn spec_cubemap_variants(self) -> Seq<T> {
        seq![
            self.cubemap_apply_cube_alpha_off_probes_off_relighting_off,
            self.cubemap_apply_cube_alpha_off_probes_off_relighting_on,
            self.cubemap_apply_cube_alpha_off_probes_on_relighting_off,
            self.cubemap_apply_cube_alpha_off_probes_on_relighting_on,
            self.cubemap_apply_cube_alpha_on_probes_off_relighting_off,
            self.cubemap_apply_cube_alpha_on_probes_off_relighting_on,
            self.cubemap_apply_cube_alpha_on_probes_on_relighting_off,
            self.cubemap_apply_cube_alpha_on_probes_on_relighting_on,
            self.cubemap_apply_sphere_alpha_off_probes_off_relighting_off,
            self.cubemap_apply_sphere_alpha_off_probes_off_relighting_on,
            self.cubemap_apply_sphere_alpha_off_probes_on_relighting_off,
            self.cubemap_apply_sphere_alpha_off_probes_on_relighting_on,
            self.cubemap_apply_sphere_alpha_on_probes_off_relighting_off,
            self.cubemap_apply_sphere_alpha_on_probes_off_relighting_on,
            self.cubemap_apply_sphere_alpha_on_probes_on_relighting_off,
            self.cubemap_apply_sphere_alpha_on_probes_on_relighting_on,
            self.cubemap_apply_cube_sphere_alpha_off_probes_off_relighting_off,
            self.cubemap_apply_cube_sphere_alpha_off_probes_off_relighting_on,
            self.cubemap_apply_cube_sphere_alpha_off_probes_on_relighting_off,
            self.cubemap_apply_cube_sphere_alpha_off_probes_on_relighting_on,
            self.cubemap_apply_cube_sphere_alpha_on_probes_off_relighting_off,
            self.cubemap_apply_cube_sphere_alpha_on_probes_off_relighting_on,
            self.cubemap_apply_cube_sphere_alpha_on_probes_on_relighting_off,
            self.cubemap_apply_cube_sphere_alpha_on_probes_on_relighting_on,
            self.cubemap_apply_parall_cube_alpha_off_probes_off_relighting_off,
            self.cubemap_apply_parall_cube_alpha_off_probes_off_relighting_on,
            self.cubemap_apply_parall_cube_alpha_off_probes_on_relighting_off,
            self.cubemap_apply_parall_cube_alpha_off_probes_on_relighting_on,
            self.cubemap_apply_parall_cube_alpha_on_probes_off_relighting_off,
            self.cubemap_apply_parall_cube_alpha_on_probes_off_relighting_on,
            self.cubemap_apply_parall_cube_alpha_on_probes_on_relighting_off,
            self.cubemap_apply_parall_cube_alpha_on_probes_on_relighting_on,
            self.cubemap_apply_parall_sphere_alpha_off_probes_off_relighting_off,
            self.cubemap_apply_parall_sphere_alpha_off_probes_off_relighting_on,
            self.cubemap_apply_parall_sphere_alpha_off_probes_on_relighting_off,
            self.cubemap_apply_parall_sphere_alpha_off_probes_on_relighting_on,
            self.cubemap_apply_parall_sphere_alpha_on_probes_off_relighting_off,
            self.cubemap_apply_parall_sphere_alpha_on_probes_off_relighting_on,
            self.cubemap_apply_parall_sphere_alpha_on_probes_on_relighting_off,
            self.cubemap_apply_parall_sphere_alpha_on_probes_on_relighting_on,
            self.cubemap_apply_parall_cube_sphere_alpha_off_probes_off_relighting_off,
            self.cubemap_apply_parall_cube_sphere_alpha_off_probes_off_relighting_on,
            self.cubemap_apply_parall_cube_sphere_alpha_off_probes_on_relighting_off,
            self.cubemap_apply_parall_cube_sphere_alpha_off_probes_on_relighting_on,
            self.cubemap_apply_parall_cube_sphere_alpha_on_probes_off_relighting_off,
            self.cubemap_apply_parall_cube_sphere_alpha_on_probes_off_relighting_on,
            self.cubemap_apply_parall_cube_sphere_alpha_on_probes_on_relighting_off,
            self.cubemap_apply_parall_cube_sphere_alpha_on_probes_on_relighting_on
        ]
    }

    /// The LUT3D variants: without, then with distortion; within that noise
    /// and HDR off/on.
    pub open spec fn spec_lut3d_variants(self) -> Seq<T> {
        seq![
            self.screen_area_global_lut3d,
            self.screen_area_global_lut3d_hdr,
            self.screen_area_global_lut3d_noise,
            self.screen_area_global_lut3d_noise_hdr,
            self.screen_area_global_lut3d_distort,
            self.screen_area_global_lut3d_distort_hdr,
            self.screen_area_global_lut3d_distort_noise,
            self.screen_area_global_lut3d_distort_noise_hdr
        ]
    }

    /// The cubemap technique for a shape and feature set.
    pub fn get_specialized_cubemap_pipeline(
        &self,
        shape: CubemapShape,
        alpha: bool,
        probes: bool,
        relighting: bool,
        parallax: bool,
    ) -> (r: &T)
        ensures
            *r == self.spec_cubemap_variants()[bool_index(parallax) * 24 + shape.spec_index() * 8
                + bool_index(alpha) * 4 + bool_index(probes) * 2 + bool_index(relighting)],
    {
        let shape_index: usize = match shape {
            CubemapShape::Cube => 0,
            CubemapShape::Sphere => 1,
            CubemapShape::CubeSphere => 2,
        };
        let index = (if parallax { 24usize } else { 0 }) + shape_index * 8 + (if alpha { 4usize } else { 0 })
            + (if probes { 2usize } else { 0 }) + (if relighting { 1usize } else { 0 });
        match index {
            0 => &self.cubemap_apply_cube_alpha_off_probes_off_relighting_off,
            1 => &self.cubemap_apply_cube_alpha_off_probes_off_relighting_on,
            2 => &self.cubemap_apply_cube_alpha_off_probes_on_relighting_off,
            3 => &self.cubemap_apply_cube_alpha_off_probes_on_relighting_on,
            4 => &self.cubemap_apply_cube_alpha_on_probes_off_relighting_off,
            5 => &self.cubemap_apply_cube_alpha_on_probes_off_relighting_on,
            6 => &self.cubemap_apply_cube_alpha_on_probes_on_relighting_off,
            7 => &self.cubemap_apply_cube_alpha_on_probes_on_relighting_on,
            8 => &self.cubemap_apply_sphere_alpha_off_probes_off_relighting_off,
            9 => &self.cubemap_apply_sphere_alpha_off_probes_off_relighting_on,
            10 => &self.cubemap_apply_sphere_alpha_off_probes_on_relighting_off,
            11 => &self.cubemap_apply_sphere_alpha_off_probes_on_relighting_on,
            12 => &self.cubemap_apply_sphere_alpha_on_probes_off_relighting_off,
            13 => &self.cubemap_apply_sphere_alpha_on_probes_off_relighting_on,
            14 => &self.cubemap_apply_sphere_alpha_on_probes_on_relighting_off,
            15 => &self.cubemap_apply_sphere_alpha_on_probes_on_relighting_on,
            16 => &self.cubemap_apply_cube_sphere_alpha_off_probes_off_relighting_off,
            17 => &self.cubemap_apply_cube_sphere_alpha_off_probes_off_relighting_on,
            18 => &self.cubemap_apply_cube_sphere_alpha_off_probes_on_relighting_off,
            19 => &self.cubemap_apply_cube_sphere_alpha_off_probes_on_relighting_on,
            20 => &self.cubemap_apply_cube_sphere_alpha_on_probes_off_relighting_off,
            21 => &self.cubemap_apply_cube_sphere_alpha_on_probes_off_relighting_on,
            22 => &self.cubemap_apply_cube_sphere_alpha_on_probes_on_relighting_off,
            23 => &self.cubemap_apply_cube_sphere_alpha_on_probes_on_relighting_on,
            24 => &self.cubemap_apply_parall_cube_alpha_off_probes_off_relighting_off,
            25 => &self.cubemap_apply_parall_cube_alpha_off_probes_off_relighting_on,
            26 => &self.cubemap_apply_parall_cube_alpha_off_probes_on_relighting_off,
            27 => &self.cubemap_apply_parall_cube_alpha_off_probes_on_relighting_on,
            28 => &self.cubemap_apply_parall_cube_alpha_on_probes_off_relighting_off,
            29 => &self.cubemap_apply_parall_cube_alpha_on_probes_off_relighting_on,
            30 => &self.cubemap_apply_parall_cube_alpha_on_probes_on_relighting_off,
            31 => &self.cubemap_apply_parall_cube_alpha_on_probes_on_relighting_on,
            32 => &self.cubemap_apply_parall_sphere_alpha_off_probes_off_relighting_off,
            33 => &self.cubemap_apply_parall_sphere_alpha_off_probes_off_relighting_on,
            34 => &self.cubemap_apply_parall_sphere_alpha_off_probes_on_relighting_off,
            35 => &self.cubemap_apply_parall_sphere_alpha_off_probes_on_relighting_on,
            36 => &self.cubemap_apply_parall_sphere_alpha_on_probes_off_relighting_off,
            37 => &self.cubemap_apply_parall_sphere_alpha_on_probes_off_relighting_on,
            38 => &self.cubemap_apply_parall_sphere_alpha_on_probes_on_relighting_off,
            39 => &self.cubemap_apply_parall_sphere_alpha_on_probes_on_relighting_on,
            40 => &self.cubemap_apply_parall_cube_sphere_alpha_off_probes_off_relighting_off,
            41 => &self.cubemap_apply_parall_cube_sphere_alpha_off_probes_off_relighting_on,
            42 => &self.cubemap_apply_parall_cube_sphere_alpha_off_probes_on_relighting_off,
            43 => &self.cubemap_apply_parall_cube_sphere_alpha_off_probes_on_relighting_on,
            44 => &self.cubemap_apply_parall_cube_sphere_alpha_on_probes_off_relighting_off,
            45 => &self.cubemap_apply_parall_cube_sphere_alpha_on_probes_off_relighting_on,
            46 => &self.cubemap_apply_parall_cube_sphere_alpha_on_probes_on_relighting_off,
            47 => &self.cubemap_apply_parall_cube_sphere_alpha_on_probes_on_relighting_on,
            _ => &self.cubemap_apply_parall_cube_sphere_alpha_on_probes_on_relighting_on,
        }
    }

    /// The LUT3D technique for a combination of distortion, HDR and noise.
    pub fn get_specialized_lut3d_pipeline(&self, distort: bool, hdr: bool, noise: bool) -> (r: &T)
        ensures
            *r == self.spec_lut3d_variants()[bool_index(distort) * 4 + bool_index(noise) * 2 + bool_index(hdr)],
    {
        let index = (if distort { 4usize } else { 0 }) + (if noise { 2usize } else { 0 }) + (if hdr { 1usize } else { 0 });
        match index {
            0 => &self.screen_area_global_lut3d,
            1 => &self.screen_area_global_lut3d_hdr,
            2 => &self.screen_area_global_lut3d_noise,
            3 => &self.screen_area_global_lut3d_noise_hdr,
            4 => &self.screen_area_global_lut3d_distort,
            5 => &self.screen_area_global_lut3d_distort_hdr,
            6 => &self.screen_area_global_lut3d_distort_noise,
            7 => &self.screen_area_global_lut3d_distort_noise_hdr,
            _ => &self.screen_area_global_lut3d_distort_noise_hdr,
        }
    }
}

impl<T> GlobalPipelines<T> {
    /// The global technique that shows a debug pipeline.
    pub open spec fn spec_debug_technique(self, debug: DebugPipeline) -> T {
        match debug {
            DebugPipeline::DeferredShading => self.global_lighting_and_shading,
            DebugPipeline::DeferredShadingNoSun => self.deferred_shading_no_atm,
            DebugPipeline::Albedo => self.debug_source_color,
            DebugPipeline::Smoothness => self.debug_specular_smoothness,
            DebugPipeline::Metalness => self.debug_metalness,
            DebugPipeline::AmbientOcclusion => self.debug_ambient_occlusion,
            DebugPipeline::Emission => self.debug_emissive,
            DebugPipeline::EmissionIntensity => self.debug_emissive_intensity,
            DebugPipeline::Transmission => self.debug_transmission,
            DebugPipeline::Overcoat => self.debug_colored_overcoat_id,
            DebugPipeline::DepthEdges => self.debug_depth_edges,
            DebugPipeline::WorldNormal => self.debug_world_normal,
            DebugPipeline::LightDiffuse => self.debug_diffuse_light,
            DebugPipeline::LightSpecular => self.debug_specular_light,
        }
    }

    /// The global technique that shows a debug pipeline.
    pub fn debug_technique(&self, debug: DebugPipeline) -> (r: &T)
        ensures
            *r == self.spec_debug_technique(debug),
    {
        match debug {
            DebugPipeline::DeferredShading => &self.global_lighting_and_shading,
            DebugPipeline::DeferredShadingNoSun => &self.deferred_shading_no_atm,
            DebugPipeline::Albedo => &self.debug_source_color,
            DebugPipeline::Smoothness => &self.debug_specular_smoothness,
            DebugPipeline::Metalness => &self.debug_metalness,
            DebugPipeline::AmbientOcclusion => &self.debug_ambient_occlusion,
            DebugPipeline::Emission => &self.debug_emissive,
            DebugPipeline::EmissionIntensity => &self.debug_emissive_intensity,
            DebugPipeline::Transmission => &self.debug_transmission,
            DebugPipeline::Overcoat => &self.debug_colored_overcoat_id,
            DebugPipeline::DepthEdges => &self.debug_depth_edges,
            DebugPipeline::WorldNormal => &self.debug_world_normal,
            DebugPipeline::LightDiffuse => &self.debug_diffuse_light,
            DebugPipeline::LightSpecular => &self.debug_specular_light,
        }
    }
}

} // verus!
