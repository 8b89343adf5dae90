use alkahest::globals::{
    find_named_tag, pipeline_names, resolve_named_tags, scope_names, CubemapShape, GlobalPipelines, GlobalScopes,
};

fn entries_for(names: &[&str], base: u32) -> Vec<(String, u32)> {
    names.iter().enumerate().map(|(i, n)| (n.to_string(), base + i as u32)).collect()
}

fn tag_of(name: &str) -> u32 {
    1000 + pipeline_names().iter().position(|n| *n == name).unwrap() as u32
}

#[test]
fn named_tag_lookup_takes_the_last_entry() {
    let entries = vec![("a".to_string(), 1), ("b".to_string(), 2), ("a".to_string(), 3)];
    assert_eq!(find_named_tag(&entries, "a"), Some(3));
    assert_eq!(find_named_tag(&entries, "b"), Some(2));
    assert_eq!(find_named_tag(&entries, "c"), None);
    assert_eq!(resolve_named_tags(&entries, &vec!["b", "a"]), Ok(vec![2, 3]));
    assert_eq!(resolve_named_tags(&entries, &vec!["b", "c", "d"]), Err(1));
    assert_eq!(resolve_named_tags(&entries, &vec![]), Ok(vec![]));
}

#[test]
fn name_lists() {
    let p = pipeline_names();
    assert_eq!(p.len(), 98);
    assert_eq!(p[0], "clear_color_2_mrt");
    assert_eq!(p[97], "water_reflection_uv_healing");
    let s = scope_names();
    assert_eq!(s.len(), 27);
    assert_eq!(s[0], "frame");
    assert_eq!(s[26], "generic_array");
}

#[test]
fn pipelines_resolve_by_name() {
    let mut entries = entries_for(&pipeline_names(), 1000);
    entries.push(("unrelated".to_string(), 5));
    let p = GlobalPipelines::resolve(&entries).unwrap();
    assert_eq!(p.clear_color_2_mrt, 1000);
    assert_eq!(p.fxaa, tag_of("fxaa"));
    assert_eq!(p.water_reflection_uv_healing, 1097);

    let doubled = p.map(|t| t * 2);
    assert_eq!(doubled.deferred_shading, 2002);
}

#[test]
fn missing_pipeline_is_reported() {
    let names = pipeline_names();
    let mut entries = entries_for(&names, 1000);
    entries.remove(11);
    assert_eq!(GlobalPipelines::resolve(&entries).err(), Some(11));
    assert_eq!(GlobalPipelines::resolve(&Vec::new()).err(), Some(0));
}

#[test]
fn scopes_resolve_by_name() {
    let entries = entries_for(&scope_names(), 50);
    let s = GlobalScopes::resolve(&entries).unwrap();
    assert_eq!(s.frame, 50);
    assert_eq!(s.view, 51);
    assert_eq!(s.generic_array, 76);
    let mut missing = entries.clone();
    missing.retain(|e| e.0 != "terrain");
    assert_eq!(GlobalScopes::resolve(&missing).err(), Some(16));
    assert_eq!(s.map(|t| t + 1).frame, 51);
}

#[test]
fn cubemap_variants() {
    let p = GlobalPipelines::resolve(&entries_for(&pipeline_names(), 1000)).unwrap();
    assert_eq!(
        *p.get_specialized_cubemap_pipeline(CubemapShape::Cube, false, false, false, false),
        tag_of("cubemap_apply_cube_alpha_off_probes_off_relighting_off")
    );
    assert_eq!(
        *p.get_specialized_cubemap_pipeline(CubemapShape::Sphere, true, false, true, false),
        tag_of("cubemap_apply_sphere_alpha_on_probes_off_relighting_on")
    );
    assert_eq!(
        *p.get_specialized_cubemap_pipeline(CubemapShape::CubeSphere, false, true, false, false),
        tag_of("cubemap_apply_cube_sphere_alpha_off_probes_on_relighting_off")
    );
    assert_eq!(
        *p.get_specialized_cubemap_pipeline(CubemapShape::Cube, true, true, true, true),
        tag_of("cubemap_apply_parall_cube_alpha_on_probes_on_relighting_on")
    );
    assert_eq!(
        *p.get_specialized_cubemap_pipeline(CubemapShape::Sphere, false, true, true, true),
        tag_of("cubemap_apply_parall_sphere_alpha_off_probes_on_relighting_on")
    );
    assert_eq!(
        *p.get_specialized_cubemap_pipeline(CubemapShape::CubeSphere, true, false, false, true),
        tag_of("cubemap_apply_parall_cube_sphere_alpha_on_probes_off_relighting_off")
    );
}

#[test]
fn lut3d_variants() {
    let p = GlobalPipelines::resolve(&entries_for(&pipeline_names(), 1000)).unwrap();
    assert_eq!(*p.get_specialized_lut3d_pipeline(false, false, false), tag_of("screen_area_global_lut3d"));
    assert_eq!(*p.get_specialized_lut3d_pipeline(false, true, false), tag_of("screen_area_global_lut3d_hdr"));
    assert_eq!(*p.get_specialized_lut3d_pipeline(false, false, true), tag_of("screen_area_global_lut3d_noise"));
    assert_eq!(*p.get_specialized_lut3d_pipeline(true, true, true), tag_of("screen_area_global_lut3d_distort_noise_hdr"));
    assert_eq!(*p.get_specialized_lut3d_pipeline(true, false, true), tag_of("screen_area_global_lut3d_distort_noise"));
}
