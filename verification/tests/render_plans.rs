use alkahest::decorator::{
    decorator_identifier_mask, decorator_layout, DecoratorError, InstanceGroup, InstanceRange,
};
use alkahest::globals::{pipeline_names, GlobalPipelines};
use alkahest::gpu_buffer::{constant_buffer_size, vertex_buffer_capacity};
use alkahest::model::{draw_parts, get_permutation_technique, MaterialVariants, MeshDrawInfo, PartDrawInfo};
use alkahest::object::ArenaIndex;
use alkahest::render_types::DebugPipeline;
use alkahest::submit::{
    cull_view, includes_hidden_nodes, job_objects, stage_range_objects, RenderStage, linear_submit_chunks, select_stage_objects, FrameNode, RenderObjectSlot,
};
use alkahest::world::{world_passes, WorldFlags, WorldPass};

#[test]
fn identifier_masks() {
    assert_eq!(decorator_identifier_mask(1, &vec![Some(3)]), u32::MAX);
    assert_eq!(decorator_identifier_mask(0, &vec![]), u32::MAX);
    // The last mesh does not count; a mesh without parts counts as id 0;
    // ids above 31 add nothing.
    assert_eq!(decorator_identifier_mask(2, &vec![Some(3), None, Some(40), Some(5)]), 0b1001);
    assert_eq!(decorator_identifier_mask(3, &vec![Some(7)]), 0);
}

fn range(start: u32, end: u32, bounds_index: u32) -> InstanceRange {
    InstanceRange { start, end, bounds_index }
}

#[test]
fn decorator_groups() {
    let l = decorator_layout(&vec![0, 10, 20, 30], &vec![2, 0, 1], 3, &vec![0, 20, 30]).unwrap();
    assert_eq!(l.ranges, vec![range(0, 10, 2), range(10, 20, 0), range(20, 30, 1)]);
    assert_eq!(
        l.groups,
        vec![
            InstanceGroup { instance_start: 0, instance_count: 20, first_range: 0, end_range: 2 },
            InstanceGroup { instance_start: 20, instance_count: 10, first_range: 2, end_range: 3 },
        ]
    );
    let empty = decorator_layout(&vec![5], &vec![], 0, &vec![]).unwrap();
    assert!(empty.ranges.is_empty() && empty.groups.is_empty());
}

#[test]
fn decorator_errors() {
    let e = |r: Result<_, DecoratorError>| r.err().unwrap();
    assert_eq!(
        e(decorator_layout(&vec![0, 10, 20], &vec![0], 1, &vec![])),
        DecoratorError::InvalidBoundsMapping { range: 1 }
    );
    assert_eq!(
        e(decorator_layout(&vec![0, 10, 20], &vec![0, 4], 4, &vec![])),
        DecoratorError::InvalidBoundsIndex { range: 1 }
    );
    assert_eq!(
        e(decorator_layout(&vec![0, 10, 20], &vec![0, 0], 1, &vec![5, 20])),
        DecoratorError::BoundsStartNotFound { group: 0 }
    );
    assert_eq!(
        e(decorator_layout(&vec![0, 10, 20], &vec![0, 0], 1, &vec![0, 10, 15])),
        DecoratorError::BoundsEndNotFound { group: 1 }
    );
    // A group whose first range comes after the range it ends in.
    assert_eq!(
        e(decorator_layout(&vec![0, 10, 5, 20], &vec![0, 0, 0], 1, &vec![5, 10])),
        DecoratorError::BoundsNotFound { group: 0 }
    );
}

#[test]
fn world_frame_plans() {
    let mt = WorldFlags { multithreading: true, global_lighting: false };
    assert_eq!(
        world_passes(None, mt),
        vec![
            WorldPass::GeometryCommandLists,
            WorldPass::GbufferGeneration,
            WorldPass::Atmosphere,
            WorldPass::DeferredShading,
            WorldPass::DebugComposite,
            WorldPass::Transparent,
            WorldPass::Water,
            WorldPass::Bloom,
            WorldPass::FinalLut3d,
        ]
    );
    let st = WorldFlags { multithreading: false, global_lighting: true };
    assert_eq!(
        world_passes(Some(DebugPipeline::DeferredShadingNoSun), st),
        vec![
            WorldPass::GbufferGeneration,
            WorldPass::Lighting,
            WorldPass::Atmosphere,
            WorldPass::GlobalLightingAndShading,
            WorldPass::DebugTechnique { debug: DebugPipeline::DeferredShadingNoSun },
            WorldPass::Transparent,
            WorldPass::Water,
            WorldPass::VolumeFog,
            WorldPass::Bloom,
            WorldPass::FinalLut3d,
        ]
    );
    assert_eq!(
        world_passes(Some(DebugPipeline::LightSpecular), st),
        vec![
            WorldPass::GbufferGeneration,
            WorldPass::Lighting,
            WorldPass::Atmosphere,
            WorldPass::GlobalLightingAndShading,
            WorldPass::DebugTechnique { debug: DebugPipeline::LightSpecular },
        ]
    );
    assert_eq!(world_passes(Some(DebugPipeline::Albedo), st).len(), 4);
}

#[test]
fn debug_techniques() {
    let entries: Vec<(String, u32)> =
        pipeline_names().iter().enumerate().map(|(i, n)| (n.to_string(), i as u32)).collect();
    let p = GlobalPipelines::resolve(&entries).unwrap();
    assert_eq!(*p.debug_technique(DebugPipeline::DeferredShading), p.global_lighting_and_shading);
    assert_eq!(*p.debug_technique(DebugPipeline::DeferredShadingNoSun), p.deferred_shading_no_atm);
    assert_eq!(*p.debug_technique(DebugPipeline::Overcoat), p.debug_colored_overcoat_id);
    assert_eq!(*p.debug_technique(DebugPipeline::LightDiffuse), p.debug_diffuse_light);
}

#[test]
fn buffer_sizes() {
    assert_eq!(constant_buffer_size(0), 0);
    assert_eq!(constant_buffer_size(1), 16);
    assert_eq!(constant_buffer_size(16), 16);
    assert_eq!(constant_buffer_size(100), 112);
    assert_eq!(vertex_buffer_capacity(10, 4), (true, 10));
    assert_eq!(vertex_buffer_capacity(3, 4), (false, 4));
    assert_eq!(vertex_buffer_capacity(4, 4), (false, 4));
}

#[test]
fn variant_picked_inside_a_short_technique_list() {
    // The run claims three techniques but only the picked one has to exist.
    let map = vec![MaterialVariants { technique_start: 5, technique_count: 3, unk8: 0 }];
    let techniques = vec![0, 1, 2, 3, 4, 50];
    assert_eq!(get_permutation_technique(&map, &techniques, 0, 6), Some(&50));
}

fn slot(stages: u64, feature_type: u32) -> Option<RenderObjectSlot> {
    Some(RenderObjectSlot { generation: 0, stages, feature_type })
}

#[test]
fn jobs_record_the_selection_in_order() {
    let objects = vec![slot(1, 0), slot(2, 0), slot(1, 1), None];
    let nodes: Vec<FrameNode> = (0..20)
        .map(|i| FrameNode { visible: i % 5 != 0, handle: ArenaIndex { slot: (i % 4) as u32, generation: 0 } })
        .collect();
    let selection = select_stage_objects(&nodes, 0, nodes.len(), &objects, 0, u32::MAX, u32::MAX, false);
    for threads in 1..4 {
        let mut recorded = Vec::new();
        for c in linear_submit_chunks(selection.len(), threads) {
            recorded.extend(job_objects(&selection, c.start, c.end, &objects, 0, u32::MAX));
        }
        assert_eq!(recorded, selection);
    }
    // A job drops what no longer takes part.
    assert_eq!(job_objects(&selection, 0, selection.len(), &objects, 0, 0b10), vec![
        ArenaIndex { slot: 2, generation: 0 };
        selection.iter().filter(|h| h.slot == 2).count()
    ]);
}

#[test]
fn culling_a_view() {
    let objects = vec![slot(1, 0), slot(1, 3), None];
    let handles: Vec<ArenaIndex> = (0..4).map(|i| ArenaIndex { slot: i, generation: 0 }).collect();
    let mut masks = vec![0b1000, 0b1000, 0b1000, 0b1000];
    let tests = vec![true, true, true, false];
    assert!(cull_view(&mut masks, &handles, &objects, 1, 0b0001, &tests));
    // Object 0 is visible, object 1's feature is not requested, 2 and 3 are gone.
    assert_eq!(masks, vec![0b1010, 0b1000, 0b1000, 0b1000]);
    assert!(cull_view(&mut masks, &handles, &objects, 3, 0b1001, &vec![false, true, true, true]));
    assert_eq!(masks, vec![0b0010, 0b1000, 0b1000, 0b1000]);
    assert!(!cull_view(&mut masks, &handles, &objects, 32, u32::MAX, &tests));
    assert_eq!(masks, vec![0b0010, 0b1000, 0b1000, 0b1000]);
}

fn part(id: u16, highest: bool, technique_scopes: u64, variant_scopes: u64) -> PartDrawInfo {
    PartDrawInfo { external_identifier: id, highest_detail: highest, technique_scopes, variant_scopes }
}

#[test]
fn drawn_parts() {
    let meshes = vec![
        MeshDrawInfo {
            stage_subscribed: true,
            part_start: 1,
            part_end: 5,
            parts: vec![part(0, true, 1, 0), part(1, true, 1, 4), part(2, false, 1, 0), part(1, true, 0, 2), part(1, true, 0, 0)],
        },
        MeshDrawInfo { stage_subscribed: false, part_start: 0, part_end: 1, parts: vec![part(1, true, 1, 0)] },
        MeshDrawInfo { stage_subscribed: true, part_start: 0, part_end: 1, parts: vec![part(1, true, 8, 8)] },
        MeshDrawInfo { stage_subscribed: true, part_start: 3, part_end: 1, parts: vec![] },
    ];
    // Part 4 of mesh 0 uses no scope: no technique, no draw.
    assert_eq!(draw_parts(&meshes, u16::MAX), vec![(0, 1, 5), (0, 3, 2), (2, 0, 8)]);
    assert_eq!(draw_parts(&meshes, 1), vec![(0, 1, 5), (0, 3, 2), (2, 0, 8)]);
    assert_eq!(draw_parts(&meshes, 0), vec![]);
}

#[test]
fn shadow_generation_includes_hidden_nodes() {
    assert!(includes_hidden_nodes(RenderStage::ShadowGenerate));
    assert!(!includes_hidden_nodes(RenderStage::GenerateGbuffer));
    let objects = vec![slot(1, 0)];
    let nodes = vec![
        FrameNode { visible: false, handle: ArenaIndex { slot: 0, generation: 0 } },
        FrameNode { visible: true, handle: ArenaIndex { slot: 0, generation: 0 } },
    ];
    assert_eq!(stage_range_objects(&nodes, 0, 2, &objects, RenderStage::ShadowGenerate, 0, 1, 1).len(), 2);
    assert_eq!(stage_range_objects(&nodes, 0, 2, &objects, RenderStage::Decals, 0, 1, 1).len(), 1);
}
