use higher_dimension_playground::frame_plan::{
    compare_diagnostics_enabled, diag_sample_count, effective_backend, highlight_mode_supported, plan_bitonic_sort, plan_edge_dispatches, plan_instance_budget,
    raytrace_seed, resolve_backend_passes, stage_b_slice_layer, storage_layers_supported,
    working_flags, world_bvh_ray_diag_sample_positions, world_bvh_ray_diag_seed, BitonicPass,
    BvhUpdateMode, EdgeDispatch, NonVoxelBvhState, PassSelection, RebuildReason,
    VTE_ENTITY_BVH_REFIT_REBUILD_INTERVAL,
};
use higher_dimension_playground::render::{RenderBackend, VteDisplayMode};

fn all_passes() -> PassSelection {
    PassSelection {
        do_raster: true,
        do_raytrace: true,
        do_edges: true,
        do_tetrahedron_edges: true,
        do_voxel_vte: true,
    }
}

#[test]
fn backend_passes() {
    let vte = resolve_backend_passes(RenderBackend::VoxelTraversal, all_passes(), 0);
    assert_eq!(
        vte,
        PassSelection {
            do_raster: false,
            do_raytrace: false,
            do_edges: false,
            do_tetrahedron_edges: false,
            do_voxel_vte: true
        }
    );
    assert!(resolve_backend_passes(RenderBackend::VoxelTraversal, all_passes(), 5).do_raster);
    let raster = resolve_backend_passes(RenderBackend::TetraRaster, all_passes(), 0);
    assert!(raster.do_raster && !raster.do_raytrace && raster.do_edges && !raster.do_voxel_vte);
    let auto = resolve_backend_passes(RenderBackend::Auto, all_passes(), 0);
    assert!(auto.do_raster && auto.do_raytrace && !auto.do_voxel_vte);
    assert_eq!(effective_backend(vte), RenderBackend::VoxelTraversal);
    assert_eq!(effective_backend(auto), RenderBackend::TetraRaytrace);
    assert_eq!(effective_backend(raster), RenderBackend::TetraRaster);
    let none = PassSelection {
        do_raster: false,
        do_raytrace: false,
        do_edges: false,
        do_tetrahedron_edges: false,
        do_voxel_vte: false,
    };
    assert_eq!(effective_backend(none), RenderBackend::Auto);
}

#[test]
fn storage_layers_and_slices() {
    assert!(storage_layers_supported(1, 4, true, VteDisplayMode::Integral));
    assert!(!storage_layers_supported(1, 4, false, VteDisplayMode::Integral));
    assert!(!storage_layers_supported(1, 4, true, VteDisplayMode::Slice));
    assert!(storage_layers_supported(4, 4, false, VteDisplayMode::Slice));
    assert_eq!(stage_b_slice_layer(5, None), 2);
    assert_eq!(stage_b_slice_layer(5, Some(10)), 4);
    assert_eq!(stage_b_slice_layer(5, Some(1)), 1);
    assert_eq!(stage_b_slice_layer(0, None), 0);
    assert_eq!(stage_b_slice_layer(0, Some(3)), 0);
}

#[test]
fn instance_budget_split() {
    let b = plan_instance_budget(5, 3, 2, 8, true, 48, 1000);
    assert_eq!(b.non_voxel_used, 5);
    assert_eq!(b.overlay_used, 3);
    assert_eq!(b.used, 8);
    assert_eq!(b.custom_edge_base, 8);
    assert_eq!(b.custom_edge_used, 0);
    assert_eq!(b.requested_tetrahedrons, 240);
    assert_eq!(b.total_tetrahedrons, 240);
    assert_eq!(b.requested_overlay_tetrahedrons, 144);
    assert_eq!(b.overlay_tetrahedrons, 144);
    assert_eq!(b.raster_instance_base, 5);
    assert_eq!(b.raster_tetrahedrons, 144);
}

#[test]
fn instance_budget_unsplit_and_cut() {
    let b = plan_instance_budget(10, 3, 4, 12, false, 48, 200);
    assert_eq!(b.non_voxel_used, 10);
    assert_eq!(b.overlay_used, 0);
    assert_eq!(b.custom_edge_base, 10);
    assert_eq!(b.custom_edge_used, 2);
    assert_eq!(b.requested_tetrahedrons, 480);
    assert_eq!(b.total_tetrahedrons, 200);
    assert_eq!(b.raster_instance_base, 0);
    assert_eq!(b.raster_tetrahedrons, 200);
}

#[test]
fn bvh_maintenance_cycle() {
    let mut s = NonVoxelBvhState::new();
    let first = s.step(true, 100, false, 7, 32);
    assert!(first.rebuild_needed);
    assert_eq!(first.reason, RebuildReason::SceneHash);
    assert_eq!(first.mode, BvhUpdateMode::Rebuild);
    let same = s.step(true, 100, false, 7, 32);
    assert!(!same.rebuild_needed);
    assert_eq!(same.mode, BvhUpdateMode::Reuse);
    let raster = s.step(true, 100, true, 7, 32);
    assert_eq!(raster.mode, BvhUpdateMode::Refit);
    assert_eq!(raster.reason, RebuildReason::OverlayRaster);
    for i in 1..VTE_ENTITY_BVH_REFIT_REBUILD_INTERVAL as u64 {
        let refit = s.step(true, 100, false, 100 + i, 32);
        assert_eq!(refit.mode, BvhUpdateMode::Refit);
        assert_eq!(refit.reason, RebuildReason::SceneHash);
    }
    assert_eq!(s.refit_frames, VTE_ENTITY_BVH_REFIT_REBUILD_INTERVAL);
    let forced = s.step(true, 100, false, 999, 32);
    assert_eq!(forced.mode, BvhUpdateMode::RebuildInterval);
    let linear = s.step(true, 10, false, 10, 32);
    assert_eq!(linear.mode, BvhUpdateMode::Linear);
    let off = s.step(false, 10, false, 10, 32);
    assert_eq!(off.mode, BvhUpdateMode::NonVte);
    assert_eq!(off.reason, RebuildReason::NonVte);
    assert_eq!(s, NonVoxelBvhState::new());
    assert_eq!(s.step(true, 0, true, 3, 32).mode, BvhUpdateMode::Empty);
}

#[test]
fn bitonic_schedule() {
    let small = plan_bitonic_sort(100);
    assert_eq!(small.padded_count, 128);
    assert_eq!(small.num_stages, 7);
    assert_eq!(small.local_stages, 6);
    assert_eq!(small.workgroups, 2);
    assert_eq!(
        small.passes,
        vec![BitonicPass::Global { stage: 6, step: 6 }, BitonicPass::LocalMerge { stage: 6 }]
    );
    let big = plan_bitonic_sort(1000);
    assert_eq!(big.padded_count, 1024);
    assert_eq!(big.num_stages, 10);
    assert_eq!(big.passes.len(), 14);
    assert_eq!(big.passes[2], BitonicPass::Global { stage: 7, step: 7 });
    assert_eq!(big.passes[3], BitonicPass::Global { stage: 7, step: 6 });
    assert_eq!(big.passes[13], BitonicPass::LocalMerge { stage: 9 });
    let one = plan_bitonic_sort(1);
    assert_eq!(one.padded_count, 1);
    assert_eq!(one.num_stages, 0);
    assert_eq!(one.workgroups, 1);
    assert!(one.passes.is_empty());
    assert_eq!(plan_bitonic_sort(64).passes.len(), 0);
}

#[test]
fn edge_dispatch_plan() {
    let plan = plan_edge_dispatches(0, 32, true, 10, 10, 2, 1000);
    assert_eq!(
        plan.debug_edges,
        Some(EdgeDispatch { instance_base: 0, instance_count: 10, first_line: 0, line_count: 320 })
    );
    assert_eq!(
        plan.custom_edges,
        Some(EdgeDispatch { instance_base: 10, instance_count: 2, first_line: 320, line_count: 64 })
    );
    assert_eq!(plan.line_count, 384);
    let cut = plan_edge_dispatches(900, 32, true, 10, 10, 2, 1000);
    assert_eq!(cut.debug_edges.unwrap().instance_count, 3);
    assert_eq!(cut.custom_edges, None);
    assert_eq!(cut.line_count, 996);
    let off = plan_edge_dispatches(5, 32, false, 10, 10, 0, 1000);
    assert_eq!(off.debug_edges, None);
    assert_eq!(off.line_count, 5);
}

#[test]
fn edge_dispatch_plan_past_line_capacity() {
    let full = plan_edge_dispatches(60_000, 32, true, 10, 10, 2, 50_000);
    assert_eq!(full.debug_edges, None);
    assert_eq!(full.custom_edges, None);
    assert_eq!(full.line_count, 60_000);
}

#[test]
fn frame_words() {
    assert_eq!(raytrace_seed(0), 1442695040888963407);
    assert_eq!(raytrace_seed(1), 7806831264735756412);
    assert_eq!(
        raytrace_seed(12345),
        6364136223846793005u64.wrapping_mul(12345).wrapping_add(1442695040888963407)
    );
    assert_eq!(world_bvh_ray_diag_seed(0), 2891336453);
    assert_eq!(world_bvh_ray_diag_seed(1), 3639132858);
    assert_eq!(working_flags(true, true, 128), 32771);
    assert_eq!(working_flags(false, false, 0), 0);
    assert_eq!(working_flags(false, true, 255), 65282);
}

#[test]
fn diag_sample_positions() {
    let p = world_bvh_ray_diag_sample_positions(4, 64, [4, 2, 1], 0, 0, 0);
    let got: Vec<(u32, u32, u32, u32)> = p.iter().map(|s| (s.slot, s.pixel_x, s.pixel_y, s.layer)).collect();
    assert_eq!(got, vec![(0, 0, 0, 0), (1, 2, 0, 0), (2, 0, 1, 0), (3, 2, 1, 0)]);
    let collapsed = world_bvh_ray_diag_sample_positions(2, 64, [2, 1, 4], 0, 1, 9);
    let got: Vec<(u32, u32, u32, u32)> =
        collapsed.iter().map(|s| (s.slot, s.pixel_x, s.pixel_y, s.layer)).collect();
    assert_eq!(got, vec![(0, 0, 0, 3), (1, 1, 0, 3)]);
    let sliced = world_bvh_ray_diag_sample_positions(8, 64, [2, 1, 4], 1, 0, 0);
    assert_eq!(sliced.len(), 8);
    assert_eq!((sliced[5].pixel_x, sliced[5].layer), (1, 2));
    assert!(world_bvh_ray_diag_sample_positions(0, 64, [4, 4, 1], 0, 0, 0).is_empty());
    assert_eq!(world_bvh_ray_diag_sample_positions(100, 3, [4, 4, 1], 0, 0, 0).len(), 3);
}

#[test]
fn highlight_and_diag_counts() {
    assert!(highlight_mode_supported(VteDisplayMode::Integral));
    assert!(highlight_mode_supported(VteDisplayMode::Slice));
    assert!(highlight_mode_supported(VteDisplayMode::ThickSlice));
    assert!(!highlight_mode_supported(VteDisplayMode::DebugCompare));
    assert!(!highlight_mode_supported(VteDisplayMode::DebugIntegral));
    assert_eq!(diag_sample_count(true, 64, 256), 64);
    assert_eq!(diag_sample_count(true, 1000, 256), 256);
    assert_eq!(diag_sample_count(false, 64, 256), 0);
    assert!(!compare_diagnostics_enabled(false, true, VteDisplayMode::DebugCompare));
    assert!(compare_diagnostics_enabled(true, true, VteDisplayMode::DebugCompare));
    assert!(compare_diagnostics_enabled(true, true, VteDisplayMode::DebugIntegral));
    assert!(!compare_diagnostics_enabled(true, true, VteDisplayMode::Integral));
    assert!(!compare_diagnostics_enabled(true, false, VteDisplayMode::DebugCompare));
}
