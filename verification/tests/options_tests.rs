use higher_dimension_playground::cli_options::{
    BackendArg, EditHighlightModeArg, InfoPanelMode, PlacementPreviewMode, SceneArg,
    ScenePreset, SettingsPage, SingleplayerWorldTypeArg, VteDisplayModeArg, WorldGeneratorKind,
};
use higher_dimension_playground::render::{
    last_solid_leaf_index, overlay_edge_capacity, overlay_edge_tag_for_sample_ray_hit,
    target_outline_tags, OutlineInputs, RenderBackend, SampleRayNodeKind, VteDisplayMode,
    OVERLAY_EDGE_TAG_PLACE, OVERLAY_EDGE_TAG_REGION_BRANCH, OVERLAY_EDGE_TAG_REGION_CHUNK_ARRAY,
    OVERLAY_EDGE_TAG_REGION_UNIFORM, OVERLAY_EDGE_TAG_TARGET,
};

#[test]
fn backend_labels_and_default() {
    assert_eq!(RenderBackend::default_backend(), RenderBackend::Auto);
    assert_eq!(RenderBackend::Auto.label(), "auto");
    assert_eq!(RenderBackend::TetraRaster.label(), "tetra_raster");
    assert_eq!(RenderBackend::TetraRaytrace.label(), "tetra_raytrace");
    assert_eq!(RenderBackend::VoxelTraversal.label(), "voxel_traversal");
}

#[test]
fn display_mode_codes_and_labels() {
    assert_eq!(VteDisplayMode::default_mode(), VteDisplayMode::Integral);
    assert_eq!(VteDisplayMode::Integral.as_u32(), 0);
    assert_eq!(VteDisplayMode::Slice.as_u32(), 1);
    assert_eq!(VteDisplayMode::ThickSlice.as_u32(), 2);
    assert_eq!(VteDisplayMode::DebugCompare.as_u32(), 3);
    assert_eq!(VteDisplayMode::DebugIntegral.as_u32(), 4);
    assert_eq!(VteDisplayMode::ThickSlice.label(), "thick_slice");
    assert_eq!(VteDisplayMode::DebugIntegral.label(), "debug_integral");
}

#[test]
fn edit_highlight_modes() {
    assert!(EditHighlightModeArg::Faces.uses_faces());
    assert!(!EditHighlightModeArg::Faces.uses_edges());
    assert!(EditHighlightModeArg::Edges.uses_edges());
    assert!(!EditHighlightModeArg::Edges.uses_faces());
    assert!(EditHighlightModeArg::Both.uses_faces() && EditHighlightModeArg::Both.uses_edges());
    assert!(!EditHighlightModeArg::Off.uses_faces() && !EditHighlightModeArg::Off.uses_edges());
    assert_eq!(EditHighlightModeArg::Faces.label(), "faces");
    assert_eq!(EditHighlightModeArg::Edges.label(), "edges");
    assert_eq!(EditHighlightModeArg::Both.label(), "both");
    assert_eq!(EditHighlightModeArg::Off.label(), "off");
}

#[test]
fn placement_preview_modes() {
    assert_eq!(PlacementPreviewMode::Off.label(), "off");
    assert_eq!(PlacementPreviewMode::Ghosted.label(), "ghost");
    assert_eq!(PlacementPreviewMode::Wireframe.label(), "wireframe");
    assert!(!PlacementPreviewMode::Off.needs_targets());
    assert!(PlacementPreviewMode::Ghosted.needs_targets());
    assert!(PlacementPreviewMode::Wireframe.needs_targets());
}

#[test]
fn command_line_conversions() {
    assert_eq!(SingleplayerWorldTypeArg::FlatFloor.to_runtime(), WorldGeneratorKind::FlatFloor);
    assert_eq!(
        SingleplayerWorldTypeArg::MassivePlatforms.to_runtime(),
        WorldGeneratorKind::MassivePlatforms
    );
    assert_eq!(BackendArg::Auto.to_render_backend(), RenderBackend::Auto);
    assert_eq!(BackendArg::TetraRaster.to_render_backend(), RenderBackend::TetraRaster);
    assert_eq!(BackendArg::TetraRaytrace.to_render_backend(), RenderBackend::TetraRaytrace);
    assert_eq!(BackendArg::VoxelTraversal.to_render_backend(), RenderBackend::VoxelTraversal);
    assert_eq!(VteDisplayModeArg::Integral.to_render_mode(), VteDisplayMode::Integral);
    assert_eq!(VteDisplayModeArg::Slice.to_render_mode(), VteDisplayMode::Slice);
    assert_eq!(VteDisplayModeArg::ThickSlice.to_render_mode(), VteDisplayMode::ThickSlice);
    assert_eq!(VteDisplayModeArg::DebugCompare.to_render_mode(), VteDisplayMode::DebugCompare);
    assert_eq!(VteDisplayModeArg::DebugIntegral.to_render_mode(), VteDisplayMode::DebugIntegral);
    assert_eq!(SceneArg::Flat.to_scene_preset(), ScenePreset::Flat);
    assert_eq!(SceneArg::DemoCubes.to_scene_preset(), ScenePreset::DemoCubes);
}

#[test]
fn panel_and_page_labels() {
    assert_eq!(InfoPanelMode::Full.label(), "full");
    assert_eq!(InfoPanelMode::VectorTable.label(), "vectors");
    assert_eq!(InfoPanelMode::VectorTable2.label(), "vectors2");
    assert_eq!(InfoPanelMode::Off.label(), "off");
    let pages = SettingsPage::all();
    let labels: Vec<&str> = pages.iter().map(|p| p.label()).collect();
    assert_eq!(labels, vec!["Gameplay", "Rendering", "Advanced", "Debug"]);
}

#[test]
fn sample_ray_tags() {
    assert_eq!(
        overlay_edge_tag_for_sample_ray_hit(SampleRayNodeKind::Internal),
        OVERLAY_EDGE_TAG_REGION_BRANCH
    );
    assert_eq!(
        overlay_edge_tag_for_sample_ray_hit(SampleRayNodeKind::LeafUniform),
        OVERLAY_EDGE_TAG_REGION_UNIFORM
    );
    assert_eq!(
        overlay_edge_tag_for_sample_ray_hit(SampleRayNodeKind::LeafChunkArray),
        OVERLAY_EDGE_TAG_REGION_CHUNK_ARRAY
    );
    assert_eq!(OVERLAY_EDGE_TAG_REGION_BRANCH, 16);
    assert_eq!(OVERLAY_EDGE_TAG_REGION_CHUNK_ARRAY, 19);
}

#[test]
fn last_solid_leaf() {
    assert_eq!(last_solid_leaf_index(&vec![]), None);
    assert_eq!(last_solid_leaf_index(&vec![SampleRayNodeKind::Internal, SampleRayNodeKind::Internal]), None);
    assert_eq!(last_solid_leaf_index(&vec![
        SampleRayNodeKind::Internal,
        SampleRayNodeKind::LeafUniform,
        SampleRayNodeKind::Internal,
    ]), Some(1));
    assert_eq!(
        last_solid_leaf_index(&vec![
            SampleRayNodeKind::LeafChunkArray,
            SampleRayNodeKind::Internal,
            SampleRayNodeKind::LeafUniform,
            SampleRayNodeKind::Internal,
        ]),
        Some(2)
    );
}

#[test]
fn edge_capacity() {
    assert_eq!(overlay_edge_capacity(None, None, None), 2);
    assert_eq!(overlay_edge_capacity(Some(0), Some(5), None), 8);
    assert_eq!(overlay_edge_capacity(Some(10), None, Some(7)), 26);
    assert_eq!(overlay_edge_capacity(Some(usize::MAX), Some(1), None), usize::MAX);
    assert_eq!(overlay_edge_capacity(None, None, Some(usize::MAX)), usize::MAX);
}

#[test]
fn outline_tags() {
    let all = OutlineInputs {
        highlight_edges: true,
        has_hit: true,
        has_place: true,
        wireframe_preview: true,
        holding_block: true,
        preview_suppressed: false,
    };
    assert_eq!(
        target_outline_tags(all),
        vec![OVERLAY_EDGE_TAG_TARGET, OVERLAY_EDGE_TAG_PLACE, OVERLAY_EDGE_TAG_PLACE]
    );
    let suppressed = OutlineInputs { preview_suppressed: true, ..all };
    assert_eq!(
        target_outline_tags(suppressed),
        vec![OVERLAY_EDGE_TAG_TARGET, OVERLAY_EDGE_TAG_PLACE]
    );
    let wire_only = OutlineInputs { highlight_edges: false, ..all };
    assert_eq!(target_outline_tags(wire_only), vec![OVERLAY_EDGE_TAG_PLACE]);
    let nothing = OutlineInputs { has_place: false, has_hit: false, ..all };
    assert_eq!(target_outline_tags(nothing), Vec::<u32>::new());
}
