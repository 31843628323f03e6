use higher_dimension_playground::egui_paint::{
    accepts_texture_delta, egui_image_bytes, expand_indexed_vertices, mesh_texture_slot,
    TextureKey,
};
use higher_dimension_playground::render::EguiTextureSlot;

#[test]
fn image_bytes_are_unmultiplied() {
    let pixels = vec![[100u8, 50, 25, 128], [10, 20, 30, 255], [0, 0, 0, 0], [7, 7, 7, 7]];
    let bytes = egui_image_bytes(&pixels);
    let mut expected = Vec::new();
    for p in &pixels {
        expected.extend_from_slice(
            &egui::Color32::from_rgba_premultiplied(p[0], p[1], p[2], p[3]).to_srgba_unmultiplied(),
        );
    }
    assert_eq!(bytes, expected);
    assert_eq!(&bytes[0..4], &[199, 100, 50, 128]);
    assert_eq!(&bytes[4..8], &[10, 20, 30, 255]);
    assert_eq!(bytes.len(), 16);
}

#[test]
fn texture_keys() {
    assert!(accepts_texture_delta(TextureKey::Managed(0)));
    assert!(!accepts_texture_delta(TextureKey::Managed(1)));
    assert!(!accepts_texture_delta(TextureKey::User(0)));
    assert_eq!(mesh_texture_slot(TextureKey::Managed(0), None), Some(EguiTextureSlot::EguiAtlas));
    assert_eq!(
        mesh_texture_slot(TextureKey::User(5), Some(TextureKey::User(5))),
        Some(EguiTextureSlot::MaterialIcons)
    );
    assert_eq!(mesh_texture_slot(TextureKey::Managed(1), Some(TextureKey::User(1))), None);
    assert_eq!(mesh_texture_slot(TextureKey::Managed(2), None), None);
}

#[test]
fn indexed_vertices_unrolled() {
    assert_eq!(
        expand_indexed_vertices(&vec![10, 20, 30], &vec![0, 2, 5, 1, 1]),
        vec![10, 30, 20, 20]
    );
    assert_eq!(expand_indexed_vertices(&Vec::<u8>::new(), &vec![0, 1]), Vec::<u8>::new());
}

#[test]
fn unrolled_mesh_has_one_vertex_per_valid_index() {
    let vertices = vec![1u16, 2, 3, 4];
    let indices: Vec<u32> = vec![0, 1, 2, 2, 3, 0];
    assert_eq!(expand_indexed_vertices(&vertices, &indices).len(), indices.len());
    let with_bad: Vec<u32> = vec![0, 9, 2];
    assert!(expand_indexed_vertices(&vertices, &with_bad).len() < with_bad.len());
}
