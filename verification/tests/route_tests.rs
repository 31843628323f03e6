use higher_dimension_playground::ui_routes::{
    aetna_hotbar_slot_index, overlay_route, OrientationAction, OverlayRoute,
};

#[test]
fn hotbar_routes() {
    assert_eq!(aetna_hotbar_slot_index("aetna_hotbar_slot_3"), Some(3));
    assert_eq!(aetna_hotbar_slot_index("aetna_hotbar_slot_0"), Some(0));
    assert_eq!(aetna_hotbar_slot_index("aetna_hotbar_slot_8"), Some(8));
    assert_eq!(aetna_hotbar_slot_index("aetna_hotbar_slot_9"), None);
    assert_eq!(aetna_hotbar_slot_index("aetna_hotbar_slot_"), None);
    assert_eq!(aetna_hotbar_slot_index("aetna_hotbar_slot_+2"), Some(2));
    assert_eq!(aetna_hotbar_slot_index("aetna_hotbar_slot_03"), Some(3));
    assert_eq!(aetna_hotbar_slot_index("aetna_hotbar_slot_x"), None);
    assert_eq!(aetna_hotbar_slot_index("hotbar_slot_1"), None);
}

#[test]
fn overlay_routes() {
    assert_eq!(overlay_route("aetna_hotbar_slot_4"), OverlayRoute::HotbarSlot(4));
    assert_eq!(
        overlay_route("aetna_orientation_xz"),
        OverlayRoute::Orientation(OrientationAction::RotateXz)
    );
    assert_eq!(
        overlay_route("aetna_orientation_zw"),
        OverlayRoute::Orientation(OrientationAction::RotateZw)
    );
    assert_eq!(
        overlay_route("aetna_orientation_reset"),
        OverlayRoute::Orientation(OrientationAction::Reset)
    );
    assert_eq!(
        overlay_route("aetna_orientation_spin"),
        OverlayRoute::Orientation(OrientationAction::Keep)
    );
    assert_eq!(overlay_route("aetna_hotbar_slot_12"), OverlayRoute::Other);
    assert_eq!(overlay_route("menu_button"), OverlayRoute::Other);
}
