use higher_dimension_playground::cli_options::{
    EditHighlightModeArg, GpuScreenshotSourceArg, InfoPanelMode, PlacementPreviewMode, SceneArg,
    ScenePreset,
};
use higher_dimension_playground::render::{HudReadoutMode, RenderBackend, VteDisplayMode};
use higher_dimension_playground::session::{
    ghost_preview_shown, grab_mouse_on_resume, held_preview_route, hit_face_vector, hotbar_slot_for_digit, initial_window_size,
    left_press_action, needs_egui_paint, pixel_storage_layers,
    place_scale_next, place_scale_prev, plan_navigation_hud, plan_startup,
    resolve_screenshot_request, scroll_hotbar, targets_needed, AppState, AutoCommand,
    CommandQueue, CommandStep, EscapeAction, LeftPressAction, MainMenuPage, OverlayFlags,
    PreviewRoute, StartupArgs, world_ready_step,
};
use std::collections::VecDeque;

fn plain_args() -> StartupArgs {
    StartupArgs {
        load_world: false,
        has_server: false,
        gpu_screenshot: false,
        gpu_screenshot_source: GpuScreenshotSourceArg::RenderBuffer,
        has_commands: false,
        perf_suite: false,
        scene: SceneArg::Flat,
    }
}

#[test]
fn startup_defaults_to_main_menu() {
    let plan = plan_startup(plain_args());
    assert!(!plan.skip_main_menu);
    assert_eq!(plan.app_state, AppState::MainMenu);
    assert_eq!(plan.scene_preset, ScenePreset::DemoCubes);
    assert!(!plan.integrated_singleplayer);
    assert!(!plan.network_world);
    assert_eq!(plan.gpu_screenshot_countdown, 0);
}

#[test]
fn startup_with_server_plays_remote_world() {
    let plan = plan_startup(StartupArgs { has_server: true, load_world: true, ..plain_args() });
    assert_eq!(plan.app_state, AppState::Playing);
    assert!(!plan.integrated_singleplayer);
    assert!(plan.network_world);
    assert_eq!(plan.scene_preset, ScenePreset::Empty);
    assert!(plan.load_world_ignored);
}

#[test]
fn startup_scene_skips_menu_into_integrated_server() {
    let plan = plan_startup(StartupArgs { scene: SceneArg::DemoCubes, ..plain_args() });
    assert!(plan.skip_main_menu);
    assert!(plan.integrated_singleplayer);
    assert_eq!(plan.scene_preset, ScenePreset::Empty);
    assert!(!plan.load_world_ignored);
}

#[test]
fn startup_screenshot_countdowns() {
    let render = plan_startup(StartupArgs { gpu_screenshot: true, ..plain_args() });
    assert_eq!(render.gpu_screenshot_countdown, 3);
    let frame = plan_startup(StartupArgs {
        gpu_screenshot: true,
        gpu_screenshot_source: GpuScreenshotSourceArg::Framebuffer,
        ..plain_args()
    });
    assert_eq!(frame.gpu_screenshot_countdown, 6);
    let scripted =
        plan_startup(StartupArgs { gpu_screenshot: true, has_commands: true, ..plain_args() });
    assert_eq!(scripted.gpu_screenshot_countdown, 0);
}

fn playing() -> OverlayFlags {
    OverlayFlags {
        app_state: AppState::Playing,
        main_menu_page: MainMenuPage::Root,
        menu_open: false,
        inventory_open: false,
        teleport_dialog_open: false,
        dev_console_open: false,
        block_gui_open: false,
        mouse_grabbed: true,
    }
}

#[test]
fn escape_twice_returns_to_play() {
    let start = playing();
    let mut f = start;
    assert_eq!(f.press_escape(), EscapeAction::OpenMenu);
    assert!(f.menu_open && !f.mouse_grabbed);
    assert_eq!(f.press_escape(), EscapeAction::CloseMenu);
    assert_eq!(f, start);
}

#[test]
fn escape_closes_innermost_first() {
    let mut f = OverlayFlags {
        dev_console_open: true,
        inventory_open: true,
        menu_open: true,
        mouse_grabbed: false,
        ..playing()
    };
    assert_eq!(f.press_escape(), EscapeAction::CloseDevConsole);
    assert_eq!(f.press_escape(), EscapeAction::CloseInventory);
    assert!(f.mouse_grabbed);
    assert_eq!(f.press_escape(), EscapeAction::CloseMenu);
    assert_eq!(f.press_escape(), EscapeAction::OpenMenu);
}

#[test]
fn escape_in_main_menu() {
    let mut f = OverlayFlags {
        app_state: AppState::MainMenu,
        main_menu_page: MainMenuPage::Multiplayer,
        mouse_grabbed: false,
        ..playing()
    };
    assert_eq!(f.press_escape(), EscapeAction::MenuRoot);
    assert_eq!(f.main_menu_page, MainMenuPage::Root);
    assert_eq!(f.press_escape(), EscapeAction::Exit);
}

#[test]
fn escape_with_free_mouse_exits() {
    let mut f = OverlayFlags { mouse_grabbed: false, ..playing() };
    assert_eq!(f.press_escape(), EscapeAction::Exit);
}

#[test]
fn overlay_routing() {
    let free = OverlayFlags { mouse_grabbed: false, ..playing() };
    assert!(!free.show_egui_overlay());
    assert!(free.route_aetna_overlay(false, false));
    assert!(!free.route_aetna_overlay(true, false));
    assert!(!free.route_aetna_overlay(false, true));
    assert!(!playing().route_aetna_overlay(false, false));
    let with_menu = OverlayFlags { menu_open: true, ..free };
    assert!(with_menu.show_egui_overlay());
    assert!(!with_menu.route_aetna_overlay(false, false));
}

#[test]
fn left_press_decisions() {
    assert_eq!(left_press_action(&playing(), false), LeftPressAction::GameInput);
    assert_eq!(left_press_action(&playing(), true), LeftPressAction::Ignore);
    let free = OverlayFlags { mouse_grabbed: false, ..playing() };
    assert_eq!(left_press_action(&free, false), LeftPressAction::GrabMouse);
    let teleport = OverlayFlags { teleport_dialog_open: true, ..free };
    assert_eq!(left_press_action(&teleport, false), LeftPressAction::ToggleTeleportDialog);
    assert_eq!(left_press_action(&teleport, true), LeftPressAction::Ignore);
    let menu = OverlayFlags { app_state: AppState::MainMenu, ..free };
    assert_eq!(left_press_action(&menu, false), LeftPressAction::Ignore);
}

#[test]
fn losing_focus_opens_menu() {
    let mut f = playing();
    assert!(f.lose_focus());
    assert!(f.menu_open && !f.mouse_grabbed);
    assert!(!f.lose_focus());
}

fn scroll_one_by_one(index: usize, steps: i32) -> usize {
    let mut i = index;
    for _ in 0..steps.unsigned_abs() {
        i = if steps > 0 { (i + 8) % 9 } else { (i + 1) % 9 };
    }
    i
}

#[test]
fn hotbar_scrolling() {
    assert_eq!(scroll_hotbar(0, 1), 8);
    assert_eq!(scroll_hotbar(0, -1), 1);
    assert_eq!(scroll_hotbar(8, -1), 0);
    assert_eq!(scroll_hotbar(4, 9), 4);
    for index in 0..9 {
        for steps in -40..=40 {
            assert_eq!(scroll_hotbar(index, steps), scroll_one_by_one(index, steps));
        }
    }
    assert_eq!(scroll_hotbar(3, i32::MAX), scroll_hotbar(3, i32::MAX % 9));
    assert_eq!(scroll_hotbar(scroll_hotbar(5, 1234), -1234), 5);
}

#[test]
fn hotbar_digits_and_scale() {
    assert_eq!(hotbar_slot_for_digit(1), Some(0));
    assert_eq!(hotbar_slot_for_digit(9), Some(8));
    assert_eq!(hotbar_slot_for_digit(0), None);
    assert_eq!(hotbar_slot_for_digit(10), None);
    assert_eq!(place_scale_prev(0), -1);
    assert_eq!(place_scale_prev(-3), -3);
    assert_eq!(place_scale_prev(10), 9);
    assert_eq!(place_scale_next(2), 3);
    assert_eq!(place_scale_next(3), 3);
    assert_eq!(place_scale_next(-9), -8);
}

#[test]
fn screenshot_countdown_fires_once() {
    let mut countdown = 3u32;
    let a = resolve_screenshot_request(&mut countdown, false, false, GpuScreenshotSourceArg::Framebuffer);
    assert!(!a.take_screenshot && !a.auto_screenshot);
    assert_eq!(countdown, 2);
    let b = resolve_screenshot_request(&mut countdown, false, false, GpuScreenshotSourceArg::Framebuffer);
    assert!(!b.take_screenshot);
    assert_eq!(countdown, 1);
    let c = resolve_screenshot_request(&mut countdown, false, false, GpuScreenshotSourceArg::Framebuffer);
    assert!(c.take_screenshot && c.auto_screenshot && c.exit_after_render);
    assert_eq!(countdown, 0);
    let d = resolve_screenshot_request(&mut countdown, false, false, GpuScreenshotSourceArg::Framebuffer);
    assert!(!d.take_screenshot && !d.auto_screenshot);
    assert_eq!(countdown, 0);
}

#[test]
fn screenshot_render_buffer_and_manual() {
    let mut countdown = 1u32;
    let fired = resolve_screenshot_request(&mut countdown, false, false, GpuScreenshotSourceArg::RenderBuffer);
    assert!(!fired.take_screenshot && fired.auto_screenshot && !fired.exit_after_render);
    let manual = resolve_screenshot_request(&mut countdown, true, false, GpuScreenshotSourceArg::RenderBuffer);
    assert!(manual.take_screenshot && !manual.auto_screenshot && !manual.exit_after_render);
    let scripted = resolve_screenshot_request(&mut countdown, false, true, GpuScreenshotSourceArg::RenderBuffer);
    assert!(scripted.take_screenshot && scripted.auto_screenshot && scripted.exit_after_render);
}

#[test]
fn command_script_runs_in_order() {
    let mut queue: VecDeque<AutoCommand<char>> = VecDeque::new();
    queue.push_back(AutoCommand::Press('w'));
    queue.push_back(AutoCommand::Wait(2));
    queue.push_back(AutoCommand::Screenshot);
    let mut script = CommandQueue { queue, wait_frames: 0 };
    assert_eq!(script.process(true, true), CommandStep::Idle);
    assert_eq!(script.process(false, true), CommandStep::Press('w'));
    assert_eq!(script.process(false, true), CommandStep::Wait(2));
    assert_eq!(script.process(false, true), CommandStep::Idle);
    assert_eq!(script.process(false, true), CommandStep::Idle);
    assert_eq!(script.process(false, true), CommandStep::Screenshot);
    assert_eq!(script.process(false, true), CommandStep::Finish);
    assert_eq!(script.process(false, false), CommandStep::Idle);
}

#[test]
fn hud_and_targeting_decisions() {
    assert_eq!(
        plan_navigation_hud(false, false, false, InfoPanelMode::VectorTable),
        (true, HudReadoutMode::CompactVectors)
    );
    assert_eq!(plan_navigation_hud(false, false, false, InfoPanelMode::Full), (true, HudReadoutMode::Full));
    assert_eq!(plan_navigation_hud(true, false, false, InfoPanelMode::Full), (false, HudReadoutMode::Full));
    assert_eq!(plan_navigation_hud(false, true, false, InfoPanelMode::VectorTable2), (false, HudReadoutMode::Full));
    assert_eq!(plan_navigation_hud(false, false, false, InfoPanelMode::Off), (false, HudReadoutMode::Full));
    assert!(targets_needed(false, true, EditHighlightModeArg::Off, PlacementPreviewMode::Ghosted));
    assert!(!targets_needed(false, true, EditHighlightModeArg::Off, PlacementPreviewMode::Off));
    assert!(!targets_needed(true, true, EditHighlightModeArg::Both, PlacementPreviewMode::Ghosted));
    assert!(!targets_needed(false, false, EditHighlightModeArg::Faces, PlacementPreviewMode::Off));
    assert!(needs_egui_paint(&playing(), false, false));
    assert!(!needs_egui_paint(&playing(), true, false));
    assert!(needs_egui_paint(&playing(), true, true));
    assert_eq!(hit_face_vector(true, 2, -1), Some([0, 0, -1, 0]));
    assert_eq!(hit_face_vector(true, 0, 0), None);
    assert_eq!(hit_face_vector(false, 1, 1), None);
}

#[test]
fn window_creation_decisions() {
    assert_eq!(initial_window_size(Some(800), None, 320, 240, false), Some((800, 240)));
    assert_eq!(initial_window_size(None, Some(600), 320, 240, true), Some((320, 600)));
    assert_eq!(initial_window_size(None, None, 320, 240, true), Some((320, 240)));
    assert_eq!(initial_window_size(None, None, 320, 240, false), None);
    assert_eq!(initial_window_size(Some(0), None, 320, 240, false), None);
    assert_eq!(
        pixel_storage_layers(RenderBackend::VoxelTraversal, VteDisplayMode::Integral),
        Some(1)
    );
    assert_eq!(pixel_storage_layers(RenderBackend::VoxelTraversal, VteDisplayMode::Slice), None);
    assert_eq!(pixel_storage_layers(RenderBackend::Auto, VteDisplayMode::Integral), None);
    assert!(grab_mouse_on_resume(AppState::Playing, false));
    assert!(!grab_mouse_on_resume(AppState::Playing, true));
    assert!(!grab_mouse_on_resume(AppState::MainMenu, false));
}

#[test]
fn voxel_frame_dispatch_decisions() {
    assert!(world_ready_step(false, AppState::Playing, false, false));
    assert!(!world_ready_step(false, AppState::Playing, true, false));
    assert!(world_ready_step(false, AppState::Playing, true, true));
    assert!(!world_ready_step(false, AppState::MainMenu, false, true));
    assert!(world_ready_step(true, AppState::MainMenu, true, false));
    assert_eq!(held_preview_route(true, true), PreviewRoute::Overlay);
    assert_eq!(held_preview_route(false, false), PreviewRoute::Entities);
    assert_eq!(held_preview_route(false, true), PreviewRoute::Dropped);
    assert!(ghost_preview_shown(false, true, PlacementPreviewMode::Ghosted, true, false));
    assert!(!ghost_preview_shown(false, true, PlacementPreviewMode::Wireframe, true, false));
    assert!(!ghost_preview_shown(true, true, PlacementPreviewMode::Ghosted, true, false));
    assert!(!ghost_preview_shown(false, true, PlacementPreviewMode::Ghosted, true, true));
}
