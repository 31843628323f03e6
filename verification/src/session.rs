use vstd::prelude::*;
use crate::cli_options::{
    highlights_edges, highlights_faces, EditHighlightModeArg, GpuScreenshotSourceArg, InfoPanelMode,
    PlacementPreviewMode, SceneArg, ScenePreset,
};
use crate::render::{HudReadoutMode, RenderBackend, VteDisplayMode};

verus! {

// ---------------------------------------------------------------------------
// Startup
// ---------------------------------------------------------------------------

/// Whether the client shows its main menu or plays.
#[derive(Copy, Clone, Debug, PartialEq, Eq, Structural)]
pub enum AppState {
    MainMenu,
    Playing,
}

/// What the command line asks of a starting client.
#[derive(Copy, Clone, Debug, PartialEq, Eq, Structural)]
pub struct StartupArgs {
    /// A world file is to be loaded.
    pub load_world: bool,
    /// A multiplayer server address was given.
    pub has_server: bool,
    /// A GPU screenshot is to be taken.
    pub gpu_screenshot: bool,
    /// Which image the GPU screenshot reads back.
    pub gpu_screenshot_source: GpuScreenshotSourceArg,
    /// Scripted commands were given.
    pub has_commands: bool,
    /// The performance suite is to be run.
    pub perf_suite: bool,
    /// The scene chosen on the command line.
    pub scene: SceneArg,
}

/// How a client starts.
#[derive(Copy, Clone, Debug, PartialEq, Eq, Structural)]
pub struct StartupPlan {
    /// The main menu is skipped.
    pub skip_main_menu: bool,
    /// A local server is started in the client's process.
    pub integrated_singleplayer: bool,
    /// The world comes from a server, remote or integrated.
    pub network_world: bool,
    /// The state the client starts in.
    pub app_state: AppState,
    /// The scene the client renders first.
    pub scene_preset: ScenePreset,
    /// Frames until the automatic GPU screenshot (0: none).
    pub gpu_screenshot_countdown: u32,
    /// A world file was asked for on a path that cannot load it (a warning is due).
    pub load_world_ignored: bool,
}

/// The main menu is skipped when anything on the command line asks to play at once.
pub open spec fn skips_main_menu(args: StartupArgs) -> bool {
    args.load_world || args.has_server || args.gpu_screenshot || args.has_commands
        || args.perf_suite || args.scene != SceneArg::Flat
}

/// Frames to wait before the automatic GPU screenshot: only without scripted commands,
/// longer for the framebuffer than for the render buffer.
pub open spec fn screenshot_countdown(args: StartupArgs) -> u32 {
    if args.gpu_screenshot && !args.has_commands {
        match args.gpu_screenshot_source {
            GpuScreenshotSourceArg::RenderBuffer => 3,
            GpuScreenshotSourceArg::Framebuffer => 6,
        }
    } else {
        0
    }
}

/// How a client with command line `args` starts.
pub open spec fn startup_plan(args: StartupArgs) -> StartupPlan {
    let skip = skips_main_menu(args);
    let integrated = !args.has_server && skip;
    let network = args.has_server || integrated;
    let state = if skip {
        AppState::Playing
    } else {
        AppState::MainMenu
    };
    let scene = if state == AppState::MainMenu {
        ScenePreset::DemoCubes
    } else if network {
        ScenePreset::Empty
    } else {
        match args.scene {
            SceneArg::Flat => ScenePreset::Flat,
            SceneArg::DemoCubes => ScenePreset::DemoCubes,
        }
    };
    StartupPlan {
        skip_main_menu: skip,
        integrated_singleplayer: integrated,
        network_world: network,
        app_state: state,
        scene_preset: scene,
        gpu_screenshot_countdown: screenshot_countdown(args),
        load_world_ignored: args.load_world && !integrated,
    }
}

/// Decide how a client starts (see `startup_plan`).
pub fn plan_startup(args: StartupArgs) -> (r: StartupPlan)
    ensures
        r == startup_plan(args),
{
    let skip = args.load_world || args.has_server || args.gpu_screenshot || args.has_commands
        || args.perf_suite || !matches!(args.scene, SceneArg::Flat);
    let integrated = !args.has_server && skip;
    let network = args.has_server || integrated;
    let state = if skip {
        AppState::Playing
    } else {
        AppState::MainMenu
    };
    let scene = if !skip {
        ScenePreset::DemoCubes
    } else if network {
        ScenePreset::Empty
    } else {
        args.scene.to_scene_preset()
    };
    let countdown: u32 = if args.gpu_screenshot && !args.has_commands {
        match args.gpu_screenshot_source {
            GpuScreenshotSourceArg::RenderBuffer => 3,
            GpuScreenshotSourceArg::Framebuffer => 6,
        }
    } else {
        0
    };
    StartupPlan {
        skip_main_menu: skip,
        integrated_singleplayer: integrated,
        network_world: network,
        app_state: state,
        scene_preset: scene,
        gpu_screenshot_countdown: countdown,
        load_world_ignored: args.load_world && !integrated,
    }
}

/// A client that skips the main menu always plays a networked world, so it renders only
/// what the server sends; only the main menu shows the demo scene; a world file is loaded
/// only by the integrated server, which a remote server address rules out.
pub proof fn lemma_startup_plan(args: StartupArgs)
    ensures
        startup_plan(args).app_state == AppState::Playing ==> startup_plan(args).network_world
            && startup_plan(args).scene_preset == ScenePreset::Empty,
        startup_plan(args).app_state == AppState::MainMenu <==> startup_plan(args).scene_preset
            == ScenePreset::DemoCubes,
        startup_plan(args).integrated_singleplayer ==> !args.has_server,
        startup_plan(args).load_world_ignored <==> (args.load_world && args.has_server),
        startup_plan(args).gpu_screenshot_countdown != 0 ==> startup_plan(args).app_state
            == AppState::Playing,
{
}

// ---------------------------------------------------------------------------
// Window overlays and the Escape key
// ---------------------------------------------------------------------------

/// A page of the main menu.
#[derive(Copy, Clone, Debug, PartialEq, Eq, Structural)]
pub enum MainMenuPage {
    Root,
    Singleplayer,
    SingleplayerMigrations,
    SingleplayerMigrationLegacyTrim,
    SingleplayerMigrationV3ToV4,
    Multiplayer,
}

/// The window state that input routing depends on.
#[derive(Copy, Clone, Debug, PartialEq, Eq, Structural)]
pub struct OverlayFlags {
    pub app_state: AppState,
    pub main_menu_page: MainMenuPage,
    pub menu_open: bool,
    pub inventory_open: bool,
    pub teleport_dialog_open: bool,
    pub dev_console_open: bool,
    pub block_gui_open: bool,
    pub mouse_grabbed: bool,
}

/// The immediate-mode interface is shown over the main menu, the pause menu and every
/// dialog.
pub open spec fn shows_egui(f: OverlayFlags) -> bool {
    f.app_state == AppState::MainMenu || f.menu_open || f.inventory_open
        || f.teleport_dialog_open || f.dev_console_open || f.block_gui_open
}

/// Pointer events go to the in-game overlay while playing with the HUD on, the mouse
/// free, no dialog shown and no performance suite running.
pub open spec fn routes_overlay(f: OverlayFlags, no_hud: bool, perf_suite_locked: bool) -> bool {
    f.app_state == AppState::Playing && !no_hud && !f.mouse_grabbed && !shows_egui(f)
        && !perf_suite_locked
}

/// What the Escape key does.
#[derive(Copy, Clone, Debug, PartialEq, Eq, Structural)]
pub enum EscapeAction {
    /// Back to the root page of the main menu, clearing its connection error.
    MenuRoot,
    /// Save settings and quit.
    Exit,
    /// Close the developer console.
    CloseDevConsole,
    /// Close the block interface.
    CloseBlockGui,
    /// Close the teleport dialog and grab the mouse.
    CloseTeleportDialog,
    /// Close the inventory and grab the mouse.
    CloseInventory,
    /// Close the pause menu and grab the mouse.
    CloseMenu,
    /// Release the mouse and open the pause menu.
    OpenMenu,
}

/// The Escape key closes the innermost thing open: in the main menu it goes back to the
/// root page, then quits; in play it closes the developer console, the block interface,
/// the teleport dialog, the inventory and the pause menu, in that order; with nothing
/// open it releases a grabbed mouse and opens the pause menu, and quits otherwise.
pub open spec fn escape_action_spec(f: OverlayFlags) -> EscapeAction {
    if f.app_state == AppState::MainMenu {
        if f.main_menu_page != MainMenuPage::Root {
            EscapeAction::MenuRoot
        } else {
            EscapeAction::Exit
        }
    } else if f.dev_console_open {
        EscapeAction::CloseDevConsole
    } else if f.block_gui_open {
        EscapeAction::CloseBlockGui
    } else if f.teleport_dialog_open {
        EscapeAction::CloseTeleportDialog
    } else if f.inventory_open {
        EscapeAction::CloseInventory
    } else if f.menu_open {
        EscapeAction::CloseMenu
    } else if f.mouse_grabbed {
        EscapeAction::OpenMenu
    } else {
        EscapeAction::Exit
    }
}

/// The flags after `action`: what it closes is closed, a grab grabs the mouse and a
/// release frees it.
pub open spec fn after_escape(f: OverlayFlags, action: EscapeAction) -> OverlayFlags {
    match action {
        EscapeAction::MenuRoot => OverlayFlags { main_menu_page: MainMenuPage::Root, ..f },
        EscapeAction::Exit => f,
        EscapeAction::CloseDevConsole => OverlayFlags { dev_console_open: false, ..f },
        EscapeAction::CloseBlockGui => OverlayFlags { block_gui_open: false, ..f },
        EscapeAction::CloseTeleportDialog => OverlayFlags {
            teleport_dialog_open: false,
            mouse_grabbed: true,
            ..f
        },
        EscapeAction::CloseInventory => OverlayFlags {
            inventory_open: false,
            mouse_grabbed: true,
            ..f
        },
        EscapeAction::CloseMenu => OverlayFlags { menu_open: false, mouse_grabbed: true, ..f },
        EscapeAction::OpenMenu => OverlayFlags { menu_open: true, mouse_grabbed: false, ..f },
    }
}

impl OverlayFlags {
    /// Whether the immediate-mode interface is shown (see `shows_egui`).
    pub fn show_egui_overlay(&self) -> (r: bool)
        ensures
            r == shows_egui(*self),
    {
        matches!(self.app_state, AppState::MainMenu) || self.menu_open || self.inventory_open
            || self.teleport_dialog_open || self.dev_console_open || self.block_gui_open
    }

    /// Whether pointer events go to the in-game overlay (see `routes_overlay`).
    pub fn route_aetna_overlay(&self, no_hud: bool, perf_suite_locked: bool) -> (r: bool)
        ensures
            r == routes_overlay(*self, no_hud, perf_suite_locked),
    {
        matches!(self.app_state, AppState::Playing) && !no_hud && !self.mouse_grabbed
            && !self.show_egui_overlay() && !perf_suite_locked
    }

    /// Handle the Escape key: decide what it does and update the flags accordingly.
    pub fn press_escape(&mut self) -> (r: EscapeAction)
        ensures
            r == escape_action_spec(*old(self)),
            *final(self) == after_escape(*old(self), r),
    {
        let action = if matches!(self.app_state, AppState::MainMenu) {
            if !matches!(self.main_menu_page, MainMenuPage::Root) {
                EscapeAction::MenuRoot
            } else {
                EscapeAction::Exit
            }
        } else if self.dev_console_open {
            EscapeAction::CloseDevConsole
        } else if self.block_gui_open {
            EscapeAction::CloseBlockGui
        } else if self.teleport_dialog_open {
            EscapeAction::CloseTeleportDialog
        } else if self.inventory_open {
            EscapeAction::CloseInventory
        } else if self.menu_open {
            EscapeAction::CloseMenu
        } else if self.mouse_grabbed {
            EscapeAction::OpenMenu
        } else {
            EscapeAction::Exit
        };
        match action {
            EscapeAction::MenuRoot => {
                self.main_menu_page = MainMenuPage::Root;
            },
            EscapeAction::Exit => {},
            EscapeAction::CloseDevConsole => {
                self.dev_console_open = false;
            },
            EscapeAction::CloseBlockGui => {
                self.block_gui_open = false;
            },
            EscapeAction::CloseTeleportDialog => {
                self.teleport_dialog_open = false;
                self.mouse_grabbed = true;
            },
            EscapeAction::CloseInventory => {
                self.inventory_open = false;
                self.mouse_grabbed = true;
            },
            EscapeAction::CloseMenu => {
                self.menu_open = false;
                self.mouse_grabbed = true;
            },
            EscapeAction::OpenMenu => {
                self.menu_open = true;
                self.mouse_grabbed = false;
            },
        }
        action
    }
}

/// In play with nothing open and the mouse grabbed, Escape opens the pause menu and a
/// second Escape closes it again, back to the same state. Escape never quits from play
/// while anything is open or the mouse is grabbed, and every Escape in play that does not
/// quit leaves one thing fewer open or opens the pause menu from free play.
pub proof fn lemma_escape_round_trip(f: OverlayFlags)
    ensures
        f.app_state == AppState::Playing && !f.menu_open && !f.inventory_open
            && !f.teleport_dialog_open && !f.dev_console_open && !f.block_gui_open
            && f.mouse_grabbed ==> {
            let g = after_escape(f, escape_action_spec(f));
            &&& escape_action_spec(f) == EscapeAction::OpenMenu
            &&& escape_action_spec(g) == EscapeAction::CloseMenu
            &&& after_escape(g, escape_action_spec(g)) == f
        },
        f.app_state == AppState::Playing && escape_action_spec(f) == EscapeAction::Exit ==> !(
        f.menu_open || f.inventory_open || f.teleport_dialog_open || f.dev_console_open
            || f.block_gui_open || f.mouse_grabbed),
        f.app_state == AppState::MainMenu ==> (escape_action_spec(f) == EscapeAction::Exit
            <==> f.main_menu_page == MainMenuPage::Root),
{
}

/// What a left-button press does outside the in-game overlay.
#[derive(Copy, Clone, Debug, PartialEq, Eq, Structural)]
pub enum LeftPressAction {
    /// Nothing (the main menu's own widgets take the click, or a dialog is open).
    Ignore,
    /// Hand the press to gameplay input.
    GameInput,
    /// Close the teleport dialog (a click outside it).
    ToggleTeleportDialog,
    /// Grab the mouse and make sure the pause menu is closed.
    GrabMouse,
}

/// A left press in the main menu does nothing here; with the mouse grabbed it is
/// gameplay input unless the interface took it; an untaken click with the teleport
/// dialog open closes it; with nothing open it grabs the mouse.
pub open spec fn left_press_spec(f: OverlayFlags, egui_consumed: bool) -> LeftPressAction {
    if f.app_state == AppState::MainMenu {
        LeftPressAction::Ignore
    } else if f.mouse_grabbed {
        if !egui_consumed {
            LeftPressAction::GameInput
        } else {
            LeftPressAction::Ignore
        }
    } else if f.teleport_dialog_open && !egui_consumed {
        LeftPressAction::ToggleTeleportDialog
    } else if !f.menu_open && !f.inventory_open && !f.teleport_dialog_open
        && !f.dev_console_open && !f.block_gui_open {
        LeftPressAction::GrabMouse
    } else {
        LeftPressAction::Ignore
    }
}

/// What a left-button press does (see `left_press_spec`).
pub fn left_press_action(f: &OverlayFlags, egui_consumed: bool) -> (r: LeftPressAction)
    ensures
        r == left_press_spec(*f, egui_consumed),
{
    if matches!(f.app_state, AppState::MainMenu) {
        LeftPressAction::Ignore
    } else if f.mouse_grabbed {
        if !egui_consumed {
            LeftPressAction::GameInput
        } else {
            LeftPressAction::Ignore
        }
    } else if f.teleport_dialog_open && !egui_consumed {
        LeftPressAction::ToggleTeleportDialog
    } else if !f.menu_open && !f.inventory_open && !f.teleport_dialog_open
        && !f.dev_console_open && !f.block_gui_open {
        LeftPressAction::GrabMouse
    } else {
        LeftPressAction::Ignore
    }
}

/// Losing focus with the mouse grabbed releases it and opens the pause menu; otherwise
/// nothing changes.
pub open spec fn after_focus_lost(f: OverlayFlags) -> OverlayFlags {
    if f.mouse_grabbed {
        OverlayFlags { mouse_grabbed: false, menu_open: true, ..f }
    } else {
        f
    }
}

impl OverlayFlags {
    /// Handle the window losing focus (see `after_focus_lost`); returns whether the mouse
    /// was released.
    pub fn lose_focus(&mut self) -> (released: bool)
        ensures
            released == old(self).mouse_grabbed,
            *final(self) == after_focus_lost(*old(self)),
    {
        if self.mouse_grabbed {
            self.mouse_grabbed = false;
            self.menu_open = true;
            true
        } else {
            false
        }
    }
}

// ---------------------------------------------------------------------------
// Hotbar and placement scale
// ---------------------------------------------------------------------------

/// Hotbar slot after one scroll step: a step up selects the previous slot, a step down
/// the next, wrapping around the nine slots.
pub open spec fn hotbar_scroll_step(index: int, up: bool) -> int {
    if up {
        (index + 8) % 9
    } else {
        (index + 1) % 9
    }
}

/// Hotbar slot after `steps` scroll steps (positive: up), taken one at a time.
pub open spec fn hotbar_after_steps(index: int, steps: int) -> int
    decreases (if steps >= 0 { steps } else { -steps }),
{
    if steps == 0 {
        index
    } else if steps > 0 {
        hotbar_after_steps(hotbar_scroll_step(index, true), steps - 1)
    } else {
        hotbar_after_steps(hotbar_scroll_step(index, false), steps + 1)
    }
}

proof fn lemma_hotbar_after_steps_closed(index: int, steps: int)
    requires
        0 <= index < 9,
    ensures
        hotbar_after_steps(index, steps) == (index - steps) % 9,
    decreases (if steps >= 0 { steps } else { -steps }),
{
    if steps > 0 {
        let next = hotbar_scroll_step(index, true);
        lemma_hotbar_after_steps_closed(next, steps - 1);
        assert((next - (steps - 1)) % 9 == (index - steps) % 9) by {
            assert(next == (index + 8) % 9);
            vstd::arithmetic::div_mod::lemma_mod_add_multiples_vanish(index - steps, 9);
            vstd::arithmetic::div_mod::lemma_add_mod_noop(index + 8, -(steps - 1), 9);
            vstd::arithmetic::div_mod::lemma_mod_twice(index + 8, 9);
            vstd::arithmetic::div_mod::lemma_add_mod_noop((index + 8) % 9, -(steps - 1), 9);
        }
    } else if steps < 0 {
        let next = hotbar_scroll_step(index, false);
        lemma_hotbar_after_steps_closed(next, steps + 1);
        assert((next - (steps + 1)) % 9 == (index - steps) % 9) by {
            vstd::arithmetic::div_mod::lemma_add_mod_noop(index + 1, -(steps + 1), 9);
            vstd::arithmetic::div_mod::lemma_mod_twice(index + 1, 9);
            vstd::arithmetic::div_mod::lemma_add_mod_noop((index + 1) % 9, -(steps + 1), 9);
        }
    } else {
        assert(index % 9 == index) by {
            vstd::arithmetic::div_mod::lemma_small_mod(index as nat, 9);
        }
    }
}

/// The hotbar slot selected after `steps` scroll steps from slot `index` (see
/// `hotbar_after_steps`).
pub fn scroll_hotbar(index: usize, steps: i32) -> (r: usize)
    requires
        index < 9,
        steps != i32::MIN,
    ensures
        r == hotbar_after_steps(index as int, steps as int),
        r < 9,
{
    proof {
        lemma_hotbar_after_steps_closed(index as int, steps as int);
    }
    let shift: i64 = (steps as i64) % 9;
    let moved: i64 = (index as i64 - shift + 9) % 9;
    proof {
        assert(moved == (index - steps) % 9) by {
            vstd::arithmetic::div_mod::lemma_fundamental_div_mod(steps as int, 9);
            vstd::arithmetic::div_mod::lemma_mod_add_multiples_vanish(index - steps, 9);
            assert(shift == steps % 9 || shift == steps % 9 - 9);
            vstd::arithmetic::div_mod::lemma_add_mod_noop(index - shift + 9, 0, 9);
        }
    }
    moved as usize
}

/// Scrolling the hotbar up and then down by the same number of steps gives back the slot,
/// and nine steps either way go once around.
pub proof fn lemma_hotbar_scroll_inverse(index: int, steps: int)
    requires
        0 <= index < 9,
    ensures
        hotbar_after_steps(hotbar_after_steps(index, steps), -steps) == index,
        hotbar_after_steps(index, 9) == index,
        0 <= hotbar_after_steps(index, steps) < 9,
{
    lemma_hotbar_after_steps_closed(index, steps);
    lemma_hotbar_after_steps_closed(index, 9);
    let j = (index - steps) % 9;
    lemma_hotbar_after_steps_closed(j, -steps);
    assert((j + steps) % 9 == index) by {
        vstd::arithmetic::div_mod::lemma_add_mod_noop(index - steps, steps, 9);
        vstd::arithmetic::div_mod::lemma_mod_twice(index - steps, 9);
        vstd::arithmetic::div_mod::lemma_add_mod_noop(j, steps, 9);
        vstd::arithmetic::div_mod::lemma_small_mod(index as nat, 9);
        vstd::arithmetic::div_mod::lemma_mod_add_multiples_vanish(index, 9);
    }
    assert((index - 9) % 9 == index) by {
        vstd::arithmetic::div_mod::lemma_mod_sub_multiples_vanish(index, 9);
        vstd::arithmetic::div_mod::lemma_small_mod(index as nat, 9);
    }
}

/// The hotbar slot a number key selects: keys 1 to 9 select slots 0 to 8, others none.
pub fn hotbar_slot_for_digit(digit: u32) -> (r: Option<usize>)
    ensures
        1 <= digit <= 9 ==> r == Some((digit - 1) as usize),
        !(1 <= digit <= 9) ==> r is None,
{
    if 1 <= digit && digit <= 9 {
        Some((digit - 1) as usize)
    } else {
        None
    }
}

/// Smallest placement scale exponent.
pub const PLACE_SCALE_EXP_MIN: i8 = -3;

/// Largest placement scale exponent.
pub const PLACE_SCALE_EXP_MAX: i8 = 3;

/// One placement scale step down, not below the smallest.
pub fn place_scale_prev(scale_exp: i8) -> (r: i8)
    requires
        scale_exp > i8::MIN,
    ensures
        r == (if scale_exp - 1 < PLACE_SCALE_EXP_MIN { PLACE_SCALE_EXP_MIN as int } else { scale_exp - 1 }),
{
    let lowered = scale_exp - 1;
    if lowered < PLACE_SCALE_EXP_MIN {
        PLACE_SCALE_EXP_MIN
    } else {
        lowered
    }
}

/// One placement scale step up, not above the largest.
pub fn place_scale_next(scale_exp: i8) -> (r: i8)
    requires
        scale_exp < i8::MAX,
    ensures
        r == (if scale_exp + 1 > PLACE_SCALE_EXP_MAX { PLACE_SCALE_EXP_MAX as int } else { scale_exp + 1 }),
{
    let raised = scale_exp + 1;
    if raised > PLACE_SCALE_EXP_MAX {
        PLACE_SCALE_EXP_MAX
    } else {
        raised
    }
}

/// The selected hotbar slot and the placement scale of the selected block.
#[derive(Copy, Clone, Debug, PartialEq, Eq, Structural)]
pub struct HotbarSelection {
    /// Selected slot (0 to 8).
    pub index: usize,
    /// Scale exponent of the selected block.
    pub scale_exp: i8,
}

/// The hotbar input of one frame with no menu open.
#[derive(Copy, Clone, Debug, PartialEq, Eq, Structural)]
pub struct HotbarFrameInput {
    /// Scroll steps taken this frame (positive: up).
    pub scroll_steps: i32,
    /// The control scheme spends the scroll wheel on rotation pairs, not the hotbar.
    pub scroll_pair_cycle: bool,
    /// The key for a smaller placement scale was pressed.
    pub scale_prev: bool,
    /// The key for a larger placement scale was pressed.
    pub scale_next: bool,
    /// A number key pressed, if any.
    pub digit: Option<u32>,
}

/// What a frame of hotbar input did.
#[derive(Copy, Clone, Debug, PartialEq, Eq, Structural)]
pub struct HotbarFrameOutcome {
    /// The selection after the frame.
    pub selection: HotbarSelection,
    /// The selected block was taken anew from its hotbar slot (by scrolling or a number
    /// key), so its data is to be read from the inventory again.
    pub reselected: bool,
    /// A scale key changed the selected slot's scale, so the inventory is to be saved.
    pub scale_changed: bool,
}

/// Scale exponent one step down, not below the smallest.
pub open spec fn scale_prev_spec(scale_exp: int) -> int {
    if scale_exp - 1 < PLACE_SCALE_EXP_MIN {
        PLACE_SCALE_EXP_MIN as int
    } else {
        scale_exp - 1
    }
}

/// Scale exponent one step up, not above the largest.
pub open spec fn scale_next_spec(scale_exp: int) -> int {
    if scale_exp + 1 > PLACE_SCALE_EXP_MAX {
        PLACE_SCALE_EXP_MAX as int
    } else {
        scale_exp + 1
    }
}

/// The slot a number key selects, if it selects one.
pub open spec fn digit_slot(digit: Option<u32>) -> Option<int> {
    match digit {
        Some(d) => if 1 <= d <= 9 {
            Some(d - 1)
        } else {
            None
        },
        None => None,
    }
}

/// A frame of hotbar input, in the client's order: scrolling moves the selection and
/// takes the block of the new slot; the scale keys step the selected block's scale and
/// write it into its slot of `slot_scales` (the scale of the block each slot holds);
/// a number key then selects its slot and takes that slot's block. The result is the
/// outcome and the slot scales after the frame.
pub open spec fn hotbar_frame_spec(sel: HotbarSelection, input: HotbarFrameInput, slot_scales: Seq<i8>) -> (
    HotbarFrameOutcome,
    Seq<i8>,
) {
    let scrolled = input.scroll_steps != 0 && !input.scroll_pair_cycle;
    let index1 = if scrolled {
        hotbar_after_steps(sel.index as int, input.scroll_steps as int)
    } else {
        sel.index as int
    };
    let scale1 = if scrolled {
        slot_scales[index1] as int
    } else {
        sel.scale_exp as int
    };
    let scale2 = if input.scale_prev {
        scale_prev_spec(scale1)
    } else {
        scale1
    };
    let scales2 = if input.scale_prev {
        slot_scales.update(index1, scale2 as i8)
    } else {
        slot_scales
    };
    let scale3 = if input.scale_next {
        scale_next_spec(scale2)
    } else {
        scale2
    };
    let scales3 = if input.scale_next {
        scales2.update(index1, scale3 as i8)
    } else {
        scales2
    };
    let (index4, scale4) = match digit_slot(input.digit) {
        Some(d) => (d, scales3[d] as int),
        None => (index1, scale3),
    };
    (
        HotbarFrameOutcome {
            selection: HotbarSelection { index: index4 as usize, scale_exp: scale4 as i8 },
            reselected: scrolled || digit_slot(input.digit) is Some,
            scale_changed: input.scale_prev || input.scale_next,
        },
        scales3,
    )
}

/// Every scale exponent of `scales` lies strictly inside the range of `i8`, so a scale key
/// can step it.
pub open spec fn scales_steppable(scales: Seq<i8>) -> bool {
    forall|i: int| 0 <= i < scales.len() ==> i8::MIN < #[trigger] scales[i] < i8::MAX
}

/// Apply a frame of hotbar input to selection `sel` (see `hotbar_frame_spec`); the scale
/// keys update `slot_scales`.
pub fn hotbar_frame_step(sel: HotbarSelection, input: HotbarFrameInput, slot_scales: &mut Vec<i8>) -> (r: HotbarFrameOutcome)
    requires
        sel.index < 9,
        old(slot_scales).len() == 9,
        i8::MIN < sel.scale_exp < i8::MAX,
        scales_steppable(old(slot_scales)@),
        input.scroll_steps != i32::MIN,
    ensures
        (r, final(slot_scales)@) == hotbar_frame_spec(sel, input, old(slot_scales)@),
{
    let scrolled = input.scroll_steps != 0 && !input.scroll_pair_cycle;
    let mut index = sel.index;
    let mut scale = sel.scale_exp;
    if scrolled {
        index = scroll_hotbar(sel.index, input.scroll_steps);
        scale = slot_scales[index];
    }
    if input.scale_prev {
        scale = place_scale_prev(scale);
        slot_scales.set(index, scale);
    }
    proof {
        assert(scale < i8::MAX);
    }
    if input.scale_next {
        scale = place_scale_next(scale);
        slot_scales.set(index, scale);
    }
    let mut reselected = scrolled;
    match input.digit {
        Some(d) => {
            match hotbar_slot_for_digit(d) {
                Some(slot) => {
                    index = slot;
                    scale = slot_scales[slot];
                    reselected = true;
                },
                None => {},
            }
        },
        None => {},
    }
    HotbarFrameOutcome {
        selection: HotbarSelection { index, scale_exp: scale },
        reselected,
        scale_changed: input.scale_prev || input.scale_next,
    }
}

/// After a frame of hotbar input with the scroll wheel on the hotbar, from a slot below 9
/// and with every scale within the placement range: the slot is still below 9 and every
/// scale still within the range; without a number key the slot is the old one moved back
/// by the scroll steps, wrapping around the nine slots; a number key from 1 to 9 selects
/// the slot one below it; and a newly taken block has its slot's scale.
pub proof fn lemma_hotbar_frame_law(sel: HotbarSelection, input: HotbarFrameInput, slot_scales: Seq<i8>)
    requires
        sel.index < 9,
        slot_scales.len() == 9,
        PLACE_SCALE_EXP_MIN <= sel.scale_exp <= PLACE_SCALE_EXP_MAX,
        forall|i: int| 0 <= i < 9 ==> PLACE_SCALE_EXP_MIN <= #[trigger] slot_scales[i] <= PLACE_SCALE_EXP_MAX,
        !input.scroll_pair_cycle,
    ensures
        ({
            let (out, scales) = hotbar_frame_spec(sel, input, slot_scales);
            &&& out.selection.index < 9
            &&& PLACE_SCALE_EXP_MIN <= out.selection.scale_exp <= PLACE_SCALE_EXP_MAX
            &&& scales.len() == 9
            &&& forall|i: int| 0 <= i < 9 ==> PLACE_SCALE_EXP_MIN <= #[trigger] scales[i] <= PLACE_SCALE_EXP_MAX
            &&& digit_slot(input.digit) is None ==> out.selection.index == (sel.index - input.scroll_steps) % 9
            &&& digit_slot(input.digit) matches Some(d) ==> out.selection.index == d
            &&& digit_slot(input.digit) is Some ==> out.selection.scale_exp == scales[out.selection.index as int]
            &&& (input.scroll_steps != 0 && !input.scale_prev && !input.scale_next)
                ==> out.selection.scale_exp == scales[out.selection.index as int]
        }),
{
    lemma_hotbar_after_steps_closed(sel.index as int, input.scroll_steps as int);
    assert(sel.index % 9 == sel.index) by {
        vstd::arithmetic::div_mod::lemma_small_mod(sel.index as nat, 9);
    }
}

// ---------------------------------------------------------------------------
// Screenshots
// ---------------------------------------------------------------------------

/// The outcome of one frame's screenshot check.
#[derive(Copy, Clone, Debug, PartialEq, Eq, Structural)]
pub struct ScreenshotDecision {
    /// A screenshot is taken this frame.
    pub take_screenshot: bool,
    /// The screenshot is automatic (the countdown ran out or a command asked for it).
    pub auto_screenshot: bool,
    /// The client exits after rendering this frame.
    pub exit_after_render: bool,
}

/// The countdown after one frame: it counts down to 0 and stays there.
pub open spec fn countdown_next(countdown: u32) -> u32 {
    if countdown > 1 {
        (countdown - 1) as u32
    } else {
        0
    }
}

/// The countdown runs out on the frame it steps from 1 to 0.
pub open spec fn countdown_fires(countdown: u32) -> bool {
    countdown == 1
}

/// One frame's screenshot check: a manual or scripted request takes a screenshot, and so
/// does the countdown running out when the framebuffer is read; an automatic screenshot
/// that is taken ends the run.
pub open spec fn screenshot_decision(
    countdown: u32,
    manual: bool,
    command_requested: bool,
    source: GpuScreenshotSourceArg,
) -> ScreenshotDecision {
    let fired = countdown_fires(countdown);
    let take = manual || command_requested || (fired && source
        == GpuScreenshotSourceArg::Framebuffer);
    let auto = fired || command_requested;
    ScreenshotDecision { take_screenshot: take, auto_screenshot: auto, exit_after_render: take && auto }
}

/// Decide this frame's screenshot and step the countdown (see `screenshot_decision` and
/// `countdown_next`).
pub fn resolve_screenshot_request(
    countdown: &mut u32,
    manual: bool,
    command_requested: bool,
    source: GpuScreenshotSourceArg,
) -> (r: ScreenshotDecision)
    ensures
        r == screenshot_decision(*old(countdown), manual, command_requested, source),
        *final(countdown) == countdown_next(*old(countdown)),
{
    let fired = if *countdown > 1 {
        *countdown = *countdown - 1;
        false
    } else if *countdown == 1 {
        *countdown = 0;
        true
    } else {
        false
    };
    let mut take = manual || command_requested;
    if fired && matches!(source, GpuScreenshotSourceArg::Framebuffer) {
        take = true;
    }
    let auto = fired || command_requested;
    ScreenshotDecision { take_screenshot: take, auto_screenshot: auto, exit_after_render: take && auto }
}

/// The countdown after `n` frames.
pub open spec fn countdown_after(countdown: u32, n: nat) -> u32
    decreases n,
{
    if n == 0 {
        countdown
    } else {
        countdown_after(countdown_next(countdown), (n - 1) as nat)
    }
}

/// A countdown started at `c` runs out on frame `c` exactly (frames numbered from 1), and
/// on no other frame.
pub proof fn lemma_countdown_fires_once(c: u32, n: nat)
    ensures
        countdown_fires(countdown_after(c, n)) <==> (c >= 1 && n + 1 == c),
        countdown_after(c, n) == (if n < c { c - n } else { 0 }),
    decreases n,
{
    if n > 0 {
        lemma_countdown_fires_once(countdown_next(c), (n - 1) as nat);
    }
}

// ---------------------------------------------------------------------------
// Scripted commands
// ---------------------------------------------------------------------------

/// A scripted command.
#[derive(Copy, Clone, Debug, PartialEq, Eq, Structural)]
pub enum AutoCommand<K> {
    /// Press a key.
    Press(K),
    /// Let this many frames pass.
    Wait(u32),
    /// Take a screenshot.
    Screenshot,
}

/// What one frame of the script does.
#[derive(Copy, Clone, Debug, PartialEq, Eq, Structural)]
pub enum CommandStep<K> {
    /// Nothing (a performance suite runs, or a wait goes on, or the script is over).
    Idle,
    /// Inject a key press.
    Press(K),
    /// Start waiting.
    Wait(u32),
    /// Take a screenshot.
    Screenshot,
    /// The script is over in screenshot mode: exit after this frame.
    Finish,
}

/// The script's state: commands left, and frames still to wait.
pub struct CommandQueue<K> {
    pub queue: std::collections::VecDeque<AutoCommand<K>>,
    pub wait_frames: u32,
}

/// The commands left in a script, in order.
pub open spec fn commands_of<K>(q: &CommandQueue<K>) -> Seq<AutoCommand<K>> {
    q.queue@
}

/// One frame of the script: nothing while a performance suite runs; a pending wait
/// counts down; otherwise the next command is taken; an empty script in screenshot mode
/// with commands given finishes the run.
pub open spec fn command_step<K>(
    commands: Seq<AutoCommand<K>>,
    wait: u32,
    perf_suite_active: bool,
    finish_when_done: bool,
) -> (Seq<AutoCommand<K>>, u32, CommandStep<K>) {
    if perf_suite_active {
        (commands, wait, CommandStep::Idle)
    } else if wait > 0 {
        (commands, (wait - 1) as u32, CommandStep::Idle)
    } else if commands.len() > 0 {
        let rest = commands.drop_first();
        match commands[0] {
            AutoCommand::Press(k) => (rest, wait, CommandStep::Press(k)),
            AutoCommand::Wait(n) => (rest, n, CommandStep::Wait(n)),
            AutoCommand::Screenshot => (rest, wait, CommandStep::Screenshot),
        }
    } else if finish_when_done {
        (commands, wait, CommandStep::Finish)
    } else {
        (commands, wait, CommandStep::Idle)
    }
}

impl<K> CommandQueue<K> {
    /// Run one frame of the script (see `command_step`). `finish_when_done` holds when
    /// commands were given on the command line in GPU screenshot mode.
    pub fn process(&mut self, perf_suite_active: bool, finish_when_done: bool) -> (r: CommandStep<K>)
        ensures
            ({
                let (rest, wait, step) = command_step(
                    old(self).queue@,
                    old(self).wait_frames,
                    perf_suite_active,
                    finish_when_done,
                );
                &&& final(self).queue@ == rest
                &&& final(self).wait_frames == wait
                &&& r == step
            }),
    {
        if perf_suite_active {
            return CommandStep::Idle;
        }
        if self.wait_frames > 0 {
            self.wait_frames = self.wait_frames - 1;
            return CommandStep::Idle;
        }
        match self.queue.pop_front() {
            Some(cmd) => match cmd {
                AutoCommand::Press(k) => CommandStep::Press(k),
                AutoCommand::Wait(n) => {
                    self.wait_frames = n;
                    CommandStep::Wait(n)
                },
                AutoCommand::Screenshot => CommandStep::Screenshot,
            },
            None => {
                if finish_when_done {
                    CommandStep::Finish
                } else {
                    CommandStep::Idle
                }
            },
        }
    }
}

/// The state of a script after `n` frames without a performance suite.
pub open spec fn command_run<K>(
    commands: Seq<AutoCommand<K>>,
    wait: u32,
    finish_when_done: bool,
    n: nat,
) -> (Seq<AutoCommand<K>>, u32)
    decreases n,
{
    if n == 0 {
        (commands, wait)
    } else {
        let (rest, w, _step) = command_step(commands, wait, false, finish_when_done);
        command_run(rest, w, finish_when_done, (n - 1) as nat)
    }
}

/// A `Wait(n)` command holds the script for exactly `n` frames: after it is taken, the
/// next `n` frames are idle and leave the remaining commands untouched, and the frame
/// after them takes the next command.
pub proof fn lemma_wait_holds_script<K>(
    rest: Seq<AutoCommand<K>>,
    n: u32,
    finish_when_done: bool,
    k: nat,
)
    requires
        k <= n,
    ensures
        command_run(rest, n, finish_when_done, k) == (rest, (n - k) as u32),
        k < n ==> command_step(rest, (n - k) as u32, false, finish_when_done).2
            == CommandStep::<K>::Idle,
    decreases k,
{
    if k > 0 {
        lemma_wait_holds_script(rest, (n - 1) as u32, finish_when_done, (k - 1) as nat);
    }
}

// ---------------------------------------------------------------------------
// Per-frame HUD and targeting decisions
// ---------------------------------------------------------------------------

/// The immediate-mode interface is painted in the main menu, while the world loads, and
/// whenever a menu or dialog is open.
pub open spec fn needs_egui_paint_spec(f: OverlayFlags, world_ready: bool, controls_dialog_open: bool) -> bool {
    f.app_state == AppState::MainMenu || !world_ready || f.menu_open || f.inventory_open
        || f.teleport_dialog_open || controls_dialog_open || f.dev_console_open
        || f.block_gui_open
}

/// Whether this frame paints the immediate-mode interface (see `needs_egui_paint_spec`).
pub fn needs_egui_paint(f: &OverlayFlags, world_ready: bool, controls_dialog_open: bool) -> (r: bool)
    ensures
        r == needs_egui_paint_spec(*f, world_ready, controls_dialog_open),
{
    matches!(f.app_state, AppState::MainMenu) || !world_ready || f.menu_open || f.inventory_open
        || f.teleport_dialog_open || controls_dialog_open || f.dev_console_open
        || f.block_gui_open
}

/// The navigation HUD is drawn unless the HUD is off, the pause menu or the console is
/// open, or the information panel is off.
pub open spec fn navigation_hud_spec(no_hud: bool, menu_open: bool, dev_console_open: bool, panel: InfoPanelMode) -> bool {
    !no_hud && !menu_open && !dev_console_open && panel != InfoPanelMode::Off
}

/// The readout is compact while a vector table panel shows and no menu or console is
/// open.
pub open spec fn readout_mode_spec(menu_open: bool, dev_console_open: bool, panel: InfoPanelMode) -> HudReadoutMode {
    if !menu_open && !dev_console_open && (panel == InfoPanelMode::VectorTable || panel
        == InfoPanelMode::VectorTable2) {
        HudReadoutMode::CompactVectors
    } else {
        HudReadoutMode::Full
    }
}

/// Whether the navigation HUD is drawn and in which readout mode (see
/// `navigation_hud_spec` and `readout_mode_spec`).
pub fn plan_navigation_hud(no_hud: bool, menu_open: bool, dev_console_open: bool, panel: InfoPanelMode) -> (r: (bool, HudReadoutMode))
    ensures
        r.0 == navigation_hud_spec(no_hud, menu_open, dev_console_open, panel),
        r.1 == readout_mode_spec(menu_open, dev_console_open, panel),
{
    let mut draw = !menu_open && !dev_console_open && !matches!(panel, InfoPanelMode::Off);
    if no_hud {
        draw = false;
    }
    let readout = if !menu_open && !dev_console_open && (matches!(panel, InfoPanelMode::VectorTable)
        || matches!(panel, InfoPanelMode::VectorTable2)) {
        HudReadoutMode::CompactVectors
    } else {
        HudReadoutMode::Full
    };
    (draw, readout)
}

/// Block edit targets are traced only in play with the mouse grabbed and the pause menu
/// closed, and only when something uses them: a face or edge highlight or a placement
/// preview.
pub open spec fn targets_needed_spec(menu_open: bool, mouse_grabbed: bool, highlight: EditHighlightModeArg, preview: PlacementPreviewMode) -> bool {
    !menu_open && mouse_grabbed && (highlights_faces(highlight) || highlights_edges(highlight)
        || preview != PlacementPreviewMode::Off)
}

/// Whether to trace block edit targets this frame (see `targets_needed_spec`).
pub fn targets_needed(menu_open: bool, mouse_grabbed: bool, highlight: EditHighlightModeArg, preview: PlacementPreviewMode) -> (r: bool)
    ensures
        r == targets_needed_spec(menu_open, mouse_grabbed, highlight, preview),
{
    !menu_open && mouse_grabbed && (highlight.uses_faces() || highlight.uses_edges()
        || preview.needs_targets())
}

/// The unit normal of the targeted face, as the HUD shows it: `sign` on `axis`, zero
/// elsewhere; none when no block is hit or the face has no sign.
pub fn hit_face_vector(has_hit: bool, axis: usize, sign: i32) -> (r: Option<[i32; 4]>)
    requires
        axis < 4,
    ensures
        (sign == 0 || !has_hit) ==> r is None,
        (sign != 0 && has_hit) ==> (r matches Some(v) && forall|c: int|
            0 <= c < 4 ==> #[trigger] v[c] == (if c == axis { sign } else { 0 })),
{
    if sign != 0 && has_hit {
        let mut face: [i32; 4] = [0, 0, 0, 0];
        face[axis] = sign;
        Some(face)
    } else {
        None
    }
}

// ---------------------------------------------------------------------------
// Window creation
// ---------------------------------------------------------------------------

/// The window's initial inner size: the explicit window size (each missing side taken
/// from the render size) when either side is given; the render size for a GPU
/// screenshot; otherwise none, and the platform picks. A size with a zero side is not
/// used either.
pub open spec fn initial_window_size_spec(
    window_width: Option<u32>,
    window_height: Option<u32>,
    width: u32,
    height: u32,
    gpu_screenshot: bool,
) -> Option<(u32, u32)> {
    let (w, h) = if window_width is Some || window_height is Some {
        (
            match window_width {
                Some(v) => v,
                None => width,
            },
            match window_height {
                Some(v) => v,
                None => height,
            },
        )
    } else if gpu_screenshot {
        (width, height)
    } else {
        (0u32, 0u32)
    };
    if w > 0 && h > 0 {
        Some((w, h))
    } else {
        None
    }
}

/// The window's initial inner size (see `initial_window_size_spec`).
pub fn initial_window_size(
    window_width: Option<u32>,
    window_height: Option<u32>,
    width: u32,
    height: u32,
    gpu_screenshot: bool,
) -> (r: Option<(u32, u32)>)
    ensures
        r == initial_window_size_spec(window_width, window_height, width, height, gpu_screenshot),
{
    let (w, h) = if window_width.is_some() || window_height.is_some() {
        (
            match window_width {
                Some(v) => v,
                None => width,
            },
            match window_height {
                Some(v) => v,
                None => height,
            },
        )
    } else if gpu_screenshot {
        (width, height)
    } else {
        (0, 0)
    };
    if w > 0 && h > 0 {
        Some((w, h))
    } else {
        None
    }
}

/// The voxel traversal engine's integral mode stores a single pixel layer; every other
/// configuration stores all layers.
pub fn pixel_storage_layers(backend: RenderBackend, mode: VteDisplayMode) -> (r: Option<u32>)
    ensures
        (backend == RenderBackend::VoxelTraversal && mode == VteDisplayMode::Integral) ==> r
            == Some(1u32),
        !(backend == RenderBackend::VoxelTraversal && mode == VteDisplayMode::Integral) ==> r
            is None,
{
    if matches!(backend, RenderBackend::VoxelTraversal) && matches!(mode, VteDisplayMode::Integral) {
        Some(1)
    } else {
        None
    }
}

/// When the window appears, the mouse is grabbed if the client starts in play and no
/// performance suite runs.
pub fn grab_mouse_on_resume(app_state: AppState, perf_suite_active: bool) -> (r: bool)
    ensures
        r == (app_state == AppState::Playing && !perf_suite_active),
{
    matches!(app_state, AppState::Playing) && !perf_suite_active
}

// ---------------------------------------------------------------------------
// Voxel frame dispatch
// ---------------------------------------------------------------------------

/// The world becomes ready in play at once without a multiplayer connection, and with
/// one once the initial wait has lasted past the fallback delay; a ready world stays
/// ready. `fallback_elapsed` says whether the client has waited that long.
pub open spec fn world_ready_spec(world_ready: bool, app_state: AppState, has_multiplayer: bool, fallback_elapsed: bool) -> bool {
    world_ready || (app_state == AppState::Playing && (!has_multiplayer || fallback_elapsed))
}

/// Whether the world is ready after this frame (see `world_ready_spec`).
pub fn world_ready_step(world_ready: bool, app_state: AppState, has_multiplayer: bool, fallback_elapsed: bool) -> (r: bool)
    ensures
        r == world_ready_spec(world_ready, app_state, has_multiplayer, fallback_elapsed),
        world_ready ==> r,
{
    let mut ready = world_ready;
    if !ready && matches!(app_state, AppState::Playing) && !has_multiplayer {
        ready = true;
    }
    if !ready && matches!(app_state, AppState::Playing) && has_multiplayer && fallback_elapsed {
        ready = true;
    }
    ready
}

/// Where the held item's preview instance goes in a voxel frame.
#[derive(Copy, Clone, Debug, PartialEq, Eq, Structural)]
pub enum PreviewRoute {
    /// Rasterized after the traversal, as an overlay.
    Overlay,
    /// Traced with the other non-voxel instances.
    Entities,
    /// Not drawn (entities are disabled).
    Dropped,
}

/// The held item's preview is an overlay when overlay rasterization is on, else one of
/// the traced entities unless entities are disabled.
pub fn held_preview_route(overlay_raster_enabled: bool, entities_disabled: bool) -> (r: PreviewRoute)
    ensures
        overlay_raster_enabled ==> r == PreviewRoute::Overlay,
        !overlay_raster_enabled && !entities_disabled ==> r == PreviewRoute::Entities,
        !overlay_raster_enabled && entities_disabled ==> r == PreviewRoute::Dropped,
{
    if overlay_raster_enabled {
        PreviewRoute::Overlay
    } else if !entities_disabled {
        PreviewRoute::Entities
    } else {
        PreviewRoute::Dropped
    }
}

/// The ghost of the block about to be placed is drawn with the entities when they are
/// enabled, a block is held, the preview mode is the ghost, a placement cell is found and
/// the preview is not suppressed.
pub fn ghost_preview_shown(
    entities_disabled: bool,
    holding_block: bool,
    mode: PlacementPreviewMode,
    has_place: bool,
    suppressed: bool,
) -> (r: bool)
    ensures
        r == (!entities_disabled && holding_block && mode == PlacementPreviewMode::Ghosted
            && has_place && !suppressed),
{
    !entities_disabled && holding_block && matches!(mode, PlacementPreviewMode::Ghosted) && has_place
        && !suppressed
}

} // verus!
