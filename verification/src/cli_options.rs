use vstd::prelude::*;
use crate::render::{RenderBackend, VteDisplayMode};

verus! {

/// How the block under edit is highlighted.
#[derive(Copy, Clone, Debug, PartialEq, Eq, Structural)]
pub enum EditHighlightModeArg {
    Faces,
    Edges,
    Both,
    Off,
}

/// Name of an edit highlight mode on the command line and in settings.
pub open spec fn edit_highlight_label(mode: EditHighlightModeArg) -> Seq<char> {
    match mode {
        EditHighlightModeArg::Faces => "faces"@,
        EditHighlightModeArg::Edges => "edges"@,
        EditHighlightModeArg::Both => "both"@,
        EditHighlightModeArg::Off => "off"@,
    }
}

/// Faces are highlighted in `Faces` and `Both`.
pub open spec fn highlights_faces(mode: EditHighlightModeArg) -> bool {
    mode == EditHighlightModeArg::Faces || mode == EditHighlightModeArg::Both
}

/// Edges are highlighted in `Edges` and `Both`.
pub open spec fn highlights_edges(mode: EditHighlightModeArg) -> bool {
    mode == EditHighlightModeArg::Edges || mode == EditHighlightModeArg::Both
}

impl EditHighlightModeArg {
    /// Whether faces are highlighted (see `highlights_faces`).
    pub fn uses_faces(self) -> (r: bool)
        ensures
            r == highlights_faces(self),
    {
        match self {
            EditHighlightModeArg::Faces | EditHighlightModeArg::Both => true,
            _ => false,
        }
    }

    /// Whether edges are highlighted (see `highlights_edges`).
    pub fn uses_edges(self) -> (r: bool)
        ensures
            r == highlights_edges(self),
    {
        match self {
            EditHighlightModeArg::Edges | EditHighlightModeArg::Both => true,
            _ => false,
        }
    }

    /// Name of the mode (see `edit_highlight_label`).
    pub fn label(self) -> (r: &'static str)
        ensures
            r@ == edit_highlight_label(self),
    {
        match self {
            EditHighlightModeArg::Faces => "faces",
            EditHighlightModeArg::Edges => "edges",
            EditHighlightModeArg::Both => "both",
            EditHighlightModeArg::Off => "off",
        }
    }
}

/// Each edit highlight mode is named by what it draws: faces, edges, both or nothing,
/// and no two modes share a name.
pub proof fn lemma_edit_highlight_modes(m1: EditHighlightModeArg, m2: EditHighlightModeArg)
    ensures
        (m1 == EditHighlightModeArg::Off) <==> (!highlights_faces(m1) && !highlights_edges(m1)),
        (m1 == EditHighlightModeArg::Both) <==> (highlights_faces(m1) && highlights_edges(m1)),
        edit_highlight_label(m1) == edit_highlight_label(m2) ==> m1 == m2,
{
    reveal_strlit("faces");
    reveal_strlit("edges");
    reveal_strlit("both");
    reveal_strlit("off");
    if edit_highlight_label(m1) == edit_highlight_label(m2) {
        assert(edit_highlight_label(m1)[0] == edit_highlight_label(m2)[0]);
    }
}

/// How a block about to be placed is previewed.
#[derive(Copy, Clone, Debug, PartialEq, Eq, Structural)]
pub enum PlacementPreviewMode {
    Off,
    Ghosted,
    Wireframe,
}

/// Name of a placement preview mode.
pub open spec fn placement_preview_label(mode: PlacementPreviewMode) -> Seq<char> {
    match mode {
        PlacementPreviewMode::Off => "off"@,
        PlacementPreviewMode::Ghosted => "ghost"@,
        PlacementPreviewMode::Wireframe => "wireframe"@,
    }
}

impl PlacementPreviewMode {
    /// Name of the mode (see `placement_preview_label`).
    pub fn label(self) -> (r: &'static str)
        ensures
            r@ == placement_preview_label(self),
    {
        match self {
            PlacementPreviewMode::Off => "off",
            PlacementPreviewMode::Ghosted => "ghost",
            PlacementPreviewMode::Wireframe => "wireframe",
        }
    }

    /// A preview needs placement targets unless it is off.
    pub fn needs_targets(self) -> (r: bool)
        ensures
            r == (self != PlacementPreviewMode::Off),
    {
        match self {
            PlacementPreviewMode::Off => false,
            _ => true,
        }
    }
}

/// No two placement preview modes share a name.
pub proof fn lemma_placement_preview_labels_distinct(m1: PlacementPreviewMode, m2: PlacementPreviewMode)
    ensures
        placement_preview_label(m1) == placement_preview_label(m2) ==> m1 == m2,
{
    reveal_strlit("off");
    reveal_strlit("ghost");
    reveal_strlit("wireframe");
    if placement_preview_label(m1) == placement_preview_label(m2) {
        assert(placement_preview_label(m1)[0] == placement_preview_label(m2)[0]);
    }
}

/// The world generator of a singleplayer world.
#[derive(Copy, Clone, Debug, PartialEq, Eq, Structural)]
pub enum WorldGeneratorKind {
    FlatFloor,
    MassivePlatforms,
}

/// World type chosen on the command line for singleplayer.
#[derive(Copy, Clone, Debug, PartialEq, Eq, Structural)]
pub enum SingleplayerWorldTypeArg {
    FlatFloor,
    MassivePlatforms,
}

impl SingleplayerWorldTypeArg {
    /// The generator of the chosen world type.
    pub fn to_runtime(self) -> (r: WorldGeneratorKind)
        ensures
            self == SingleplayerWorldTypeArg::FlatFloor ==> r == WorldGeneratorKind::FlatFloor,
            self == SingleplayerWorldTypeArg::MassivePlatforms ==> r
                == WorldGeneratorKind::MassivePlatforms,
    {
        match self {
            SingleplayerWorldTypeArg::FlatFloor => WorldGeneratorKind::FlatFloor,
            SingleplayerWorldTypeArg::MassivePlatforms => WorldGeneratorKind::MassivePlatforms,
        }
    }
}

/// Render backend chosen on the command line.
#[derive(Copy, Clone, Debug, PartialEq, Eq, Structural)]
pub enum BackendArg {
    Auto,
    TetraRaster,
    TetraRaytrace,
    VoxelTraversal,
}

/// The render backend a command-line choice names.
pub open spec fn backend_of_arg(arg: BackendArg) -> RenderBackend {
    match arg {
        BackendArg::Auto => RenderBackend::Auto,
        BackendArg::TetraRaster => RenderBackend::TetraRaster,
        BackendArg::TetraRaytrace => RenderBackend::TetraRaytrace,
        BackendArg::VoxelTraversal => RenderBackend::VoxelTraversal,
    }
}

impl BackendArg {
    /// The render backend of this choice (see `backend_of_arg`).
    pub fn to_render_backend(self) -> (r: RenderBackend)
        ensures
            r == backend_of_arg(self),
    {
        match self {
            BackendArg::Auto => RenderBackend::Auto,
            BackendArg::TetraRaster => RenderBackend::TetraRaster,
            BackendArg::TetraRaytrace => RenderBackend::TetraRaytrace,
            BackendArg::VoxelTraversal => RenderBackend::VoxelTraversal,
        }
    }
}

/// Every render backend can be chosen on the command line, by exactly one choice.
pub proof fn lemma_backend_args_one_to_one(a1: BackendArg, a2: BackendArg, b: RenderBackend)
    ensures
        backend_of_arg(a1) == backend_of_arg(a2) ==> a1 == a2,
        exists|a: BackendArg| backend_of_arg(a) == b,
{
    match b {
        RenderBackend::Auto => assert(backend_of_arg(BackendArg::Auto) == b),
        RenderBackend::TetraRaster => assert(backend_of_arg(BackendArg::TetraRaster) == b),
        RenderBackend::TetraRaytrace => assert(backend_of_arg(BackendArg::TetraRaytrace) == b),
        RenderBackend::VoxelTraversal => assert(backend_of_arg(BackendArg::VoxelTraversal) == b),
    }
}

/// Voxel traversal display mode chosen on the command line.
#[derive(Copy, Clone, Debug, PartialEq, Eq, Structural)]
pub enum VteDisplayModeArg {
    Integral,
    Slice,
    ThickSlice,
    DebugCompare,
    DebugIntegral,
}

/// The display mode a command-line choice names.
pub open spec fn display_mode_of_arg(arg: VteDisplayModeArg) -> VteDisplayMode {
    match arg {
        VteDisplayModeArg::Integral => VteDisplayMode::Integral,
        VteDisplayModeArg::Slice => VteDisplayMode::Slice,
        VteDisplayModeArg::ThickSlice => VteDisplayMode::ThickSlice,
        VteDisplayModeArg::DebugCompare => VteDisplayMode::DebugCompare,
        VteDisplayModeArg::DebugIntegral => VteDisplayMode::DebugIntegral,
    }
}

impl VteDisplayModeArg {
    /// The display mode of this choice (see `display_mode_of_arg`).
    pub fn to_render_mode(self) -> (r: VteDisplayMode)
        ensures
            r == display_mode_of_arg(self),
    {
        match self {
            VteDisplayModeArg::Integral => VteDisplayMode::Integral,
            VteDisplayModeArg::Slice => VteDisplayMode::Slice,
            VteDisplayModeArg::ThickSlice => VteDisplayMode::ThickSlice,
            VteDisplayModeArg::DebugCompare => VteDisplayMode::DebugCompare,
            VteDisplayModeArg::DebugIntegral => VteDisplayMode::DebugIntegral,
        }
    }
}

/// Every display mode can be chosen on the command line, by exactly one choice.
pub proof fn lemma_display_mode_args_one_to_one(
    a1: VteDisplayModeArg,
    a2: VteDisplayModeArg,
    m: VteDisplayMode,
)
    ensures
        display_mode_of_arg(a1) == display_mode_of_arg(a2) ==> a1 == a2,
        exists|a: VteDisplayModeArg| display_mode_of_arg(a) == m,
{
    match m {
        VteDisplayMode::Integral => assert(display_mode_of_arg(VteDisplayModeArg::Integral) == m),
        VteDisplayMode::Slice => assert(display_mode_of_arg(VteDisplayModeArg::Slice) == m),
        VteDisplayMode::ThickSlice => {
            assert(display_mode_of_arg(VteDisplayModeArg::ThickSlice) == m);
        },
        VteDisplayMode::DebugCompare => {
            assert(display_mode_of_arg(VteDisplayModeArg::DebugCompare) == m);
        },
        VteDisplayMode::DebugIntegral => {
            assert(display_mode_of_arg(VteDisplayModeArg::DebugIntegral) == m);
        },
    }
}

/// Which image a GPU screenshot reads back.
#[derive(Copy, Clone, Debug, PartialEq, Eq, Structural)]
pub enum GpuScreenshotSourceArg {
    RenderBuffer,
    Framebuffer,
}

/// The scene a client starts with.
#[derive(Copy, Clone, Debug, PartialEq, Eq, Structural)]
pub enum ScenePreset {
    Empty,
    Flat,
    DemoCubes,
}

/// Scene chosen on the command line.
#[derive(Copy, Clone, Debug, PartialEq, Eq, Structural)]
pub enum SceneArg {
    Flat,
    DemoCubes,
}

/// The scene preset a command-line choice names.
pub open spec fn scene_of_arg(arg: SceneArg) -> ScenePreset {
    match arg {
        SceneArg::Flat => ScenePreset::Flat,
        SceneArg::DemoCubes => ScenePreset::DemoCubes,
    }
}

impl SceneArg {
    /// The scene preset of this choice (see `scene_of_arg`).
    pub fn to_scene_preset(self) -> (r: ScenePreset)
        ensures
            r == scene_of_arg(self),
    {
        match self {
            SceneArg::Flat => ScenePreset::Flat,
            SceneArg::DemoCubes => ScenePreset::DemoCubes,
        }
    }
}

/// What the information panel shows.
#[derive(Copy, Clone, Debug, PartialEq, Eq, Structural)]
pub enum InfoPanelMode {
    Full,
    VectorTable,
    VectorTable2,
    Off,
}

/// Name of an information panel mode.
pub open spec fn info_panel_label(mode: InfoPanelMode) -> Seq<char> {
    match mode {
        InfoPanelMode::Full => "full"@,
        InfoPanelMode::VectorTable => "vectors"@,
        InfoPanelMode::VectorTable2 => "vectors2"@,
        InfoPanelMode::Off => "off"@,
    }
}

impl InfoPanelMode {
    /// Name of the mode (see `info_panel_label`).
    pub fn label(self) -> (r: &'static str)
        ensures
            r@ == info_panel_label(self),
    {
        match self {
            InfoPanelMode::Full => "full",
            InfoPanelMode::VectorTable => "vectors",
            InfoPanelMode::VectorTable2 => "vectors2",
            InfoPanelMode::Off => "off",
        }
    }
}

/// No two information panel modes share a name.
pub proof fn lemma_info_panel_labels_distinct(m1: InfoPanelMode, m2: InfoPanelMode)
    ensures
        info_panel_label(m1) == info_panel_label(m2) ==> m1 == m2,
{
    reveal_strlit("full");
    reveal_strlit("vectors");
    reveal_strlit("vectors2");
    reveal_strlit("off");
    if info_panel_label(m1) == info_panel_label(m2) {
        assert(info_panel_label(m1)[0] == info_panel_label(m2)[0]);
        assert(info_panel_label(m1).len() == info_panel_label(m2).len());
    }
}

/// A page of the settings dialog.
#[derive(Copy, Clone, Debug, PartialEq, Eq, Structural)]
pub enum SettingsPage {
    Gameplay,
    Rendering,
    Advanced,
    Debug,
}

/// Title of a settings page.
pub open spec fn settings_page_label(page: SettingsPage) -> Seq<char> {
    match page {
        SettingsPage::Gameplay => "Gameplay"@,
        SettingsPage::Rendering => "Rendering"@,
        SettingsPage::Advanced => "Advanced"@,
        SettingsPage::Debug => "Debug"@,
    }
}

/// The settings pages in the order their tabs are shown.
pub open spec fn settings_pages() -> Seq<SettingsPage> {
    seq![SettingsPage::Gameplay, SettingsPage::Rendering, SettingsPage::Advanced, SettingsPage::Debug]
}

impl SettingsPage {
    /// Title of the page (see `settings_page_label`).
    pub fn label(self) -> (r: &'static str)
        ensures
            r@ == settings_page_label(self),
    {
        match self {
            SettingsPage::Gameplay => "Gameplay",
            SettingsPage::Rendering => "Rendering",
            SettingsPage::Advanced => "Advanced",
            SettingsPage::Debug => "Debug",
        }
    }

    /// All pages, in tab order (see `settings_pages`).
    pub fn all() -> (r: [SettingsPage; 4])
        ensures
            r@ == settings_pages(),
    {
        let r = [SettingsPage::Gameplay, SettingsPage::Rendering, SettingsPage::Advanced, SettingsPage::Debug];
        assert(r@ =~= settings_pages());
        r
    }
}

/// The tab order lists every settings page exactly once.
pub proof fn lemma_settings_pages_complete(page: SettingsPage)
    ensures
        settings_pages().contains(page),
        settings_pages().no_duplicates(),
{
    match page {
        SettingsPage::Gameplay => assert(settings_pages()[0] == page),
        SettingsPage::Rendering => assert(settings_pages()[1] == page),
        SettingsPage::Advanced => assert(settings_pages()[2] == page),
        SettingsPage::Debug => assert(settings_pages()[3] == page),
    }
}

} // verus!
