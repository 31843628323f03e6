use vstd::prelude::*;

verus! {

/// Which rendering path a frame takes.
#[derive(Copy, Clone, Debug, PartialEq, Eq, Structural)]
pub enum RenderBackend {
    /// Derive the backend from the individual pass switches.
    Auto,
    /// Tetrahedron tile raster path.
    TetraRaster,
    /// Tetrahedron raytrace path.
    TetraRaytrace,
    /// Voxel traversal engine path.
    VoxelTraversal,
}

/// Stage-B display operator of the voxel traversal engine.
#[derive(Copy, Clone, Debug, PartialEq, Eq, Structural)]
pub enum VteDisplayMode {
    Integral,
    Slice,
    ThickSlice,
    DebugCompare,
    DebugIntegral,
}

/// How much detail the navigation HUD readout shows.
#[derive(Copy, Clone, Debug, PartialEq, Eq, Structural)]
pub enum HudReadoutMode {
    Full,
    CompactVectors,
}

/// The texture a painted UI mesh samples from.
#[derive(Copy, Clone, Debug, PartialEq, Eq, Structural)]
pub enum EguiTextureSlot {
    EguiAtlas,
    MaterialIcons,
}

/// A rectangle of RGBA8 pixels to write into the UI atlas.
#[derive(Clone, Debug)]
pub struct EguiTextureUpdate {
    /// Width and height of the pixel block.
    pub size: [u32; 2],
    /// Where the block goes in the atlas; `None` replaces the whole atlas.
    pub pos: Option<[u32; 2]>,
    /// Row-major RGBA8 bytes.
    pub pixels: Vec<u8>,
}

pub const OVERLAY_EDGE_TAG_MASK: u32 = 0x4000_0000;
pub const OVERLAY_EDGE_TAG_TARGET: u32 = 1;
pub const OVERLAY_EDGE_TAG_PLACE: u32 = 2;
pub const OVERLAY_EDGE_TAG_DIAG_BASE: u32 = 16;
pub const OVERLAY_EDGE_DIAG_TAG_COUNT: u32 = 8;
pub const OVERLAY_EDGE_TAG_REGION_BRANCH: u32 = 16;
pub const OVERLAY_EDGE_TAG_REGION_EMPTY: u32 = 17;
pub const OVERLAY_EDGE_TAG_REGION_UNIFORM: u32 = 18;
pub const OVERLAY_EDGE_TAG_REGION_CHUNK_ARRAY: u32 = 19;
pub const OVERLAY_EDGE_TAG_REGION_PROCEDURAL: u32 = 20;

/// The numeric code of a display mode, as the shaders read it.
pub open spec fn display_mode_code(mode: VteDisplayMode) -> u32 {
    match mode {
        VteDisplayMode::Integral => 0,
        VteDisplayMode::Slice => 1,
        VteDisplayMode::ThickSlice => 2,
        VteDisplayMode::DebugCompare => 3,
        VteDisplayMode::DebugIntegral => 4,
    }
}

impl RenderBackend {
    /// The default backend: derive the passes from the individual switches.
    pub fn default_backend() -> (r: RenderBackend)
        ensures
            r == RenderBackend::Auto,
    {
        RenderBackend::Auto
    }

    /// Lower-case identifier of the backend, as used in log lines.
    pub fn label(self) -> (r: &'static str)
        ensures
            r@ == backend_label(self),
    {
        match self {
            RenderBackend::Auto => "auto",
            RenderBackend::TetraRaster => "tetra_raster",
            RenderBackend::TetraRaytrace => "tetra_raytrace",
            RenderBackend::VoxelTraversal => "voxel_traversal",
        }
    }
}

/// The text `RenderBackend::label` gives for each backend.
pub open spec fn backend_label(b: RenderBackend) -> Seq<char> {
    match b {
        RenderBackend::Auto => "auto"@,
        RenderBackend::TetraRaster => "tetra_raster"@,
        RenderBackend::TetraRaytrace => "tetra_raytrace"@,
        RenderBackend::VoxelTraversal => "voxel_traversal"@,
    }
}

impl VteDisplayMode {
    /// The default display mode.
    pub fn default_mode() -> (r: VteDisplayMode)
        ensures
            r == VteDisplayMode::Integral,
    {
        VteDisplayMode::Integral
    }

    /// Numeric code of the mode as written into the frame metadata.
    pub fn as_u32(self) -> (r: u32)
        ensures
            r == display_mode_code(self),
    {
        match self {
            VteDisplayMode::Integral => 0,
            VteDisplayMode::Slice => 1,
            VteDisplayMode::ThickSlice => 2,
            VteDisplayMode::DebugCompare => 3,
            VteDisplayMode::DebugIntegral => 4,
        }
    }

    /// Lower-case identifier of the mode, as used in log lines.
    pub fn label(self) -> (r: &'static str)
        ensures
            r@ == display_mode_label(self),
    {
        match self {
            VteDisplayMode::Integral => "integral",
            VteDisplayMode::Slice => "slice",
            VteDisplayMode::ThickSlice => "thick_slice",
            VteDisplayMode::DebugCompare => "debug_compare",
            VteDisplayMode::DebugIntegral => "debug_integral",
        }
    }
}

/// The text `VteDisplayMode::label` gives for each mode.
pub open spec fn display_mode_label(m: VteDisplayMode) -> Seq<char> {
    match m {
        VteDisplayMode::Integral => "integral"@,
        VteDisplayMode::Slice => "slice"@,
        VteDisplayMode::ThickSlice => "thick_slice"@,
        VteDisplayMode::DebugCompare => "debug_compare"@,
        VteDisplayMode::DebugIntegral => "debug_integral"@,
    }
}

/// Distinct display modes have distinct numeric codes, and every code is below five.
pub proof fn lemma_display_mode_code_injective(a: VteDisplayMode, b: VteDisplayMode)
    ensures
        display_mode_code(a) == display_mode_code(b) <==> a == b,
        display_mode_code(a) < 5,
{
}

/// The kind of a BVH node that the sample ray of the debug HUD passes through.
#[derive(Copy, Clone, Debug, PartialEq, Eq, Structural)]
pub enum SampleRayNodeKind {
    /// An internal node.
    Internal,
    /// A leaf of one uniform block.
    LeafUniform,
    /// A leaf holding an array of voxel chunks.
    LeafChunkArray,
}

/// The overlay edge tag that outlines a sample-ray node of each kind.
pub open spec fn sample_ray_edge_tag(kind: SampleRayNodeKind) -> u32 {
    match kind {
        SampleRayNodeKind::Internal => OVERLAY_EDGE_TAG_REGION_BRANCH,
        SampleRayNodeKind::LeafUniform => OVERLAY_EDGE_TAG_REGION_UNIFORM,
        SampleRayNodeKind::LeafChunkArray => OVERLAY_EDGE_TAG_REGION_CHUNK_ARRAY,
    }
}

/// Overlay edge tag of a sample-ray node (see `sample_ray_edge_tag`).
pub fn overlay_edge_tag_for_sample_ray_hit(kind: SampleRayNodeKind) -> (r: u32)
    ensures
        r == sample_ray_edge_tag(kind),
        OVERLAY_EDGE_TAG_DIAG_BASE <= r < OVERLAY_EDGE_TAG_DIAG_BASE + OVERLAY_EDGE_DIAG_TAG_COUNT,
{
    match kind {
        SampleRayNodeKind::Internal => OVERLAY_EDGE_TAG_REGION_BRANCH,
        SampleRayNodeKind::LeafUniform => OVERLAY_EDGE_TAG_REGION_UNIFORM,
        SampleRayNodeKind::LeafChunkArray => OVERLAY_EDGE_TAG_REGION_CHUNK_ARRAY,
    }
}

/// A node kind that holds solid content: either kind of leaf.
pub open spec fn is_solid_leaf(kind: SampleRayNodeKind) -> bool {
    kind != SampleRayNodeKind::Internal
}

/// Index of the last solid leaf among the nodes a sample ray passed through, as the HUD
/// reports it.
pub fn last_solid_leaf_index(kinds: &Vec<SampleRayNodeKind>) -> (r: Option<usize>)
    ensures
        match r {
            Some(i) => i < kinds.len() && is_solid_leaf(kinds@[i as int]) && forall|j: int|
                i < j < kinds.len() ==> !is_solid_leaf(#[trigger] kinds@[j]),
            None => forall|j: int| 0 <= j < kinds.len() ==> !is_solid_leaf(#[trigger] kinds@[j]),
        },
{
    let mut i: usize = kinds.len();
    while i > 0
        invariant
            i <= kinds.len(),
            forall|j: int| i <= j < kinds.len() ==> !is_solid_leaf(#[trigger] kinds@[j]),
        decreases i,
    {
        if !matches!(kinds[i - 1], SampleRayNodeKind::Internal) {
            return Some(i - 1);
        }
        i = i - 1;
    }
    None
}

/// `a + b`, or `usize::MAX` where that does not fit.
pub open spec fn sat_add_usize(a: int, b: int) -> int {
    if a + b > usize::MAX {
        usize::MAX as int
    } else {
        a + b
    }
}

/// `a * b`, or `usize::MAX` where that does not fit.
pub open spec fn sat_mul_usize_of(a: int, b: int) -> int {
    if a * b > usize::MAX {
        usize::MAX as int
    } else {
        a * b
    }
}

fn sat_add(a: usize, b: usize) -> (r: usize)
    ensures
        r == sat_add_usize(a as int, b as int),
{
    match a.checked_add(b) {
        Some(v) => v,
        None => usize::MAX,
    }
}

/// Room reserved for overlay outline edges: the target and placement outlines, plus
/// the stream-tree node outlines (at least one when enabled), the sample-ray node outlines
/// (at least one when enabled) and two per compared chunk, all added with saturation.
/// Each `Option` is `Some(limit)` when that diagnostic is enabled.
pub open spec fn overlay_edge_capacity_spec(tree_nodes: Option<usize>, ray_nodes: Option<usize>, compare_chunks: Option<usize>) -> int {
    let tree = match tree_nodes {
        Some(n) => if n >= 1 { n as int } else { 1 },
        None => 0,
    };
    let ray = match ray_nodes {
        Some(n) => if n >= 1 { n as int } else { 1 },
        None => 0,
    };
    let compared = match compare_chunks {
        Some(n) => sat_mul_usize_of(n as int, 2),
        None => 0,
    };
    sat_add_usize(sat_add_usize(sat_add_usize(2, tree), ray), compared)
}

/// Room reserved for overlay outline edges (see `overlay_edge_capacity_spec`).
pub fn overlay_edge_capacity(tree_nodes: Option<usize>, ray_nodes: Option<usize>, compare_chunks: Option<usize>) -> (r: usize)
    ensures
        r == overlay_edge_capacity_spec(tree_nodes, ray_nodes, compare_chunks),
{
    let tree: usize = match tree_nodes {
        Some(n) => if n >= 1 { n } else { 1 },
        None => 0,
    };
    let ray: usize = match ray_nodes {
        Some(n) => if n >= 1 { n } else { 1 },
        None => 0,
    };
    let compared: usize = match compare_chunks {
        Some(n) => match n.checked_mul(2) {
            Some(v) => v,
            None => usize::MAX,
        },
        None => 0,
    };
    sat_add(sat_add(sat_add(2, tree), ray), compared)
}

/// What the block edit targets offer the overlay this frame.
#[derive(Copy, Clone, Debug, PartialEq, Eq, Structural)]
pub struct OutlineInputs {
    /// The edit highlight draws edges.
    pub highlight_edges: bool,
    /// A block is hit.
    pub has_hit: bool,
    /// A placement cell is found.
    pub has_place: bool,
    /// The placement preview is a wireframe.
    pub wireframe_preview: bool,
    /// The selected hotbar slot holds a block.
    pub holding_block: bool,
    /// The placement preview is suppressed this frame.
    pub preview_suppressed: bool,
}

/// The tags of the target outlines drawn, in drawing order: the hit block and the
/// placement cell when the highlight draws edges, then the placement cell again for a
/// wireframe preview of a held block that is not suppressed.
pub open spec fn outline_tags_spec(i: OutlineInputs) -> Seq<u32> {
    let a = if i.highlight_edges && i.has_hit { seq![OVERLAY_EDGE_TAG_TARGET] } else { Seq::empty() };
    let b = if i.highlight_edges && i.has_place { seq![OVERLAY_EDGE_TAG_PLACE] } else { Seq::empty() };
    let c = if i.wireframe_preview && i.holding_block && i.has_place && !i.preview_suppressed {
        seq![OVERLAY_EDGE_TAG_PLACE]
    } else {
        Seq::empty()
    };
    a + b + c
}

/// The tags of the target outlines to draw (see `outline_tags_spec`).
pub fn target_outline_tags(i: OutlineInputs) -> (r: Vec<u32>)
    ensures
        r@ == outline_tags_spec(i),
{
    let mut out: Vec<u32> = Vec::new();
    if i.highlight_edges {
        if i.has_hit {
            out.push(OVERLAY_EDGE_TAG_TARGET);
        }
        if i.has_place {
            out.push(OVERLAY_EDGE_TAG_PLACE);
        }
    }
    if i.wireframe_preview && i.holding_block && i.has_place && !i.preview_suppressed {
        out.push(OVERLAY_EDGE_TAG_PLACE);
    }
    assert(out@ =~= outline_tags_spec(i));
    out
}

} // verus!
