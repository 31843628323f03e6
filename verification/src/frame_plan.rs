use crate::render::{display_mode_code, RenderBackend, VteDisplayMode};
use vstd::prelude::*;

verus! {

/// The smaller of two integers.
pub open spec fn min_of(a: int, b: int) -> int {
    if a <= b {
        a
    } else {
        b
    }
}

/// `a - b`, or zero when `b` is larger.
pub open spec fn sat_sub(a: int, b: int) -> int {
    if a >= b {
        a - b
    } else {
        0
    }
}

// ---------------------------------------------------------------------------
// Model-instance and tetrahedron budget
// ---------------------------------------------------------------------------

/// How the model-instance buffer and the tetrahedron budget are shared in one frame.
#[derive(Copy, Clone, Debug, PartialEq, Eq, Structural)]
pub struct InstanceBudget {
    /// Non-voxel model instances written first.
    pub non_voxel_used: usize,
    /// Raster-overlay instances written after them (voxel frames only).
    pub overlay_used: usize,
    /// `non_voxel_used + overlay_used`.
    pub used: usize,
    /// First slot of the custom edge-overlay instances.
    pub custom_edge_base: usize,
    /// Custom edge-overlay instances written.
    pub custom_edge_used: usize,
    /// Tetrahedra the non-voxel instances ask for.
    pub requested_tetrahedrons: usize,
    /// Those tetrahedra, cut to the tetrahedron buffer.
    pub total_tetrahedrons: usize,
    /// Tetrahedra the overlay instances ask for.
    pub requested_overlay_tetrahedrons: usize,
    /// Those tetrahedra, cut to the tetrahedron buffer.
    pub overlay_tetrahedrons: usize,
    /// First instance the raster pass reads.
    pub raster_instance_base: usize,
    /// Tetrahedra the raster pass processes.
    pub raster_tetrahedrons: usize,
    /// Leaves of the non-voxel BVH.
    pub non_voxel_bvh_leaves: usize,
}

/// The budget of `plan_instance_budget`.
pub open spec fn instance_budget(
    model_count: usize,
    overlay_count: usize,
    custom_edge_count: usize,
    capacity: usize,
    split_voxel_instances: bool,
    tetrahedrons_per_instance: usize,
    max_tetrahedrons: usize,
) -> InstanceBudget {
    let non_voxel_used = min_of(model_count as int, capacity as int);
    let overlay_capacity = sat_sub(capacity as int, non_voxel_used);
    let overlay_used = if split_voxel_instances {
        min_of(overlay_count as int, overlay_capacity)
    } else {
        0
    };
    let used = non_voxel_used + overlay_used;
    let custom_capacity = sat_sub(capacity as int, used);
    let custom_used = min_of(custom_edge_count as int, custom_capacity);
    let requested = tetrahedrons_per_instance * non_voxel_used;
    let total = min_of(requested, max_tetrahedrons as int);
    let requested_overlay = tetrahedrons_per_instance * overlay_used;
    let overlay = min_of(requested_overlay, max_tetrahedrons as int);
    InstanceBudget {
        non_voxel_used: non_voxel_used as usize,
        overlay_used: overlay_used as usize,
        used: used as usize,
        custom_edge_base: used as usize,
        custom_edge_used: custom_used as usize,
        requested_tetrahedrons: requested as usize,
        total_tetrahedrons: total as usize,
        requested_overlay_tetrahedrons: requested_overlay as usize,
        overlay_tetrahedrons: overlay as usize,
        raster_instance_base: if split_voxel_instances {
            non_voxel_used as usize
        } else {
            0
        },
        raster_tetrahedrons: if split_voxel_instances {
            overlay as usize
        } else {
            total as usize
        },
        non_voxel_bvh_leaves: if split_voxel_instances {
            non_voxel_used as usize
        } else {
            total as usize
        },
    }
}

/// Share the model-instance buffer of `capacity` slots between the non-voxel instances,
/// the raster-overlay instances (voxel frames only) and the custom edge-overlay
/// instances, in that order, and cut the tetrahedron counts to the tetrahedron buffer.
pub fn plan_instance_budget(
    model_count: usize,
    overlay_count: usize,
    custom_edge_count: usize,
    capacity: usize,
    split_voxel_instances: bool,
    tetrahedrons_per_instance: usize,
    max_tetrahedrons: usize,
) -> (r: InstanceBudget)
    requires
        tetrahedrons_per_instance * min_of(model_count as int, capacity as int) <= usize::MAX,
        split_voxel_instances ==> tetrahedrons_per_instance * min_of(
            overlay_count as int,
            sat_sub(capacity as int, min_of(model_count as int, capacity as int)),
        ) <= usize::MAX,
    ensures
        r == instance_budget(
            model_count,
            overlay_count,
            custom_edge_count,
            capacity,
            split_voxel_instances,
            tetrahedrons_per_instance,
            max_tetrahedrons,
        ),
{
    let non_voxel_used = if model_count < capacity {
        model_count
    } else {
        capacity
    };
    let overlay_capacity = capacity - non_voxel_used;
    let overlay_used = if split_voxel_instances {
        if overlay_count < overlay_capacity {
            overlay_count
        } else {
            overlay_capacity
        }
    } else {
        0
    };
    let used = non_voxel_used + overlay_used;
    let custom_capacity = capacity - used;
    let custom_used = if custom_edge_count < custom_capacity {
        custom_edge_count
    } else {
        custom_capacity
    };
    let requested = tetrahedrons_per_instance * non_voxel_used;
    let total = if requested < max_tetrahedrons {
        requested
    } else {
        max_tetrahedrons
    };
    let requested_overlay = tetrahedrons_per_instance * overlay_used;
    let overlay = if requested_overlay < max_tetrahedrons {
        requested_overlay
    } else {
        max_tetrahedrons
    };
    InstanceBudget {
        non_voxel_used,
        overlay_used,
        used,
        custom_edge_base: used,
        custom_edge_used: custom_used,
        requested_tetrahedrons: requested,
        total_tetrahedrons: total,
        requested_overlay_tetrahedrons: requested_overlay,
        overlay_tetrahedrons: overlay,
        raster_instance_base: if split_voxel_instances {
            non_voxel_used
        } else {
            0
        },
        raster_tetrahedrons: if split_voxel_instances {
            overlay
        } else {
            total
        },
        non_voxel_bvh_leaves: if split_voxel_instances {
            non_voxel_used
        } else {
            total
        },
    }
}

/// The three instance ranges are disjoint, consecutive and inside the buffer, and no
/// tetrahedron count exceeds the tetrahedron buffer.
pub proof fn lemma_instance_budget_fits(
    model_count: usize,
    overlay_count: usize,
    custom_edge_count: usize,
    capacity: usize,
    split_voxel_instances: bool,
    tetrahedrons_per_instance: usize,
    max_tetrahedrons: usize,
)
    ensures
        ({
            let b = instance_budget(
                model_count,
                overlay_count,
                custom_edge_count,
                capacity,
                split_voxel_instances,
                tetrahedrons_per_instance,
                max_tetrahedrons,
            );
            &&& b.non_voxel_used + b.overlay_used == b.used
            &&& b.custom_edge_base == b.used
            &&& b.used + b.custom_edge_used <= capacity
            &&& b.non_voxel_used <= model_count
            &&& b.overlay_used <= overlay_count
            &&& b.custom_edge_used <= custom_edge_count
            &&& b.total_tetrahedrons <= max_tetrahedrons
            &&& b.overlay_tetrahedrons <= max_tetrahedrons
            &&& b.raster_tetrahedrons <= max_tetrahedrons
        }),
{
}

/// How the budget shares the buffers: the non-voxel instances take what they ask for up
/// to the capacity; on a voxel frame (split instances) the raster-overlay instances take
/// what is left and the raster pass reads only them, while the non-voxel BVH has one leaf
/// per used non-voxel instance; on any other frame there are no overlay instances, the
/// raster pass reads the non-voxel tetrahedra from the start of the buffer and the BVH
/// has one leaf per tetrahedron; the custom edge instances take what the other two left;
/// each tetrahedron count is the instance count times the tetrahedra per instance, cut to
/// the tetrahedron buffer.
pub proof fn lemma_instance_budget_shares(
    model_count: usize,
    overlay_count: usize,
    custom_edge_count: usize,
    capacity: usize,
    split_voxel_instances: bool,
    tetrahedrons_per_instance: usize,
    max_tetrahedrons: usize,
)
    requires
        tetrahedrons_per_instance * min_of(model_count as int, capacity as int) <= usize::MAX,
        split_voxel_instances ==> tetrahedrons_per_instance * min_of(
            overlay_count as int,
            sat_sub(capacity as int, min_of(model_count as int, capacity as int)),
        ) <= usize::MAX,
    ensures
        ({
            let b = instance_budget(
                model_count,
                overlay_count,
                custom_edge_count,
                capacity,
                split_voxel_instances,
                tetrahedrons_per_instance,
                max_tetrahedrons,
            );
            &&& b.non_voxel_used == (if model_count <= capacity { model_count } else { capacity })
            &&& split_voxel_instances ==> {
                &&& b.overlay_used == (if overlay_count <= capacity - b.non_voxel_used {
                    overlay_count as int
                } else {
                    capacity - b.non_voxel_used
                })
                &&& b.raster_instance_base == b.non_voxel_used
                &&& b.raster_tetrahedrons == b.overlay_tetrahedrons
                &&& b.non_voxel_bvh_leaves == b.non_voxel_used
            }
            &&& !split_voxel_instances ==> {
                &&& b.overlay_used == 0
                &&& b.raster_instance_base == 0
                &&& b.raster_tetrahedrons == b.total_tetrahedrons
                &&& b.non_voxel_bvh_leaves == b.total_tetrahedrons
            }
            &&& b.used == b.non_voxel_used + b.overlay_used
            &&& b.custom_edge_base == b.used
            &&& b.custom_edge_used == (if custom_edge_count <= capacity - b.used {
                custom_edge_count as int
            } else {
                capacity - b.used
            })
            &&& b.requested_tetrahedrons == tetrahedrons_per_instance * b.non_voxel_used
            &&& b.total_tetrahedrons == (if b.requested_tetrahedrons <= max_tetrahedrons {
                b.requested_tetrahedrons
            } else {
                max_tetrahedrons
            })
            &&& b.requested_overlay_tetrahedrons == tetrahedrons_per_instance * b.overlay_used
            &&& b.overlay_tetrahedrons == (if b.requested_overlay_tetrahedrons <= max_tetrahedrons {
                b.requested_overlay_tetrahedrons
            } else {
                max_tetrahedrons
            })
        }),
{
}

// ---------------------------------------------------------------------------
// Backend pass selection
// ---------------------------------------------------------------------------

/// The passes a frame runs.
#[derive(Copy, Clone, Debug, PartialEq, Eq, Structural)]
pub struct PassSelection {
    pub do_raster: bool,
    pub do_raytrace: bool,
    pub do_edges: bool,
    pub do_tetrahedron_edges: bool,
    pub do_voxel_vte: bool,
}

/// The passes `resolve_backend_passes` selects.
pub open spec fn backend_passes(
    backend: RenderBackend,
    requested: PassSelection,
    raster_tetrahedrons: usize,
) -> PassSelection {
    match backend {
        RenderBackend::Auto => PassSelection { do_voxel_vte: false, ..requested },
        RenderBackend::TetraRaster => PassSelection {
            do_raster: true,
            do_raytrace: false,
            do_voxel_vte: false,
            ..requested
        },
        RenderBackend::TetraRaytrace => PassSelection {
            do_raster: false,
            do_raytrace: true,
            do_voxel_vte: false,
            ..requested
        },
        RenderBackend::VoxelTraversal => PassSelection {
            do_raster: raster_tetrahedrons > 0,
            do_raytrace: false,
            do_edges: false,
            do_tetrahedron_edges: false,
            do_voxel_vte: true,
        },
    }
}

/// Apply the backend choice to the requested passes: the tetrahedron backends force
/// raster or raytrace; the voxel traversal engine replaces both (keeping raster only for
/// overlay tetrahedra) and drops the edge passes.  The requested `do_voxel_vte` is ignored.
pub fn resolve_backend_passes(
    backend: RenderBackend,
    requested: PassSelection,
    raster_tetrahedrons: usize,
) -> (r: PassSelection)
    ensures
        r == backend_passes(backend, requested, raster_tetrahedrons),
{
    let mut do_raster = requested.do_raster;
    let mut do_raytrace = requested.do_raytrace;
    let mut do_edges = requested.do_edges;
    let mut do_tetrahedron_edges = requested.do_tetrahedron_edges;
    let mut do_voxel_vte = false;
    match backend {
        RenderBackend::Auto => {},
        RenderBackend::TetraRaster => {
            do_raster = true;
            do_raytrace = false;
        },
        RenderBackend::TetraRaytrace => {
            do_raster = false;
            do_raytrace = true;
        },
        RenderBackend::VoxelTraversal => {
            do_raster = raster_tetrahedrons > 0;
            do_raytrace = false;
            do_edges = false;
            do_tetrahedron_edges = false;
            do_voxel_vte = true;
        },
    }
    PassSelection { do_raster, do_raytrace, do_edges, do_tetrahedron_edges, do_voxel_vte }
}

/// The backend a set of passes amounts to.
pub open spec fn effective_backend_of(p: PassSelection) -> RenderBackend {
    if p.do_voxel_vte {
        RenderBackend::VoxelTraversal
    } else if p.do_raytrace {
        RenderBackend::TetraRaytrace
    } else if p.do_raster || p.do_tetrahedron_edges || p.do_edges {
        RenderBackend::TetraRaster
    } else {
        RenderBackend::Auto
    }
}

/// The backend a set of passes amounts to (recorded as the frame's backend).
pub fn effective_backend(p: PassSelection) -> (r: RenderBackend)
    ensures
        r == effective_backend_of(p),
{
    if p.do_voxel_vte {
        RenderBackend::VoxelTraversal
    } else if p.do_raytrace {
        RenderBackend::TetraRaytrace
    } else if p.do_raster || p.do_tetrahedron_edges || p.do_edges {
        RenderBackend::TetraRaster
    } else {
        RenderBackend::Auto
    }
}

/// Choosing an explicit backend makes the frame run as that backend.
pub proof fn lemma_explicit_backend_is_recorded(
    backend: RenderBackend,
    requested: PassSelection,
    raster_tetrahedrons: usize,
)
    requires
        backend != RenderBackend::Auto,
    ensures
        effective_backend_of(backend_passes(backend, requested, raster_tetrahedrons)) == backend,
{
}

/// Rendering with fewer stored pixel layers than logical layers is only supported by the
/// voxel traversal engine's integral display mode.
pub open spec fn storage_layers_supported_spec(
    storage_layers: u32,
    logical_layers: u32,
    do_voxel_vte: bool,
    mode: VteDisplayMode,
) -> bool {
    storage_layers >= logical_layers || (do_voxel_vte && mode == VteDisplayMode::Integral)
}

/// Whether the pixel-storage configuration can render this frame (see
/// `storage_layers_supported_spec`).
pub fn storage_layers_supported(
    storage_layers: u32,
    logical_layers: u32,
    do_voxel_vte: bool,
    mode: VteDisplayMode,
) -> (r: bool)
    ensures
        r == storage_layers_supported_spec(storage_layers, logical_layers, do_voxel_vte, mode),
{
    let reduced_storage_supported = do_voxel_vte && mode == VteDisplayMode::Integral;
    !(storage_layers < logical_layers && !reduced_storage_supported)
}

/// The slice layer stage B displays: the requested one (default: the middle layer),
/// cut to the last layer.
pub open spec fn slice_layer_spec(render_layers: u32, requested: Option<u32>) -> int {
    let layer_count: int = if render_layers < 1 {
        1
    } else {
        render_layers as int
    };
    let wanted = match requested {
        Some(l) => l as int,
        None => (layer_count - 1) / 2,
    };
    min_of(wanted, layer_count - 1)
}

/// The slice layer stage B displays (see `slice_layer_spec`).
pub fn stage_b_slice_layer(render_layers: u32, requested: Option<u32>) -> (r: u32)
    ensures
        r == slice_layer_spec(render_layers, requested),
        r < (if render_layers < 1 {
            1
        } else {
            render_layers
        }),
{
    let layer_count = if render_layers < 1 {
        1
    } else {
        render_layers
    };
    let default_slice_layer = (layer_count - 1) / 2;
    let wanted = match requested {
        Some(l) => l,
        None => default_slice_layer,
    };
    if wanted < layer_count - 1 {
        wanted
    } else {
        layer_count - 1
    }
}

// ---------------------------------------------------------------------------
// Non-voxel BVH maintenance
// ---------------------------------------------------------------------------

/// Frames of refit-only updates after which the non-voxel BVH is rebuilt anyway.
pub const VTE_ENTITY_BVH_REFIT_REBUILD_INTERVAL: usize = 120;

/// What the non-voxel BVH maintenance remembers between frames.
#[derive(Copy, Clone, Debug, PartialEq, Eq, Structural)]
pub struct NonVoxelBvhState {
    /// Hash of the non-voxel instances the buffers were last built from.
    pub scene_hash: u64,
    /// Leaf count of the last full BVH build (0 when the tree is not kept).
    pub topology_tet_count: usize,
    /// Refit-only updates since the last full build.
    pub refit_frames: usize,
}

/// How the non-voxel BVH is brought up to date this frame.
#[derive(Copy, Clone, Debug, PartialEq, Eq, Structural)]
pub enum BvhUpdateMode {
    /// The voxel traversal engine is not active.
    NonVte,
    /// There are no non-voxel leaves.
    Empty,
    /// Nothing changed; the buffers are reused.
    Reuse,
    /// Few enough leaves to be traced linearly, without a tree.
    Linear,
    /// Same topology: only the bounds are refitted.
    Refit,
    /// A full build (first build or changed leaf count).
    Rebuild,
    /// A full build forced by the refit interval.
    RebuildInterval,
}

/// Why the non-voxel buffers are (or are not) reprovisioned.
#[derive(Copy, Clone, Debug, PartialEq, Eq, Structural)]
pub enum RebuildReason {
    NonVte,
    Empty,
    OverlayRasterAndSceneHash,
    OverlayRaster,
    SceneHash,
    Unchanged,
}

/// The decision of one frame of non-voxel BVH maintenance.
#[derive(Copy, Clone, Debug, PartialEq, Eq, Structural)]
pub struct BvhUpdatePlan {
    /// The non-voxel instances are preprocessed this frame.
    pub rebuild_needed: bool,
    pub reason: RebuildReason,
    pub mode: BvhUpdateMode,
}

/// The initial maintenance state.
pub open spec fn initial_bvh_state() -> NonVoxelBvhState {
    NonVoxelBvhState { scene_hash: 0, topology_tet_count: 0, refit_frames: 0 }
}

/// One frame of non-voxel BVH maintenance: the plan and the next state.
pub open spec fn bvh_update_step(
    state: NonVoxelBvhState,
    do_voxel_vte: bool,
    leaf_count: usize,
    do_raster: bool,
    scene_hash: u64,
    linear_threshold: usize,
) -> (BvhUpdatePlan, NonVoxelBvhState) {
    if !do_voxel_vte {
        (
            BvhUpdatePlan {
                rebuild_needed: false,
                reason: RebuildReason::NonVte,
                mode: BvhUpdateMode::NonVte,
            },
            initial_bvh_state(),
        )
    } else if leaf_count == 0 {
        (
            BvhUpdatePlan {
                rebuild_needed: false,
                reason: RebuildReason::Empty,
                mode: BvhUpdateMode::Empty,
            },
            initial_bvh_state(),
        )
    } else {
        let changed = scene_hash != state.scene_hash;
        let reason = if do_raster && changed {
            RebuildReason::OverlayRasterAndSceneHash
        } else if do_raster {
            RebuildReason::OverlayRaster
        } else if changed {
            RebuildReason::SceneHash
        } else {
            RebuildReason::Unchanged
        };
        if !(do_raster || changed) {
            (BvhUpdatePlan { rebuild_needed: false, reason, mode: BvhUpdateMode::Reuse }, state)
        } else if leaf_count > linear_threshold {
            let topology_matches = state.topology_tet_count == leaf_count;
            let periodic_due = state.refit_frames >= VTE_ENTITY_BVH_REFIT_REBUILD_INTERVAL;
            if topology_matches && !periodic_due {
                (
                    BvhUpdatePlan { rebuild_needed: true, reason, mode: BvhUpdateMode::Refit },
                    NonVoxelBvhState {
                        scene_hash,
                        topology_tet_count: state.topology_tet_count,
                        refit_frames: (state.refit_frames + 1) as usize,
                    },
                )
            } else {
                (
                    BvhUpdatePlan {
                        rebuild_needed: true,
                        reason,
                        mode: if periodic_due && topology_matches {
                            BvhUpdateMode::RebuildInterval
                        } else {
                            BvhUpdateMode::Rebuild
                        },
                    },
                    NonVoxelBvhState { scene_hash, topology_tet_count: leaf_count, refit_frames: 0 },
                )
            }
        } else {
            (
                BvhUpdatePlan { rebuild_needed: true, reason, mode: BvhUpdateMode::Linear },
                NonVoxelBvhState { scene_hash, topology_tet_count: 0, refit_frames: 0 },
            )
        }
    }
}

impl NonVoxelBvhState {
    /// The state before the first frame.
    pub fn new() -> (r: NonVoxelBvhState)
        ensures
            r == initial_bvh_state(),
    {
        NonVoxelBvhState { scene_hash: 0, topology_tet_count: 0, refit_frames: 0 }
    }

    /// Decide this frame's non-voxel BVH update and advance the state (see
    /// `bvh_update_step`).
    pub fn step(
        &mut self,
        do_voxel_vte: bool,
        leaf_count: usize,
        do_raster: bool,
        scene_hash: u64,
        linear_threshold: usize,
    ) -> (r: BvhUpdatePlan)
        requires
            old(self).refit_frames <= VTE_ENTITY_BVH_REFIT_REBUILD_INTERVAL,
        ensures
            (r, *final(self)) == bvh_update_step(
                *old(self),
                do_voxel_vte,
                leaf_count,
                do_raster,
                scene_hash,
                linear_threshold,
            ),
    {
        if !do_voxel_vte {
            *self = NonVoxelBvhState::new();
            return BvhUpdatePlan {
                rebuild_needed: false,
                reason: RebuildReason::NonVte,
                mode: BvhUpdateMode::NonVte,
            };
        }
        if leaf_count == 0 {
            *self = NonVoxelBvhState::new();
            return BvhUpdatePlan {
                rebuild_needed: false,
                reason: RebuildReason::Empty,
                mode: BvhUpdateMode::Empty,
            };
        }
        let changed = scene_hash != self.scene_hash;
        let reason = if do_raster && changed {
            RebuildReason::OverlayRasterAndSceneHash
        } else if do_raster {
            RebuildReason::OverlayRaster
        } else if changed {
            RebuildReason::SceneHash
        } else {
            RebuildReason::Unchanged
        };
        if !(do_raster || changed) {
            return BvhUpdatePlan { rebuild_needed: false, reason, mode: BvhUpdateMode::Reuse };
        }
        let mode;
        if leaf_count > linear_threshold {
            let topology_matches = self.topology_tet_count == leaf_count;
            let periodic_due = self.refit_frames >= VTE_ENTITY_BVH_REFIT_REBUILD_INTERVAL;
            if topology_matches && !periodic_due {
                self.refit_frames = self.refit_frames + 1;
                mode = BvhUpdateMode::Refit;
            } else {
                self.topology_tet_count = leaf_count;
                self.refit_frames = 0;
                mode = if periodic_due && topology_matches {
                    BvhUpdateMode::RebuildInterval
                } else {
                    BvhUpdateMode::Rebuild
                };
            }
        } else {
            self.topology_tet_count = 0;
            self.refit_frames = 0;
            mode = BvhUpdateMode::Linear;
        }
        self.scene_hash = scene_hash;
        BvhUpdatePlan { rebuild_needed: true, reason, mode }
    }
}

/// Laws of the maintenance state machine: the refit counter never passes the rebuild
/// interval; a frame that changes nothing reuses the buffers; after any frame that
/// preprocessed the instances, the same input again (without overlay raster) is reused.
pub proof fn lemma_bvh_update_laws(
    state: NonVoxelBvhState,
    do_voxel_vte: bool,
    leaf_count: usize,
    do_raster: bool,
    scene_hash: u64,
    linear_threshold: usize,
)
    requires
        state.refit_frames <= VTE_ENTITY_BVH_REFIT_REBUILD_INTERVAL,
    ensures
        ({
            let (plan, next) = bvh_update_step(
                state,
                do_voxel_vte,
                leaf_count,
                do_raster,
                scene_hash,
                linear_threshold,
            );
            &&& next.refit_frames <= VTE_ENTITY_BVH_REFIT_REBUILD_INTERVAL
            &&& (do_voxel_vte && leaf_count > 0 && !do_raster && scene_hash == state.scene_hash)
                ==> plan.mode == BvhUpdateMode::Reuse && next == state
            &&& plan.rebuild_needed ==> bvh_update_step(
                next,
                true,
                leaf_count,
                false,
                scene_hash,
                linear_threshold,
            ).0.mode == BvhUpdateMode::Reuse
            &&& plan.mode == BvhUpdateMode::Refit ==> next.refit_frames == state.refit_frames + 1
                && next.topology_tet_count == leaf_count
        }),
{
}

// ---------------------------------------------------------------------------
// Bitonic sort dispatch schedule
// ---------------------------------------------------------------------------

/// `2^k`.
pub open spec fn pow2_of(k: nat) -> nat
    decreases k,
{
    if k == 0 {
        1
    } else {
        2 * pow2_of((k - 1) as nat)
    }
}

/// One dispatch of the global bitonic sort.
#[derive(Copy, Clone, Debug, PartialEq, Eq, Structural)]
pub enum BitonicPass {
    /// A global compare-exchange step with the given stage and step.
    Global { stage: u32, step: u32 },
    /// The in-workgroup merge that finishes a stage.
    LocalMerge { stage: u32 },
}

/// The dispatches of the global part of a bitonic sort over `pow2_of(stages)` keys.
#[derive(Clone, Debug)]
pub struct BitonicSortPlan {
    /// Number of keys sorted: `n` rounded up to a power of two.
    pub padded_count: u32,
    /// `log2(padded_count)`.
    pub num_stages: u32,
    /// Stages handled by the in-workgroup sort of 64 keys.
    pub local_stages: u32,
    /// Workgroups of 64 threads per dispatch.
    pub workgroups: u32,
    /// The global dispatches in order.
    pub passes: Vec<BitonicPass>,
}

/// Dispatches of one global stage: steps `stage` down to `local`, then the local merge.
pub open spec fn stage_passes(stage: u32, local: u32) -> Seq<BitonicPass> {
    Seq::new((stage - local + 1) as nat, |i: int| BitonicPass::Global { stage, step: (stage - i) as u32 }).push(
        BitonicPass::LocalMerge { stage },
    )
}

/// Dispatches of the global stages `local..upto`.
pub open spec fn bitonic_passes(local: u32, upto: int) -> Seq<BitonicPass>
    decreases upto - local,
{
    if upto <= local {
        Seq::empty()
    } else {
        bitonic_passes(local, upto - 1) + stage_passes((upto - 1) as u32, local)
    }
}

/// Plan the bitonic sort of `n` keys: pad to the next power of two, sort blocks of 64
/// keys in one local dispatch (up to six stages), then run every further stage as global
/// steps down to the local stages followed by one local merge.
pub fn plan_bitonic_sort(n: u32) -> (r: BitonicSortPlan)
    requires
        1 <= n <= 0x8000_0000,
    ensures
        r.padded_count == pow2_of(r.num_stages as nat),
        n <= r.padded_count,
        r.num_stages > 0 ==> pow2_of((r.num_stages - 1) as nat) < n,
        r.local_stages == min_of(6, r.num_stages as int),
        r.workgroups == (r.padded_count + 63) / 64,
        r.passes@ == bitonic_passes(r.local_stages, r.num_stages as int),
{
    let mut padded: u32 = 1;
    let mut stages: u32 = 0;
    while padded < n
        invariant
            1 <= n <= 0x8000_0000,
            padded == pow2_of(stages as nat),
            stages < padded,
            stages > 0 ==> pow2_of((stages - 1) as nat) < n,
            padded < 2 * n,
        decreases (if n > padded {
            n - padded
        } else {
            0
        }),
    {
        padded = padded * 2;
        stages = stages + 1;
    }
    let local_stages = if stages < 6 {
        stages
    } else {
        6
    };
    let workgroups = (padded - 1) / 64 + 1;
    let mut passes: Vec<BitonicPass> = Vec::new();
    let mut stage = local_stages;
    while stage < stages
        invariant
            local_stages <= stage <= stages,
            passes@ == bitonic_passes(local_stages, stage as int),
        decreases stages - stage,
    {
        let ghost before = passes@;
        let mut step = stage;
        loop
            invariant_except_break
                passes@ == before + Seq::new(
                    (stage - step) as nat,
                    |i: int| BitonicPass::Global { stage, step: (stage - i) as u32 },
                ),
            invariant
                local_stages <= step <= stage,
                stage < stages,
            ensures
                passes@ == before + Seq::new(
                    (stage - local_stages + 1) as nat,
                    |i: int| BitonicPass::Global { stage, step: (stage - i) as u32 },
                ),
            decreases step,
        {
            passes.push(BitonicPass::Global { stage, step });
            assert(passes@ =~= before + Seq::new(
                (stage - step + 1) as nat,
                |i: int| BitonicPass::Global { stage, step: (stage - i) as u32 },
            ));
            if step == local_stages {
                break ;
            }
            step = step - 1;
        }
        passes.push(BitonicPass::LocalMerge { stage });
        assert(passes@ =~= bitonic_passes(local_stages, stage + 1));
        stage = stage + 1;
    }
    BitonicSortPlan { padded_count: padded, num_stages: stages, local_stages, workgroups, passes }
}

// ---------------------------------------------------------------------------
// Edge-line budget
// ---------------------------------------------------------------------------

/// One edge pre-raster dispatch.
#[derive(Copy, Clone, Debug, PartialEq, Eq, Structural)]
pub struct EdgeDispatch {
    /// First model instance whose edges are expanded.
    pub instance_base: usize,
    /// Instances expanded.
    pub instance_count: usize,
    /// First line written.
    pub first_line: usize,
    /// Lines written: `instance_count * model_edge_count`.
    pub line_count: usize,
}

/// The edge dispatches of a frame and the line count after them.
#[derive(Copy, Clone, Debug, PartialEq, Eq, Structural)]
pub struct EdgePlan {
    /// Debug edges of every used model instance.
    pub debug_edges: Option<EdgeDispatch>,
    /// Edges of the custom edge-overlay instances.
    pub custom_edges: Option<EdgeDispatch>,
    /// Line count after both dispatches.
    pub line_count: usize,
}

/// The dispatch of `wanted` instances starting at `base`, cut to the lines left below
/// `max_lines`; none when not a single instance fits.
pub open spec fn edge_dispatch(
    base: usize,
    wanted: usize,
    line_count: usize,
    model_edge_count: usize,
    max_lines: usize,
) -> Option<EdgeDispatch> {
    let available = sat_sub(max_lines as int, line_count as int);
    let max_instances = available / (model_edge_count as int);
    let count = min_of(wanted as int, max_instances);
    if count > 0 {
        Some(
            EdgeDispatch {
                instance_base: base,
                instance_count: count as usize,
                first_line: line_count,
                line_count: (count * model_edge_count) as usize,
            },
        )
    } else {
        None
    }
}

/// Lines after an optional dispatch.
pub open spec fn lines_after(line_count: usize, d: Option<EdgeDispatch>) -> int {
    match d {
        Some(d) => line_count + d.line_count,
        None => line_count as int,
    }
}

/// The edge plan of `plan_edge_dispatches`.
pub open spec fn edge_plan(
    line_count: usize,
    model_edge_count: usize,
    do_edges: bool,
    used_instances: usize,
    custom_base: usize,
    custom_used: usize,
    max_lines: usize,
) -> EdgePlan {
    if model_edge_count == 0 || !(do_edges || custom_used > 0) {
        EdgePlan { debug_edges: None, custom_edges: None, line_count }
    } else {
        let debug = if do_edges {
            edge_dispatch(0, used_instances, line_count, model_edge_count, max_lines)
        } else {
            None
        };
        let after_debug = lines_after(line_count, debug) as usize;
        let custom = if custom_used > 0 {
            edge_dispatch(custom_base, custom_used, after_debug, model_edge_count, max_lines)
        } else {
            None
        };
        EdgePlan {
            debug_edges: debug,
            custom_edges: custom,
            line_count: lines_after(after_debug, custom) as usize,
        }
    }
}

proof fn lemma_edge_dispatch_fits(
    base: usize,
    wanted: usize,
    line_count: usize,
    model_edge_count: usize,
    max_lines: usize,
)
    requires
        model_edge_count > 0,
    ensures
        edge_dispatch(base, wanted, line_count, model_edge_count, max_lines) matches Some(d) ==> {
            &&& line_count + d.line_count <= max_lines
            &&& d.line_count == d.instance_count * model_edge_count
            &&& d.instance_count <= wanted
        },
{
    let available = sat_sub(max_lines as int, line_count as int);
    let max_instances = available / (model_edge_count as int);
    let count = min_of(wanted as int, max_instances);
    if count > 0 {
        assert(count * model_edge_count <= max_instances * model_edge_count) by (nonlinear_arith)
            requires
                count <= max_instances,
                model_edge_count > 0,
        ;
        assert(max_instances * model_edge_count <= available) by (nonlinear_arith)
            requires
                max_instances == available / (model_edge_count as int),
                model_edge_count > 0,
                available >= 0,
        ;
    }
}

/// Plan the edge pre-raster dispatches: the debug edges of the used instances, then the
/// custom edge-overlay instances, each cut to the lines left below `max_lines` (none
/// left once `line_count` has reached it).
pub fn plan_edge_dispatches(
    line_count: usize,
    model_edge_count: usize,
    do_edges: bool,
    used_instances: usize,
    custom_base: usize,
    custom_used: usize,
    max_lines: usize,
) -> (r: EdgePlan)
    ensures
        r == edge_plan(
            line_count,
            model_edge_count,
            do_edges,
            used_instances,
            custom_base,
            custom_used,
            max_lines,
        ),
        line_count <= max_lines ==> r.line_count <= max_lines,
        line_count >= max_lines ==> r == (EdgePlan { debug_edges: None, custom_edges: None, line_count }),
{
    if model_edge_count == 0 || !(do_edges || custom_used > 0) {
        return EdgePlan { debug_edges: None, custom_edges: None, line_count };
    }
    let mut lines = line_count;
    let mut debug_edges = None;
    if do_edges {
        proof {
            lemma_edge_dispatch_fits(0, used_instances, lines, model_edge_count, max_lines);
        }
        let available = if max_lines >= lines {
            max_lines - lines
        } else {
            0
        };
        let max_instances = available / model_edge_count;
        let count = if used_instances < max_instances {
            used_instances
        } else {
            max_instances
        };
        if count > 0 {
            proof {
                assert(count * model_edge_count <= available) by (nonlinear_arith)
                    requires
                        count <= max_instances,
                        max_instances == available / model_edge_count,
                        model_edge_count > 0,
                ;
            }
            let edge_line_count = count * model_edge_count;
            debug_edges = Some(
                EdgeDispatch {
                    instance_base: 0,
                    instance_count: count,
                    first_line: lines,
                    line_count: edge_line_count,
                },
            );
            lines = lines + edge_line_count;
        }
    }
    let mut custom_edges = None;
    if custom_used > 0 {
        proof {
            lemma_edge_dispatch_fits(custom_base, custom_used, lines, model_edge_count, max_lines);
        }
        let available = if max_lines >= lines {
            max_lines - lines
        } else {
            0
        };
        let max_instances = available / model_edge_count;
        let count = if custom_used < max_instances {
            custom_used
        } else {
            max_instances
        };
        if count > 0 {
            proof {
                assert(count * model_edge_count <= available) by (nonlinear_arith)
                    requires
                        count <= max_instances,
                        max_instances == available / model_edge_count,
                        model_edge_count > 0,
                ;
            }
            let edge_line_count = count * model_edge_count;
            custom_edges = Some(
                EdgeDispatch {
                    instance_base: custom_base,
                    instance_count: count,
                    first_line: lines,
                    line_count: edge_line_count,
                },
            );
            lines = lines + edge_line_count;
        }
    }
    EdgePlan { debug_edges, custom_edges, line_count: lines }
}

/// How the edge plan places its dispatches. With no edges per model, or nothing to draw,
/// nothing is dispatched. Otherwise the debug edges, when asked for, cover the first used
/// instances and start at the current line count; the custom edge-overlay instances are
/// dispatched whether or not the debug edges are, starting where the debug edges ended;
/// each dispatch takes as many instances as it wants and as fit below `max_lines`, and is
/// left out only when not one fits; the line count ends after both.
pub proof fn lemma_edge_plan_places_dispatches(
    line_count: usize,
    model_edge_count: usize,
    do_edges: bool,
    used_instances: usize,
    custom_base: usize,
    custom_used: usize,
    max_lines: usize,
)
    ensures
        ({
            let p = edge_plan(
                line_count,
                model_edge_count,
                do_edges,
                used_instances,
                custom_base,
                custom_used,
                max_lines,
            );
            let after_debug: int = match p.debug_edges {
                Some(d) => line_count + d.line_count,
                None => line_count as int,
            };
            &&& (model_edge_count == 0 || (!do_edges && custom_used == 0)) ==> p == (EdgePlan {
                debug_edges: None,
                custom_edges: None,
                line_count,
            })
            &&& !do_edges ==> p.debug_edges is None
            &&& custom_used == 0 ==> p.custom_edges is None
            &&& (model_edge_count > 0 && do_edges && used_instances > 0 && line_count
                + model_edge_count <= max_lines) ==> p.debug_edges is Some
            &&& (model_edge_count > 0 && custom_used > 0 && after_debug + model_edge_count
                <= max_lines) ==> p.custom_edges is Some
            &&& p.debug_edges matches Some(d) ==> {
                &&& d.instance_base == 0
                &&& d.first_line == line_count
                &&& 0 < d.instance_count <= used_instances
                &&& d.line_count == d.instance_count * model_edge_count
                &&& line_count + d.line_count <= max_lines
                &&& (d.instance_count < used_instances ==> line_count + d.line_count
                    + model_edge_count > max_lines)
            }
            &&& p.custom_edges matches Some(c) ==> {
                &&& c.instance_base == custom_base
                &&& c.first_line == after_debug
                &&& 0 < c.instance_count <= custom_used
                &&& c.line_count == c.instance_count * model_edge_count
                &&& after_debug + c.line_count <= max_lines
                &&& (c.instance_count < custom_used ==> after_debug + c.line_count + model_edge_count
                    > max_lines)
            }
            &&& p.line_count == match p.custom_edges {
                Some(c) => after_debug + c.line_count,
                None => after_debug,
            }
        }),
{
    if model_edge_count > 0 && (do_edges || custom_used > 0) {
        lemma_edge_dispatch_exact(0, used_instances, line_count, model_edge_count, max_lines);
        let debug = if do_edges {
            edge_dispatch(0, used_instances, line_count, model_edge_count, max_lines)
        } else {
            None
        };
        let after = lines_after(line_count, debug) as usize;
        lemma_edge_dispatch_exact(custom_base, custom_used, after, model_edge_count, max_lines);
    }
}

proof fn lemma_edge_dispatch_exact(
    base: usize,
    wanted: usize,
    line_count: usize,
    model_edge_count: usize,
    max_lines: usize,
)
    requires
        model_edge_count > 0,
    ensures
        ({
            let d = edge_dispatch(base, wanted, line_count, model_edge_count, max_lines);
            &&& (wanted > 0 && line_count + model_edge_count <= max_lines) ==> d is Some
            &&& d matches Some(e) ==> {
                &&& e.instance_base == base
                &&& e.first_line == line_count
                &&& 0 < e.instance_count <= wanted
                &&& e.line_count == e.instance_count * model_edge_count
                &&& line_count + e.line_count <= max_lines
                &&& (e.instance_count < wanted ==> line_count + e.line_count + model_edge_count
                    > max_lines)
            }
        }),
{
    let available = sat_sub(max_lines as int, line_count as int);
    let max_instances = available / (model_edge_count as int);
    let count = min_of(wanted as int, max_instances);
    lemma_edge_dispatch_fits(base, wanted, line_count, model_edge_count, max_lines);
    if wanted > 0 && line_count + model_edge_count <= max_lines {
        assert(max_instances >= 1) by (nonlinear_arith)
            requires
                available >= model_edge_count,
                model_edge_count > 0,
                max_instances == available / (model_edge_count as int),
        ;
    }
    if count > 0 && count < wanted {
        assert(available < (max_instances + 1) * model_edge_count) by (nonlinear_arith)
            requires
                available >= 0,
                model_edge_count > 0,
                max_instances == available / (model_edge_count as int),
        ;
        assert(count * model_edge_count + model_edge_count == (count + 1) * model_edge_count)
            by (nonlinear_arith);
    }
}

// ---------------------------------------------------------------------------
// Per-frame words
// ---------------------------------------------------------------------------

/// Seed of the raytracer's random sequence for frame `frames_rendered`.
pub fn raytrace_seed(frames_rendered: usize) -> (r: u64)
    ensures
        r == 6364136223846793005u64.wrapping_mul(frames_rendered as u64).wrapping_add(
            1442695040888963407u64,
        ),
{
    6364136223846793005u64.wrapping_mul(frames_rendered as u64).wrapping_add(1442695040888963407)
}

/// Seed that picks the sampled pixels of the world-BVH ray diagnostics in frame
/// `frames_rendered`.
pub fn world_bvh_ray_diag_seed(frames_rendered: usize) -> (r: u32)
    ensures
        r == (frames_rendered as u32).wrapping_mul(747_796_405u32).wrapping_add(2_891_336_453u32),
{
    (frames_rendered as u32).wrapping_mul(747_796_405).wrapping_add(2_891_336_453)
}

/// Working-data flag: stage B collapsed the layers into layer 0.
pub const WORKING_FLAG_VTE_COLLAPSED: u32 = 1;

/// Working-data flag: the Z/W angle color shift is on.
pub const WORKING_FLAG_ZW_ANGLE_COLOR_SHIFT: u32 = 2;

/// Bit position of the quantized color-shift strength.
pub const WORKING_ZW_SHIFT_STRENGTH_SHIFT: u32 = 8;

/// The working-data flag word the present shader reads: bit 0 for collapsed output,
/// bit 1 for the color shift, bits 8.. for the quantized shift strength.
pub fn working_flags(vte_collapsed: bool, zw_shift_enabled: bool, strength_q: u32) -> (r: u32)
    requires
        strength_q <= 255,
    ensures
        r == (if vte_collapsed {
            1int
        } else {
            0
        }) + (if zw_shift_enabled {
            2int
        } else {
            0
        }) + 256 * strength_q,
{
    let a: u32 = if vte_collapsed {
        WORKING_FLAG_VTE_COLLAPSED
    } else {
        0
    };
    let b: u32 = if zw_shift_enabled {
        WORKING_FLAG_ZW_ANGLE_COLOR_SHIFT
    } else {
        0
    };
    let r = a | b | (strength_q << WORKING_ZW_SHIFT_STRENGTH_SHIFT);
    proof {
        assert(a | b | (strength_q << 8u32) == a + b + 256 * strength_q) by (bit_vector)
            requires
                a == 0 || a == 1,
                b == 0 || b == 2,
                strength_q <= 255,
        ;
    }
    r
}

// ---------------------------------------------------------------------------
// World-BVH ray diagnostic samples
// ---------------------------------------------------------------------------

/// A pixel the CPU reference trace samples, and the record slot its result goes to.
#[derive(Copy, Clone, Debug, PartialEq, Eq, Structural)]
pub struct DiagSamplePosition {
    pub slot: u32,
    pub pixel_x: u32,
    pub pixel_y: u32,
    pub layer: u32,
}

/// The dispatch shape of stage A: plane size and layers run.
pub open spec fn diag_dispatch_layers(render_dimensions: [u32; 3], stage_b_mode: u32) -> int {
    let layers: int = if render_dimensions[2] < 1 {
        1
    } else {
        render_dimensions[2] as int
    };
    if stage_b_mode == display_mode_code(VteDisplayMode::Integral) && layers > 1 {
        1
    } else {
        layers
    }
}

/// `x` raised to at least 1.
pub open spec fn at_least_one(x: u32) -> int {
    if x < 1 {
        1
    } else {
        x as int
    }
}

/// The sampled positions: of the `total` stage-A threads, every `stride`-th starting at
/// `seed % stride`, where `stride = max(1, total / requested)` and `requested` is the
/// sample count cut to `capacity`; at most `capacity` of them.  A thread's linear index
/// runs over x, then y, then the dispatch layer; a collapsed dispatch samples the
/// centre slice layer.
pub open spec fn diag_sample_positions(
    sample_count: u32,
    capacity: usize,
    render_dimensions: [u32; 3],
    stage_b_mode: u32,
    seed: u32,
    slice_layer: u32,
) -> Seq<DiagSamplePosition> {
    let requested = min_of(sample_count as int, capacity as int);
    let width = at_least_one(render_dimensions[0]);
    let height = at_least_one(render_dimensions[1]);
    let layers = at_least_one(render_dimensions[2]);
    let dispatch_layers = diag_dispatch_layers(render_dimensions, stage_b_mode);
    let plane = width * height;
    let total = plane * dispatch_layers;
    if requested == 0 || total == 0 {
        Seq::empty()
    } else {
        let stride = if total / requested < 1 {
            1
        } else {
            total / requested
        };
        let offset = seed as int % stride;
        let count = min_of(capacity as int, if total > offset {
            (total - offset + stride - 1) / stride
        } else {
            0
        });
        let center = min_of(slice_layer as int, layers - 1);
        Seq::new(
            count as nat,
            |k: int|
                {
                    let linear = offset + k * stride;
                    let in_plane = linear % plane;
                    DiagSamplePosition {
                        slot: k as u32,
                        pixel_x: (in_plane % width) as u32,
                        pixel_y: (in_plane / width) as u32,
                        layer: if dispatch_layers == 1 && layers > 1 {
                            center as u32
                        } else {
                            (linear / plane) as u32
                        },
                    }
                },
        )
    }
}

/// The pixels sampled by the world-BVH ray diagnostics (see `diag_sample_positions`).
#[verifier::rlimit(60)]
pub fn world_bvh_ray_diag_sample_positions(
    sample_count: u32,
    capacity: usize,
    render_dimensions: [u32; 3],
    stage_b_mode: u32,
    seed: u32,
    slice_layer: u32,
) -> (r: Vec<DiagSamplePosition>)
    requires
        at_least_one(render_dimensions[0]) * at_least_one(render_dimensions[1])
            * diag_dispatch_layers(render_dimensions, stage_b_mode) <= usize::MAX,
    ensures
        r@ == diag_sample_positions(
            sample_count,
            capacity,
            render_dimensions,
            stage_b_mode,
            seed,
            slice_layer,
        ),
{
    let requested: u64 = if (sample_count as u64) < (capacity as u64) {
        sample_count as u64
    } else {
        capacity as u64
    };
    let width: u64 = if render_dimensions[0] < 1 {
        1
    } else {
        render_dimensions[0] as u64
    };
    let height: u64 = if render_dimensions[1] < 1 {
        1
    } else {
        render_dimensions[1] as u64
    };
    let layers: u64 = if render_dimensions[2] < 1 {
        1
    } else {
        render_dimensions[2] as u64
    };
    let dispatch_layers: u64 = if stage_b_mode == VteDisplayMode::Integral.as_u32() && layers
        > 1 {
        1
    } else {
        layers
    };
    let ghost spec_result = diag_sample_positions(
        sample_count,
        capacity,
        render_dimensions,
        stage_b_mode,
        seed,
        slice_layer,
    );
    proof {
        assert(width * height <= width * height * dispatch_layers) by (nonlinear_arith)
            requires
                dispatch_layers >= 1,
        ;
        assert(width * height >= 1) by (nonlinear_arith)
            requires
                width >= 1,
                height >= 1,
        ;
    }
    let plane = width * height;
    let total = plane * dispatch_layers;
    if requested == 0 || total == 0 {
        return Vec::new();
    }
    let stride: u64 = if total / requested < 1 {
        1
    } else {
        total / requested
    };
    let offset = (seed as u64) % stride;
    let center_layer: u64 = if (slice_layer as u64) < layers - 1 {
        slice_layer as u64
    } else {
        layers - 1
    };
    proof {
        assert(stride <= total) by (nonlinear_arith)
            requires
                requested >= 1,
                stride == 1 || stride == total / requested,
                total >= 1,
        ;
    }
    let reach: u64 = if total > offset {
        (total - offset - 1) / stride + 1
    } else {
        0
    };
    let count: u64 = if (capacity as u64) < reach {
        capacity as u64
    } else {
        reach
    };
    proof {
        assert(reach == (if total > offset {
            (total - offset + stride - 1) / (stride as int)
        } else {
            0
        })) by (nonlinear_arith)
            requires
                stride >= 1,
                reach == (if total > offset {
                    (total - offset - 1) / (stride as int) + 1
                } else {
                    0
                }),
        ;
        lemma_sample_count(total as int, offset as int, stride as int);
    }
    let mut out: Vec<DiagSamplePosition> = Vec::new();
    let mut k: u64 = 0;
    while k < count
        invariant
            1 <= stride,
            offset < stride,
            1 <= plane,
            1 <= width,
            plane == width * height,
            total == plane * dispatch_layers,
            0 <= k <= count,
            count <= reach,
            forall|kk: int| 0 <= kk < reach ==> #[trigger] (offset + kk * stride) < total,
            spec_result.len() == count,
            forall|kk: int|
                0 <= kk < count ==> #[trigger] spec_result[kk] == {
                    let lin = offset + kk * stride;
                    let in_plane = lin % (plane as int);
                    DiagSamplePosition {
                        slot: kk as u32,
                        pixel_x: (in_plane % (width as int)) as u32,
                        pixel_y: (in_plane / (width as int)) as u32,
                        layer: if dispatch_layers == 1 && layers > 1 {
                            center_layer as u32
                        } else {
                            (lin / (plane as int)) as u32
                        },
                    }
                },
            out@ == spec_result.take(k as int),
        decreases count - k,
    {
        assert(offset + k * stride < total);
        let linear = offset + k * stride;
        let dispatch_z = linear / plane;
        let in_plane = linear % plane;
        let pixel_y = in_plane / width;
        let pixel_x = in_plane % width;
        let layer = if dispatch_layers == 1 && layers > 1 {
            center_layer as u32
        } else {
            dispatch_z as u32
        };
        out.push(
            DiagSamplePosition {
                slot: k as u32,
                pixel_x: pixel_x as u32,
                pixel_y: pixel_y as u32,
                layer,
            },
        );
        assert(out@ =~= spec_result.take(k + 1));
        k = k + 1;
    }
    assert(out@ =~= spec_result);
    out
}

proof fn lemma_sample_count(total: int, offset: int, stride: int)
    requires
        stride >= 1,
        0 <= offset < stride,
        total >= 1,
    ensures
        forall|kk: int|
            0 <= kk < (if total > offset {
                (total - offset + stride - 1) / stride
            } else {
                0
            }) ==> #[trigger] (offset + kk * stride) < total,
        forall|kk: int|
            kk >= 0 && kk >= (if total > offset {
                (total - offset + stride - 1) / stride
            } else {
                0
            }) ==> #[trigger] (offset + kk * stride) >= total,
{
    assert forall|kk: int|
        0 <= kk < (if total > offset {
            (total - offset + stride - 1) / stride
        } else {
            0
        }) implies #[trigger] (offset + kk * stride) < total by {
        assert(kk * stride < total - offset) by (nonlinear_arith)
            requires
                0 <= kk < (total - offset + stride - 1) / stride,
                stride >= 1,
                total > offset,
        ;
    }
    assert forall|kk: int|
        kk >= 0 && kk >= (if total > offset {
            (total - offset + stride - 1) / stride
        } else {
            0
        }) implies #[trigger] (offset + kk * stride) >= total by {
        if total > offset {
            assert(kk * stride >= total - offset) by (nonlinear_arith)
                requires
                    kk >= (total - offset + stride - 1) / stride,
                    stride >= 1,
                    total > offset,
            ;
        } else {
            assert(kk * stride >= 0) by (nonlinear_arith)
                requires
                    kk >= 0,
                    stride >= 1,
            ;
        }
    }
}

/// The hit highlight is drawn in the integral, slice and thick-slice display modes, not
/// in the debug modes.
pub fn highlight_mode_supported(mode: VteDisplayMode) -> (r: bool)
    ensures
        r == (mode == VteDisplayMode::Integral || mode == VteDisplayMode::Slice || mode
            == VteDisplayMode::ThickSlice),
{
    matches!(mode, VteDisplayMode::Integral | VteDisplayMode::Slice | VteDisplayMode::ThickSlice)
}

/// Rays the world-BVH diagnostics sample this frame: the configured number, cut to the
/// record capacity, while the diagnostics are on for a voxel frame; none otherwise.
pub fn diag_sample_count(active: bool, configured: usize, capacity: usize) -> (r: u32)
    ensures
        r == (if active { min_of(configured as int, capacity as int) as u32 } else { 0u32 }),
{
    if active {
        (if configured < capacity {
            configured
        } else {
            capacity
        }) as u32
    } else {
        0
    }
}

/// The GPU compares the traversal against its reference trace only in a build with the
/// voxel-traversal diagnostics, when asked to, and in one of the two debug display modes.
pub fn compare_diagnostics_enabled(diagnostics_build: bool, reference_compare: bool, mode: VteDisplayMode) -> (r: bool)
    ensures
        r == (diagnostics_build && reference_compare && (mode == VteDisplayMode::DebugCompare || mode
            == VteDisplayMode::DebugIntegral)),
{
    diagnostics_build && reference_compare && matches!(
        mode,
        VteDisplayMode::DebugCompare | VteDisplayMode::DebugIntegral
    )
}

} // verus!
