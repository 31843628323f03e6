use crate::text::{
    diagnostic_switch_spec, env_flag_enabled, env_flag_spec, env_usize, env_usize_spec, opt_text,
    vte_stage_a_breakdown_enabled, vte_world_bvh_ray_diag_env_enabled,
};
use vstd::prelude::*;

verus! {

// ---------------------------------------------------------------------------
// Diagnostics settings
// ---------------------------------------------------------------------------

/// Frames between entity-diagnostics BVH read-backs when the environment names none.
pub const ENTITY_DIAG_DEFAULT_INTERVAL: usize = 120;

/// Frames between stage-A timing breakdowns when the environment names none.
pub const STAGE_A_BREAKDOWN_DEFAULT_INTERVAL: usize = 120;

/// World-BVH ray-diagnostics samples when the environment names none.
pub const WORLD_BVH_RAY_DIAG_DEFAULT_SAMPLES: usize = 64;

/// Frames between world-BVH ray-diagnostics reports when the environment names none.
pub const WORLD_BVH_RAY_DIAG_DEFAULT_INTERVAL: usize = 60;

/// What the traversal diagnostics are configured from: whether the build has them, and
/// the environment values (`None` for a variable that is not set).
#[derive(Copy, Clone, Debug)]
pub struct DiagnosticsEnv<'a> {
    /// The build has the voxel-traversal diagnostics.
    pub diagnostics_build: bool,
    pub entity_diag: Option<&'a str>,
    pub entity_diag_verbose: Option<&'a str>,
    pub entity_diag_bvh_readback: Option<&'a str>,
    pub entity_diag_bvh_topology: Option<&'a str>,
    pub entity_diag_bvh_interval: Option<&'a str>,
    pub stage_a_breakdown: Option<&'a str>,
    pub stage_a_breakdown_interval: Option<&'a str>,
    pub world_bvh_ray_diag: Option<&'a str>,
    pub world_bvh_ray_diag_samples: Option<&'a str>,
    pub world_bvh_ray_diag_interval: Option<&'a str>,
}

/// How the traversal diagnostics run.
#[derive(Copy, Clone, Debug, PartialEq, Eq, Structural)]
pub struct DiagnosticsSettings {
    /// Entity diagnostics are on.
    pub entity_diag_enabled: bool,
    /// They report every frame.
    pub entity_diag_verbose: bool,
    /// They read the entity BVH back from the GPU.
    pub entity_diag_bvh_readback: bool,
    /// They read back all of its nodes to check its topology (else only the root).
    pub entity_diag_bvh_topology: bool,
    /// Frames between periodic read-backs.
    pub entity_diag_interval: usize,
    /// Stage-A timing breakdowns are on.
    pub stage_a_breakdown_enabled: bool,
    /// Frames between them (at least 1).
    pub stage_a_breakdown_interval: usize,
    /// World-BVH ray diagnostics are on.
    pub world_bvh_ray_diag_enabled: bool,
    /// Rays they trace (between 1 and the sample capacity).
    pub world_bvh_ray_diag_samples: usize,
    /// Frames between their reports (at least 1).
    pub world_bvh_ray_diag_interval: usize,
}

/// `x`, or 1 where `x` is 0.
pub open spec fn at_least_one_usize(x: usize) -> usize {
    if x >= 1 {
        x
    } else {
        1
    }
}

/// `x` clamped to `lo..=hi`.
pub open spec fn clamp_usize(x: usize, lo: usize, hi: usize) -> usize {
    if x < lo {
        lo
    } else if x > hi {
        hi
    } else {
        x
    }
}

/// The settings the environment `e` gives, with at most `ray_diag_capacity` diagnostic
/// rays. Each switch needs a build with the diagnostics; verbose reports and read-backs need
/// entity diagnostics, and the topology check needs read-backs.
pub open spec fn diagnostics_settings_spec(e: DiagnosticsEnv, ray_diag_capacity: usize) -> DiagnosticsSettings {
    let enabled = diagnostic_switch_spec(e.diagnostics_build, opt_text(e.entity_diag));
    let readback = enabled && env_flag_spec(opt_text(e.entity_diag_bvh_readback));
    DiagnosticsSettings {
        entity_diag_enabled: enabled,
        entity_diag_verbose: enabled && env_flag_spec(opt_text(e.entity_diag_verbose)),
        entity_diag_bvh_readback: readback,
        entity_diag_bvh_topology: readback && env_flag_spec(opt_text(e.entity_diag_bvh_topology)),
        entity_diag_interval: env_usize_spec(opt_text(e.entity_diag_bvh_interval), ENTITY_DIAG_DEFAULT_INTERVAL),
        stage_a_breakdown_enabled: diagnostic_switch_spec(e.diagnostics_build, opt_text(e.stage_a_breakdown)),
        stage_a_breakdown_interval: at_least_one_usize(
            env_usize_spec(opt_text(e.stage_a_breakdown_interval), STAGE_A_BREAKDOWN_DEFAULT_INTERVAL),
        ),
        world_bvh_ray_diag_enabled: diagnostic_switch_spec(e.diagnostics_build, opt_text(e.world_bvh_ray_diag)),
        world_bvh_ray_diag_samples: clamp_usize(
            env_usize_spec(opt_text(e.world_bvh_ray_diag_samples), WORLD_BVH_RAY_DIAG_DEFAULT_SAMPLES),
            1,
            ray_diag_capacity,
        ),
        world_bvh_ray_diag_interval: at_least_one_usize(
            env_usize_spec(opt_text(e.world_bvh_ray_diag_interval), WORLD_BVH_RAY_DIAG_DEFAULT_INTERVAL),
        ),
    }
}

fn max_one(x: usize) -> (r: usize)
    ensures
        r == at_least_one_usize(x),
{
    if x >= 1 {
        x
    } else {
        1
    }
}

/// Read the diagnostics settings from the environment values `e` (see
/// `diagnostics_settings_spec`); at most `ray_diag_capacity` rays are traced.
pub fn diagnostics_settings(e: &DiagnosticsEnv, ray_diag_capacity: usize) -> (r: DiagnosticsSettings)
    requires
        ray_diag_capacity >= 1,
    ensures
        r == diagnostics_settings_spec(*e, ray_diag_capacity),
{
    let entity_diag_enabled = e.diagnostics_build && env_flag_enabled(e.entity_diag);
    let entity_diag_verbose = entity_diag_enabled && env_flag_enabled(e.entity_diag_verbose);
    let entity_diag_bvh_readback = entity_diag_enabled && env_flag_enabled(e.entity_diag_bvh_readback);
    let entity_diag_bvh_topology = entity_diag_bvh_readback && entity_diag_enabled && env_flag_enabled(
        e.entity_diag_bvh_topology,
    );
    let entity_diag_interval = env_usize(e.entity_diag_bvh_interval, ENTITY_DIAG_DEFAULT_INTERVAL);
    let stage_a_enabled = vte_stage_a_breakdown_enabled(e.diagnostics_build, e.stage_a_breakdown);
    let stage_a_interval = max_one(env_usize(e.stage_a_breakdown_interval, STAGE_A_BREAKDOWN_DEFAULT_INTERVAL));
    let ray_enabled = vte_world_bvh_ray_diag_env_enabled(e.diagnostics_build, e.world_bvh_ray_diag);
    let samples = env_usize(e.world_bvh_ray_diag_samples, WORLD_BVH_RAY_DIAG_DEFAULT_SAMPLES);
    let ray_samples = if samples < 1 {
        1
    } else if samples > ray_diag_capacity {
        ray_diag_capacity
    } else {
        samples
    };
    let ray_interval = max_one(env_usize(e.world_bvh_ray_diag_interval, WORLD_BVH_RAY_DIAG_DEFAULT_INTERVAL));
    DiagnosticsSettings {
        entity_diag_enabled,
        entity_diag_verbose,
        entity_diag_bvh_readback,
        entity_diag_bvh_topology,
        entity_diag_interval,
        stage_a_breakdown_enabled: stage_a_enabled,
        stage_a_breakdown_interval: stage_a_interval,
        world_bvh_ray_diag_enabled: ray_enabled,
        world_bvh_ray_diag_samples: ray_samples,
        world_bvh_ray_diag_interval: ray_interval,
    }
}

// ---------------------------------------------------------------------------
// Entity-diagnostics scheduling
// ---------------------------------------------------------------------------

/// What the entity diagnostics remember from one frame to the next.
#[derive(Copy, Clone, Debug, PartialEq, Eq, Structural)]
pub struct EntityDiagHistory {
    /// Non-voxel instances used in the last voxel frame (`None` after another frame).
    pub prev_used_non_voxel: Option<usize>,
    /// Non-voxel BVH leaves of the last voxel frame (`None` after another frame).
    pub prev_tets_non_voxel: Option<usize>,
    /// Frame of the last report.
    pub last_log_frame: Option<usize>,
}

/// The counts of one frame that the entity diagnostics look at.
#[derive(Copy, Clone, Debug, PartialEq, Eq, Structural)]
pub struct EntityDiagFrame {
    /// The frame traces voxels.
    pub do_voxel_vte: bool,
    /// Frames rendered before this one.
    pub frames_rendered: usize,
    /// Non-voxel instances handed to the renderer, before any was dropped.
    pub input_non_voxel: usize,
    /// Non-voxel instances used.
    pub used_non_voxel: usize,
    /// Leaves of the non-voxel BVH.
    pub bvh_leaves: usize,
    /// Instances dropped for non-finite transforms.
    pub dropped_instances: usize,
    /// Instances whose transforms are implausibly large.
    pub outlier_instances: usize,
}

/// What the entity diagnostics do in a frame.
#[derive(Copy, Clone, Debug, PartialEq, Eq, Structural)]
pub struct EntityDiagPlan {
    /// The history for the next frame.
    pub history: EntityDiagHistory,
    /// Something looks wrong with the entity instances or their BVH.
    pub anomaly: bool,
    /// A periodic report is due.
    pub periodic_due: bool,
    /// The BVH is copied back to the CPU this frame.
    pub copy_requested: bool,
    /// BVH leaves recorded with the frame for the read-back (0 outside voxel frames).
    pub scheduled_tet_count: usize,
    /// A report is written this frame.
    pub report: bool,
}

/// A count that was positive in the previous voxel frame and is zero now.
pub open spec fn went_zero(prev: Option<usize>, now: usize) -> bool {
    match prev {
        Some(p) => p > 0 && now == 0,
        None => false,
    }
}

/// A report is due when none was made yet or `interval` (at least 1) frames have passed
/// since the last.
pub open spec fn periodic_due_spec(last: Option<usize>, now: usize, interval: usize) -> bool {
    match last {
        Some(l) => (if now >= l { now - l } else { 0 }) >= at_least_one_usize(interval),
        None => true,
    }
}

/// The entity-diagnostics plan of a frame under settings `s`, after history `h`.
pub open spec fn entity_diag_plan_spec(s: DiagnosticsSettings, h: EntityDiagHistory, f: EntityDiagFrame) -> EntityDiagPlan {
    let anomaly = f.do_voxel_vte && (f.dropped_instances > 0 || f.outlier_instances > 0 || went_zero(
        h.prev_used_non_voxel,
        f.used_non_voxel,
    ) || went_zero(h.prev_tets_non_voxel, f.bvh_leaves) || (f.input_non_voxel > 0 && f.used_non_voxel
        == 0) || (f.used_non_voxel > 0 && f.bvh_leaves == 0));
    let periodic_due = periodic_due_spec(h.last_log_frame, f.frames_rendered, s.entity_diag_interval);
    let copy_requested = s.entity_diag_enabled && s.entity_diag_bvh_readback && f.do_voxel_vte
        && f.bvh_leaves > 0 && (s.entity_diag_verbose || anomaly || f.frames_rendered
        % at_least_one_usize(s.entity_diag_interval) == 0);
    let report = s.entity_diag_enabled && (s.entity_diag_verbose || anomaly || (f.do_voxel_vte
        && periodic_due));
    EntityDiagPlan {
        history: EntityDiagHistory {
            prev_used_non_voxel: if f.do_voxel_vte {
                Some(f.used_non_voxel)
            } else {
                None
            },
            prev_tets_non_voxel: if f.do_voxel_vte {
                Some(f.bvh_leaves)
            } else {
                None
            },
            last_log_frame: if report {
                Some(f.frames_rendered)
            } else {
                h.last_log_frame
            },
        },
        anomaly,
        periodic_due,
        copy_requested,
        scheduled_tet_count: if f.do_voxel_vte {
            f.bvh_leaves
        } else {
            0
        },
        report,
    }
}

fn count_went_zero(prev: Option<usize>, now: usize) -> (r: bool)
    ensures
        r == went_zero(prev, now),
{
    match prev {
        Some(p) => p > 0 && now == 0,
        None => false,
    }
}

/// Whether a periodic report is due (see `periodic_due_spec`).
pub fn periodic_due(last: Option<usize>, now: usize, interval: usize) -> (r: bool)
    ensures
        r == periodic_due_spec(last, now, interval),
{
    match last {
        Some(l) => now.saturating_sub(l) >= max_one(interval),
        None => true,
    }
}

/// Decide what the entity diagnostics do in frame `f` under settings `s`, after history
/// `h` (see `entity_diag_plan_spec`).
pub fn plan_entity_diagnostics(s: &DiagnosticsSettings, h: &EntityDiagHistory, f: &EntityDiagFrame) -> (r: EntityDiagPlan)
    ensures
        r == entity_diag_plan_spec(*s, *h, *f),
{
    let used_went_zero = f.do_voxel_vte && count_went_zero(h.prev_used_non_voxel, f.used_non_voxel);
    let tets_went_zero = f.do_voxel_vte && count_went_zero(h.prev_tets_non_voxel, f.bvh_leaves);
    let anomaly = f.do_voxel_vte && (f.dropped_instances > 0 || f.outlier_instances > 0 || used_went_zero
        || tets_went_zero || (f.input_non_voxel > 0 && f.used_non_voxel == 0) || (f.used_non_voxel > 0
        && f.bvh_leaves == 0));
    let due = periodic_due(h.last_log_frame, f.frames_rendered, s.entity_diag_interval);
    let copy_requested = s.entity_diag_enabled && s.entity_diag_bvh_readback && f.do_voxel_vte
        && f.bvh_leaves > 0 && (s.entity_diag_verbose || anomaly || f.frames_rendered % max_one(
        s.entity_diag_interval,
    ) == 0);
    let report = s.entity_diag_enabled && (s.entity_diag_verbose || anomaly || (f.do_voxel_vte && due));
    let history = EntityDiagHistory {
        prev_used_non_voxel: if f.do_voxel_vte {
            Some(f.used_non_voxel)
        } else {
            None
        },
        prev_tets_non_voxel: if f.do_voxel_vte {
            Some(f.bvh_leaves)
        } else {
            None
        },
        last_log_frame: if report {
            Some(f.frames_rendered)
        } else {
            h.last_log_frame
        },
    };
    EntityDiagPlan {
        history,
        anomaly,
        periodic_due: due,
        copy_requested,
        scheduled_tet_count: if f.do_voxel_vte {
            f.bvh_leaves
        } else {
            0
        },
        report,
    }
}

} // verus!
