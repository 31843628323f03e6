use vstd::prelude::*;
use crate::bvh_topology::count_where;

verus! {

/// One sampled ray of the world-BVH diagnostics: the pixel and layer it was cast for and
/// what it hit, as the CPU reference or the GPU records it.
#[derive(Copy, Clone, Debug, PartialEq, Eq, Structural)]
pub struct RayDiagRecord {
    pub pixel_x: u32,
    pub pixel_y: u32,
    pub layer: u32,
    pub hit: bool,
    pub hit_material: u32,
    pub hit_chunk_x: i32,
    pub hit_chunk_y: i32,
    pub hit_chunk_z: i32,
    pub hit_chunk_w: i32,
    pub miss_reason: u32,
}

/// How a GPU record disagrees with the CPU reference.
#[derive(Copy, Clone, Debug, PartialEq, Eq, Structural)]
pub struct RecordCheck {
    /// The GPU wrote no record for the sample.
    pub missing: bool,
    /// Pixel or layer differ.
    pub metadata: bool,
    /// One hit and the other missed.
    pub hit_state: bool,
    /// Both hit, different materials.
    pub material: bool,
    /// Both hit, different chunks.
    pub chunk: bool,
    /// Both hit, at distances further apart than the tolerance.
    pub distance: bool,
    /// Not both hit, and the miss reasons differ.
    pub miss_reason: bool,
}

/// The comparison of one sample: a missing GPU record counts as missing and nothing else;
/// otherwise each field is compared, materials, chunks and distances only when both hit,
/// miss reasons only when not. `distance_close` says whether the two hit distances agree
/// within the tolerance.
pub open spec fn record_check(expected: RayDiagRecord, gpu: Option<RayDiagRecord>, distance_close: bool) -> RecordCheck {
    match gpu {
        None => RecordCheck {
            missing: true,
            metadata: false,
            hit_state: false,
            material: false,
            chunk: false,
            distance: false,
            miss_reason: false,
        },
        Some(g) => {
            let both_hit = g.hit && expected.hit;
            RecordCheck {
                missing: false,
                metadata: g.pixel_x != expected.pixel_x || g.pixel_y != expected.pixel_y
                    || g.layer != expected.layer,
                hit_state: g.hit != expected.hit,
                material: both_hit && g.hit_material != expected.hit_material,
                chunk: both_hit && (g.hit_chunk_x != expected.hit_chunk_x || g.hit_chunk_y
                    != expected.hit_chunk_y || g.hit_chunk_z != expected.hit_chunk_z
                    || g.hit_chunk_w != expected.hit_chunk_w),
                distance: both_hit && !distance_close,
                miss_reason: !both_hit && g.miss_reason != expected.miss_reason,
            }
        },
    }
}

/// A sample mismatches when any of its comparisons fails.
pub open spec fn is_mismatch(c: RecordCheck) -> bool {
    c.missing || c.metadata || c.hit_state || c.material || c.chunk || c.distance || c.miss_reason
}

/// Compare a GPU record with the CPU reference (see `record_check`).
pub fn check_record(expected: &RayDiagRecord, gpu: &Option<RayDiagRecord>, distance_close: bool) -> (r: RecordCheck)
    ensures
        r == record_check(*expected, *gpu, distance_close),
{
    match gpu {
        None => RecordCheck {
            missing: true,
            metadata: false,
            hit_state: false,
            material: false,
            chunk: false,
            distance: false,
            miss_reason: false,
        },
        Some(g) => {
            let both_hit = g.hit && expected.hit;
            RecordCheck {
                missing: false,
                metadata: g.pixel_x != expected.pixel_x || g.pixel_y != expected.pixel_y
                    || g.layer != expected.layer,
                hit_state: g.hit != expected.hit,
                material: both_hit && g.hit_material != expected.hit_material,
                chunk: both_hit && (g.hit_chunk_x != expected.hit_chunk_x || g.hit_chunk_y
                    != expected.hit_chunk_y || g.hit_chunk_z != expected.hit_chunk_z
                    || g.hit_chunk_w != expected.hit_chunk_w),
                distance: both_hit && !distance_close,
                miss_reason: !both_hit && g.miss_reason != expected.miss_reason,
            }
        },
    }
}

/// What a comparison flags, field by field: a missing GPU record is flagged as missing
/// and nothing else; a GPU record cast for another pixel or layer is flagged as such; a
/// hit against a miss is flagged; when both hit, a different material, a different chunk
/// or hit distances that do not agree are each flagged; when not both hit, a different
/// miss reason is flagged. A record that agrees with the reference in every compared
/// field is no mismatch, and the reference compared with itself at an agreeing distance
/// never is.
pub proof fn lemma_record_check_flags(e: RayDiagRecord, gpu: Option<RayDiagRecord>, distance_close: bool)
    ensures
        ({
            let c = record_check(e, gpu, distance_close);
            &&& gpu is None ==> c.missing && !c.metadata && !c.hit_state && !c.material && !c.chunk
                && !c.distance && !c.miss_reason
            &&& gpu matches Some(g) ==> {
                &&& !c.missing
                &&& c.metadata == (g.pixel_x != e.pixel_x || g.pixel_y != e.pixel_y || g.layer
                    != e.layer)
                &&& c.hit_state == (g.hit != e.hit)
                &&& c.material == (g.hit && e.hit && g.hit_material != e.hit_material)
                &&& c.chunk == (g.hit && e.hit && (g.hit_chunk_x, g.hit_chunk_y, g.hit_chunk_z, g.hit_chunk_w)
                    != (e.hit_chunk_x, e.hit_chunk_y, e.hit_chunk_z, e.hit_chunk_w))
                &&& c.distance == (g.hit && e.hit && !distance_close)
                &&& c.miss_reason == (!(g.hit && e.hit) && g.miss_reason != e.miss_reason)
            }
            &&& is_mismatch(c) == (c.missing || c.metadata || c.hit_state || c.material || c.chunk
                || c.distance || c.miss_reason)
            &&& gpu == Some(e) && distance_close ==> !is_mismatch(c)
        }),
{
}

/// Counts of a diagnostics round.
#[derive(Copy, Clone, Debug, PartialEq, Eq, Structural)]
pub struct RayDiagTally {
    pub mismatches: usize,
    pub missing: usize,
    pub hit_state: usize,
    pub material: usize,
    pub chunk: usize,
    pub distance: usize,
    pub metadata: usize,
    pub miss_reason: usize,
    /// The first sample that mismatches, for the detailed log line.
    pub first_mismatch: Option<usize>,
}

/// The comparison of sample `i`.
pub open spec fn check_at(
    expected: Seq<RayDiagRecord>,
    gpu: Seq<Option<RayDiagRecord>>,
    close: Seq<bool>,
    i: int,
) -> RecordCheck {
    record_check(expected[i], gpu[i], close[i])
}

/// Index of the first mismatching sample among the first `n`.
pub open spec fn first_mismatch_in(
    expected: Seq<RayDiagRecord>,
    gpu: Seq<Option<RayDiagRecord>>,
    close: Seq<bool>,
    n: int,
) -> Option<usize>
    decreases n,
{
    if n <= 0 {
        None
    } else {
        match first_mismatch_in(expected, gpu, close, n - 1) {
            Some(i) => Some(i),
            None => if is_mismatch(check_at(expected, gpu, close, n - 1)) {
                Some((n - 1) as usize)
            } else {
                None
            },
        }
    }
}

/// The tally of the first `n` samples: each count is the number of samples whose comparison
/// has that flag.
pub open spec fn tally_of(
    expected: Seq<RayDiagRecord>,
    gpu: Seq<Option<RayDiagRecord>>,
    close: Seq<bool>,
    n: int,
) -> RayDiagTally {
    RayDiagTally {
        mismatches: count_where(0, n, |i: int| is_mismatch(check_at(expected, gpu, close, i))) as usize,
        missing: count_where(0, n, |i: int| check_at(expected, gpu, close, i).missing) as usize,
        hit_state: count_where(0, n, |i: int| check_at(expected, gpu, close, i).hit_state) as usize,
        material: count_where(0, n, |i: int| check_at(expected, gpu, close, i).material) as usize,
        chunk: count_where(0, n, |i: int| check_at(expected, gpu, close, i).chunk) as usize,
        distance: count_where(0, n, |i: int| check_at(expected, gpu, close, i).distance) as usize,
        metadata: count_where(0, n, |i: int| check_at(expected, gpu, close, i).metadata) as usize,
        miss_reason: count_where(0, n, |i: int| check_at(expected, gpu, close, i).miss_reason)
            as usize,
        first_mismatch: first_mismatch_in(expected, gpu, close, n),
    }
}

proof fn lemma_count_bounded(n: int, f: spec_fn(int) -> bool)
    requires
        n >= 0,
    ensures
        count_where(0, n, f) <= n,
    decreases n,
{
    if n > 0 {
        lemma_count_bounded(n - 1, f);
    }
}

fn bump(count: usize, flag: bool, Ghost(bound): Ghost<int>) -> (r: usize)
    requires
        count < bound <= usize::MAX,
    ensures
        r == count + if flag { 1int } else { 0int },
{
    if flag {
        count + 1
    } else {
        count
    }
}

/// Compare every sampled ray with what the GPU recorded for it and count the
/// disagreements (see `tally_of`). `gpu[i]` is the GPU's record of sample `i` (`None`
/// when the GPU wrote none) and `distance_close[i]` whether the two hit distances agree.
pub fn tally_ray_diag(
    expected: &Vec<RayDiagRecord>,
    gpu: &Vec<Option<RayDiagRecord>>,
    distance_close: &Vec<bool>,
) -> (r: RayDiagTally)
    requires
        gpu.len() == expected.len(),
        distance_close.len() == expected.len(),
    ensures
        r == tally_of(expected@, gpu@, distance_close@, expected@.len() as int),
{
    let ghost e = expected@;
    let ghost g = gpu@;
    let ghost c = distance_close@;
    let mut t = RayDiagTally {
        mismatches: 0,
        missing: 0,
        hit_state: 0,
        material: 0,
        chunk: 0,
        distance: 0,
        metadata: 0,
        miss_reason: 0,
        first_mismatch: None,
    };
    let mut i: usize = 0;
    while i < expected.len()
        invariant
            e == expected@,
            g == gpu@,
            c == distance_close@,
            gpu.len() == expected.len(),
            distance_close.len() == expected.len(),
            i <= expected.len(),
            t == tally_of(e, g, c, i as int),
        decreases expected.len() - i,
    {
        let check = check_record(&expected[i], &gpu[i], distance_close[i]);
        let ghost bound: int = i + 1;
        proof {
            lemma_count_bounded(i as int, |k: int| is_mismatch(check_at(e, g, c, k)));
            lemma_count_bounded(i as int, |k: int| check_at(e, g, c, k).missing);
            lemma_count_bounded(i as int, |k: int| check_at(e, g, c, k).hit_state);
            lemma_count_bounded(i as int, |k: int| check_at(e, g, c, k).material);
            lemma_count_bounded(i as int, |k: int| check_at(e, g, c, k).chunk);
            lemma_count_bounded(i as int, |k: int| check_at(e, g, c, k).distance);
            lemma_count_bounded(i as int, |k: int| check_at(e, g, c, k).metadata);
            lemma_count_bounded(i as int, |k: int| check_at(e, g, c, k).miss_reason);
            assert(check == check_at(e, g, c, i as int));
        }
        let mismatch = check.missing || check.metadata || check.hit_state || check.material
            || check.chunk || check.distance || check.miss_reason;
        let first = match t.first_mismatch {
            Some(f) => Some(f),
            None => if mismatch {
                Some(i)
            } else {
                None
            },
        };
        t = RayDiagTally {
            mismatches: bump(t.mismatches, mismatch, Ghost(bound)),
            missing: bump(t.missing, check.missing, Ghost(bound)),
            hit_state: bump(t.hit_state, check.hit_state, Ghost(bound)),
            material: bump(t.material, check.material, Ghost(bound)),
            chunk: bump(t.chunk, check.chunk, Ghost(bound)),
            distance: bump(t.distance, check.distance, Ghost(bound)),
            metadata: bump(t.metadata, check.metadata, Ghost(bound)),
            miss_reason: bump(t.miss_reason, check.miss_reason, Ghost(bound)),
            first_mismatch: first,
        };
        i = i + 1;
    }
    t
}

/// A diagnostics round is logged when something mismatched, when nothing was logged yet,
/// or when at least `interval` frames passed since the last log.
pub open spec fn log_due_spec(mismatches: usize, last_log_frame: Option<u64>, now_frame: u64, interval: u64) -> bool {
    mismatches > 0 || match last_log_frame {
        None => true,
        Some(last) => (if now_frame >= last { now_frame - last } else { 0 }) >= interval,
    }
}

/// Whether a diagnostics round is logged (see `log_due_spec`).
pub fn diag_log_due(mismatches: usize, last_log_frame: Option<u64>, now_frame: u64, interval: u64) -> (r: bool)
    ensures
        r == log_due_spec(mismatches, last_log_frame, now_frame, interval),
{
    mismatches > 0 || match last_log_frame {
        None => true,
        Some(last) => now_frame.saturating_sub(last) >= interval,
    }
}

/// Every count of a tally is at most the number of samples, a sample that is missing or
/// disagrees in any field is a mismatch, and a first mismatch exists exactly when some
/// sample mismatches.
pub proof fn lemma_tally_consistent(
    expected: Seq<RayDiagRecord>,
    gpu: Seq<Option<RayDiagRecord>>,
    close: Seq<bool>,
    n: int,
)
    requires
        0 <= n <= usize::MAX,
    ensures
        count_where(0, n, |i: int| is_mismatch(check_at(expected, gpu, close, i))) <= n,
        first_mismatch_in(expected, gpu, close, n) is None <==> count_where(
            0,
            n,
            |i: int| is_mismatch(check_at(expected, gpu, close, i)),
        ) == 0,
        first_mismatch_in(expected, gpu, close, n) matches Some(f) ==> f < n && is_mismatch(
            check_at(expected, gpu, close, f as int),
        ),
    decreases n,
{
    if n > 0 {
        lemma_tally_consistent(expected, gpu, close, n - 1);
    }
}

} // verus!
