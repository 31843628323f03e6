use std::ops::Range;
use vstd::prelude::*;
use crate::bvh_topology::count_where;

verus! {

/// `a` clamped to at most `b`.
pub open spec fn min_int(a: int, b: int) -> int {
    if a <= b {
        a
    } else {
        b
    }
}

/// The part of `range` that lies below `len`, or `None` when that part is empty (or there
/// is no range).
pub open spec fn clamped_range(range: Option<Range<usize>>, len: usize) -> Option<(int, int)> {
    match range {
        None => None,
        Some(r) => {
            let start = min_int(r.start as int, len as int);
            let end = min_int(r.end as int, len as int);
            if start >= end {
                None
            } else {
                Some((start, end))
            }
        },
    }
}

/// View of an optional range as a pair of bounds.
pub open spec fn range_bounds(r: Option<Range<usize>>) -> Option<(int, int)> {
    match r {
        None => None,
        Some(r) => Some((r.start as int, r.end as int)),
    }
}

/// Clamp a dirty range to the first `len` elements (see `clamped_range`).
pub fn clamp_dirty_range(range: Option<Range<usize>>, len: usize) -> (r: Option<Range<usize>>)
    ensures
        range_bounds(r) == clamped_range(range, len),
{
    let range = match range {
        Some(r) => r,
        None => return None,
    };
    let start = if range.start < len {
        range.start
    } else {
        len
    };
    let end = if range.end < len {
        range.end
    } else {
        len
    };
    if start >= end {
        return None;
    }
    Some(Range { start, end })
}

/// Clamping is idempotent, and a clamped range is a non-empty part of both the input
/// range and `0..len`.
pub proof fn lemma_clamp_dirty_range_idempotent(range: Option<Range<usize>>, len: usize)
    ensures
        clamped_range(range, len) matches Some((s, e)) ==> {
            &&& range matches Some(r)
            &&& r.start <= s < e <= r.end
            &&& e <= len
            &&& clamped_range(Some(Range { start: s as usize, end: e as usize }), len) == Some(
                (s, e),
            )
        },
{
}

/// The destination and source spans of a sparse write of `values_len` values at `start`
/// into a buffer whose usable length is `limit`: the write is cut at `limit`, and is
/// dropped when nothing of it lands below `limit`.
pub open spec fn write_span(start: u32, values_len: usize, limit: usize) -> Option<(int, int, int)> {
    if values_len == 0 || limit == 0 || start >= limit {
        None
    } else {
        let end = min_int(start + values_len, limit as int);
        Some((start as int, end, end - start))
    }
}

/// View of a pair of ranges as (destination start, destination end, source length).
pub open spec fn span_bounds(r: Option<(Range<usize>, Range<usize>)>) -> Option<(int, int, int)> {
    match r {
        None => None,
        Some((d, s)) => Some((d.start as int, d.end as int, s.end - s.start)),
    }
}

/// Destination and source ranges of a clamped sparse write (see `write_span`); the source
/// range always starts at 0.
pub fn clamp_write_span(start: u32, values_len: usize, limit: usize) -> (r: Option<
    (Range<usize>, Range<usize>),
>)
    ensures
        span_bounds(r) == write_span(start, values_len, limit),
        r matches Some((_, src)) ==> src.start == 0,
{
    if values_len == 0 || limit == 0 {
        return None;
    }
    let dst_start = if (start as usize) < limit {
        start as usize
    } else {
        limit
    };
    if dst_start >= limit {
        return None;
    }
    let sum = dst_start.saturating_add(values_len);
    let dst_end = if sum < limit {
        sum
    } else {
        limit
    };
    if dst_end <= dst_start {
        return None;
    }
    let src_len = dst_end - dst_start;
    Some((Range { start: dst_start, end: dst_end }, Range { start: 0, end: src_len }))
}

/// A clamped write stays inside the buffer and inside the written values, and copies as
/// many values as it covers.
pub proof fn lemma_write_span_bounds(start: u32, values_len: usize, limit: usize)
    ensures
        write_span(start, values_len, limit) matches Some((ds, de, n)) ==> {
            &&& ds == start
            &&& ds < de <= limit
            &&& n == de - ds
            &&& 0 < n <= values_len
        },
        write_span(start, values_len, limit) is None <==> (values_len == 0 || start >= limit),
{
}

/// The buffer after a sparse write: positions in the clamped destination span take the
/// written values in order; all others keep their old value.
pub open spec fn buffer_after_write<T>(old: Seq<T>, start: u32, values: Seq<T>, limit: usize) -> Seq<
    T,
> {
    match write_span(start, values.len() as usize, limit) {
        None => old,
        Some((ds, de, _)) => Seq::new(
            old.len(),
            |p: int|
                if ds <= p < de {
                    values[p - ds]
                } else {
                    old[p]
                },
        ),
    }
}

/// Apply a sparse write to `buffer`, clamped at `limit` (see `buffer_after_write`).
pub fn apply_clamped_write<T: Copy>(buffer: &mut Vec<T>, start: u32, values: &[T], limit: usize)
    requires
        limit <= old(buffer).len(),
    ensures
        final(buffer)@ == buffer_after_write(old(buffer)@, start, values@, limit),
{
    let ghost orig = buffer@;
    match clamp_write_span(start, values.len(), limit) {
        None => {
            assert(buffer@ =~= buffer_after_write(orig, start, values@, limit));
        },
        Some((dst, src)) => {
            let n = src.end;
            let mut k: usize = 0;
            while k < n
                invariant
                    dst.start as int + n as int == dst.end as int,
                    dst.end <= limit,
                    limit <= orig.len(),
                    n <= values.len(),
                    0 <= k <= n,
                    buffer@.len() == orig.len(),
                    forall|p: int|
                        0 <= p < orig.len() ==> #[trigger] buffer@[p] == if dst.start <= p
                            < dst.start + k {
                            values@[p - dst.start]
                        } else {
                            orig[p]
                        },
                decreases n - k,
            {
                buffer.set(dst.start + k, values[k]);
                k = k + 1;
            }
            assert(buffer@ =~= buffer_after_write(orig, start, values@, limit));
        },
    }
}

/// Applying the same sparse write twice leaves the buffer as applying it once.
pub proof fn lemma_apply_write_idempotent<T>(old: Seq<T>, start: u32, values: Seq<T>, limit: usize)
    requires
        limit <= old.len(),
        values.len() <= usize::MAX,
    ensures
        buffer_after_write(buffer_after_write(old, start, values, limit), start, values, limit)
            == buffer_after_write(old, start, values, limit),
{
    let once = buffer_after_write(old, start, values, limit);
    let twice = buffer_after_write(once, start, values, limit);
    assert(twice =~= once);
}

/// The range re-uploaded for one voxel buffer: the clamped dirty range when there is one,
/// otherwise all `count` elements (none when `count` is zero).
pub open spec fn upload_range(dirty: Option<Range<usize>>, count: usize) -> Option<(int, int)> {
    match clamped_range(dirty, count) {
        Some(r) => Some(r),
        None => if count > 0 {
            Some((0, count as int))
        } else {
            None
        },
    }
}

/// The range of a voxel buffer to re-upload (see `upload_range`).
pub fn dirty_upload_range(dirty: Option<Range<usize>>, count: usize) -> (r: Option<Range<usize>>)
    ensures
        range_bounds(r) == upload_range(dirty, count),
{
    match clamp_dirty_range(dirty, count) {
        Some(r) => Some(r),
        None => if count > 0 {
            Some(Range { start: 0, end: count })
        } else {
            None
        },
    }
}

/// Copy `src[r]` into `dst[r]` for the upload range `r`.
pub fn copy_upload_range<T: Copy>(dst: &mut Vec<T>, src: &[T], range: Range<usize>)
    requires
        range.start <= range.end <= src.len(),
        range.end <= old(dst).len(),
    ensures
        final(dst)@.len() == old(dst)@.len(),
        forall|p: int|
            0 <= p < old(dst)@.len() ==> #[trigger] final(dst)@[p] == if range.start <= p
                < range.end {
                src@[p]
            } else {
                old(dst)@[p]
            },
{
    let ghost orig = dst@;
    let mut k = range.start;
    while k < range.end
        invariant
            range.start <= k <= range.end,
            range.end <= src.len(),
            range.end <= orig.len(),
            dst@.len() == orig.len(),
            forall|p: int|
                0 <= p < orig.len() ==> #[trigger] dst@[p] == if range.start <= p < k {
                    src@[p]
                } else {
                    orig[p]
                },
        decreases range.end - k,
    {
        dst.set(k, src[k]);
        k = k + 1;
    }
}

// ---------------------------------------------------------------------------
// Capacity growth
// ---------------------------------------------------------------------------

/// Capacity reached by doubling `cap` until it is at least `required`; a doubling that
/// would overflow saturates at `usize::MAX`.
pub open spec fn doubled_capacity(cap: int, required: int) -> int
    decreases (if required > cap {
        required - cap
    } else {
        0
    }),
{
    if cap <= 0 || cap >= required {
        cap
    } else if cap * 2 > usize::MAX {
        usize::MAX as int
    } else {
        doubled_capacity(cap * 2, required)
    }
}

/// The capacity a buffer of `current` elements grows to so that it holds `required`: itself
/// (at least 1) when large enough, otherwise the doubling of it (see `doubled_capacity`).
pub open spec fn grown_capacity(current: int, required: int) -> int {
    let base = if current < 1 {
        1
    } else {
        current
    };
    if current >= required {
        base
    } else {
        doubled_capacity(base, required)
    }
}

proof fn lemma_doubled_capacity_bounds(cap: int, required: int)
    requires
        1 <= cap <= usize::MAX,
        required <= usize::MAX,
    ensures
        doubled_capacity(cap, required) >= required,
        doubled_capacity(cap, required) >= cap,
        doubled_capacity(cap, required) <= usize::MAX,
    decreases (if required > cap {
        required - cap
    } else {
        0
    }),
{
    if cap < required && cap * 2 <= usize::MAX {
        lemma_doubled_capacity_bounds(cap * 2, required);
    }
}

/// Capacity to grow a buffer to (see `grown_capacity`).
pub fn next_grow_capacity(current: usize, required: usize) -> (r: usize)
    ensures
        r == grown_capacity(current as int, required as int),
{
    if current >= required {
        return if current < 1 {
            1
        } else {
            current
        };
    }
    let mut cap: usize = if current < 1 {
        1
    } else {
        current
    };
    while cap < required
        invariant
            1 <= cap,
            grown_capacity(current as int, required as int) == doubled_capacity(
                cap as int,
                required as int,
            ),
        decreases (if required > cap {
            required - cap
        } else {
            0
        }),
    {
        let next = if cap > usize::MAX / 2 {
            usize::MAX
        } else {
            cap * 2
        };
        if next <= cap {
            return required;
        }
        cap = next;
    }
    cap
}

/// A grown capacity holds what is required, never shrinks below the current capacity,
/// and growing again for the same requirement changes nothing.
pub proof fn lemma_grown_capacity(current: usize, required: usize)
    ensures
        grown_capacity(current as int, required as int) >= required,
        grown_capacity(current as int, required as int) >= current,
        grown_capacity(current as int, required as int) >= 1,
        grown_capacity(current as int, required as int) <= usize::MAX,
        grown_capacity(grown_capacity(current as int, required as int), required as int)
            == grown_capacity(current as int, required as int),
{
    let base: int = if current < 1 {
        1
    } else {
        current as int
    };
    if current < required {
        lemma_doubled_capacity_bounds(base, required as int);
    }
}

/// Element capacities of the voxel buffers of one frame.
#[derive(Copy, Clone, Debug, PartialEq, Eq, Structural)]
pub struct VoxelBufferCapacities {
    pub dense_chunks: usize,
    pub leaf_headers: usize,
    pub region_bvh_nodes: usize,
    pub leaf_chunk_entries: usize,
}

/// The capacities grow field by field (see `grown_capacity`).
pub open spec fn grown_capacities(
    current: VoxelBufferCapacities,
    required: VoxelBufferCapacities,
) -> VoxelBufferCapacities {
    VoxelBufferCapacities {
        dense_chunks: grown_capacity(current.dense_chunks as int, required.dense_chunks as int)
            as usize,
        leaf_headers: grown_capacity(current.leaf_headers as int, required.leaf_headers as int)
            as usize,
        region_bvh_nodes: grown_capacity(
            current.region_bvh_nodes as int,
            required.region_bvh_nodes as int,
        ) as usize,
        leaf_chunk_entries: grown_capacity(
            current.leaf_chunk_entries as int,
            required.leaf_chunk_entries as int,
        ) as usize,
    }
}

impl VoxelBufferCapacities {
    /// Capacities grown to hold `required` (see `grown_capacities`).
    pub fn grown_to(self, required: VoxelBufferCapacities) -> (r: VoxelBufferCapacities)
        ensures
            r == grown_capacities(self, required),
    {
        VoxelBufferCapacities {
            dense_chunks: next_grow_capacity(self.dense_chunks, required.dense_chunks),
            leaf_headers: next_grow_capacity(self.leaf_headers, required.leaf_headers),
            region_bvh_nodes: next_grow_capacity(self.region_bvh_nodes, required.region_bvh_nodes),
            leaf_chunk_entries: next_grow_capacity(
                self.leaf_chunk_entries,
                required.leaf_chunk_entries,
            ),
        }
    }
}

/// `value / divisor` rounded up, saturating `value + divisor - 1`; zero for a zero divisor.
pub open spec fn ceil_div_spec(value: usize, divisor: usize) -> int {
    if divisor == 0 {
        0
    } else {
        let sum = if value + divisor - 1 > usize::MAX {
            usize::MAX as int
        } else {
            value + divisor - 1
        };
        sum / (divisor as int)
    }
}

/// Rounded-up division (see `ceil_div_spec`).
pub fn ceil_div(value: usize, divisor: usize) -> (r: usize)
    ensures
        r == ceil_div_spec(value, divisor),
{
    if divisor == 0 {
        0
    } else {
        value.saturating_add(divisor - 1) / divisor
    }
}

/// Words each dense chunk owns in the per-word voxel buffers.
#[derive(Copy, Clone, Debug)]
pub struct ChunkWordStrides {
    pub occupancy_words: usize,
    pub material_words: usize,
    pub orientation_words: usize,
    pub macro_words: usize,
}

/// The largest of two integers.
pub open spec fn max_int(a: int, b: int) -> int {
    if a >= b {
        a
    } else {
        b
    }
}

/// Dense-chunk capacity a voxel frame needs: enough for its chunk headers and for each of
/// its word arrays at the given per-chunk strides.
pub open spec fn dense_chunks_required(
    chunk_headers: usize,
    occupancy_words: usize,
    material_words: usize,
    orientation_words: usize,
    macro_words: usize,
    strides: ChunkWordStrides,
) -> int {
    max_int(
        max_int(
            max_int(
                max_int(
                    chunk_headers as int,
                    ceil_div_spec(occupancy_words, strides.occupancy_words),
                ),
                ceil_div_spec(material_words, strides.material_words),
            ),
            ceil_div_spec(orientation_words, strides.orientation_words),
        ),
        ceil_div_spec(macro_words, strides.macro_words),
    )
}

/// Dense-chunk capacity a voxel frame needs (see `dense_chunks_required`).
pub fn required_dense_chunks(
    chunk_headers: usize,
    occupancy_words: usize,
    material_words: usize,
    orientation_words: usize,
    macro_words: usize,
    strides: ChunkWordStrides,
) -> (r: usize)
    ensures
        r == dense_chunks_required(
            chunk_headers,
            occupancy_words,
            material_words,
            orientation_words,
            macro_words,
            strides,
        ),
{
    let mut r = chunk_headers;
    let a = ceil_div(occupancy_words, strides.occupancy_words);
    if a > r {
        r = a;
    }
    let b = ceil_div(material_words, strides.material_words);
    if b > r {
        r = b;
    }
    let c = ceil_div(orientation_words, strides.orientation_words);
    if c > r {
        r = c;
    }
    let d = ceil_div(macro_words, strides.macro_words);
    if d > r {
        r = d;
    }
    r
}

/// Lengths of the arrays of one voxel frame (or how many of them are uploaded).
#[derive(Copy, Clone, Debug, PartialEq, Eq, Structural)]
pub struct VoxelFrameLens {
    pub chunk_headers: usize,
    pub leaf_headers: usize,
    pub region_bvh_nodes: usize,
    pub leaf_chunk_entries: usize,
    pub occupancy_words: usize,
    pub material_words: usize,
    pub orientation_words: usize,
    pub macro_words: usize,
}

/// The buffer capacities a voxel frame needs: dense chunks for its headers and word
/// arrays, and one slot per leaf header, BVH node and leaf chunk entry.
pub open spec fn frame_required_caps(lens: VoxelFrameLens, strides: ChunkWordStrides) -> VoxelBufferCapacities {
    VoxelBufferCapacities {
        dense_chunks: dense_chunks_required(
            lens.chunk_headers,
            lens.occupancy_words,
            lens.material_words,
            lens.orientation_words,
            lens.macro_words,
            strides,
        ) as usize,
        leaf_headers: lens.leaf_headers,
        region_bvh_nodes: lens.region_bvh_nodes,
        leaf_chunk_entries: lens.leaf_chunk_entries,
    }
}

/// The buffer capacities a voxel frame needs (see `frame_required_caps`).
pub fn required_capacities(lens: VoxelFrameLens, strides: ChunkWordStrides) -> (r: VoxelBufferCapacities)
    ensures
        r == frame_required_caps(lens, strides),
{
    VoxelBufferCapacities {
        dense_chunks: required_dense_chunks(
            lens.chunk_headers,
            lens.occupancy_words,
            lens.material_words,
            lens.orientation_words,
            lens.macro_words,
            strides,
        ),
        leaf_headers: lens.leaf_headers,
        region_bvh_nodes: lens.region_bvh_nodes,
        leaf_chunk_entries: lens.leaf_chunk_entries,
    }
}

/// Words a buffer sized for `dense_chunks` chunks of `stride` words holds, with
/// saturation.
pub open spec fn word_capacity(dense_chunks: usize, stride: usize) -> int {
    if dense_chunks * stride > usize::MAX {
        usize::MAX as int
    } else {
        dense_chunks * stride
    }
}

/// How much of a voxel frame is uploaded: each array cut to its buffer's capacity.
pub open spec fn frame_counts(lens: VoxelFrameLens, caps: VoxelBufferCapacities, strides: ChunkWordStrides) -> VoxelFrameLens {
    VoxelFrameLens {
        chunk_headers: min_int(lens.chunk_headers as int, caps.dense_chunks as int) as usize,
        leaf_headers: min_int(lens.leaf_headers as int, caps.leaf_headers as int) as usize,
        region_bvh_nodes: min_int(lens.region_bvh_nodes as int, caps.region_bvh_nodes as int)
            as usize,
        leaf_chunk_entries: min_int(
            lens.leaf_chunk_entries as int,
            caps.leaf_chunk_entries as int,
        ) as usize,
        occupancy_words: min_int(
            lens.occupancy_words as int,
            word_capacity(caps.dense_chunks, strides.occupancy_words),
        ) as usize,
        material_words: min_int(
            lens.material_words as int,
            word_capacity(caps.dense_chunks, strides.material_words),
        ) as usize,
        orientation_words: min_int(
            lens.orientation_words as int,
            word_capacity(caps.dense_chunks, strides.orientation_words),
        ) as usize,
        macro_words: min_int(
            lens.macro_words as int,
            word_capacity(caps.dense_chunks, strides.macro_words),
        ) as usize,
    }
}

/// Some array of the frame does not fit its buffer.
pub open spec fn frame_truncated(lens: VoxelFrameLens, counts: VoxelFrameLens) -> bool {
    lens != counts
}

fn word_cap(dense_chunks: usize, stride: usize) -> (r: usize)
    ensures
        r == word_capacity(dense_chunks, stride),
{
    match dense_chunks.checked_mul(stride) {
        Some(v) => v,
        None => usize::MAX,
    }
}

fn min_usize(a: usize, b: usize) -> (r: usize)
    ensures
        r == min_int(a as int, b as int),
{
    if a < b {
        a
    } else {
        b
    }
}

/// How much of a voxel frame fits the buffers, and whether anything was cut (see
/// `frame_counts`).
pub fn cut_to_capacities(lens: VoxelFrameLens, caps: VoxelBufferCapacities, strides: ChunkWordStrides) -> (r: (VoxelFrameLens, bool))
    ensures
        r.0 == frame_counts(lens, caps, strides),
        r.1 == frame_truncated(lens, r.0),
{
    let counts = VoxelFrameLens {
        chunk_headers: min_usize(lens.chunk_headers, caps.dense_chunks),
        leaf_headers: min_usize(lens.leaf_headers, caps.leaf_headers),
        region_bvh_nodes: min_usize(lens.region_bvh_nodes, caps.region_bvh_nodes),
        leaf_chunk_entries: min_usize(lens.leaf_chunk_entries, caps.leaf_chunk_entries),
        occupancy_words: min_usize(lens.occupancy_words, word_cap(caps.dense_chunks, strides.occupancy_words)),
        material_words: min_usize(lens.material_words, word_cap(caps.dense_chunks, strides.material_words)),
        orientation_words: min_usize(
            lens.orientation_words,
            word_cap(caps.dense_chunks, strides.orientation_words),
        ),
        macro_words: min_usize(lens.macro_words, word_cap(caps.dense_chunks, strides.macro_words)),
    };
    let truncated = lens.chunk_headers > counts.chunk_headers || lens.leaf_headers
        > counts.leaf_headers || lens.region_bvh_nodes > counts.region_bvh_nodes
        || lens.leaf_chunk_entries > counts.leaf_chunk_entries || lens.occupancy_words
        > counts.occupancy_words || lens.material_words > counts.material_words
        || lens.orientation_words > counts.orientation_words || lens.macro_words
        > counts.macro_words;
    (counts, truncated)
}

proof fn lemma_ceil_div_covers(value: usize, divisor: usize, chunks: usize)
    requires
        divisor >= 1,
        value + divisor - 1 <= usize::MAX,
        chunks >= ceil_div_spec(value, divisor),
    ensures
        word_capacity(chunks, divisor) >= value,
{
    let q = (value + divisor - 1) / (divisor as int);
    assert(q * divisor >= value) by (nonlinear_arith)
        requires
            divisor >= 1,
            q == (value + divisor - 1) / (divisor as int),
            value >= 0,
    ;
    assert(chunks * divisor >= q * divisor) by (nonlinear_arith)
        requires
            chunks >= q,
            divisor >= 1,
    ;
}

/// Growing the buffers to what a frame needs makes the whole frame fit: after
/// `grown_to(required_capacities(..))` nothing of the frame is cut. This holds whenever
/// the word strides are positive and no word count is so close to `usize::MAX` that
/// rounding it up to whole chunks saturates.
pub proof fn lemma_grown_buffers_hold_frame(lens: VoxelFrameLens, current: VoxelBufferCapacities, strides: ChunkWordStrides)
    requires
        strides.occupancy_words >= 1,
        strides.material_words >= 1,
        strides.orientation_words >= 1,
        strides.macro_words >= 1,
        lens.occupancy_words + strides.occupancy_words - 1 <= usize::MAX,
        lens.material_words + strides.material_words - 1 <= usize::MAX,
        lens.orientation_words + strides.orientation_words - 1 <= usize::MAX,
        lens.macro_words + strides.macro_words - 1 <= usize::MAX,
    ensures
        ({
            let caps = grown_capacities(current, frame_required_caps(lens, strides));
            !frame_truncated(lens, frame_counts(lens, caps, strides))
        }),
{
    let req = frame_required_caps(lens, strides);
    let caps = grown_capacities(current, req);
    lemma_grown_capacity(current.dense_chunks, req.dense_chunks);
    lemma_grown_capacity(current.leaf_headers, req.leaf_headers);
    lemma_grown_capacity(current.region_bvh_nodes, req.region_bvh_nodes);
    lemma_grown_capacity(current.leaf_chunk_entries, req.leaf_chunk_entries);
    lemma_ceil_div_covers(lens.occupancy_words, strides.occupancy_words, caps.dense_chunks);
    lemma_ceil_div_covers(lens.material_words, strides.material_words, caps.dense_chunks);
    lemma_ceil_div_covers(lens.orientation_words, strides.orientation_words, caps.dense_chunks);
    lemma_ceil_div_covers(lens.macro_words, strides.macro_words, caps.dense_chunks);
    assert(frame_counts(lens, caps, strides) == lens);
}

// ---------------------------------------------------------------------------
// Dropping invalid instances
// ---------------------------------------------------------------------------

/// The items of `items[..n]` whose flag in `keep` is set, in order.
pub open spec fn kept_items<T>(items: Seq<T>, keep: Seq<bool>, n: int) -> Seq<T>
    decreases n,
{
    if n <= 0 {
        Seq::empty()
    } else if keep[n - 1] {
        kept_items(items, keep, n - 1).push(items[n - 1])
    } else {
        kept_items(items, keep, n - 1)
    }
}

/// Number of cleared flags among the first `n`.
pub open spec fn dropped_count(keep: Seq<bool>, n: int) -> nat {
    count_where(0, n, |i: int| !keep[i])
}

/// Keep the items whose flag is set, in order, and add the number of the others to
/// `dropped` (the instances with non-finite transforms are dropped this way).
pub fn retain_flagged<T: Copy>(items: &Vec<T>, keep: &Vec<bool>, dropped: &mut usize) -> (r: Vec<T>)
    requires
        keep.len() == items.len(),
        *old(dropped) + dropped_count(keep@, keep.len() as int) <= usize::MAX,
    ensures
        r@ == kept_items(items@, keep@, items.len() as int),
        *final(dropped) == *old(dropped) + dropped_count(keep@, keep.len() as int),
{
    let ghost start = *dropped;
    let mut out: Vec<T> = Vec::new();
    let mut i: usize = 0;
    while i < items.len()
        invariant
            keep.len() == items.len(),
            start + dropped_count(keep@, keep.len() as int) <= usize::MAX,
            i <= items.len(),
            out@ == kept_items(items@, keep@, i as int),
            *dropped == start + dropped_count(keep@, i as int),
        decreases items.len() - i,
    {
        proof {
            lemma_dropped_count_monotone(keep@, i + 1, keep.len() as int);
        }
        if keep[i] {
            out.push(items[i]);
        } else {
            *dropped = *dropped + 1;
        }
        i = i + 1;
    }
    out
}

proof fn lemma_dropped_count_monotone(keep: Seq<bool>, m: int, n: int)
    requires
        0 <= m <= n,
    ensures
        dropped_count(keep, m) <= dropped_count(keep, n),
    decreases n - m,
{
    if m < n {
        lemma_dropped_count_monotone(keep, m, n - 1);
    }
}

/// When every flag is set nothing is dropped: the items come back unchanged and the
/// count stays where it was.
pub proof fn lemma_retain_all_is_identity<T>(items: Seq<T>, keep: Seq<bool>, n: int)
    requires
        0 <= n <= items.len(),
        n <= keep.len(),
        forall|i: int| 0 <= i < n ==> #[trigger] keep[i],
    ensures
        kept_items(items, keep, n) == items.take(n),
        dropped_count(keep, n) == 0,
    decreases n,
{
    if n > 0 {
        lemma_retain_all_is_identity(items, keep, n - 1);
        assert(items.take(n - 1).push(items[n - 1]) =~= items.take(n));
    }
}

// ---------------------------------------------------------------------------
// Voxel metadata uploads
// ---------------------------------------------------------------------------

/// How a frame slot's voxel buffers are brought up to date.
#[derive(Copy, Clone, Debug, PartialEq, Eq, Structural)]
pub enum VoxelUploadMode {
    /// The slot already holds this generation: nothing is uploaded.
    Skip,
    /// Apply the frame's batch of clamped writes.
    Batch,
    /// Upload each buffer's dirty range (its whole used range where none is given).
    Ranges,
    /// Upload every buffer's whole used range.
    Full,
}

/// A slot that already holds the frame's metadata generation is skipped. A slot that has
/// held none (new or regrown buffers) gets everything, since batches and dirty ranges
/// only describe changes. Otherwise a mutation batch is applied when there is one, else
/// the dirty ranges, else everything.
pub open spec fn upload_mode_spec(last_generation: Option<u64>, generation: u64, has_batch: bool, has_dirty_ranges: bool) -> VoxelUploadMode {
    if last_generation == Some(generation) {
        VoxelUploadMode::Skip
    } else if last_generation is None {
        VoxelUploadMode::Full
    } else if has_batch {
        VoxelUploadMode::Batch
    } else if has_dirty_ranges {
        VoxelUploadMode::Ranges
    } else {
        VoxelUploadMode::Full
    }
}

/// How a frame slot's voxel buffers are brought up to date (see `upload_mode_spec`).
pub fn voxel_upload_mode(last_generation: Option<u64>, generation: u64, has_batch: bool, has_dirty_ranges: bool) -> (r: VoxelUploadMode)
    ensures
        r == upload_mode_spec(last_generation, generation, has_batch, has_dirty_ranges),
{
    match last_generation {
        Some(g) => if g == generation {
            VoxelUploadMode::Skip
        } else if has_batch {
            VoxelUploadMode::Batch
        } else if has_dirty_ranges {
            VoxelUploadMode::Ranges
        } else {
            VoxelUploadMode::Full
        },
        None => VoxelUploadMode::Full,
    }
}

/// After a slot uploads a generation it records it, so the same generation is skipped
/// next time; a slot without a recorded generation never takes the incremental paths.
pub proof fn lemma_upload_mode_laws(last_generation: Option<u64>, generation: u64, has_batch: bool, has_dirty_ranges: bool)
    ensures
        upload_mode_spec(Some(generation), generation, has_batch, has_dirty_ranges)
            == VoxelUploadMode::Skip,
        last_generation is None ==> upload_mode_spec(last_generation, generation, has_batch, has_dirty_ranges)
            == VoxelUploadMode::Full,
        upload_mode_spec(last_generation, generation, has_batch, has_dirty_ranges) == VoxelUploadMode::Skip
            <==> last_generation == Some(generation),
{
}

/// The region BVH root a frame uses: the given root when it names one of the uploaded
/// nodes, none otherwise (the frame then marks the root invalid).
pub fn checked_bvh_root(root_index: u32, node_count: usize) -> (r: Option<u32>)
    ensures
        (root_index < node_count) ==> r == Some(root_index),
        !(root_index < node_count) ==> r is None,
{
    if (root_index as usize) < node_count {
        Some(root_index)
    } else {
        None
    }
}

} // verus!
