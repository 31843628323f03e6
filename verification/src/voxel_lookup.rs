use vstd::prelude::*;

verus! {

/// Chunk-entry word that marks a chunk with no voxels.
pub const VTE_LEAF_CHUNK_ENTRY_EMPTY: u32 = 0;

/// Chunk-entry bit that marks a chunk filled with one material (stored in the other bits).
pub const VTE_LEAF_CHUNK_ENTRY_UNIFORM_FLAG: u32 = 0x8000_0000;

/// Leaf kind: the whole leaf region is one material.
pub const VTE_LEAF_KIND_UNIFORM: u32 = 1;

/// Leaf kind: the leaf region is an array of chunk entries.
pub const VTE_LEAF_KIND_VOXEL_CHUNK_ARRAY: u32 = 2;

/// Chunk-header flag: every voxel of the chunk is solid, so no occupancy words are stored.
pub const VTE_CHUNK_FLAG_FULL: u32 = 1;

/// Side length of a dense chunk in voxels.
pub const VTE_CHUNK_SIZE: i32 = 8;

/// The integer part of a region leaf header: which chunk coordinates it covers and
/// where its payload lives.
#[derive(Copy, Clone, Debug)]
pub struct GpuVoxelLeafHeader {
    /// Inclusive lower corner of the covered chunk box.
    pub min_chunk_coord: [i32; 4],
    /// Inclusive upper corner of the covered chunk box.
    pub max_chunk_coord: [i32; 4],
    /// First chunk-entry word of this leaf in the shared entry array.
    pub chunk_entry_offset: u32,
    /// One of the `VTE_LEAF_KIND_*` values.
    pub leaf_kind: u32,
    /// Material of a uniform leaf (0 means empty).
    pub uniform_material: u32,
}

/// The integer part of a dense chunk header.
#[derive(Copy, Clone, Debug)]
pub struct GpuVoxelChunkHeader {
    /// `VTE_CHUNK_FLAG_*` bits.
    pub flags: u32,
    /// First occupancy word of this chunk.
    pub occupancy_word_offset: u32,
    /// First material word of this chunk.
    pub material_word_offset: u32,
    /// First macro-cell occupancy word of this chunk.
    pub macro_word_offset: u32,
    /// Lower corner of the solid voxels, local to the chunk.
    pub solid_local_min: [i32; 4],
    /// Upper corner of the solid voxels, local to the chunk.
    pub solid_local_max: [i32; 4],
}

/// What a chunk coordinate holds according to the leaf table.
#[derive(Copy, Clone, Debug, PartialEq, Eq, Structural)]
pub enum VteCpuChunkPayload {
    Empty,
    /// The chunk is filled with this (non-zero) material.
    Uniform(u32),
    /// The chunk is stored densely at this chunk-header index.
    Dense(u32),
}

// ---------------------------------------------------------------------------
// Leaf chunk entries
// ---------------------------------------------------------------------------

/// Offset of `c` from the leaf's lower corner along `axis`.
pub open spec fn leaf_local(leaf: GpuVoxelLeafHeader, c: [i32; 4], axis: int) -> int {
    c[axis] - leaf.min_chunk_coord[axis]
}

/// Number of chunks the leaf spans along `axis` (zero for an inverted box).
pub open spec fn leaf_dim(leaf: GpuVoxelLeafHeader, axis: int) -> int {
    let d = leaf.max_chunk_coord[axis] - leaf.min_chunk_coord[axis] + 1;
    if d < 0 {
        0
    } else {
        d
    }
}

/// `c` lies in the leaf's box along `axis`.
pub open spec fn leaf_axis_inside(leaf: GpuVoxelLeafHeader, c: [i32; 4], axis: int) -> bool {
    0 <= leaf_local(leaf, c, axis) < leaf_dim(leaf, axis)
}

/// `c` lies in the leaf's box.
pub open spec fn leaf_contains(leaf: GpuVoxelLeafHeader, c: [i32; 4]) -> bool {
    &&& leaf_axis_inside(leaf, c, 0)
    &&& leaf_axis_inside(leaf, c, 1)
    &&& leaf_axis_inside(leaf, c, 2)
    &&& leaf_axis_inside(leaf, c, 3)
}

/// Row-major (x fastest) index of `c` inside the leaf's box.
pub open spec fn leaf_linear(leaf: GpuVoxelLeafHeader, c: [i32; 4]) -> int {
    leaf_local(leaf, c, 0) + leaf_dim(leaf, 0) * (leaf_local(leaf, c, 1) + leaf_dim(leaf, 1) * (
    leaf_local(leaf, c, 2) + leaf_dim(leaf, 2) * leaf_local(leaf, c, 3)))
}

/// The chunk-entry word of `c` in `leaf`, or the empty entry when `c` is outside the
/// leaf's box or the entry lies past the usable entries.
pub open spec fn leaf_chunk_entry(
    leaf: GpuVoxelLeafHeader,
    c: [i32; 4],
    entries: Seq<u32>,
    entry_count: u32,
) -> u32 {
    if !leaf_contains(leaf, c) {
        VTE_LEAF_CHUNK_ENTRY_EMPTY
    } else {
        let idx = leaf.chunk_entry_offset + leaf_linear(leaf, c);
        if idx >= entry_count || idx >= entries.len() {
            VTE_LEAF_CHUNK_ENTRY_EMPTY
        } else {
            entries[idx]
        }
    }
}

/// The lookup's integer arithmetic stays in range: the per-axis offsets fit in `i32`,
/// and, for a coordinate at or above the lower corner, the extents fit in `i32` and the
/// entry index of a contained coordinate fits in `usize`.
pub open spec fn leaf_entry_lookup_in_range(leaf: GpuVoxelLeafHeader, c: [i32; 4]) -> bool {
    &&& forall|a: int| 0 <= a < 4 ==> i32::MIN <= #[trigger] leaf_local(leaf, c, a) <= i32::MAX
    &&& (forall|a: int| 0 <= a < 4 ==> 0 <= #[trigger] leaf_local(leaf, c, a)) ==> {
        &&& forall|a: int|
            0 <= a < 4 ==> i32::MIN <= #[trigger] (leaf.max_chunk_coord[a]
                - leaf.min_chunk_coord[a]) < i32::MAX
        &&& leaf_contains(leaf, c) ==> leaf.chunk_entry_offset + leaf_linear(leaf, c)
            <= usize::MAX
    }
}

proof fn lemma_partial_le(a: int, b: int, c: int)
    requires
        0 <= a,
        1 <= b,
        0 <= c,
    ensures
        b * c <= a + b * c,
        c <= a + b * c,
{
    assert(c <= b * c) by (nonlinear_arith)
        requires
            1 <= b,
            0 <= c,
    ;
}

/// Chunk-entry word of `chunk_coord` in `leaf` (see `leaf_chunk_entry`).
pub fn vte_cpu_lookup_leaf_chunk_entry(
    leaf: &GpuVoxelLeafHeader,
    chunk_coord: [i32; 4],
    leaf_chunk_entries: &[u32],
    leaf_chunk_entry_count: u32,
) -> (r: u32)
    requires
        leaf_entry_lookup_in_range(*leaf, chunk_coord),
    ensures
        r == leaf_chunk_entry(*leaf, chunk_coord, leaf_chunk_entries@, leaf_chunk_entry_count),
{
    assert(i32::MIN <= leaf_local(*leaf, chunk_coord, 0) <= i32::MAX);
    assert(i32::MIN <= leaf_local(*leaf, chunk_coord, 1) <= i32::MAX);
    assert(i32::MIN <= leaf_local(*leaf, chunk_coord, 2) <= i32::MAX);
    assert(i32::MIN <= leaf_local(*leaf, chunk_coord, 3) <= i32::MAX);
    let local_x = chunk_coord[0] - leaf.min_chunk_coord[0];
    let local_y = chunk_coord[1] - leaf.min_chunk_coord[1];
    let local_z = chunk_coord[2] - leaf.min_chunk_coord[2];
    let local_w = chunk_coord[3] - leaf.min_chunk_coord[3];
    if local_x < 0 || local_y < 0 || local_z < 0 || local_w < 0 {
        return VTE_LEAF_CHUNK_ENTRY_EMPTY;
    }
    assert(forall|a: int| 0 <= a < 4 ==> 0 <= #[trigger] leaf_local(*leaf, chunk_coord, a));
    assert(i32::MIN <= leaf.max_chunk_coord[0] - leaf.min_chunk_coord[0] < i32::MAX);
    assert(i32::MIN <= leaf.max_chunk_coord[1] - leaf.min_chunk_coord[1] < i32::MAX);
    assert(i32::MIN <= leaf.max_chunk_coord[2] - leaf.min_chunk_coord[2] < i32::MAX);
    assert(i32::MIN <= leaf.max_chunk_coord[3] - leaf.min_chunk_coord[3] < i32::MAX);
    let ex = leaf.max_chunk_coord[0] - leaf.min_chunk_coord[0] + 1;
    let ey = leaf.max_chunk_coord[1] - leaf.min_chunk_coord[1] + 1;
    let ez = leaf.max_chunk_coord[2] - leaf.min_chunk_coord[2] + 1;
    let ew = leaf.max_chunk_coord[3] - leaf.min_chunk_coord[3] + 1;
    let dim_x: usize = if ex < 0 { 0 } else { ex as usize };
    let dim_y: usize = if ey < 0 { 0 } else { ey as usize };
    let dim_z: usize = if ez < 0 { 0 } else { ez as usize };
    let dim_w: usize = if ew < 0 { 0 } else { ew as usize };
    if local_x as usize >= dim_x || local_y as usize >= dim_y || local_z as usize >= dim_z
        || local_w as usize >= dim_w {
        return VTE_LEAF_CHUNK_ENTRY_EMPTY;
    }
    assert(leaf_contains(*leaf, chunk_coord));
    let ghost lx = local_x as int;
    let ghost ly = local_y as int;
    let ghost lz = local_z as int;
    let ghost lw = local_w as int;
    let ghost t3 = lz + dim_z * lw;
    let ghost t2 = ly + dim_y * t3;
    let ghost t1 = lx + dim_x * t2;
    proof {
        assert(t1 == leaf_linear(*leaf, chunk_coord));
        assert(leaf.chunk_entry_offset + t1 <= usize::MAX);
        lemma_partial_le(lz, dim_z as int, lw);
        lemma_partial_le(ly, dim_y as int, t3);
        lemma_partial_le(lx, dim_x as int, t2);
    }
    let zw = dim_z * local_w as usize;
    let t3e = local_z as usize + zw;
    let yzw = dim_y * t3e;
    let t2e = local_y as usize + yzw;
    let xyzw = dim_x * t2e;
    let linear = local_x as usize + xyzw;
    let entry_index = leaf.chunk_entry_offset as usize + linear;
    if entry_index >= leaf_chunk_entry_count as usize || entry_index >= leaf_chunk_entries.len() {
        return VTE_LEAF_CHUNK_ENTRY_EMPTY;
    }
    leaf_chunk_entries[entry_index]
}

// ---------------------------------------------------------------------------
// Chunk payload lookup
// ---------------------------------------------------------------------------

/// `c` lies inside the leaf's inclusive box.
pub open spec fn leaf_box_contains(leaf: GpuVoxelLeafHeader, c: [i32; 4]) -> bool {
    &&& leaf.min_chunk_coord[0] <= c[0] <= leaf.max_chunk_coord[0]
    &&& leaf.min_chunk_coord[1] <= c[1] <= leaf.max_chunk_coord[1]
    &&& leaf.min_chunk_coord[2] <= c[2] <= leaf.max_chunk_coord[2]
    &&& leaf.min_chunk_coord[3] <= c[3] <= leaf.max_chunk_coord[3]
}

/// The leaf decides the payload of a coordinate in its box: it is a uniform leaf or a
/// chunk-array leaf.  Leaves of other kinds are passed over.
pub open spec fn leaf_decides(leaf: GpuVoxelLeafHeader, c: [i32; 4]) -> bool {
    leaf_box_contains(leaf, c) && (leaf.leaf_kind == VTE_LEAF_KIND_UNIFORM || leaf.leaf_kind
        == VTE_LEAF_KIND_VOXEL_CHUNK_ARRAY)
}

/// The payload a chunk-entry word encodes.
pub open spec fn payload_of_entry(encoded: u32, chunk_count: u32) -> VteCpuChunkPayload {
    if encoded & VTE_LEAF_CHUNK_ENTRY_UNIFORM_FLAG != 0 {
        let material = encoded & !VTE_LEAF_CHUNK_ENTRY_UNIFORM_FLAG;
        if material != 0 {
            VteCpuChunkPayload::Uniform(material)
        } else {
            VteCpuChunkPayload::Empty
        }
    } else if encoded == VTE_LEAF_CHUNK_ENTRY_EMPTY {
        VteCpuChunkPayload::Empty
    } else {
        let chunk_index = if encoded >= 1 {
            (encoded - 1) as u32
        } else {
            0u32
        };
        if chunk_index < chunk_count {
            VteCpuChunkPayload::Dense(chunk_index)
        } else {
            VteCpuChunkPayload::Empty
        }
    }
}

/// The payload a deciding leaf gives to `c`.
pub open spec fn payload_of_leaf(
    leaf: GpuVoxelLeafHeader,
    c: [i32; 4],
    entries: Seq<u32>,
    entry_count: u32,
    chunk_count: u32,
) -> VteCpuChunkPayload {
    if leaf.leaf_kind == VTE_LEAF_KIND_UNIFORM {
        if leaf.uniform_material != 0 {
            VteCpuChunkPayload::Uniform(leaf.uniform_material)
        } else {
            VteCpuChunkPayload::Empty
        }
    } else {
        payload_of_entry(leaf_chunk_entry(leaf, c, entries, entry_count), chunk_count)
    }
}

/// Number of leaves the lookup scans: the first `leaf_count` of them, at most all.
pub open spec fn scanned_leaf_count(leaves: Seq<GpuVoxelLeafHeader>, leaf_count: u32) -> int {
    if leaf_count < leaves.len() {
        leaf_count as int
    } else {
        leaves.len() as int
    }
}

/// The payload of `c` from the leaves `i..n`: the first leaf that decides `c` gives it;
/// with no such leaf the chunk is empty.
pub open spec fn payload_scan(
    leaves: Seq<GpuVoxelLeafHeader>,
    i: int,
    n: int,
    c: [i32; 4],
    entries: Seq<u32>,
    entry_count: u32,
    chunk_count: u32,
) -> VteCpuChunkPayload
    decreases n - i,
{
    if i >= n {
        VteCpuChunkPayload::Empty
    } else if leaf_decides(leaves[i], c) {
        payload_of_leaf(leaves[i], c, entries, entry_count, chunk_count)
    } else {
        payload_scan(leaves, i + 1, n, c, entries, entry_count, chunk_count)
    }
}

/// The payload of `c` according to the scanned leaves.
pub open spec fn chunk_payload(
    c: [i32; 4],
    leaves: Seq<GpuVoxelLeafHeader>,
    leaf_count: u32,
    entries: Seq<u32>,
    entry_count: u32,
    chunk_count: u32,
) -> VteCpuChunkPayload {
    payload_scan(
        leaves,
        0,
        scanned_leaf_count(leaves, leaf_count),
        c,
        entries,
        entry_count,
        chunk_count,
    )
}

/// Every scanned chunk-array leaf whose box holds `c` can be looked up without
/// arithmetic overflow.
pub open spec fn payload_lookup_in_range(
    c: [i32; 4],
    leaves: Seq<GpuVoxelLeafHeader>,
    leaf_count: u32,
) -> bool {
    forall|i: int|
        0 <= i < scanned_leaf_count(leaves, leaf_count) && leaf_box_contains(#[trigger] leaves[i], c)
            && leaves[i].leaf_kind == VTE_LEAF_KIND_VOXEL_CHUNK_ARRAY ==> leaf_entry_lookup_in_range(
            leaves[i],
            c,
        )
}

/// A dense payload always names a chunk header below `chunk_count`.
pub proof fn lemma_dense_payload_in_bounds(
    c: [i32; 4],
    leaves: Seq<GpuVoxelLeafHeader>,
    leaf_count: u32,
    entries: Seq<u32>,
    entry_count: u32,
    chunk_count: u32,
)
    ensures
        chunk_payload(c, leaves, leaf_count, entries, entry_count, chunk_count) matches
            VteCpuChunkPayload::Dense(idx) ==> idx < chunk_count,
        chunk_payload(c, leaves, leaf_count, entries, entry_count, chunk_count) matches
            VteCpuChunkPayload::Uniform(m) ==> m != 0,
{
    lemma_payload_scan_facts(
        leaves,
        0,
        scanned_leaf_count(leaves, leaf_count),
        c,
        entries,
        entry_count,
        chunk_count,
    );
}

proof fn lemma_payload_scan_facts(
    leaves: Seq<GpuVoxelLeafHeader>,
    i: int,
    n: int,
    c: [i32; 4],
    entries: Seq<u32>,
    entry_count: u32,
    chunk_count: u32,
)
    ensures
        payload_scan(leaves, i, n, c, entries, entry_count, chunk_count) matches
            VteCpuChunkPayload::Dense(idx) ==> idx < chunk_count,
        payload_scan(leaves, i, n, c, entries, entry_count, chunk_count) matches
            VteCpuChunkPayload::Uniform(m) ==> m != 0,
    decreases n - i,
{
    if i < n && !leaf_decides(leaves[i], c) {
        lemma_payload_scan_facts(leaves, i + 1, n, c, entries, entry_count, chunk_count);
    }
}

/// Payload of `chunk_coord` found by scanning the first `leaf_count` leaf headers
/// (see `chunk_payload`).
pub fn vte_cpu_lookup_chunk_payload_linear(
    chunk_coord: [i32; 4],
    leaf_headers: &[GpuVoxelLeafHeader],
    leaf_count: u32,
    leaf_chunk_entries: &[u32],
    leaf_chunk_entry_count: u32,
    chunk_count: u32,
) -> (r: VteCpuChunkPayload)
    requires
        payload_lookup_in_range(chunk_coord, leaf_headers@, leaf_count),
    ensures
        r == chunk_payload(
            chunk_coord,
            leaf_headers@,
            leaf_count,
            leaf_chunk_entries@,
            leaf_chunk_entry_count,
            chunk_count,
        ),
{
    let n: usize = if (leaf_count as usize) < leaf_headers.len() {
        leaf_count as usize
    } else {
        leaf_headers.len()
    };
    let ghost leaves = leaf_headers@;
    let ghost entries = leaf_chunk_entries@;
    let mut i: usize = 0;
    while i < n
        invariant
            n == scanned_leaf_count(leaves, leaf_count),
            n <= leaf_headers.len(),
            leaves == leaf_headers@,
            entries == leaf_chunk_entries@,
            0 <= i <= n,
            payload_lookup_in_range(chunk_coord, leaves, leaf_count),
            payload_scan(
                leaves,
                0,
                n as int,
                chunk_coord,
                entries,
                leaf_chunk_entry_count,
                chunk_count,
            ) == payload_scan(
                leaves,
                i as int,
                n as int,
                chunk_coord,
                entries,
                leaf_chunk_entry_count,
                chunk_count,
            ),
        decreases n - i,
    {
        let leaf = &leaf_headers[i];
        if chunk_coord[0] < leaf.min_chunk_coord[0] || chunk_coord[0] > leaf.max_chunk_coord[0]
            || chunk_coord[1] < leaf.min_chunk_coord[1] || chunk_coord[1]
            > leaf.max_chunk_coord[1] || chunk_coord[2] < leaf.min_chunk_coord[2]
            || chunk_coord[2] > leaf.max_chunk_coord[2] || chunk_coord[3]
            < leaf.min_chunk_coord[3] || chunk_coord[3] > leaf.max_chunk_coord[3] {
            i = i + 1;
            continue ;
        }
        if leaf.leaf_kind == VTE_LEAF_KIND_UNIFORM {
            return if leaf.uniform_material != 0 {
                VteCpuChunkPayload::Uniform(leaf.uniform_material)
            } else {
                VteCpuChunkPayload::Empty
            };
        }
        if leaf.leaf_kind != VTE_LEAF_KIND_VOXEL_CHUNK_ARRAY {
            i = i + 1;
            continue ;
        }
        assert(leaf_entry_lookup_in_range(leaves[i as int], chunk_coord));
        let encoded = vte_cpu_lookup_leaf_chunk_entry(
            leaf,
            chunk_coord,
            leaf_chunk_entries,
            leaf_chunk_entry_count,
        );
        if (encoded & VTE_LEAF_CHUNK_ENTRY_UNIFORM_FLAG) != 0 {
            let material = encoded & (!VTE_LEAF_CHUNK_ENTRY_UNIFORM_FLAG);
            return if material != 0 {
                VteCpuChunkPayload::Uniform(material)
            } else {
                VteCpuChunkPayload::Empty
            };
        }
        if encoded == VTE_LEAF_CHUNK_ENTRY_EMPTY {
            return VteCpuChunkPayload::Empty;
        }
        let chunk_index = encoded.saturating_sub(1);
        if chunk_index < chunk_count {
            return VteCpuChunkPayload::Dense(chunk_index);
        }
        return VteCpuChunkPayload::Empty;
    }
    VteCpuChunkPayload::Empty
}

// ---------------------------------------------------------------------------
// Voxels inside a dense chunk
// ---------------------------------------------------------------------------

/// `x as u32` for an `i32`: two's-complement reinterpretation.
pub open spec fn u32_bits_of(x: int) -> int {
    if x >= 0 {
        x
    } else {
        x + 0x1_0000_0000
    }
}

proof fn lemma_i32_as_u32(x: i32)
    ensures
        (x as u32) as int == u32_bits_of(x as int),
{
    if x >= 0 {
        assert((x as u32) as int == x as int) by (bit_vector)
            requires
                x >= 0,
        ;
    } else {
        assert((x as u32) as int == x as int + 0x1_0000_0000) by (bit_vector)
            requires
                x < 0,
        ;
    }
}

/// Offset of voxel `v` from the chunk's lower corner along `axis`.
pub open spec fn voxel_local(v: [i32; 4], chunk_min: [i32; 4], axis: int) -> int {
    v[axis] - chunk_min[axis]
}

/// Bit index of a voxel inside its chunk: x + 8 y + 64 z + 512 w, with every local
/// offset read as an unsigned 32-bit value.
pub open spec fn voxel_bit_index(v: [i32; 4], chunk_min: [i32; 4]) -> int {
    u32_bits_of(v[3] - chunk_min[3]) * 512 + u32_bits_of(v[2] - chunk_min[2]) * 64 + u32_bits_of(
        v[1] - chunk_min[1],
    ) * 8 + u32_bits_of(v[0] - chunk_min[0])
}

/// Bit `b` of `w` is set.
pub open spec fn bit_set(w: u32, b: int) -> bool {
    (w >> (b as u32)) & 1 == 1
}

/// The 16-bit material half `half` (0 = low, 1 = high) of a material word.
pub open spec fn material_half(w: u32, half: int) -> int {
    if half == 0 {
        (w % 0x1_0000) as int
    } else {
        (w / 0x1_0000) as int
    }
}

/// The sample's arithmetic stays in range: local offsets fit in `i32`, the bit index fits
/// in `u32`, and the occupancy and material word indices fit in `u32`.
pub open spec fn voxel_sample_in_range(
    v: [i32; 4],
    chunk_min: [i32; 4],
    header: GpuVoxelChunkHeader,
) -> bool {
    &&& forall|a: int| 0 <= a < 4 ==> i32::MIN <= #[trigger] voxel_local(v, chunk_min, a) <= i32::MAX
    &&& voxel_bit_index(v, chunk_min) <= u32::MAX
    &&& header.flags & VTE_CHUNK_FLAG_FULL == 0 ==> header.occupancy_word_offset + voxel_bit_index(
        v,
        chunk_min,
    ) / 32 <= u32::MAX
    &&& header.material_word_offset + voxel_bit_index(v, chunk_min) / 2 <= u32::MAX
}

/// The occupancy bit of the voxel is readable and set (always true for a full chunk).
pub open spec fn voxel_occupied(
    v: [i32; 4],
    chunk_min: [i32; 4],
    header: GpuVoxelChunkHeader,
    occupancy: Seq<u32>,
    occupancy_count: u32,
) -> bool {
    header.flags & VTE_CHUNK_FLAG_FULL != 0 || {
        let i = voxel_bit_index(v, chunk_min);
        let w = header.occupancy_word_offset + i / 32;
        w < occupancy_count && w < occupancy.len() && bit_set(occupancy[w], i % 32)
    }
}

/// Material of a voxel: `Some(m)` when the voxel is occupied, its material word is
/// readable and its 16-bit material `m` is not zero.
pub open spec fn voxel_material(
    v: [i32; 4],
    chunk_min: [i32; 4],
    header: GpuVoxelChunkHeader,
    occupancy: Seq<u32>,
    occupancy_count: u32,
    materials: Seq<u32>,
    material_count: u32,
) -> Option<u32> {
    if !voxel_occupied(v, chunk_min, header, occupancy, occupancy_count) {
        None
    } else {
        let i = voxel_bit_index(v, chunk_min);
        let w = header.material_word_offset + i / 2;
        if w >= material_count || w >= materials.len() {
            None
        } else {
            let m = material_half(materials[w], i % 2);
            if m != 0 {
                Some(m as u32)
            } else {
                None
            }
        }
    }
}

proof fn lemma_shift_bits(x: u32)
    ensures
        x >> 5u32 == x / 32,
        x >> 1u32 == x / 2,
        x & 31u32 == x % 32,
        x & 1u32 == x % 2,
        (x & 31u32) < 32,
        (x & 1u32) * 16 <= 16,
{
    assert(x >> 5u32 == x / 32) by (bit_vector);
    assert(x >> 1u32 == x / 2) by (bit_vector);
    assert(x & 31u32 == x % 32) by (bit_vector);
    assert(x & 1u32 == x % 2) by (bit_vector);
}

proof fn lemma_bit_test(w: u32, b: u32)
    requires
        b < 32,
    ensures
        (w & (1u32 << b) != 0) == ((w >> b) & 1u32 == 1u32),
{
    assert((w & (1u32 << b) != 0) == ((w >> b) & 1u32 == 1u32)) by (bit_vector)
        requires
            b < 32,
    ;
}

proof fn lemma_material_half(w: u32)
    ensures
        (w >> 0u32) & 0xFFFFu32 == w % 0x1_0000,
        (w >> 16u32) & 0xFFFFu32 == w / 0x1_0000,
{
    assert((w >> 0u32) & 0xFFFFu32 == w % 0x1_0000) by (bit_vector);
    assert((w >> 16u32) & 0xFFFFu32 == w / 0x1_0000) by (bit_vector);
}

/// Material of voxel `voxel_coord` in the dense chunk described by `header` (see
/// `voxel_material`).
pub fn vte_cpu_sample_voxel_in_chunk(
    voxel_coord: [i32; 4],
    chunk_min: [i32; 4],
    header: &GpuVoxelChunkHeader,
    occupancy_words: &[u32],
    occupancy_word_count: u32,
    material_words: &[u32],
    material_word_count: u32,
) -> (r: Option<u32>)
    requires
        voxel_sample_in_range(voxel_coord, chunk_min, *header),
    ensures
        r == voxel_material(
            voxel_coord,
            chunk_min,
            *header,
            occupancy_words@,
            occupancy_word_count,
            material_words@,
            material_word_count,
        ),
{
    assert(i32::MIN <= voxel_local(voxel_coord, chunk_min, 0) <= i32::MAX);
    assert(i32::MIN <= voxel_local(voxel_coord, chunk_min, 1) <= i32::MAX);
    assert(i32::MIN <= voxel_local(voxel_coord, chunk_min, 2) <= i32::MAX);
    assert(i32::MIN <= voxel_local(voxel_coord, chunk_min, 3) <= i32::MAX);
    let l0 = voxel_coord[0] - chunk_min[0];
    let l1 = voxel_coord[1] - chunk_min[1];
    let l2 = voxel_coord[2] - chunk_min[2];
    let l3 = voxel_coord[3] - chunk_min[3];
    proof {
        lemma_i32_as_u32(l0);
        lemma_i32_as_u32(l1);
        lemma_i32_as_u32(l2);
        lemma_i32_as_u32(l3);
    }
    let local_idx = (l3 as u32) * 512 + (l2 as u32) * 64 + (l1 as u32) * 8 + l0 as u32;
    assert(local_idx as int == voxel_bit_index(voxel_coord, chunk_min));
    proof {
        lemma_shift_bits(local_idx);
    }
    if (header.flags & VTE_CHUNK_FLAG_FULL) == 0 {
        let occupancy_idx = header.occupancy_word_offset + (local_idx >> 5);
        let occupancy_idx = occupancy_idx as usize;
        if occupancy_idx >= occupancy_word_count as usize || occupancy_idx
            >= occupancy_words.len() {
            return None;
        }
        let occupancy_word = occupancy_words[occupancy_idx];
        proof {
            lemma_bit_test(occupancy_word, local_idx & 31);
        }
        if (occupancy_word & (1u32 << (local_idx & 31))) == 0 {
            return None;
        }
    }
    let material_idx = header.material_word_offset + (local_idx >> 1);
    let material_idx = material_idx as usize;
    if material_idx >= material_word_count as usize || material_idx >= material_words.len() {
        return None;
    }
    let material_word = material_words[material_idx];
    proof {
        lemma_material_half(material_word);
    }
    let material = (material_word >> ((local_idx & 1) * 16)) & 0xFFFF;
    if material != 0 {
        Some(material)
    } else {
        None
    }
}

/// Voxels of a dense chunk are laid out x fastest, then y, z and w, eight to an axis:
/// a voxel at local offset `(x, y, z, w)` is bit `i = x + 8 y + 64 z + 512 w`. Unless
/// the chunk is full, the voxel is present when bit `i % 32` of occupancy word
/// `occupancy_word_offset + i / 32` is set; its material is the low 16 bits of material
/// word `material_word_offset + i / 2` for even `i` and the high 16 bits for odd `i`; a
/// word past either count, or a zero material, gives none.
pub proof fn lemma_voxel_layout(
    v: [i32; 4],
    chunk_min: [i32; 4],
    header: GpuVoxelChunkHeader,
    occupancy: Seq<u32>,
    occupancy_count: u32,
    materials: Seq<u32>,
    material_count: u32,
)
    requires
        forall|a: int| 0 <= a < 4 ==> 0 <= #[trigger] voxel_local(v, chunk_min, a) < 8,
    ensures
        ({
            let i = (v[0] - chunk_min[0]) + 8 * (v[1] - chunk_min[1]) + 64 * (v[2] - chunk_min[2]) + 512 * (
            v[3] - chunk_min[3]);
            let ow = header.occupancy_word_offset + i / 32;
            let present = header.flags & VTE_CHUNK_FLAG_FULL != 0 || (ow < occupancy_count && ow
                < occupancy.len() && (occupancy[ow] >> ((i % 32) as u32)) & 1 == 1);
            let mw = header.material_word_offset + i / 2;
            let m: int = if mw < material_count && mw < materials.len() {
                if i % 2 == 0 {
                    (materials[mw] % 0x1_0000) as int
                } else {
                    (materials[mw] / 0x1_0000) as int
                }
            } else {
                0
            };
            &&& 0 <= i < 4096
            &&& voxel_material(v, chunk_min, header, occupancy, occupancy_count, materials, material_count)
                == if present && m != 0 {
                Some(m as u32)
            } else {
                None
            }
        }),
{
    assert(0 <= voxel_local(v, chunk_min, 0) < 8);
    assert(0 <= voxel_local(v, chunk_min, 1) < 8);
    assert(0 <= voxel_local(v, chunk_min, 2) < 8);
    assert(0 <= voxel_local(v, chunk_min, 3) < 8);
}

/// Macro-cell coordinate of a local voxel offset: the offset halved, rounded down.
pub open spec fn macro_coord(l: int) -> int {
    if l >= 0 {
        l / 2
    } else {
        -((-l + 1) / 2)
    }
}

/// Index of the 2x2x2x2 macro cell that holds the voxel: mx + 4 my + 16 mz + 64 mw,
/// with every macro coordinate read as an unsigned 32-bit value.
pub open spec fn macro_cell_index(v: [i32; 4], chunk_min: [i32; 4]) -> int {
    u32_bits_of(macro_coord(v[3] - chunk_min[3])) * 64 + u32_bits_of(
        macro_coord(v[2] - chunk_min[2]),
    ) * 16 + u32_bits_of(macro_coord(v[1] - chunk_min[1])) * 4 + u32_bits_of(
        macro_coord(v[0] - chunk_min[0]),
    )
}

/// The macro-cell lookup's arithmetic stays in range.
pub open spec fn macro_cell_in_range(
    v: [i32; 4],
    chunk_min: [i32; 4],
    header: GpuVoxelChunkHeader,
) -> bool {
    &&& forall|a: int| 0 <= a < 4 ==> i32::MIN <= #[trigger] voxel_local(v, chunk_min, a) <= i32::MAX
    &&& macro_cell_index(v, chunk_min) <= u32::MAX
    &&& header.macro_word_offset + macro_cell_index(v, chunk_min) / 32 <= u32::MAX
}

/// The macro cell may hold solid voxels: there are no macro words, its word is
/// unreadable, or its bit is set.
pub open spec fn macro_cell_may_contain_solid(
    v: [i32; 4],
    chunk_min: [i32; 4],
    header: GpuVoxelChunkHeader,
    macro_words: Seq<u32>,
    macro_word_count: u32,
) -> bool {
    macro_word_count == 0 || {
        let i = macro_cell_index(v, chunk_min);
        let w = header.macro_word_offset + i / 32;
        w >= macro_word_count || w >= macro_words.len() || bit_set(macro_words[w], i % 32)
    }
}

proof fn lemma_half_shift(x: i32)
    ensures
        (x >> 1i32) as int == macro_coord(x as int),
{
    if x >= 0 {
        assert((x >> 1i32) as int == x as int / 2) by (bit_vector)
            requires
                x >= 0,
        ;
    } else {
        assert((x >> 1i32) as int == -((-(x as int) + 1) / 2)) by (bit_vector)
            requires
                x < 0,
        ;
    }
}

/// Whether the macro cell of `voxel_coord` may hold solid voxels (see
/// `macro_cell_may_contain_solid`).
pub fn vte_cpu_macro_cell_may_contain_solid(
    voxel_coord: [i32; 4],
    chunk_min: [i32; 4],
    header: &GpuVoxelChunkHeader,
    macro_words: &[u32],
    macro_word_count: u32,
) -> (r: bool)
    requires
        macro_word_count == 0 || macro_cell_in_range(voxel_coord, chunk_min, *header),
    ensures
        r == macro_cell_may_contain_solid(
            voxel_coord,
            chunk_min,
            *header,
            macro_words@,
            macro_word_count,
        ),
{
    if macro_word_count == 0 {
        return true;
    }
    assert(i32::MIN <= voxel_local(voxel_coord, chunk_min, 0) <= i32::MAX);
    assert(i32::MIN <= voxel_local(voxel_coord, chunk_min, 1) <= i32::MAX);
    assert(i32::MIN <= voxel_local(voxel_coord, chunk_min, 2) <= i32::MAX);
    assert(i32::MIN <= voxel_local(voxel_coord, chunk_min, 3) <= i32::MAX);
    let l0 = voxel_coord[0] - chunk_min[0];
    let l1 = voxel_coord[1] - chunk_min[1];
    let l2 = voxel_coord[2] - chunk_min[2];
    let l3 = voxel_coord[3] - chunk_min[3];
    let h0 = l0 >> 1;
    let h1 = l1 >> 1;
    let h2 = l2 >> 1;
    let h3 = l3 >> 1;
    proof {
        lemma_half_shift(l0);
        lemma_half_shift(l1);
        lemma_half_shift(l2);
        lemma_half_shift(l3);
        lemma_i32_as_u32(h0);
        lemma_i32_as_u32(h1);
        lemma_i32_as_u32(h2);
        lemma_i32_as_u32(h3);
    }
    let mx = h0 as u32;
    let my = h1 as u32;
    let mz = h2 as u32;
    let mw = h3 as u32;
    let macro_idx = mw * 64 + mz * 16 + my * 4 + mx;
    assert(macro_idx as int == macro_cell_index(voxel_coord, chunk_min));
    proof {
        lemma_shift_bits(macro_idx);
    }
    let macro_word_idx = header.macro_word_offset + (macro_idx >> 5);
    let macro_word_idx = macro_word_idx as usize;
    if macro_word_idx >= macro_word_count as usize || macro_word_idx >= macro_words.len() {
        return true;
    }
    proof {
        lemma_bit_test(macro_words@[macro_word_idx as int], macro_idx & 31);
    }
    (macro_words[macro_word_idx] & (1u32 << (macro_idx & 31))) != 0
}

// ---------------------------------------------------------------------------
// Reference ray trace bookkeeping
// ---------------------------------------------------------------------------

/// Miss reason: the ray left the world without touching a visible chunk.
pub const VTE_CPU_MISS_REASON_NONE: u32 = 0;

/// Miss reason: the ray passed visible chunks without hitting a voxel.
pub const VTE_CPU_MISS_REASON_TOUCHED_VISIBLE_CHUNK: u32 = 1;

/// Miss reason: the voxel step budget ran out.
pub const VTE_CPU_MISS_REASON_VOXEL_BUDGET: u32 = 2;

/// Miss reason: the chunk step budget ran out.
pub const VTE_CPU_MISS_REASON_CHUNK_BUDGET: u32 = 3;

/// Miss reason: the world extends past the trace distance, which cut the ray.
pub const VTE_CPU_MISS_REASON_MAX_DISTANCE: u32 = 4;

/// The step budgets of one reference trace.
#[derive(Copy, Clone, Debug, PartialEq, Eq, Structural)]
pub struct TraceBudget {
    /// Chunks the ray may step through.
    pub max_chunk_steps: u32,
    /// Voxels the ray may step through, over all chunks.
    pub voxel_budget: u32,
}

/// `v` clamped to `[lo, hi]`.
pub open spec fn clamp_int(v: int, lo: int, hi: int) -> int {
    if v < lo {
        lo
    } else if v > hi {
        hi
    } else {
        v
    }
}

/// The budgets for `max_trace_steps`: that many chunk steps (1 to 4096), and eight voxel
/// steps per trace step (1 to 32768, the product taken with saturation).
pub open spec fn trace_budget_spec(max_trace_steps: u32) -> TraceBudget {
    let voxels: int = if max_trace_steps * 8 > u32::MAX {
        u32::MAX as int
    } else {
        max_trace_steps * 8
    };
    TraceBudget {
        max_chunk_steps: clamp_int(max_trace_steps as int, 1, 4096) as u32,
        voxel_budget: clamp_int(voxels, 1, 32768) as u32,
    }
}

/// The budgets of a reference trace (see `trace_budget_spec`).
pub fn trace_budget(max_trace_steps: u32) -> (r: TraceBudget)
    ensures
        r == trace_budget_spec(max_trace_steps),
        1 <= r.max_chunk_steps <= 4096,
        1 <= r.voxel_budget <= 32768,
{
    let chunks = if max_trace_steps < 1 {
        1
    } else if max_trace_steps > 4096 {
        4096
    } else {
        max_trace_steps
    };
    let voxels = match max_trace_steps.checked_mul(8) {
        Some(v) => v,
        None => u32::MAX,
    };
    let voxels = if voxels < 1 {
        1
    } else if voxels > 32768 {
        32768
    } else {
        voxels
    };
    TraceBudget { max_chunk_steps: chunks, voxel_budget: voxels }
}

/// The BVH node a reference trace starts from: the root, when the frame has leaves and
/// nodes and the root index names a node that exists.
pub open spec fn trace_root_spec(leaf_count: u32, node_count: u32, root_index: u32, nodes_len: usize) -> Option<usize> {
    if leaf_count == 0 || node_count == 0 || root_index >= node_count || root_index >= nodes_len {
        None
    } else {
        Some(root_index as usize)
    }
}

/// The BVH node a reference trace starts from (see `trace_root_spec`).
pub fn trace_root(leaf_count: u32, node_count: u32, root_index: u32, nodes_len: usize) -> (r: Option<usize>)
    ensures
        r == trace_root_spec(leaf_count, node_count, root_index, nodes_len),
{
    if leaf_count == 0 || node_count == 0 || root_index >= node_count {
        return None;
    }
    if root_index as usize >= nodes_len {
        return None;
    }
    Some(root_index as usize)
}

/// Why a reference trace missed: the voxel budget ran out, else the chunk budget, else
/// the trace distance cut the ray, else it touched visible chunks, else nothing.
pub open spec fn miss_reason_spec(
    remaining_voxels: u32,
    chunk_steps: u32,
    max_chunk_steps: u32,
    clipped_by_max_distance: bool,
    touched_visible_chunk: bool,
) -> u32 {
    if remaining_voxels == 0 {
        VTE_CPU_MISS_REASON_VOXEL_BUDGET
    } else if chunk_steps >= max_chunk_steps {
        VTE_CPU_MISS_REASON_CHUNK_BUDGET
    } else if clipped_by_max_distance {
        VTE_CPU_MISS_REASON_MAX_DISTANCE
    } else if touched_visible_chunk {
        VTE_CPU_MISS_REASON_TOUCHED_VISIBLE_CHUNK
    } else {
        VTE_CPU_MISS_REASON_NONE
    }
}

/// Why a reference trace missed (see `miss_reason_spec`).
pub fn vte_cpu_miss_reason(
    remaining_voxels: u32,
    chunk_steps: u32,
    max_chunk_steps: u32,
    clipped_by_max_distance: bool,
    touched_visible_chunk: bool,
) -> (r: u32)
    ensures
        r == miss_reason_spec(
            remaining_voxels,
            chunk_steps,
            max_chunk_steps,
            clipped_by_max_distance,
            touched_visible_chunk,
        ),
        r <= VTE_CPU_MISS_REASON_MAX_DISTANCE,
{
    if remaining_voxels == 0 {
        VTE_CPU_MISS_REASON_VOXEL_BUDGET
    } else if chunk_steps >= max_chunk_steps {
        VTE_CPU_MISS_REASON_CHUNK_BUDGET
    } else if clipped_by_max_distance {
        VTE_CPU_MISS_REASON_MAX_DISTANCE
    } else if touched_visible_chunk {
        VTE_CPU_MISS_REASON_TOUCHED_VISIBLE_CHUNK
    } else {
        VTE_CPU_MISS_REASON_NONE
    }
}

} // verus!
