use higher_dimension_playground::voxel_lookup::{
    trace_budget, trace_root, vte_cpu_miss_reason, TraceBudget, VTE_CPU_MISS_REASON_CHUNK_BUDGET,
    VTE_CPU_MISS_REASON_MAX_DISTANCE, VTE_CPU_MISS_REASON_NONE,
    VTE_CPU_MISS_REASON_TOUCHED_VISIBLE_CHUNK, VTE_CPU_MISS_REASON_VOXEL_BUDGET,
    vte_cpu_lookup_chunk_payload_linear, vte_cpu_lookup_leaf_chunk_entry,
    vte_cpu_macro_cell_may_contain_solid, vte_cpu_sample_voxel_in_chunk, GpuVoxelChunkHeader,
    GpuVoxelLeafHeader, VteCpuChunkPayload, VTE_CHUNK_FLAG_FULL, VTE_LEAF_CHUNK_ENTRY_EMPTY,
    VTE_LEAF_CHUNK_ENTRY_UNIFORM_FLAG, VTE_LEAF_KIND_UNIFORM, VTE_LEAF_KIND_VOXEL_CHUNK_ARRAY,
};

fn array_leaf() -> GpuVoxelLeafHeader {
    GpuVoxelLeafHeader {
        min_chunk_coord: [0, 0, 0, 0],
        max_chunk_coord: [1, 1, 0, 0],
        chunk_entry_offset: 2,
        leaf_kind: VTE_LEAF_KIND_VOXEL_CHUNK_ARRAY,
        uniform_material: 0,
    }
}

#[test]
fn leaf_entry_lookup() {
    let entries = vec![99, 99, 1, 2, 3, VTE_LEAF_CHUNK_ENTRY_UNIFORM_FLAG | 7];
    let leaf = array_leaf();
    assert_eq!(vte_cpu_lookup_leaf_chunk_entry(&leaf, [0, 0, 0, 0], &entries, 6), 1);
    assert_eq!(vte_cpu_lookup_leaf_chunk_entry(&leaf, [1, 0, 0, 0], &entries, 6), 2);
    assert_eq!(vte_cpu_lookup_leaf_chunk_entry(&leaf, [0, 1, 0, 0], &entries, 6), 3);
    assert_eq!(
        vte_cpu_lookup_leaf_chunk_entry(&leaf, [1, 1, 0, 0], &entries, 6),
        VTE_LEAF_CHUNK_ENTRY_UNIFORM_FLAG | 7
    );
    assert_eq!(
        vte_cpu_lookup_leaf_chunk_entry(&leaf, [1, 1, 0, 0], &entries, 5),
        VTE_LEAF_CHUNK_ENTRY_EMPTY
    );
    assert_eq!(
        vte_cpu_lookup_leaf_chunk_entry(&leaf, [2, 0, 0, 0], &entries, 6),
        VTE_LEAF_CHUNK_ENTRY_EMPTY
    );
    assert_eq!(
        vte_cpu_lookup_leaf_chunk_entry(&leaf, [-1, 0, 0, 0], &entries, 6),
        VTE_LEAF_CHUNK_ENTRY_EMPTY
    );
}

#[test]
fn chunk_payload_lookup() {
    let uniform = GpuVoxelLeafHeader {
        min_chunk_coord: [5, 5, 5, 5],
        max_chunk_coord: [6, 6, 6, 6],
        chunk_entry_offset: 0,
        leaf_kind: VTE_LEAF_KIND_UNIFORM,
        uniform_material: 11,
    };
    let leaves = vec![array_leaf(), uniform];
    let entries = vec![0, 0, 1, 0, 3, VTE_LEAF_CHUNK_ENTRY_UNIFORM_FLAG | 7];
    assert_eq!(
        vte_cpu_lookup_chunk_payload_linear([0, 0, 0, 0], &leaves, 2, &entries, 6, 4),
        VteCpuChunkPayload::Dense(0)
    );
    assert_eq!(
        vte_cpu_lookup_chunk_payload_linear([1, 0, 0, 0], &leaves, 2, &entries, 6, 4),
        VteCpuChunkPayload::Empty
    );
    assert_eq!(
        vte_cpu_lookup_chunk_payload_linear([0, 1, 0, 0], &leaves, 2, &entries, 6, 2),
        VteCpuChunkPayload::Empty
    );
    assert_eq!(
        vte_cpu_lookup_chunk_payload_linear([0, 1, 0, 0], &leaves, 2, &entries, 6, 4),
        VteCpuChunkPayload::Dense(2)
    );
    assert_eq!(
        vte_cpu_lookup_chunk_payload_linear([1, 1, 0, 0], &leaves, 2, &entries, 6, 4),
        VteCpuChunkPayload::Uniform(7)
    );
    assert_eq!(
        vte_cpu_lookup_chunk_payload_linear([6, 5, 6, 5], &leaves, 2, &entries, 6, 4),
        VteCpuChunkPayload::Uniform(11)
    );
    assert_eq!(
        vte_cpu_lookup_chunk_payload_linear([6, 5, 6, 5], &leaves, 1, &entries, 6, 4),
        VteCpuChunkPayload::Empty
    );
}

fn chunk(flags: u32) -> GpuVoxelChunkHeader {
    GpuVoxelChunkHeader {
        flags,
        occupancy_word_offset: 1,
        material_word_offset: 2,
        macro_word_offset: 0,
        solid_local_min: [0, 0, 0, 0],
        solid_local_max: [7, 7, 7, 7],
    }
}

#[test]
fn voxel_sampling() {
    // Voxel (1, 0, 0, 0) of the chunk is bit 1 of occupancy word 1 and the high half of
    // material word 2.
    let occupancy = vec![0, 0b10, 0];
    let mut materials = vec![0u32; 4];
    materials[2] = (42 << 16) | 9;
    let header = chunk(0);
    assert_eq!(
        vte_cpu_sample_voxel_in_chunk([9, 8, 8, 8], [8, 8, 8, 8], &header, &occupancy, 3, &materials, 4),
        Some(42)
    );
    assert_eq!(
        vte_cpu_sample_voxel_in_chunk([8, 8, 8, 8], [8, 8, 8, 8], &header, &occupancy, 3, &materials, 4),
        None
    );
    let full = chunk(VTE_CHUNK_FLAG_FULL);
    assert_eq!(
        vte_cpu_sample_voxel_in_chunk([8, 8, 8, 8], [8, 8, 8, 8], &full, &occupancy, 3, &materials, 4),
        Some(9)
    );
    assert_eq!(
        vte_cpu_sample_voxel_in_chunk([9, 8, 8, 8], [8, 8, 8, 8], &header, &occupancy, 3, &materials, 2),
        None
    );
}

#[test]
fn macro_cells() {
    let header = chunk(0);
    assert!(vte_cpu_macro_cell_may_contain_solid([0, 0, 0, 0], [0, 0, 0, 0], &header, &[], 0));
    // Macro cell (1, 0, 0, 0) is bit 1 of word 0.
    let words = vec![0b10u32, 0, 0, 0, 0, 0, 0, 0];
    assert!(vte_cpu_macro_cell_may_contain_solid([2, 1, 0, 1], [0, 0, 0, 0], &header, &words, 8));
    assert!(!vte_cpu_macro_cell_may_contain_solid([0, 0, 0, 0], [0, 0, 0, 0], &header, &words, 8));
    // Macro cell (0, 0, 0, 1) is bit 0 of word 2, which is zero.
    assert!(!vte_cpu_macro_cell_may_contain_solid([0, 0, 0, 2], [0, 0, 0, 0], &header, &words, 8));
    assert!(vte_cpu_macro_cell_may_contain_solid([0, 0, 0, 2], [0, 0, 0, 0], &header, &words, 2));
}

#[test]
fn trace_bookkeeping() {
    assert_eq!(trace_budget(0), TraceBudget { max_chunk_steps: 1, voxel_budget: 1 });
    assert_eq!(trace_budget(100), TraceBudget { max_chunk_steps: 100, voxel_budget: 800 });
    assert_eq!(trace_budget(5000), TraceBudget { max_chunk_steps: 4096, voxel_budget: 32768 });
    assert_eq!(trace_budget(u32::MAX), TraceBudget { max_chunk_steps: 4096, voxel_budget: 32768 });
    assert_eq!(trace_root(1, 3, 2, 3), Some(2));
    assert_eq!(trace_root(0, 3, 2, 3), None);
    assert_eq!(trace_root(1, 0, 0, 3), None);
    assert_eq!(trace_root(1, 3, 3, 10), None);
    assert_eq!(trace_root(1, 5, 4, 2), None);
    assert_eq!(vte_cpu_miss_reason(0, 10, 10, true, true), VTE_CPU_MISS_REASON_VOXEL_BUDGET);
    assert_eq!(vte_cpu_miss_reason(5, 10, 10, true, true), VTE_CPU_MISS_REASON_CHUNK_BUDGET);
    assert_eq!(vte_cpu_miss_reason(5, 3, 10, true, true), VTE_CPU_MISS_REASON_MAX_DISTANCE);
    assert_eq!(
        vte_cpu_miss_reason(5, 3, 10, false, true),
        VTE_CPU_MISS_REASON_TOUCHED_VISIBLE_CHUNK
    );
    assert_eq!(vte_cpu_miss_reason(5, 3, 10, false, false), VTE_CPU_MISS_REASON_NONE);
}
