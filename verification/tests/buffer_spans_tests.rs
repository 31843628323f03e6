use higher_dimension_playground::buffer_spans::{
    apply_clamped_write, ceil_div, clamp_dirty_range, clamp_write_span, copy_upload_range,
    cut_to_capacities, dirty_upload_range, next_grow_capacity, required_capacities,
    checked_bvh_root, required_dense_chunks, retain_flagged, voxel_upload_mode, ChunkWordStrides,
    VoxelUploadMode, VoxelBufferCapacities, VoxelFrameLens,
};

#[test]
fn dirty_ranges_are_clamped() {
    assert_eq!(clamp_dirty_range(Some(2..10), 5), Some(2..5));
    assert_eq!(clamp_dirty_range(Some(6..9), 5), None);
    assert_eq!(clamp_dirty_range(Some(3..3), 5), None);
    assert_eq!(clamp_dirty_range(None, 5), None);
    assert_eq!(clamp_dirty_range(Some(1..4), 5), Some(1..4));
}

#[test]
fn write_spans_are_clamped() {
    assert_eq!(clamp_write_span(3, 4, 5), Some((3..5, 0..2)));
    assert_eq!(clamp_write_span(0, 2, 5), Some((0..2, 0..2)));
    assert_eq!(clamp_write_span(0, 0, 5), None);
    assert_eq!(clamp_write_span(1, 3, 0), None);
    assert_eq!(clamp_write_span(7, 1, 5), None);
    assert_eq!(clamp_write_span(u32::MAX, usize::MAX, usize::MAX), Some((u32::MAX as usize..usize::MAX, 0..usize::MAX - u32::MAX as usize)));
}

#[test]
fn clamped_write_applies_once() {
    let mut buffer = vec![0u32; 6];
    apply_clamped_write(&mut buffer, 3, &[1, 2, 3, 4], 5);
    assert_eq!(buffer, vec![0, 0, 0, 1, 2, 0]);
    let snapshot = buffer.clone();
    apply_clamped_write(&mut buffer, 3, &[1, 2, 3, 4], 5);
    assert_eq!(buffer, snapshot);
}

#[test]
fn upload_ranges() {
    assert_eq!(dirty_upload_range(Some(1..3), 10), Some(1..3));
    assert_eq!(dirty_upload_range(None, 10), Some(0..10));
    assert_eq!(dirty_upload_range(Some(12..14), 10), Some(0..10));
    assert_eq!(dirty_upload_range(None, 0), None);
    let mut dst = vec![0u8; 5];
    copy_upload_range(&mut dst, &[9, 8, 7, 6, 5, 4], 1..4);
    assert_eq!(dst, vec![0, 8, 7, 6, 0]);
}

#[test]
fn capacities_grow_by_doubling() {
    assert_eq!(next_grow_capacity(0, 0), 1);
    assert_eq!(next_grow_capacity(10, 5), 10);
    assert_eq!(next_grow_capacity(10, 11), 20);
    assert_eq!(next_grow_capacity(10, 41), 80);
    assert_eq!(next_grow_capacity(0, 3), 4);
    assert_eq!(next_grow_capacity(usize::MAX / 2 + 1, usize::MAX), usize::MAX);
    let current = VoxelBufferCapacities {
        dense_chunks: 16,
        leaf_headers: 8,
        region_bvh_nodes: 0,
        leaf_chunk_entries: 100,
    };
    let required = VoxelBufferCapacities {
        dense_chunks: 17,
        leaf_headers: 8,
        region_bvh_nodes: 3,
        leaf_chunk_entries: 50,
    };
    let grown = current.grown_to(required);
    assert_eq!(
        grown,
        VoxelBufferCapacities {
            dense_chunks: 32,
            leaf_headers: 8,
            region_bvh_nodes: 4,
            leaf_chunk_entries: 100,
        }
    );
    assert_eq!(grown.grown_to(required), grown);
}

#[test]
fn dense_chunk_requirements() {
    assert_eq!(ceil_div(10, 4), 3);
    assert_eq!(ceil_div(8, 4), 2);
    assert_eq!(ceil_div(5, 0), 0);
    assert_eq!(ceil_div(usize::MAX, 2), usize::MAX / 2);
    let strides = ChunkWordStrides {
        occupancy_words: 128,
        material_words: 2048,
        orientation_words: 1024,
        macro_words: 8,
    };
    assert_eq!(required_dense_chunks(3, 0, 0, 0, 0, strides), 3);
    assert_eq!(required_dense_chunks(1, 129, 2048, 0, 8, strides), 2);
    assert_eq!(required_dense_chunks(0, 0, 0, 3073, 0, strides), 4);
}

fn frame_lens() -> VoxelFrameLens {
    VoxelFrameLens {
        chunk_headers: 3,
        leaf_headers: 5,
        region_bvh_nodes: 9,
        leaf_chunk_entries: 40,
        occupancy_words: 300,
        material_words: 2048,
        orientation_words: 10,
        macro_words: 20,
    }
}

fn word_strides() -> ChunkWordStrides {
    ChunkWordStrides {
        occupancy_words: 128,
        material_words: 2048,
        orientation_words: 1024,
        macro_words: 8,
    }
}

#[test]
fn frame_fits_after_growth() {
    let lens = frame_lens();
    let required = required_capacities(lens, word_strides());
    assert_eq!(
        required,
        VoxelBufferCapacities {
            dense_chunks: 3,
            leaf_headers: 5,
            region_bvh_nodes: 9,
            leaf_chunk_entries: 40,
        }
    );
    let current = VoxelBufferCapacities {
        dense_chunks: 1,
        leaf_headers: 1,
        region_bvh_nodes: 1,
        leaf_chunk_entries: 1,
    };
    let grown = current.grown_to(required);
    let (counts, truncated) = cut_to_capacities(lens, grown, word_strides());
    assert!(!truncated);
    assert_eq!(counts, lens);
}

#[test]
fn frame_is_cut_to_small_buffers() {
    let lens = frame_lens();
    let caps = VoxelBufferCapacities {
        dense_chunks: 2,
        leaf_headers: 5,
        region_bvh_nodes: 4,
        leaf_chunk_entries: 100,
    };
    let (counts, truncated) = cut_to_capacities(lens, caps, word_strides());
    assert!(truncated);
    assert_eq!(counts.chunk_headers, 2);
    assert_eq!(counts.leaf_headers, 5);
    assert_eq!(counts.region_bvh_nodes, 4);
    assert_eq!(counts.leaf_chunk_entries, 40);
    assert_eq!(counts.occupancy_words, 256);
    assert_eq!(counts.material_words, 2048);
    assert_eq!(counts.orientation_words, 10);
    assert_eq!(counts.macro_words, 16);
}

#[test]
fn flagged_items_are_retained() {
    let mut dropped = 3usize;
    let kept = retain_flagged(&vec![1, 2, 3, 4, 5], &vec![true, false, true, false, false], &mut dropped);
    assert_eq!(kept, vec![1, 3]);
    assert_eq!(dropped, 6);
    let mut none_dropped = 0usize;
    let all = retain_flagged(&vec![7, 8], &vec![true, true], &mut none_dropped);
    assert_eq!(all, vec![7, 8]);
    assert_eq!(none_dropped, 0);
}

#[test]
fn upload_modes() {
    assert_eq!(voxel_upload_mode(Some(4), 4, true, true), VoxelUploadMode::Skip);
    assert_eq!(voxel_upload_mode(None, 4, true, true), VoxelUploadMode::Full);
    assert_eq!(voxel_upload_mode(Some(3), 4, true, true), VoxelUploadMode::Batch);
    assert_eq!(voxel_upload_mode(Some(3), 4, false, true), VoxelUploadMode::Ranges);
    assert_eq!(voxel_upload_mode(Some(3), 4, false, false), VoxelUploadMode::Full);
    assert_eq!(checked_bvh_root(2, 3), Some(2));
    assert_eq!(checked_bvh_root(3, 3), None);
    assert_eq!(checked_bvh_root(0, 0), None);
}

#[test]
fn clamping_twice_changes_nothing() {
    for (start, end, len) in [(2usize, 10usize, 5usize), (0, 3, 3), (1, 2, 9), (4, 9, 4)] {
        let once = clamp_dirty_range(Some(start..end), len);
        assert_eq!(clamp_dirty_range(once.clone(), len), once);
    }
}
