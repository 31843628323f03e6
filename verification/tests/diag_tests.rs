use higher_dimension_playground::diag_compare::{
    check_record, diag_log_due, tally_ray_diag, RayDiagRecord,
};

fn hit_record(x: u32, material: u32) -> RayDiagRecord {
    RayDiagRecord {
        pixel_x: x,
        pixel_y: 1,
        layer: 0,
        hit: true,
        hit_material: material,
        hit_chunk_x: 1,
        hit_chunk_y: 2,
        hit_chunk_z: 3,
        hit_chunk_w: 4,
        miss_reason: 0,
    }
}

fn miss_record(x: u32, reason: u32) -> RayDiagRecord {
    RayDiagRecord { hit: false, miss_reason: reason, ..hit_record(x, 0) }
}

#[test]
fn single_record_checks() {
    let e = hit_record(3, 7);
    let same = check_record(&e, &Some(e), true);
    assert!(!same.missing && !same.metadata && !same.hit_state && !same.material && !same.chunk);
    assert!(!same.distance && !same.miss_reason);
    let far = check_record(&e, &Some(e), false);
    assert!(far.distance);
    let missing = check_record(&e, &None, true);
    assert!(missing.missing && !missing.hit_state);
    let other_chunk = check_record(&e, &Some(RayDiagRecord { hit_chunk_w: 9, ..e }), true);
    assert!(other_chunk.chunk && !other_chunk.material);
    let miss = miss_record(3, 2);
    let state = check_record(&e, &Some(miss), true);
    assert!(state.hit_state && !state.material && !state.distance && state.miss_reason);
    let reasons = check_record(&miss, &Some(miss_record(3, 4)), true);
    assert!(reasons.miss_reason && !reasons.hit_state);
}

#[test]
fn tally_counts_each_kind() {
    let expected = vec![hit_record(0, 5), hit_record(1, 5), miss_record(2, 1), hit_record(3, 5)];
    let gpu = vec![
        Some(hit_record(0, 5)),
        Some(hit_record(1, 6)),
        None,
        Some(RayDiagRecord { pixel_x: 9, ..hit_record(3, 5) }),
    ];
    let close = vec![true, false, true, true];
    let t = tally_ray_diag(&expected, &gpu, &close);
    assert_eq!(t.mismatches, 3);
    assert_eq!(t.missing, 1);
    assert_eq!(t.material, 1);
    assert_eq!(t.distance, 1);
    assert_eq!(t.metadata, 1);
    assert_eq!(t.hit_state, 0);
    assert_eq!(t.chunk, 0);
    assert_eq!(t.miss_reason, 0);
    assert_eq!(t.first_mismatch, Some(1));
}

#[test]
fn tally_of_agreeing_records() {
    let expected = vec![hit_record(0, 5), miss_record(1, 3)];
    let gpu = vec![Some(hit_record(0, 5)), Some(miss_record(1, 3))];
    let t = tally_ray_diag(&expected, &gpu, &vec![true, false]);
    assert_eq!(t.mismatches, 0);
    assert_eq!(t.first_mismatch, None);
}

#[test]
fn log_due_rules() {
    assert!(diag_log_due(1, Some(100), 101, 60));
    assert!(diag_log_due(0, None, 5, 60));
    assert!(!diag_log_due(0, Some(100), 159, 60));
    assert!(diag_log_due(0, Some(100), 160, 60));
    assert!(!diag_log_due(0, Some(100), 50, 60));
}
