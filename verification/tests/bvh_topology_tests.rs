use higher_dimension_playground::bvh_topology::{summarize_bvh_topology, BvhNodeLinks};

fn internal(left: u32, right: u32, visits: u32) -> BvhNodeLinks {
    BvhNodeLinks {
        left_child: left,
        right_child: right,
        is_leaf: 0,
        atomic_visit_count: visits,
        tetrahedron_index: 0,
    }
}

fn leaf(tet: u32) -> BvhNodeLinks {
    BvhNodeLinks {
        left_child: u32::MAX,
        right_child: u32::MAX,
        is_leaf: 1,
        atomic_visit_count: 0,
        tetrahedron_index: tet,
    }
}

#[test]
fn healthy_tree_summary() {
    let nodes = vec![internal(1, 2, 2), internal(3, 4, 2), leaf(0), leaf(1), leaf(2)];
    let s = summarize_bvh_topology(&nodes, 3).unwrap();
    assert_eq!(s.total_nodes, 5);
    assert_eq!(s.internal_nodes, 2);
    assert_eq!(s.internal_ready, 2);
    assert_eq!(s.invalid_child_edges, 0);
    assert_eq!(s.self_child_edges, 0);
    assert_eq!(s.nodes_without_parent_excluding_root, 0);
    assert_eq!(s.nodes_with_multiple_parents, 0);
    assert_eq!(s.unreachable_internal_nodes, 0);
    assert_eq!(s.unreachable_leaf_nodes, 0);
    assert_eq!(s.leaf_invalid_tetra_indices, 0);
    assert_eq!(s.leaf_duplicate_tetra_indices, 0);
    assert_eq!(s.leaf_missing_tetra_indices, 0);
}

#[test]
fn broken_tree_summary() {
    let nodes = vec![internal(u32::MAX, 1, 1), internal(3, 3, 2), leaf(0), leaf(0), leaf(7)];
    let s = summarize_bvh_topology(&nodes, 3).unwrap();
    assert_eq!(s.internal_ready, 1);
    assert_eq!(s.invalid_child_edges, 1);
    assert_eq!(s.self_child_edges, 0);
    assert_eq!(s.nodes_without_parent_excluding_root, 2);
    assert_eq!(s.nodes_with_multiple_parents, 1);
    assert_eq!(s.unreachable_internal_nodes, 0);
    assert_eq!(s.unreachable_leaf_nodes, 2);
    assert_eq!(s.leaf_invalid_tetra_indices, 1);
    assert_eq!(s.leaf_duplicate_tetra_indices, 1);
    assert_eq!(s.leaf_missing_tetra_indices, 2);
}

#[test]
fn self_loop_and_out_of_range_children() {
    let nodes = vec![internal(0, 9, 0), leaf(0)];
    let s = summarize_bvh_topology(&nodes, 1).unwrap_or_else(|| panic!("one leaf tree"));
    assert_eq!(s.total_nodes, 1);
    assert_eq!(s.internal_nodes, 0);
    let nodes = vec![internal(0, 9, 0), internal(2, 2, 0), leaf(0)];
    let s = summarize_bvh_topology(&nodes, 2).unwrap();
    assert_eq!(s.self_child_edges, 1);
    assert_eq!(s.invalid_child_edges, 1);
    assert_eq!(s.unreachable_internal_nodes, 0);
    assert_eq!(s.unreachable_leaf_nodes, 2);
}

#[test]
fn summary_needs_enough_nodes() {
    assert!(summarize_bvh_topology(&[], 0).is_none());
    let nodes = vec![internal(1, 2, 2), leaf(0)];
    assert!(summarize_bvh_topology(&nodes, 2).is_none());
}

#[test]
fn missing_tetrahedra_match_invalid_plus_duplicate_leaves() {
    let nodes = vec![
        internal(1, 2, 2),
        internal(3, 4, 2),
        internal(5, 6, 2),
        leaf(5),
        leaf(1),
        leaf(1),
        leaf(2),
    ];
    let s = summarize_bvh_topology(&nodes, 4).unwrap();
    assert_eq!(s.leaf_invalid_tetra_indices, 1);
    assert_eq!(s.leaf_duplicate_tetra_indices, 1);
    assert_eq!(s.leaf_missing_tetra_indices, 2);
    assert_eq!(
        s.leaf_missing_tetra_indices,
        s.leaf_invalid_tetra_indices + s.leaf_duplicate_tetra_indices
    );
}
