use vstd::prelude::*;

verus! {

/// The link fields of a BVH node as the GPU builder writes them.  Internal nodes come
/// first, leaves after them.
#[derive(Copy, Clone, Debug)]
pub struct BvhNodeLinks {
    /// Index of the left child, or `u32::MAX` for none.
    pub left_child: u32,
    /// Index of the right child, or `u32::MAX` for none.
    pub right_child: u32,
    /// Non-zero for a leaf.
    pub is_leaf: u32,
    /// Number of children whose bounds have been merged into this node.
    pub atomic_visit_count: u32,
    /// Tetrahedron a leaf stands for.
    pub tetrahedron_index: u32,
}

/// Counts that describe whether a BVH over `n` tetrahedra is well formed.
#[derive(Copy, Clone, Debug)]
pub struct BvhTopologySummary {
    /// `2 n - 1`.
    pub total_nodes: usize,
    /// `n - 1`.
    pub internal_nodes: usize,
    /// Internal nodes with both children merged.
    pub internal_ready: usize,
    /// Child links of internal nodes that are missing or point past the node array.
    pub invalid_child_edges: usize,
    /// Child links of internal nodes that point at the node itself.
    pub self_child_edges: usize,
    /// Non-root nodes no internal node links to.
    pub nodes_without_parent_excluding_root: usize,
    /// Nodes more than one internal-node link points to.
    pub nodes_with_multiple_parents: usize,
    /// Internal nodes the root does not reach.
    pub unreachable_internal_nodes: usize,
    /// Leaf nodes the root does not reach.
    pub unreachable_leaf_nodes: usize,
    /// Leaves whose tetrahedron index is out of range.
    pub leaf_invalid_tetra_indices: usize,
    /// Leaves whose tetrahedron an earlier leaf already names.
    pub leaf_duplicate_tetra_indices: usize,
    /// Tetrahedra no leaf names.
    pub leaf_missing_tetra_indices: usize,
}

/// Number of `i` in `lo..hi` with `f(i)`.
pub open spec fn count_where(lo: int, hi: int, f: spec_fn(int) -> bool) -> nat
    decreases hi - lo,
{
    if hi <= lo {
        0
    } else {
        count_where(lo, hi - 1, f) + if f(hi - 1) {
            1nat
        } else {
            0nat
        }
    }
}

proof fn lemma_count_where_le(lo: int, hi: int, f: spec_fn(int) -> bool)
    requires
        lo <= hi,
    ensures
        count_where(lo, hi, f) <= hi - lo,
    decreases hi - lo,
{
    if hi > lo {
        lemma_count_where_le(lo, hi - 1, f);
    }
}

proof fn lemma_count_where_update(lo: int, hi: int, f: spec_fn(int) -> bool, g: spec_fn(int) -> bool, p: int)
    requires
        lo <= p < hi,
        f(p),
        !g(p),
        forall|i: int| lo <= i < hi && i != p ==> #[trigger] f(i) == g(i),
    ensures
        count_where(lo, hi, f) == count_where(lo, hi, g) + 1,
    decreases hi - lo,
{
    if hi - 1 == p {
        lemma_count_where_same(lo, hi - 1, f, g);
    } else {
        lemma_count_where_update(lo, hi - 1, f, g, p);
    }
}

proof fn lemma_count_where_same(lo: int, hi: int, f: spec_fn(int) -> bool, g: spec_fn(int) -> bool)
    requires
        forall|i: int| lo <= i < hi ==> #[trigger] f(i) == g(i),
    ensures
        count_where(lo, hi, f) == count_where(lo, hi, g),
    decreases hi - lo,
{
    if hi > lo {
        lemma_count_where_same(lo, hi - 1, f, g);
    }
}

/// A child link that names a node of the tree.
pub open spec fn valid_child(c: u32, total: int) -> bool {
    c != u32::MAX && c < total
}

/// Number of the two child links of nodes `0..k` that satisfy `p(node index, link)`.
pub open spec fn slot_count(nodes: Seq<BvhNodeLinks>, k: int, p: spec_fn(int, u32) -> bool) -> nat
    decreases k,
{
    if k <= 0 {
        0
    } else {
        slot_count(nodes, k - 1, p) + (if p(k - 1, nodes[k - 1].left_child) {
            1nat
        } else {
            0nat
        }) + (if p(k - 1, nodes[k - 1].right_child) {
            1nat
        } else {
            0nat
        })
    }
}

proof fn lemma_slot_count_le(nodes: Seq<BvhNodeLinks>, k: int, p: spec_fn(int, u32) -> bool)
    requires
        0 <= k,
    ensures
        slot_count(nodes, k, p) <= 2 * k,
    decreases k,
{
    if k > 0 {
        lemma_slot_count_le(nodes, k - 1, p);
    }
}

/// A missing or out-of-range link.
pub open spec fn invalid_slot(total: int) -> spec_fn(int, u32) -> bool {
    |i: int, c: u32| !valid_child(c, total)
}

/// A link of a node to itself.
pub open spec fn self_slot(total: int) -> spec_fn(int, u32) -> bool {
    |i: int, c: u32| valid_child(c, total) && c == i
}

/// A valid link to node `v`.
pub open spec fn ref_slot(total: int, v: int) -> spec_fn(int, u32) -> bool {
    |i: int, c: u32| valid_child(c, total) && c == v
}

/// Number of links from the internal nodes that point at `v`.
pub open spec fn parent_refs(nodes: Seq<BvhNodeLinks>, internal: int, total: int, v: int) -> nat {
    slot_count(nodes, internal, ref_slot(total, v))
}

/// An edge the root-first traversal follows: from a non-leaf node to a valid child.
pub open spec fn tree_edge(nodes: Seq<BvhNodeLinks>, total: int, u: int, v: int) -> bool {
    &&& 0 <= u < total
    &&& nodes[u].is_leaf == 0
    &&& 0 <= v < total
    &&& (valid_child(nodes[u].left_child, total) && nodes[u].left_child == v || valid_child(
        nodes[u].right_child,
        total,
    ) && nodes[u].right_child == v)
}

/// `v` is reached from the root in at most `k` edges.
pub open spec fn reached_within(nodes: Seq<BvhNodeLinks>, total: int, k: nat, v: int) -> bool
    decreases k,
{
    if k == 0 {
        v == 0 && total > 0
    } else {
        reached_within(nodes, total, (k - 1) as nat, v) || exists|u: int|
            #![trigger tree_edge(nodes, total, u, v)]
            reached_within(nodes, total, (k - 1) as nat, u) && tree_edge(nodes, total, u, v)
    }
}

/// `v` is reached from the root.
pub open spec fn reached(nodes: Seq<BvhNodeLinks>, total: int, v: int) -> bool {
    exists|k: nat| #[trigger] reached_within(nodes, total, k, v)
}

/// Some leaf of `internal..j` names tetrahedron `t`.
pub open spec fn tetra_named_before(nodes: Seq<BvhNodeLinks>, internal: int, j: int, t: int) -> bool {
    exists|jj: int| internal <= jj < j && #[trigger] nodes[jj].tetrahedron_index == t
}

/// The summary of the first `2 n - 1` nodes of `nodes` as a BVH over `n` tetrahedra.
pub open spec fn topology_summary(nodes: Seq<BvhNodeLinks>, n: int) -> (
    int,
    int,
    int,
    int,
    int,
    int,
    int,
    int,
    int,
    int,
    int,
    int,
) {
    let total = 2 * n - 1;
    let internal = n - 1;
    (
        total,
        internal,
        count_where(0, internal, |i: int| nodes[i].atomic_visit_count >= 2) as int,
        slot_count(nodes, internal, invalid_slot(total)) as int,
        slot_count(nodes, internal, self_slot(total)) as int,
        count_where(1, total, |v: int| parent_refs(nodes, internal, total, v) == 0) as int,
        count_where(1, total, |v: int| parent_refs(nodes, internal, total, v) > 1) as int,
        count_where(0, internal, |v: int| !reached(nodes, total, v)) as int,
        count_where(internal, total, |v: int| !reached(nodes, total, v)) as int,
        count_where(internal, total, |j: int| nodes[j].tetrahedron_index >= n) as int,
        count_where(
            internal,
            total,
            |j: int|
                nodes[j].tetrahedron_index < n && tetra_named_before(
                    nodes,
                    internal,
                    j,
                    nodes[j].tetrahedron_index as int,
                ),
        ) as int,
        count_where(0, n, |t: int| !tetra_named_before(nodes, internal, total, t)) as int,
    )
}

/// The summary's fields as a tuple, in declaration order.
pub open spec fn summary_fields(s: BvhTopologySummary) -> (
    int,
    int,
    int,
    int,
    int,
    int,
    int,
    int,
    int,
    int,
    int,
    int,
) {
    (
        s.total_nodes as int,
        s.internal_nodes as int,
        s.internal_ready as int,
        s.invalid_child_edges as int,
        s.self_child_edges as int,
        s.nodes_without_parent_excluding_root as int,
        s.nodes_with_multiple_parents as int,
        s.unreachable_internal_nodes as int,
        s.unreachable_leaf_nodes as int,
        s.leaf_invalid_tetra_indices as int,
        s.leaf_duplicate_tetra_indices as int,
        s.leaf_missing_tetra_indices as int,
    )
}

/// The node array is large enough to summarize a BVH over `n` tetrahedra.
pub open spec fn topology_summary_defined(node_count: int, n: int) -> bool {
    n > 0 && 2 * n <= usize::MAX && 2 * n - 1 <= node_count
}

proof fn lemma_reached_within_closed(
    nodes: Seq<BvhNodeLinks>,
    total: int,
    visited: Seq<bool>,
    k: nat,
    v: int,
)
    requires
        visited.len() == total,
        total > 0,
        visited[0],
        forall|u: int, w: int|
            0 <= u < total && visited[u] && #[trigger] tree_edge(nodes, total, u, w) ==> visited[w],
        reached_within(nodes, total, k, v),
    ensures
        0 <= v < total,
        visited[v],
    decreases k,
{
    if k > 0 {
        if reached_within(nodes, total, (k - 1) as nat, v) {
            lemma_reached_within_closed(nodes, total, visited, (k - 1) as nat, v);
        } else {
            let u = choose|u: int|
                #![trigger tree_edge(nodes, total, u, v)]
                reached_within(nodes, total, (k - 1) as nat, u) && tree_edge(nodes, total, u, v);
            lemma_reached_within_closed(nodes, total, visited, (k - 1) as nat, u);
        }
    }
}

proof fn lemma_reached_step(nodes: Seq<BvhNodeLinks>, total: int, u: int, v: int)
    requires
        reached(nodes, total, u),
        tree_edge(nodes, total, u, v),
    ensures
        reached(nodes, total, v),
{
    let k = choose|k: nat| #[trigger] reached_within(nodes, total, k, u);
    assert(reached_within(nodes, total, k + 1, v));
}

/// Check the topology of a BVH over `num_tetrahedrons` tetrahedra built into `bvh_nodes`:
/// `None` when there are no tetrahedra or the node array is too short, otherwise the
/// counts of `topology_summary`.
pub fn summarize_bvh_topology(bvh_nodes: &[BvhNodeLinks], num_tetrahedrons: usize) -> (r: Option<
    BvhTopologySummary,
>)
    ensures
        r is Some <==> topology_summary_defined(bvh_nodes@.len() as int, num_tetrahedrons as int),
        r matches Some(s) ==> summary_fields(s) == topology_summary(
            bvh_nodes@,
            num_tetrahedrons as int,
        ),
{
    if num_tetrahedrons == 0 {
        return None;
    }
    if num_tetrahedrons > usize::MAX / 2 {
        return None;
    }
    let total_nodes = num_tetrahedrons * 2 - 1;
    if total_nodes > bvh_nodes.len() {
        return None;
    }
    let ghost nodes = bvh_nodes@;
    let ghost total = total_nodes as int;
    let internal_nodes = num_tetrahedrons - 1;
    let ghost internal = internal_nodes as int;

    // Child links of the internal nodes.
    let mut parent_ref_counts: Vec<u32> = vec![0u32; total_nodes];
    let mut invalid_child_edges: usize = 0;
    let mut self_child_edges: usize = 0;
    let mut internal_ready: usize = 0;
    let mut idx: usize = 0;
    while idx < internal_nodes
        invariant
            nodes == bvh_nodes@,
            total == total_nodes,
            internal == internal_nodes,
            internal_nodes + 1 == num_tetrahedrons,
            total_nodes == 2 * num_tetrahedrons - 1,
            total_nodes <= bvh_nodes.len(),
            0 <= idx <= internal_nodes,
            parent_ref_counts@.len() == total_nodes,
            forall|v: int|
                0 <= v < total ==> #[trigger] parent_ref_counts@[v] as int == if parent_refs(
                    nodes,
                    idx as int,
                    total,
                    v,
                ) > u32::MAX {
                    u32::MAX as int
                } else {
                    parent_refs(nodes, idx as int, total, v) as int
                },
            internal_ready == count_where(0, idx as int, |i: int| nodes[i].atomic_visit_count >= 2),
            invalid_child_edges == slot_count(nodes, idx as int, invalid_slot(total)),
            self_child_edges == slot_count(nodes, idx as int, self_slot(total)),
        decreases internal_nodes - idx,
    {
        proof {
            lemma_count_where_le(0, idx as int, |i: int| nodes[i].atomic_visit_count >= 2);
            lemma_slot_count_le(nodes, idx as int, invalid_slot(total));
            lemma_slot_count_le(nodes, idx as int, self_slot(total));
        }
        let node = bvh_nodes[idx];
        if node.atomic_visit_count >= 2 {
            internal_ready += 1;
        }
        let ghost before = parent_ref_counts@;
        let children = [node.left_child, node.right_child];
        let mut s: usize = 0;
        while s < 2
            invariant
                nodes == bvh_nodes@,
                node == nodes[idx as int],
                children@ == seq![node.left_child, node.right_child],
                total == total_nodes,
                total_nodes <= bvh_nodes.len(),
                idx < internal_nodes,
                internal_nodes + 1 == num_tetrahedrons,
                total_nodes == 2 * num_tetrahedrons - 1,
                0 <= s <= 2,
                parent_ref_counts@.len() == total_nodes,
                forall|v: int|
                    0 <= v < total ==> #[trigger] parent_ref_counts@[v] as int == {
                        let refs = parent_refs(nodes, idx as int, total, v) + (if s >= 1
                            && ref_slot(total, v)(idx as int, node.left_child) {
                            1nat
                        } else {
                            0nat
                        }) + (if s >= 2 && ref_slot(total, v)(idx as int, node.right_child) {
                            1nat
                        } else {
                            0nat
                        });
                        if refs > u32::MAX {
                            u32::MAX as int
                        } else {
                            refs as int
                        }
                    },
                invalid_child_edges == slot_count(nodes, idx as int, invalid_slot(total)) + (if s
                    >= 1 && invalid_slot(total)(idx as int, node.left_child) {
                    1nat
                } else {
                    0nat
                }) + (if s >= 2 && invalid_slot(total)(idx as int, node.right_child) {
                    1nat
                } else {
                    0nat
                }),
                self_child_edges == slot_count(nodes, idx as int, self_slot(total)) + (if s >= 1
                    && self_slot(total)(idx as int, node.left_child) {
                    1nat
                } else {
                    0nat
                }) + (if s >= 2 && self_slot(total)(idx as int, node.right_child) {
                    1nat
                } else {
                    0nat
                }),
                slot_count(nodes, idx as int, invalid_slot(total)) <= 2 * idx,
                slot_count(nodes, idx as int, self_slot(total)) <= 2 * idx,
            decreases 2 - s,
        {
            let child = children[s];
            if child == u32::MAX {
                invalid_child_edges += 1;
            } else {
                let child_idx = child as usize;
                if child_idx >= total_nodes {
                    invalid_child_edges += 1;
                } else {
                    if child_idx == idx {
                        self_child_edges += 1;
                    }
                    let cur = parent_ref_counts[child_idx];
                    let next = if cur < u32::MAX {
                        cur + 1
                    } else {
                        cur
                    };
                    parent_ref_counts.set(child_idx, next);
                }
            }
            s = s + 1;
        }
        idx = idx + 1;
        proof {
            assert forall|v: int| 0 <= v < total implies #[trigger] parent_ref_counts@[v] as int
                == if parent_refs(nodes, idx as int, total, v) > u32::MAX {
                u32::MAX as int
            } else {
                parent_refs(nodes, idx as int, total, v) as int
            } by {
                assert(parent_refs(nodes, idx as int, total, v) == slot_count(
                    nodes,
                    idx as int,
                    ref_slot(total, v),
                ));
            }
        }
    }

    // Nodes by number of parents.
    let mut nodes_without_parent_excluding_root: usize = 0;
    let mut nodes_with_multiple_parents: usize = 0;
    let mut v: usize = 1;
    while v < total_nodes
        invariant
            nodes == bvh_nodes@,
            total == total_nodes,
            internal == internal_nodes,
            1 <= v <= total_nodes,
            parent_ref_counts@.len() == total_nodes,
            forall|w: int|
                0 <= w < total ==> #[trigger] parent_ref_counts@[w] as int == if parent_refs(
                    nodes,
                    internal,
                    total,
                    w,
                ) > u32::MAX {
                    u32::MAX as int
                } else {
                    parent_refs(nodes, internal, total, w) as int
                },
            nodes_without_parent_excluding_root == count_where(
                1,
                v as int,
                |w: int| parent_refs(nodes, internal, total, w) == 0,
            ),
            nodes_with_multiple_parents == count_where(
                1,
                v as int,
                |w: int| parent_refs(nodes, internal, total, w) > 1,
            ),
        decreases total_nodes - v,
    {
        proof {
            lemma_count_where_le(1, v as int, |w: int| parent_refs(nodes, internal, total, w) == 0);
            lemma_count_where_le(1, v as int, |w: int| parent_refs(nodes, internal, total, w) > 1);
        }
        let count = parent_ref_counts[v];
        if count == 0 {
            nodes_without_parent_excluding_root += 1;
        } else if count > 1 {
            nodes_with_multiple_parents += 1;
        }
        v = v + 1;
    }

    // Nodes reached from the root.
    let mut visited: Vec<bool> = vec![false; total_nodes];
    let mut stack: Vec<usize> = Vec::new();
    stack.push(0usize);
    let ghost mut unvisited: nat = total_nodes as nat;
    proof {
        assert(stack@[0] == 0usize);
        assert(reached_within(nodes, total, 0, 0));
        lemma_count_where_all(0, total, visited@);
    }
    loop
        invariant
            nodes == bvh_nodes@,
            total == total_nodes,
            total_nodes >= 1,
            total_nodes <= bvh_nodes.len(),
            visited@.len() == total_nodes,
            unvisited == count_where(0, total, |i: int| !visited@[i]),
            forall|i: int| 0 <= i < stack@.len() ==> #[trigger] stack@[i] < total_nodes,
            forall|i: int| 0 <= i < stack@.len() ==> reached(nodes, total, #[trigger] stack@[i] as int),
            forall|i: int| 0 <= i < total && #[trigger] visited@[i] ==> reached(nodes, total, i),
            visited@[0] || stack@.contains(0usize),
            forall|u: int, w: int|
                0 <= u < total && visited@[u] && #[trigger] tree_edge(nodes, total, u, w) ==> visited@[w]
                    || stack@.contains(w as usize),
        ensures
            visited@.len() == total_nodes,
            forall|i: int| 0 <= i < total && #[trigger] visited@[i] ==> reached(nodes, total, i),
            visited@[0],
            forall|u: int, w: int|
                0 <= u < total && visited@[u] && #[trigger] tree_edge(nodes, total, u, w) ==> visited@[w],
        decreases unvisited, stack@.len(),
    {
        let ghost old_stack = stack@;
        let top = stack.pop();
        let cur = match top {
            None => {
                break ;
            },
            Some(c) => c,
        };
        let ghost rest = stack@;
        assert(old_stack =~= rest.push(cur));
        assert(cur < total_nodes) by {
            assert(old_stack[old_stack.len() - 1] == cur);
        }
        if cur >= total_nodes || visited[cur] {
            proof {
                assert forall|u: int, w: int|
                    0 <= u < total && visited@[u] && #[trigger] tree_edge(
                        nodes,
                        total,
                        u,
                        w,
                    ) implies visited@[w] || stack@.contains(w as usize) by {
                    if !visited@[w] {
                        lemma_pop_contains(rest, cur, w as usize);
                    }
                }
                if !visited@[0] {
                    lemma_pop_contains(rest, cur, 0usize);
                }
                assert forall|i: int| 0 <= i < stack@.len() implies reached(
                    nodes,
                    total,
                    #[trigger] stack@[i] as int,
                ) by {
                    assert(old_stack[i] == stack@[i]);
                }
            }
            continue ;
        }
        let ghost old_visited = visited@;
        visited.set(cur, true);
        proof {
            lemma_count_where_update(
                0,
                total,
                |i: int| !old_visited[i],
                |i: int| !visited@[i],
                cur as int,
            );
            unvisited = (unvisited - 1) as nat;
        }
        let node = bvh_nodes[cur];
        if node.is_leaf == 0 {
            if node.left_child != u32::MAX {
                let child_idx = node.left_child as usize;
                if child_idx < total_nodes {
                    proof {
                        lemma_reached_step(nodes, total, cur as int, child_idx as int);
                    }
                    stack.push(child_idx);
                }
            }
            if node.right_child != u32::MAX {
                let child_idx = node.right_child as usize;
                if child_idx < total_nodes {
                    proof {
                        lemma_reached_step(nodes, total, cur as int, child_idx as int);
                    }
                    stack.push(child_idx);
                }
            }
        }
        proof {
            assert forall|u: int, w: int|
                0 <= u < total && visited@[u] && #[trigger] tree_edge(
                    nodes,
                    total,
                    u,
                    w,
                ) implies visited@[w] || stack@.contains(w as usize) by {
                if u == cur {
                    if valid_child(node.left_child, total) && node.left_child == w {
                        assert(stack@[rest.len() as int] == w as usize);
                    } else {
                        assert(stack@[stack@.len() - 1] == w as usize);
                    }
                } else {
                    assert(old_visited[u]);
                    if !old_visited[w] {
                        assert(old_stack.contains(w as usize));
                        lemma_pop_contains(rest, cur, w as usize);
                        if w as usize != cur {
                            assert(rest.contains(w as usize));
                            let k = choose|k: int| 0 <= k < rest.len() && rest[k] == w as usize;
                            assert(stack@[k] == w as usize);
                        }
                    }
                }
            }
            if !visited@[0] {
                lemma_pop_contains(rest, cur, 0usize);
                let k = choose|k: int| 0 <= k < rest.len() && rest[k] == 0usize;
                assert(stack@[k] == 0usize);
            }
        }
    }
    proof {
        assert forall|w: int| 0 <= w < total implies (reached(nodes, total, w) <==> visited@[w]) by {
            if reached(nodes, total, w) {
                let k = choose|k: nat| #[trigger] reached_within(nodes, total, k, w);
                lemma_reached_within_closed(nodes, total, visited@, k, w);
            }
        }
    }
    let mut unreachable_internal_nodes: usize = 0;
    let mut unreachable_leaf_nodes: usize = 0;
    let mut i: usize = 0;
    while i < total_nodes
        invariant
            nodes == bvh_nodes@,
            total == total_nodes,
            internal == internal_nodes,
            internal_nodes < total_nodes,
            0 <= i <= total_nodes,
            visited@.len() == total_nodes,
            forall|w: int| 0 <= w < total ==> (reached(nodes, total, w) <==> #[trigger] visited@[w]),
            unreachable_internal_nodes == count_where(
                0,
                if i < internal_nodes {
                    i as int
                } else {
                    internal
                },
                |w: int| !reached(nodes, total, w),
            ),
            unreachable_leaf_nodes == count_where(
                internal,
                if i < internal_nodes {
                    internal
                } else {
                    i as int
                },
                |w: int| !reached(nodes, total, w),
            ),
        decreases total_nodes - i,
    {
        proof {
            lemma_count_where_le(0, if i < internal_nodes { i as int } else { internal }, |w: int| !reached(nodes, total, w));
            lemma_count_where_le(internal, if i < internal_nodes { internal } else { i as int }, |w: int| !reached(nodes, total, w));
        }
        if !visited[i] {
            if i < internal_nodes {
                unreachable_internal_nodes += 1;
            } else {
                unreachable_leaf_nodes += 1;
            }
        }
        i = i + 1;
    }

    // Tetrahedra named by the leaves.
    let mut leaf_seen: Vec<u8> = vec![0u8; num_tetrahedrons];
    let mut leaf_invalid_tetra_indices: usize = 0;
    let mut leaf_duplicate_tetra_indices: usize = 0;
    let mut j: usize = internal_nodes;
    while j < total_nodes
        invariant
            nodes == bvh_nodes@,
            total == total_nodes,
            internal == internal_nodes,
            total_nodes <= bvh_nodes.len(),
            internal_nodes <= j <= total_nodes,
            leaf_seen@.len() == num_tetrahedrons,
            forall|t: int|
                0 <= t < num_tetrahedrons ==> (#[trigger] leaf_seen@[t] != 0 <==> tetra_named_before(
                    nodes,
                    internal,
                    j as int,
                    t,
                )),
            leaf_invalid_tetra_indices == count_where(
                internal,
                j as int,
                |jj: int| nodes[jj].tetrahedron_index >= num_tetrahedrons,
            ),
            leaf_duplicate_tetra_indices == count_where(
                internal,
                j as int,
                |jj: int|
                    nodes[jj].tetrahedron_index < num_tetrahedrons && tetra_named_before(
                        nodes,
                        internal,
                        jj,
                        nodes[jj].tetrahedron_index as int,
                    ),
            ),
        decreases total_nodes - j,
    {
        proof {
            lemma_count_where_le(internal, j as int, |jj: int| nodes[jj].tetrahedron_index >= num_tetrahedrons);
            lemma_count_where_le(
                internal,
                j as int,
                |jj: int|
                    nodes[jj].tetrahedron_index < num_tetrahedrons && tetra_named_before(
                        nodes,
                        internal,
                        jj,
                        nodes[jj].tetrahedron_index as int,
                    ),
            );
        }
        let tet_idx = bvh_nodes[j].tetrahedron_index as usize;
        if tet_idx >= num_tetrahedrons {
            leaf_invalid_tetra_indices += 1;
        } else if leaf_seen[tet_idx] != 0 {
            leaf_duplicate_tetra_indices += 1;
        } else {
            leaf_seen.set(tet_idx, 1);
        }
        proof {
            assert forall|t: int| 0 <= t < num_tetrahedrons implies (#[trigger] leaf_seen@[t] != 0
                <==> tetra_named_before(nodes, internal, j + 1, t)) by {
                if tetra_named_before(nodes, internal, j + 1, t) && !tetra_named_before(nodes, internal, j as int, t) {
                    let jj = choose|jj: int| internal <= jj < j + 1 && #[trigger] nodes[jj].tetrahedron_index == t;
                    assert(jj == j);
                }
                if tetra_named_before(nodes, internal, j as int, t) {
                    let jj = choose|jj: int| internal <= jj < j && #[trigger] nodes[jj].tetrahedron_index == t;
                    assert(internal <= jj < j + 1 && nodes[jj].tetrahedron_index == t);
                }
                if t == tet_idx {
                    assert(internal <= j < j + 1 && nodes[j as int].tetrahedron_index == t);
                }
            }
        }
        j = j + 1;
    }
    let mut leaf_missing_tetra_indices: usize = 0;
    let mut t: usize = 0;
    while t < num_tetrahedrons
        invariant
            nodes == bvh_nodes@,
            total == total_nodes,
            internal == internal_nodes,
            0 <= t <= num_tetrahedrons,
            leaf_seen@.len() == num_tetrahedrons,
            forall|tt: int|
                0 <= tt < num_tetrahedrons ==> (#[trigger] leaf_seen@[tt] != 0 <==> tetra_named_before(
                    nodes,
                    internal,
                    total,
                    tt,
                )),
            leaf_missing_tetra_indices == count_where(
                0,
                t as int,
                |tt: int| !tetra_named_before(nodes, internal, total, tt),
            ),
        decreases num_tetrahedrons - t,
    {
        proof {
            lemma_count_where_le(0, t as int, |tt: int| !tetra_named_before(nodes, internal, total, tt));
        }
        if leaf_seen[t] == 0 {
            leaf_missing_tetra_indices += 1;
        }
        t = t + 1;
    }
    Some(
        BvhTopologySummary {
            total_nodes,
            internal_nodes,
            internal_ready,
            invalid_child_edges,
            self_child_edges,
            nodes_without_parent_excluding_root,
            nodes_with_multiple_parents,
            unreachable_internal_nodes,
            unreachable_leaf_nodes,
            leaf_invalid_tetra_indices,
            leaf_duplicate_tetra_indices,
            leaf_missing_tetra_indices,
        },
    )
}

proof fn lemma_pop_contains(rest: Seq<usize>, cur: usize, w: usize)
    ensures
        rest.push(cur).contains(w) ==> w == cur || rest.contains(w),
{
    if rest.push(cur).contains(w) && w != cur {
        let k = choose|k: int| 0 <= k < rest.len() + 1 && rest.push(cur)[k] == w;
        assert(k < rest.len());
        assert(rest[k] == w);
    }
}

proof fn lemma_count_where_all(lo: int, hi: int, s: Seq<bool>)
    requires
        lo <= hi,
        hi <= s.len(),
        forall|i: int| lo <= i < hi ==> !s[i],
    ensures
        count_where(lo, hi, |i: int| !s[i]) == hi - lo,
    decreases hi - lo,
{
    if hi > lo {
        lemma_count_where_all(lo, hi - 1, s);
    }
}

proof fn lemma_count_where_none(lo: int, hi: int, f: spec_fn(int) -> bool)
    requires
        forall|i: int| lo <= i < hi ==> !#[trigger] f(i),
    ensures
        count_where(lo, hi, f) == 0,
    decreases hi - lo,
{
    if hi > lo {
        lemma_count_where_none(lo, hi - 1, f);
    }
}

proof fn lemma_count_where_complement(lo: int, hi: int, f: spec_fn(int) -> bool)
    requires
        lo <= hi,
    ensures
        count_where(lo, hi, f) + count_where(lo, hi, |i: int| !f(i)) == hi - lo,
    decreases hi - lo,
{
    if hi > lo {
        lemma_count_where_complement(lo, hi - 1, f);
    }
}

/// Every leaf of `n - 1 .. j` either names an out-of-range tetrahedron, repeats one an
/// earlier leaf names, or names one for the first time: the three counts add up to the
/// number of those leaves.
proof fn lemma_leaf_partition(nodes: Seq<BvhNodeLinks>, n: int, j: int)
    requires
        n > 0,
        n - 1 <= j <= 2 * n - 1,
        2 * n - 1 <= nodes.len(),
    ensures
        count_where(n - 1, j, |jj: int| nodes[jj].tetrahedron_index >= n) + count_where(
            n - 1,
            j,
            |jj: int|
                nodes[jj].tetrahedron_index < n && tetra_named_before(
                    nodes,
                    n - 1,
                    jj,
                    nodes[jj].tetrahedron_index as int,
                ),
        ) + count_where(0, n, |t: int| tetra_named_before(nodes, n - 1, j, t)) == j - (n - 1),
    decreases j - (n - 1),
{
    let internal = n - 1;
    let now = |t: int| tetra_named_before(nodes, internal, j, t);
    if j == internal {
        assert forall|t: int| 0 <= t < n implies !#[trigger] now(t) by {
            if now(t) {
                let jj = choose|jj: int| internal <= jj < j && #[trigger] nodes[jj].tetrahedron_index == t;
            }
        }
        lemma_count_where_none(0, n, now);
    } else {
        lemma_leaf_partition(nodes, n, j - 1);
        let before = |t: int| tetra_named_before(nodes, internal, j - 1, t);
        let idx = nodes[j - 1].tetrahedron_index as int;
        assert forall|t: int| 0 <= t < n && t != idx implies #[trigger] now(t) == before(t) by {
            if now(t) {
                let jj = choose|jj: int| internal <= jj < j && #[trigger] nodes[jj].tetrahedron_index == t;
                assert(jj != j - 1);
                assert(internal <= jj < j - 1 && nodes[jj].tetrahedron_index == t);
            }
            if before(t) {
                let jj = choose|jj: int| internal <= jj < j - 1 && #[trigger] nodes[jj].tetrahedron_index == t;
                assert(internal <= jj < j && nodes[jj].tetrahedron_index == t);
            }
        }
        assert(internal <= j - 1 < j && nodes[j - 1].tetrahedron_index == idx);
        if idx >= n {
            lemma_count_where_same(0, n, now, before);
        } else if before(idx) {
            assert(now(idx));
            lemma_count_where_same(0, n, now, before);
        } else {
            assert(now(idx));
            lemma_count_where_update(0, n, now, before, idx);
        }
    }
}

/// There are as many leaves as tetrahedra, so in the summary of a BVH the tetrahedra
/// that no leaf names are exactly as many as the leaves whose tetrahedron index is out
/// of range plus the leaves that repeat a tetrahedron an earlier leaf names.
pub proof fn lemma_missing_tetrahedra_balance(nodes: Seq<BvhNodeLinks>, n: int)
    requires
        topology_summary_defined(nodes.len() as int, n),
    ensures
        topology_summary(nodes, n).11 == topology_summary(nodes, n).9 + topology_summary(nodes, n).10,
{
    let named = |t: int| tetra_named_before(nodes, n - 1, 2 * n - 1, t);
    let unnamed = |t: int| !tetra_named_before(nodes, n - 1, 2 * n - 1, t);
    lemma_leaf_partition(nodes, n, 2 * n - 1);
    lemma_count_where_complement(0, n, named);
    lemma_count_where_same(0, n, |t: int| !named(t), unnamed);
}

} // verus!
