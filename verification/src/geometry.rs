use vstd::prelude::*;

verus! {

/// A corner of the unit tesseract `[0, 1]^4`, by its four coordinates.
#[derive(Copy, Clone, Debug, PartialEq, Eq, Structural)]
pub struct Vertex4 {
    pub x: i32,
    pub y: i32,
    pub z: i32,
    pub w: i32,
}

/// A tetrahedron of the tesseract's boundary, by its four vertices.
#[derive(Copy, Clone, Debug, PartialEq, Eq, Structural)]
pub struct ModelTetrahedron {
    pub v0: Vertex4,
    pub v1: Vertex4,
    pub v2: Vertex4,
    pub v3: Vertex4,
}

/// Vertex `i` (0 to 3) of `t`.
pub open spec fn tetra_corner(t: ModelTetrahedron, i: int) -> Vertex4 {
    if i == 0 {
        t.v0
    } else if i == 1 {
        t.v1
    } else if i == 2 {
        t.v2
    } else {
        t.v3
    }
}

/// Coordinate `c` (0 = x, 1 = y, 2 = z, 3 = w) of a vertex.
pub open spec fn coord(v: Vertex4, c: int) -> i32 {
    if c == 0 {
        v.x
    } else if c == 1 {
        v.y
    } else if c == 2 {
        v.z
    } else {
        v.w
    }
}

/// The axis held fixed by facet `f`: facets come in pairs per axis.
pub open spec fn facet_axis(f: int) -> int {
    f / 2
}

/// The value (0 or 1) of the fixed axis on facet `f`.
pub open spec fn facet_side(f: int) -> int {
    f % 2
}

/// The position at which free axis `j` (0, 1 or 2) is walked in the `p`-th order of
/// three axes, the orders taken lexicographically: 012, 021, 102, 120, 201, 210.
pub open spec fn walk_position(p: int, j: int) -> int {
    if p == 0 {
        j
    } else if p == 1 {
        if j == 0 { 0 } else if j == 1 { 2 } else { 1 }
    } else if p == 2 {
        if j == 0 { 1 } else if j == 1 { 0 } else { 2 }
    } else if p == 3 {
        if j == 0 { 2 } else if j == 1 { 0 } else { 1 }
    } else if p == 4 {
        if j == 0 { 1 } else if j == 1 { 2 } else { 0 }
    } else {
        if j == 0 { 2 } else if j == 1 { 1 } else { 0 }
    }
}

/// Coordinate `c` of vertex `i` of tetrahedron `k`. Tetrahedron `k` lies on facet
/// `k / 6`; its vertex `i` starts at the facet's corner nearest the origin and has
/// stepped to 1 along the first `i` free axes of the `(k % 6)`-th order.
pub open spec fn tetra_coord(k: int, i: int, c: int) -> i32 {
    let f = k / 6;
    let a = facet_axis(f);
    if c == a {
        facet_side(f) as i32
    } else {
        let j = if c < a { c } else { c - 1 };
        if walk_position(k % 6, j) < i { 1 } else { 0 }
    }
}

/// Vertex `i` of tetrahedron `k` (see `tetra_coord`).
pub open spec fn tetra_vertex(k: int, i: int) -> Vertex4 {
    Vertex4 {
        x: tetra_coord(k, i, 0),
        y: tetra_coord(k, i, 1),
        z: tetra_coord(k, i, 2),
        w: tetra_coord(k, i, 3),
    }
}

/// Tetrahedron `k` holds `tetra_vertex(k, 0..4)` in order.
pub open spec fn is_tetra(t: ModelTetrahedron, k: int) -> bool {
    &&& t.v0 == tetra_vertex(k, 0)
    &&& t.v1 == tetra_vertex(k, 1)
    &&& t.v2 == tetra_vertex(k, 2)
    &&& t.v3 == tetra_vertex(k, 3)
}

fn walk_position_of(p: usize, j: usize) -> (r: usize)
    requires
        p < 6,
        j < 3,
    ensures
        r == walk_position(p as int, j as int),
        r < 3,
{
    if p == 0 {
        j
    } else if p == 1 {
        if j == 0 { 0 } else if j == 1 { 2 } else { 1 }
    } else if p == 2 {
        if j == 0 { 1 } else if j == 1 { 0 } else { 2 }
    } else if p == 3 {
        if j == 0 { 2 } else if j == 1 { 0 } else { 1 }
    } else if p == 4 {
        if j == 0 { 1 } else if j == 1 { 2 } else { 0 }
    } else {
        if j == 0 { 2 } else if j == 1 { 1 } else { 0 }
    }
}

fn vertex_coord(k: usize, i: usize, c: usize) -> (r: i32)
    requires
        k < 48,
        i < 4,
        c < 4,
    ensures
        r == tetra_coord(k as int, i as int, c as int),
{
    let f = k / 6;
    let a = f / 2;
    if c == a {
        (f % 2) as i32
    } else {
        let j = if c < a { c } else { c - 1 };
        if walk_position_of(k % 6, j) < i { 1 } else { 0 }
    }
}

fn vertex_of(k: usize, i: usize) -> (v: Vertex4)
    requires
        k < 48,
        i < 4,
    ensures
        v == tetra_vertex(k as int, i as int),
{
    Vertex4 {
        x: vertex_coord(k, i, 0),
        y: vertex_coord(k, i, 1),
        z: vertex_coord(k, i, 2),
        w: vertex_coord(k, i, 3),
    }
}

/// The boundary of the unit tesseract as 48 tetrahedra: each of its 8 cubic facets is
/// cut into 6 tetrahedra, one per order in which the facet's three free axes are
/// walked from its corner nearest the origin to the opposite corner.
pub fn generate_tesseract_tetrahedrons() -> (r: Vec<ModelTetrahedron>)
    ensures
        r@.len() == 48,
        forall|k: int| 0 <= k < 48 ==> is_tetra(#[trigger] r@[k], k),
{
    let mut out: Vec<ModelTetrahedron> = Vec::new();
    let mut k: usize = 0;
    while k < 48
        invariant
            k <= 48,
            out@.len() == k,
            forall|m: int| 0 <= m < k ==> is_tetra(#[trigger] out@[m], m),
        decreases 48 - k,
    {
        let t = ModelTetrahedron {
            v0: vertex_of(k, 0),
            v1: vertex_of(k, 1),
            v2: vertex_of(k, 2),
            v3: vertex_of(k, 3),
        };
        assert(is_tetra(t, k as int));
        out.push(t);
        k = k + 1;
    }
    out
}

/// Every tetrahedron of the tesseract's boundary is made of unit-tesseract corners,
/// lies on the facet it belongs to, and walks from that facet's corner nearest the
/// origin to the opposite corner, one free axis per edge: consecutive vertices differ in
/// exactly one coordinate, which steps from 0 to 1, so no tetrahedron is degenerate.
pub proof fn lemma_tesseract_tetrahedra_shape(k: int, i: int, c: int)
    requires
        0 <= k < 48,
        0 <= i < 4,
        0 <= c < 4,
    ensures
        tetra_coord(k, i, c) == 0 || tetra_coord(k, i, c) == 1,
        tetra_coord(k, i, facet_axis(k / 6)) == facet_side(k / 6),
        c != facet_axis(k / 6) ==> tetra_coord(k, 0, c) == 0 && tetra_coord(k, 3, c) == 1,
        i < 3 ==> exists|d: int|
            0 <= d < 4 && tetra_coord(k, i, d) == 0 && tetra_coord(k, i + 1, d) == 1 && forall|
                e: int,
            |
                0 <= e < 4 && e != d ==> #[trigger] tetra_coord(k, i, e) == tetra_coord(
                    k,
                    i + 1,
                    e,
                ),
{
    let f = k / 6;
    let a = facet_axis(f);
    let p = k % 6;
    if i < 3 {
        // The free axis walked at step `i`.
        let j: int = if walk_position(p, 0) == i {
            0
        } else if walk_position(p, 1) == i {
            1
        } else {
            2
        };
        let d: int = if j < a { j } else { j + 1 };
        assert(walk_position(p, j) == i);
        assert forall|e: int| 0 <= e < 4 && e != d implies #[trigger] tetra_coord(k, i, e)
            == tetra_coord(k, i + 1, e) by {
            if e != a {
                let je: int = if e < a { e } else { e - 1 };
                assert(je != j);
                assert(walk_position(p, je) != i);
            }
        }
        assert(tetra_coord(k, i, d) == 0 && tetra_coord(k, i + 1, d) == 1);
    }
}

/// No tetrahedron of the boundary appears twice: tetrahedra with different indices
/// differ in some vertex.
pub proof fn lemma_tesseract_tetrahedra_distinct(k1: int, k2: int)
    requires
        0 <= k1 < 48,
        0 <= k2 < 48,
        k1 != k2,
    ensures
        exists|i: int| 0 <= i < 4 && tetra_vertex(k1, i) != tetra_vertex(k2, i),
{
    let f1 = k1 / 6;
    let f2 = k2 / 6;
    let a1 = facet_axis(f1);
    let a2 = facet_axis(f2);
    if f1 == f2 {
        let p1 = k1 % 6;
        let p2 = k2 % 6;
        assert(p1 != p2);
        // Two different orders of three axes differ in the axis walked first or second.
        let j: int = if walk_position(p1, 0) != walk_position(p2, 0) {
            0
        } else if walk_position(p1, 1) != walk_position(p2, 1) {
            1
        } else {
            2
        };
        assert(walk_position(p1, j) != walk_position(p2, j));
        let c: int = if j < a1 { j } else { j + 1 };
        let i: int = if walk_position(p1, j) < walk_position(p2, j) {
            walk_position(p1, j) + 1
        } else {
            walk_position(p2, j) + 1
        };
        assert(coord(tetra_vertex(k1, i), c) != coord(tetra_vertex(k2, i), c));
    } else if a1 == a2 {
        assert(coord(tetra_vertex(k1, 0), a1) != coord(tetra_vertex(k2, 0), a1));
    } else if facet_side(f2) == 1 {
        assert(coord(tetra_vertex(k1, 0), a2) != coord(tetra_vertex(k2, 0), a2));
    } else {
        assert(coord(tetra_vertex(k1, 3), a2) != coord(tetra_vertex(k2, 3), a2));
    }
}

} // verus!
