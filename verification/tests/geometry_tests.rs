use higher_dimension_playground::geometry::{generate_tesseract_tetrahedrons, ModelTetrahedron, Vertex4};

fn coords(v: Vertex4) -> [i32; 4] {
    [v.x, v.y, v.z, v.w]
}

fn corners(t: &ModelTetrahedron) -> [[i32; 4]; 4] {
    [coords(t.v0), coords(t.v1), coords(t.v2), coords(t.v3)]
}

#[test]
fn tesseract_has_48_boundary_tetrahedra() {
    let tets = generate_tesseract_tetrahedrons();
    assert_eq!(tets.len(), 48);
}

#[test]
fn first_and_last_tetrahedra() {
    let tets = generate_tesseract_tetrahedrons();
    assert_eq!(corners(&tets[0]), [[0, 0, 0, 0], [0, 1, 0, 0], [0, 1, 1, 0], [0, 1, 1, 1]]);
    assert_eq!(corners(&tets[47]), [[0, 0, 0, 1], [0, 0, 1, 1], [0, 1, 1, 1], [1, 1, 1, 1]]);
}

#[test]
fn tetrahedra_lie_on_their_facets_and_walk_one_axis_per_edge() {
    let tets = generate_tesseract_tetrahedrons();
    for (k, t) in tets.iter().enumerate() {
        let c = corners(t);
        let facet = k / 6;
        let axis = facet / 2;
        let side = (facet % 2) as i32;
        for v in c.iter() {
            assert_eq!(v[axis], side);
            assert!(v.iter().all(|x| *x == 0 || *x == 1));
        }
        for i in 0..3 {
            let diffs: Vec<usize> = (0..4).filter(|&a| c[i][a] != c[i + 1][a]).collect();
            assert_eq!(diffs.len(), 1);
            assert_eq!(c[i + 1][diffs[0]] - c[i][diffs[0]], 1);
        }
    }
}

#[test]
fn tetrahedra_are_distinct() {
    let tets = generate_tesseract_tetrahedrons();
    for a in 0..tets.len() {
        for b in (a + 1)..tets.len() {
            assert_ne!(corners(&tets[a]), corners(&tets[b]));
        }
    }
}
