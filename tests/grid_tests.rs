use std::collections::HashMap;

use marching_cubes::cube::{Point3, Triangle};
use marching_cubes::grid::{extract, extract_samples, Bounds, ExtractError, Resolution};

fn p(x: i64, y: i64, z: i64) -> Point3 {
    Point3 { x, y, z }
}

fn unit_bounds() -> Bounds {
    Bounds { min: p(-1, -1, -1), max: p(1, 1, 1) }
}

/// A sphere of radius 0.6 centred in the box from -1 to 1, sampled on a
/// lattice of `n` cubes per axis (scaled to keep the field integral).
fn sphere(n: i64) -> impl Fn(Point3) -> i64 {
    move |q: Point3| {
        let d = |c: i64| 4 * c - 2 * n;
        25 * (d(q.x) * d(q.x) + d(q.y) * d(q.y) + d(q.z) * d(q.z)) - 36 * n * n
    }
}

fn sphere_triangles(n: usize) -> Vec<Triangle> {
    let res = Resolution { x: n, y: n, z: n };
    extract(&sphere(n as i64), unit_bounds(), res).unwrap()
}

fn is_watertight(tris: &[Triangle]) -> bool {
    let mut edges: HashMap<((i64, i64, i64), (i64, i64, i64)), i32> = HashMap::new();
    for t in tris {
        for k in 0..3 {
            let a = t.0[k];
            let b = t.0[(k + 1) % 3];
            let a = (a.x, a.y, a.z);
            let b = (b.x, b.y, b.z);
            *edges.entry((a, b)).or_insert(0) += 1;
            *edges.entry((b, a)).or_insert(0) -= 1;
        }
    }
    !tris.is_empty() && edges.values().all(|&c| c == 0)
}

#[test]
fn sphere_grid_is_closed() {
    let tris = sphere_triangles(2);
    assert!(!tris.is_empty());
    assert!(is_watertight(&tris));
}

#[test]
fn sphere_refines_with_resolution() {
    let t2 = sphere_triangles(2).len();
    let t4 = sphere_triangles(4).len();
    let t8 = sphere_triangles(8).len();
    assert!(t2 < t4 && t4 < t8, "{} {} {}", t2, t4, t8);
    assert!(is_watertight(&sphere_triangles(4)));
    assert!(is_watertight(&sphere_triangles(8)));
}

#[test]
fn zero_resolution_is_refused() {
    let res = Resolution { x: 0, y: 4, z: 4 };
    assert_eq!(extract(&sphere(4), unit_bounds(), res), Err(ExtractError::InvalidResolution));
    let values = vec![1i64; 25];
    assert_eq!(extract_samples(&values, unit_bounds(), res), Err(ExtractError::InvalidResolution));
}

#[test]
fn degenerate_or_inverted_bounds_are_refused() {
    let res = Resolution { x: 1, y: 1, z: 1 };
    let flat = Bounds { min: p(0, 0, 0), max: p(1, 0, 1) };
    let inverted = Bounds { min: p(0, 0, 0), max: p(1, 1, -1) };
    assert_eq!(extract(&sphere(1), flat, res), Err(ExtractError::InvalidBounds));
    assert_eq!(extract_samples(&vec![1; 8], inverted, res), Err(ExtractError::InvalidBounds));
}

#[test]
fn wrong_sample_count_is_refused() {
    let res = Resolution { x: 1, y: 1, z: 2 };
    let values = vec![1i64; 8];
    assert_eq!(extract_samples(&values, unit_bounds(), res), Err(ExtractError::SampleCountMismatch));
}

#[test]
fn single_cube_grid_matches_cube_processing() {
    // Lattice order: first axis slowest, third fastest.
    let res = Resolution { x: 1, y: 1, z: 1 };
    let mut values = vec![5i64; 8];
    values[0] = -1; // lattice point (0, 0, 0), corner 0
    let tris = extract_samples(&values, unit_bounds(), res).unwrap();
    assert_eq!(tris, vec![Triangle([p(1, 0, 0), p(0, 1, 0), p(0, 0, 1)])]);
}

#[test]
fn cubes_are_visited_in_lexicographic_order() {
    let res = Resolution { x: 2, y: 1, z: 1 };
    // Point (i, j, k) is at (i * 2 + j) * 2 + k; only (2, 0, 0) and (0, 0, 0) are below.
    let mut values = vec![5i64; 12];
    values[8] = -1;
    values[0] = -1;
    let tris = extract_samples(&values, unit_bounds(), res).unwrap();
    assert_eq!(tris.len(), 2);
    assert_eq!(tris[0], Triangle([p(1, 0, 0), p(0, 1, 0), p(0, 0, 1)]));
    assert_eq!(tris[1], Triangle([p(3, 0, 0), p(4, 0, 1), p(4, 1, 0)]));
}

#[test]
fn field_is_sampled_at_lattice_points() {
    let res = Resolution { x: 2, y: 2, z: 2 };
    let field = |q: Point3| if q == p(1, 1, 1) { -1 } else { 1 };
    let tris = extract(&field, unit_bounds(), res).unwrap();
    assert_eq!(tris.len(), 8);
    assert!(is_watertight(&tris));
}
