use marching_cubes::cube::{Cube, Point, Point3, Triangle};

fn p(x: i64, y: i64, z: i64) -> Point3 {
    Point3 { x, y, z }
}

/// The reference cube; values are in tenths.
fn reference_cube() -> Cube {
    Cube::new([
        Point::new(p(0, 0, 0), 2),
        Point::new(p(1, 0, 0), -6),
        Point::new(p(1, 0, 1), 24),
        Point::new(p(0, 0, 1), -7),
        Point::new(p(0, 1, 0), 3),
        Point::new(p(1, 1, 0), -25),
        Point::new(p(1, 1, 1), 31),
        Point::new(p(0, 1, 1), 9),
    ])
}

#[test]
fn point_and_cube_constructors_keep_their_fields() {
    let q = Point::new(p(1, 2, 3), -4);
    assert_eq!(q.pos, p(1, 2, 3));
    assert_eq!(q.value, -4);
    let c = Cube::new([q; 8]);
    assert_eq!(c.0, [q; 8]);
}

#[test]
fn reference_cube_configuration() {
    assert_eq!(reference_cube().config_index(), 42);
}

#[test]
fn reference_cube_triangles() {
    let tris = reference_cube().process();
    assert_eq!(
        tris,
        vec![
            Triangle([p(1, 0, 0), p(2, 2, 1), p(1, 2, 0)]),
            Triangle([p(1, 0, 0), p(2, 0, 1), p(2, 2, 1)]),
            Triangle([p(1, 0, 2), p(0, 0, 1), p(0, 1, 2)]),
        ]
    );
}

#[test]
fn zero_counts_as_not_below() {
    let mut c = reference_cube();
    for i in 0..8 {
        c.0[i].value = 0;
    }
    assert_eq!(c.config_index(), 0);
    assert!(c.process().is_empty());
    c.0[3].value = -1;
    assert_eq!(c.config_index(), 8);
    assert_eq!(c.process().len(), 1);
}

#[test]
fn uniform_cubes_give_nothing() {
    let mut c = reference_cube();
    for i in 0..8 {
        c.0[i].value = -5;
    }
    assert_eq!(c.config_index(), 255);
    assert!(c.process().is_empty());
}

#[test]
fn processing_twice_gives_identical_output() {
    let c = reference_cube();
    assert_eq!(c.process(), c.process());
}

#[test]
fn swapping_values_of_corners_zero_and_one_changes_output() {
    let c = reference_cube();
    let mut s = c;
    s.0[0].value = c.0[1].value;
    s.0[1].value = c.0[0].value;
    assert_eq!(s.config_index(), 41);
    assert_ne!(s.process(), c.process());
}

#[test]
fn moving_the_cube_moves_the_vertices() {
    let mut c = reference_cube();
    for i in 0..8 {
        c.0[i].pos.x += 10;
    }
    let tris = c.process();
    assert_eq!(tris[0], Triangle([p(21, 0, 0), p(22, 2, 1), p(21, 2, 0)]));
}
