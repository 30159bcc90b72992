use marching_cubes::table::{
    corner_a, corner_b, triangulation, CORNER_INDEX_A_FROM_EDGE, CORNER_INDEX_B_FROM_EDGE,
    CORNER_OFFSETS, SENTINEL,
};

fn below(config: usize, corner: usize) -> bool {
    (config >> corner) & 1 == 1
}

fn used_slots(row: &[i8; 16]) -> usize {
    row.iter().position(|&e| e == SENTINEL).unwrap_or(16)
}

#[test]
fn every_row_has_at_most_five_triangles_and_ends_in_sentinels() {
    for config in 0..256usize {
        let row = triangulation(config as u8);
        let used = used_slots(&row);
        assert!(used <= 15, "config {}", config);
        assert_eq!(used % 3, 0, "config {}", config);
        for s in used..16 {
            assert_eq!(row[s], SENTINEL, "config {} slot {}", config, s);
        }
        for s in 0..used {
            assert!((0..12).contains(&row[s]), "config {} slot {}", config, s);
        }
    }
}

#[test]
fn uniform_configurations_have_no_triangles() {
    assert_eq!(triangulation(0), [SENTINEL; 16]);
    assert_eq!(triangulation(255), [SENTINEL; 16]);
}

#[test]
fn every_named_edge_is_crossed() {
    for config in 0..256usize {
        let row = triangulation(config as u8);
        for s in 0..used_slots(&row) {
            let e = row[s] as usize;
            assert_ne!(
                below(config, corner_a(e)),
                below(config, corner_b(e)),
                "config {} edge {}",
                config,
                e
            );
        }
    }
}

#[test]
fn every_crossed_edge_is_named() {
    for config in 0..256usize {
        let row = triangulation(config as u8);
        let used = &row[..used_slots(&row)];
        for e in 0..12usize {
            let crossed = below(config, corner_a(e)) != below(config, corner_b(e));
            assert_eq!(crossed, used.contains(&(e as i8)), "config {} edge {}", config, e);
        }
    }
}

#[test]
fn known_rows() {
    let row = triangulation(1);
    assert_eq!(&row[..4], &[0, 8, 3, -1]);
    let row = triangulation(42);
    assert_eq!(&row[..10], &[0, 5, 4, 0, 1, 5, 2, 3, 11, -1]);
    let row = triangulation(254);
    assert_eq!(&row[..4], &[0, 3, 8, -1]);
}

#[test]
fn edges_join_adjacent_corners() {
    for e in 0..12usize {
        assert_eq!(corner_a(e), CORNER_INDEX_A_FROM_EDGE[e]);
        assert_eq!(corner_b(e), CORNER_INDEX_B_FROM_EDGE[e]);
        let a = CORNER_OFFSETS[corner_a(e)];
        let b = CORNER_OFFSETS[corner_b(e)];
        let differing = (0..3).filter(|&k| a[k] != b[k]).count();
        assert_eq!(differing, 1, "edge {}", e);
    }
    assert_eq!(corner_a(10), 2);
    assert_eq!(corner_b(10), 6);
}
