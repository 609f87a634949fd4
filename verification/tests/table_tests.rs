use std::collections::VecDeque;

use millennium_run::table::TileGrid;

#[test]
fn new_grid_owns_nothing() {
    let g = TileGrid::new(4, 5);
    assert_eq!((g.num_rows(), g.num_cols()), (4, 5));
    for r in 0..4 {
        for c in 0..5 {
            assert!(!g.is_visited(r, c));
        }
    }
}

#[test]
fn spawn_area_owns_its_inside() {
    let mut g = TileGrid::new(10, 10);
    g.set_visited(4, 4, false);
    g.set_visited(0, 0, true);
    let owned = g.claim_spawn_area(5, 5, 2);
    assert_eq!(owned, vec![(4, 4), (4, 5), (4, 6), (5, 4), (5, 5), (5, 6), (6, 4), (6, 5), (6, 6)]);
    for r in 0..10 {
        for c in 0..10 {
            let inside = (4..=6).contains(&r) && (4..=6).contains(&c);
            let expected = inside || (r, c) == (0, 0);
            assert_eq!(g.is_visited(r, c), expected, "tile {:?}", (r, c));
        }
    }
}

#[test]
fn spawn_border_is_unowned() {
    let mut g = TileGrid::new(5, 5);
    for r in 0..5 {
        for c in 0..5 {
            g.set_visited(r, c, true);
        }
    }
    let owned = g.claim_spawn_area(2, 2, 1);
    assert_eq!(owned, vec![(2, 2)]);
    assert!(!g.is_visited(1, 1) && !g.is_visited(3, 2) && g.is_visited(2, 2) && g.is_visited(0, 0));
    let owned = g.claim_spawn_area(2, 2, 0);
    assert!(owned.is_empty());
    assert!(!g.is_visited(2, 2));
}

#[test]
fn clearing_the_path_releases_its_tiles() {
    let mut g = TileGrid::new(3, 3);
    g.set_visited(0, 1, true);
    g.set_visited(1, 1, true);
    g.set_visited(2, 2, true);
    let mut path: VecDeque<(usize, usize)> = VecDeque::from(vec![(0, 1), (1, 1)]);
    g.clear_path(&mut path);
    assert!(path.is_empty());
    assert!(!g.is_visited(0, 1) && !g.is_visited(1, 1) && g.is_visited(2, 2));
}

#[test]
fn spawn_area_size() {
    for hs in 0..5usize {
        let mut g = TileGrid::new(12, 12);
        let owned = g.claim_spawn_area(6, 6, hs);
        let w = if hs == 0 { 0 } else { 2 * hs - 1 };
        assert_eq!(owned.len(), w * w);
    }
}
