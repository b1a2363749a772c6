use combat_core::map::{GameMap, TerrainTile};
use combat_core::physics::path::find_path;
use combat_core::physics::GridPoint;

fn tile(opacity: i64, pathfind_cost: u64, passable: bool) -> TerrainTile {
    TerrainTile { opacity, pathfind_cost, passable }
}

fn uniform_map(width: usize, height: usize) -> GameMap {
    let tiles = vec![tile(100, 1, true); width * height];
    GameMap::new(width, height, 10, 10, tiles).unwrap()
}

fn assert_adjacent(a: &GridPoint, b: &GridPoint) {
    let dx = (a.x - b.x).abs();
    let dy = (a.y - b.y).abs();
    assert!(dx + dy == 1, "cells {:?} and {:?} are not adjacent", a, b);
}

#[test]
fn test_find_path_straight_corridor() {
    let map = uniform_map(5, 1);
    let from = GridPoint::new(0, 0);
    let to = GridPoint::new(4, 0);
    let path = find_path(&map, &from, &to).expect("corridor must be reachable");
    assert_eq!(path.first().unwrap(), &from);
    assert_eq!(path.last().unwrap(), &to);
    assert_eq!(path.len(), 5);
    for pair in path.windows(2) {
        assert_adjacent(&pair[0], &pair[1]);
    }
}

#[test]
fn test_find_path_endpoints_and_adjacency() {
    let map = uniform_map(4, 4);
    let from = GridPoint::new(0, 3);
    let to = GridPoint::new(3, 0);
    let path = find_path(&map, &from, &to).expect("open map must be reachable");
    assert_eq!(path.first().unwrap(), &from);
    assert_eq!(path.last().unwrap(), &to);
    for pair in path.windows(2) {
        assert_adjacent(&pair[0], &pair[1]);
    }
}

#[test]
fn test_find_path_same_cell() {
    let map = uniform_map(3, 3);
    let p = GridPoint::new(1, 1);
    let path = find_path(&map, &p, &p).expect("a cell reaches itself");
    assert_eq!(path, vec![p]);
}

#[test]
fn test_find_path_blocked_returns_none() {
    let mut tiles = vec![tile(0, 1, true); 5];
    tiles[2] = tile(0, 1, false);
    let map = GameMap::new(5, 1, 10, 10, tiles).unwrap();
    let from = GridPoint::new(0, 0);
    let to = GridPoint::new(4, 0);
    assert!(find_path(&map, &from, &to).is_none());
}

#[test]
fn test_find_path_disconnected_region() {
    // A full wall of impassable cells across the middle row.
    let mut tiles = vec![tile(0, 1, true); 9];
    for x in 0..3 {
        tiles[3 + x] = tile(0, 1, false);
    }
    let map = GameMap::new(3, 3, 10, 10, tiles).unwrap();
    let from = GridPoint::new(0, 0);
    let to = GridPoint::new(2, 2);
    assert!(find_path(&map, &from, &to).is_none());
}

#[test]
fn test_find_path_takes_cheap_terrain() {
    // Stepping onto the center cell is expensive; the cheap route walks
    // around it.
    let mut tiles = vec![tile(0, 1, true); 9];
    tiles[4] = tile(0, 100, true);
    let map = GameMap::new(3, 3, 10, 10, tiles).unwrap();
    let from = GridPoint::new(0, 1);
    let to = GridPoint::new(2, 1);
    let path = find_path(&map, &from, &to).expect("reachable");
    assert_eq!(path.first().unwrap(), &from);
    assert_eq!(path.last().unwrap(), &to);
    assert!(!path.contains(&GridPoint::new(1, 1)), "cheapest route avoids the costly center");
}

#[test]
fn test_find_path_around_obstacle() {
    let mut tiles = vec![tile(0, 1, true); 9];
    tiles[4] = tile(0, 1, false);
    let map = GameMap::new(3, 3, 10, 10, tiles).unwrap();
    let from = GridPoint::new(1, 0);
    let to = GridPoint::new(1, 2);
    let path = find_path(&map, &from, &to).expect("reachable around the obstacle");
    assert_eq!(path.first().unwrap(), &from);
    assert_eq!(path.last().unwrap(), &to);
    for pair in path.windows(2) {
        assert_adjacent(&pair[0], &pair[1]);
    }
    assert!(!path.contains(&GridPoint::new(1, 1)));
}
