// Scenario tests for level loading, the tile lookup and its boundary
// behavior, and the collision probes.

use platformer::common::{Position2d, Size2d, FP_ONE, TILE_FP};
use platformer::level::{MapElementCollideType, TileMap};

fn loaded_map() -> TileMap {
    let mut map = TileMap::new();
    map.load_level(1);
    map
}

#[test]
fn new_map_has_wall_catalog_and_empty_grid() {
    let map = TileMap::new();
    assert_eq!(map.elements.len(), 1);
    assert_eq!(map.elements[0].0, '1');
    assert_eq!(map.elements[0].1.name, "Wall1");
    assert_eq!(map.elements[0].1.filename, "images/tile1.png");
    assert!(map.elements[0].1.solid);
    assert_eq!(map.level.len(), 0);
    assert!(map.player_start.is_none());
}

#[test]
fn load_level_builds_grid_and_spawn() {
    let map = loaded_map();
    assert_eq!(map.level.len(), 18);
    for row in &map.level {
        assert_eq!(row.len(), 25);
    }
    // Spawn is derived from tile (row 14, col 2) through the anchor
    // formula with its -1 offset.
    let spawn = map.player_start.expect("spawn must be set");
    assert_eq!(spawn.x, (2 - 1) * TILE_FP);
    assert_eq!(spawn.y, (14 - 1) * TILE_FP);
}

#[test]
fn load_level_unknown_id_leaves_empty_grid() {
    let mut map = TileMap::new();
    map.load_level(99);
    assert_eq!(map.level.len(), 0);
    // The spawn position is still recomputed.
    assert!(map.player_start.is_some());
    // No position holds a tile on an empty grid.
    for &(x, y) in &[
        (0, 0),
        (FP_ONE, FP_ONE),
        (5 * TILE_FP, 3 * TILE_FP),
        (-FP_ONE, 7 * TILE_FP),
        (400 * FP_ONE, 300 * FP_ONE),
    ] {
        assert!(map.get_tile_at(x, y).is_none());
    }
}

#[test]
fn tile_at_rejects_out_of_range_queries() {
    let map = loaded_map();
    // Negative column.
    assert!(map.get_tile_at(-FP_ONE, 0).is_none());
    // Negative row.
    assert!(map.get_tile_at(0, -FP_ONE).is_none());
    // Row equal to the row count (boundary inclusion) and past it.
    assert!(map.get_tile_at(0, 18 * TILE_FP).is_none());
    assert!(map.get_tile_at(0, 30 * TILE_FP).is_none());
    // Column past a row's end.
    assert!(map.get_tile_at(25 * TILE_FP, 0).is_none());
}

#[test]
fn tile_at_resolves_known_symbols_through_catalog() {
    let map = loaded_map();
    // (0, 0) lies in the top wall row.
    let e = map.get_tile_at(0, 0).expect("border tile must resolve");
    assert_eq!(e.name, "Wall1");
    assert!(e.solid);
    // Any point inside a cell resolves to that cell's tile.
    let e = map.get_tile_at(3 * TILE_FP + 17 * FP_ONE, 17 * TILE_FP + 5 * FP_ONE);
    assert!(e.expect("bottom wall row").solid);
    // '0' cells are not in the catalog: no element, not solid.
    assert!(map.get_tile_at(TILE_FP + FP_ONE, TILE_FP + FP_ONE).is_none());
}

#[test]
fn collide_below_detects_floor_contact() {
    // A 32-by-32 body whose bottom edge sits exactly on the top
    // boundary of the all-solid row 17.
    let map = loaded_map();
    let position = Position2d { x: 2 * TILE_FP, y: 16 * TILE_FP };
    let size = Size2d { w: TILE_FP, h: TILE_FP };
    assert!(map.collide(MapElementCollideType::Below, position, size));
}

#[test]
fn collide_left_clear_when_wall_is_a_tile_away() {
    // The same body with empty space on its left: column 1 of row 16
    // is empty, the wall is at column 0, one tile-width away.
    let map = loaded_map();
    let position = Position2d { x: 2 * TILE_FP, y: 16 * TILE_FP };
    let size = Size2d { w: TILE_FP, h: TILE_FP };
    assert!(!map.collide(MapElementCollideType::Left, position, size));
}

#[test]
fn collide_clamps_oversized_bodies_to_one_tile() {
    // A 64-by-64 body probes the same span as a tile-sized one: its
    // probe points stay within one tile edge of the anchor.
    let map = loaded_map();
    let position = Position2d { x: 2 * TILE_FP, y: 16 * TILE_FP };
    let big = Size2d { w: 2 * TILE_FP, h: 2 * TILE_FP };
    let tile = Size2d { w: TILE_FP, h: TILE_FP };
    for side in [
        MapElementCollideType::Above,
        MapElementCollideType::Below,
        MapElementCollideType::Left,
        MapElementCollideType::Right,
    ] {
        assert_eq!(
            map.collide(side, position, big),
            map.collide(side, position, tile),
        );
    }
}

#[test]
fn ragged_rows_treat_missing_cells_as_absent() {
    // Rows may vary in length; a column past a row's end holds no
    // tile even when longer rows have that column.
    let mut map = TileMap::new();
    map.level = vec![vec!['1'], vec!['1', '1', '1']];
    assert!(map.get_tile_at(0, 0).is_some());
    assert!(map.get_tile_at(TILE_FP, 0).is_none());
    assert!(map.get_tile_at(TILE_FP, TILE_FP).is_some());
    assert!(map.get_tile_at(2 * TILE_FP, TILE_FP).is_some());
    assert!(map.get_tile_at(3 * TILE_FP, TILE_FP).is_none());
}

#[test]
fn element_for_looks_up_symbols() {
    let map = TileMap::new();
    assert!(map.element_for('1').expect("wall symbol").solid);
    assert!(map.element_for('0').is_none());
    assert!(map.element_for('x').is_none());
}
