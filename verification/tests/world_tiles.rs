use plankton::gameworld::{
    loaded_tiles, should_cull, spawn_new_tiles, starting_world, CentreTile, Tile, TileCoord, WorldTile,
    LOAD_RADIUS, RENDER_DISTANCE,
};

fn c(x: i32, y: i32) -> TileCoord {
    TileCoord { x, y }
}

#[test]
fn manhattan_distance_adds_axis_distances() {
    assert_eq!(c(1, 2).manhattan_distance(c(4, -2)), 7);
    assert_eq!(c(4, -2).manhattan_distance(c(1, 2)), 7);
    assert_eq!(c(-3, -3).manhattan_distance(c(-3, -3)), 0);
    assert_eq!(c(i32::MIN, 0).manhattan_distance(c(i32::MAX, 0)), u32::MAX);
}

#[test]
fn tile_new_then_pos_gives_the_position_back() {
    let w = WorldTile::new(c(7, -8));
    assert_eq!(w.pos(), c(7, -8));
    let t = CentreTile::new(c(-1, 3));
    assert_eq!(t.pos(), c(-1, 3));
    assert_eq!(w.distance(c(0, 0)), 15);
    assert_eq!(t.distance(c(2, 2)), 4);
}

#[test]
fn loaded_tiles_walk_the_block_column_by_column() {
    let tiles = loaded_tiles(c(0, 0));
    assert_eq!(tiles.len(), 400);
    assert_eq!(tiles[0], c(-10, -10));
    assert_eq!(tiles[1], c(-10, -9));
    assert_eq!(tiles[19], c(-10, 9));
    assert_eq!(tiles[20], c(-9, -10));
    assert_eq!(tiles[399], c(9, 9));
    assert!(tiles.contains(&c(9, -10)));
    assert!(!tiles.contains(&c(10, 0)));
    assert!(!tiles.contains(&c(0, -11)));
    assert_eq!(LOAD_RADIUS, 10);
}

#[test]
fn loaded_tiles_are_distinct_and_around_the_centre() {
    let centre = c(123, -45);
    let tiles = loaded_tiles(centre);
    for (i, a) in tiles.iter().enumerate() {
        assert!(a.x >= 113 && a.x < 133 && a.y >= -55 && a.y < -35);
        for b in tiles.iter().skip(i + 1) {
            assert_ne!(a, b);
        }
    }
}

#[test]
fn loaded_tiles_near_the_edge_of_the_lattice() {
    let tiles = loaded_tiles(c(i32::MAX - 9, i32::MIN + 10));
    assert_eq!(tiles[399], c(i32::MAX, i32::MIN + 19));
    assert_eq!(tiles[0], c(i32::MAX - 19, i32::MIN));
}

#[test]
fn staying_on_the_centre_tile_spawns_nothing() {
    let mut centre = CentreTile::new(c(4, 4));
    let spawned = spawn_new_tiles(&mut centre, c(4, 4));
    assert!(spawned.is_empty());
    assert_eq!(centre.pos(), c(4, 4));
}

#[test]
fn one_step_right_spawns_one_new_column() {
    let mut centre = CentreTile::new(c(0, 0));
    let spawned = spawn_new_tiles(&mut centre, c(1, 0));
    assert_eq!(centre.pos(), c(1, 0));
    assert_eq!(spawned.len(), 20);
    for (k, t) in spawned.iter().enumerate() {
        assert_eq!(*t, c(10, k as i32 - 10));
    }
}

#[test]
fn diagonal_step_spawns_a_column_and_a_row() {
    let mut centre = CentreTile::new(c(0, 0));
    let spawned = spawn_new_tiles(&mut centre, c(-1, -1));
    assert_eq!(spawned.len(), 39);
    assert_eq!(spawned[0], c(-11, -11));
    assert_eq!(spawned[19], c(-11, 8));
    assert_eq!(spawned[20], c(-10, -11));
    assert_eq!(spawned[38], c(8, -11));
    let old = loaded_tiles(c(0, 0));
    for t in &spawned {
        assert!(!old.contains(t));
    }
}

#[test]
fn far_jump_spawns_the_whole_new_block() {
    let mut centre = CentreTile::new(c(0, 0));
    let spawned = spawn_new_tiles(&mut centre, c(100, -100));
    assert_eq!(spawned, loaded_tiles(c(100, -100)));
    assert_eq!(centre.pos(), c(100, -100));
}

#[test]
fn after_a_move_the_new_block_is_old_or_spawned() {
    let old_centre = c(3, 7);
    let new_centre = c(8, 1);
    let mut centre = CentreTile::new(old_centre);
    let spawned = spawn_new_tiles(&mut centre, new_centre);
    let old = loaded_tiles(old_centre);
    for t in loaded_tiles(new_centre) {
        assert!(old.contains(&t) != spawned.contains(&t));
    }
    assert_eq!(spawned.len(), 400 - 15 * 14);
}

#[test]
fn culling_starts_beyond_the_render_distance() {
    assert_eq!(RENDER_DISTANCE, 20);
    assert!(!should_cull(&WorldTile::new(c(10, 10)), c(0, 0)));
    assert!(should_cull(&WorldTile::new(c(11, 10)), c(0, 0)));
    assert!(should_cull(&WorldTile::new(c(-21, 0)), c(0, 0)));
    assert!(!should_cull(&WorldTile::new(c(5, 5)), c(5, 5)));
}

#[test]
fn the_loaded_block_survives_culling() {
    let centre = c(-17, 42);
    for t in loaded_tiles(centre) {
        assert!(!should_cull(&WorldTile::new(t), centre));
    }
}

#[test]
fn the_world_starts_with_the_block_around_the_origin() {
    let (centre, tiles) = starting_world();
    assert_eq!(centre.pos(), c(0, 0));
    assert_eq!(tiles, loaded_tiles(c(0, 0)));
    assert_eq!(tiles.len(), 400);
}
