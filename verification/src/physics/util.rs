use vstd::prelude::*;

use crate::map::GameMap;
use crate::physics::GridPoint;
use crate::ScenePoint;

verus! {

/// Whether a scene point lies within the pixel area covered by the map.
pub open spec fn scene_point_in_map(map: &GameMap, p: ScenePoint) -> bool {
    &&& 0 <= p.x < map.width * map.tile_width
    &&& 0 <= p.y < map.height * map.tile_height
}

/// The cell a scene point falls into: coordinates divided by the cell's
/// pixel size, rounded towards zero.
pub open spec fn spec_grid_point_from_scene_point(map: &GameMap, p: ScenePoint) -> GridPoint
    recommends
        map.wf(),
        scene_point_in_map(map, p),
{
    GridPoint { x: (p.x / map.tile_width) as i32, y: (p.y / map.tile_height) as i32 }
}

/// An in-map scene point projects to an in-map grid cell.
pub proof fn lemma_spec_grid_point_in_map(map: &GameMap, p: ScenePoint)
    requires
        map.wf(),
        scene_point_in_map(map, p),
    ensures
        map.contains_grid_point(spec_grid_point_from_scene_point(map, p)),
        0 <= p.x / map.tile_width < map.width,
        0 <= p.y / map.tile_height < map.height,
{
    vstd::arithmetic::mul::lemma_mul_is_commutative(map.width as int, map.tile_width as int);
    vstd::arithmetic::mul::lemma_mul_is_commutative(map.height as int, map.tile_height as int);
    vstd::arithmetic::div_mod::lemma_multiply_divide_lt(
        p.x as int,
        map.tile_width as int,
        map.width as int,
    );
    vstd::arithmetic::div_mod::lemma_multiply_divide_lt(
        p.y as int,
        map.tile_height as int,
        map.height as int,
    );
    vstd::arithmetic::div_mod::lemma_div_pos_is_pos(p.x as int, map.tile_width as int);
    vstd::arithmetic::div_mod::lemma_div_pos_is_pos(p.y as int, map.tile_height as int);
}

/// Maps a scene point to the grid cell containing it. This is the single
/// source of truth for scene-to-grid projection: unit bookkeeping and the
/// visibility trace both go through it.
pub fn grid_point_from_scene_point(p: &ScenePoint, map: &GameMap) -> (r: GridPoint)
    requires
        map.wf(),
        scene_point_in_map(map, *p),
    ensures
        r == spec_grid_point_from_scene_point(map, *p),
        r.x == p.x / map.tile_width,
        r.y == p.y / map.tile_height,
        map.contains_grid_point(r),
{
    proof {
        lemma_spec_grid_point_in_map(map, *p);
    }
    let gx: i64 = p.x / map.tile_width;
    let gy: i64 = p.y / map.tile_height;
    GridPoint { x: gx as i32, y: gy as i32 }
}

} // verus!
