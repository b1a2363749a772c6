use combat_core::behavior::ItemBehavior;
use combat_core::map::{GameMap, TerrainTile};
use combat_core::physics::util::grid_point_from_scene_point;
use combat_core::physics::visibility::{behavior_opacity_modifier, Visibility};
use combat_core::physics::GridPoint;
use combat_core::scene::item::{SceneItem, SceneItemType, Side};
use combat_core::weapon::Weapon;
use combat_core::ScenePoint;

fn tile(opacity: i64) -> TerrainTile {
    TerrainTile { opacity, pathfind_cost: 1, passable: true }
}

fn soldier(id: usize, position: ScenePoint, behavior: ItemBehavior, map: &GameMap) -> SceneItem {
    SceneItem::new(id, SceneItemType::Soldier, position, behavior, map, Side::A, Weapon::new())
}

/// A 10-cell straight corridor of 10 by 10 pixel cells, uniform opacity.
fn corridor(opacity: i64) -> GameMap {
    GameMap::new(10, 1, 10, 10, vec![tile(opacity); 10]).unwrap()
}

#[test]
fn test_corridor_full_trace_final_opacity() {
    // Uniform terrain opacity 0.1 (100 thousandths), 2 ignored cells:
    // tracing the full 10-cell corridor accumulates 8 * 0.1 = 0.8.
    let map = corridor(100);
    let observer = soldier(0, ScenePoint::new(5, 5), ItemBehavior::Standing, &map);
    let target = soldier(1, ScenePoint::new(95, 5), ItemBehavior::Standing, &map);
    let vis = Visibility::with_scene_item_target(&observer, &target, &map);
    assert_eq!(vis.path_final_opacity, 800);
    assert_eq!(vis.from_scene_id, 0);
    assert_eq!(vis.to_scene_item_id, Some(1));
    assert_eq!(vis.from_scene_point, ScenePoint::new(5, 5));
    assert_eq!(vis.to_scene_point, ScenePoint::new(95, 5));
    // One sample per newly visited cell.
    assert_eq!(vis.opacity_segments.len(), 10);
    assert_eq!(vis.opacity_segments.last().unwrap().1, 800);
}

#[test]
fn test_opacity_profile_is_non_decreasing() {
    let map = corridor(100);
    let observer = soldier(0, ScenePoint::new(5, 5), ItemBehavior::Standing, &map);
    let target = soldier(1, ScenePoint::new(95, 5), ItemBehavior::Standing, &map);
    let vis = Visibility::with_scene_item_target(&observer, &target, &map);
    let mut last = 0;
    for (_, cumulative) in vis.opacity_segments.iter() {
        assert!(*cumulative >= last);
        last = *cumulative;
    }
}

#[test]
fn test_diagonal_profile_is_non_decreasing() {
    let map = GameMap::new(10, 10, 10, 10, vec![tile(70); 100]).unwrap();
    let observer = soldier(0, ScenePoint::new(5, 5), ItemBehavior::Standing, &map);
    let target = soldier(1, ScenePoint::new(95, 91), ItemBehavior::Standing, &map);
    let vis = Visibility::with_scene_item_target(&observer, &target, &map);
    let mut last = 0;
    for (_, cumulative) in vis.opacity_segments.iter() {
        assert!(*cumulative >= last);
        last = *cumulative;
    }
    assert_eq!(vis.path_final_opacity, vis.opacity_segments.last().unwrap().1);
}

#[test]
fn test_first_cells_contribute_nothing() {
    // Only the first two cells are traced: both fall in the ignored
    // window, so the accumulated opacity stays zero.
    let map = corridor(100);
    let observer = soldier(0, ScenePoint::new(5, 5), ItemBehavior::Standing, &map);
    let target = soldier(1, ScenePoint::new(15, 5), ItemBehavior::Standing, &map);
    let vis = Visibility::with_scene_item_target(&observer, &target, &map);
    assert_eq!(vis.path_final_opacity, 0);
}

#[test]
fn test_visibility_boundary_exactly_at_threshold_is_not_visible() {
    // 8 counted cells at 125 thousandths accumulate exactly 1.0; a standing
    // target offsets 0.5, leaving adjusted opacity exactly at the 0.5
    // threshold: not visible.
    let map = corridor(125);
    let observer = soldier(0, ScenePoint::new(5, 5), ItemBehavior::Standing, &map);
    let target = soldier(1, ScenePoint::new(95, 5), ItemBehavior::Standing, &map);
    let vis = Visibility::with_scene_item_target(&observer, &target, &map);
    assert_eq!(vis.path_final_opacity, 1000);
    assert_eq!(vis.to_scene_item_opacity, 500);
    assert!(!vis.visible);
}

#[test]
fn test_visibility_just_below_threshold_is_visible() {
    // One counted tile lowered by one thousandth: adjusted opacity 0.499,
    // strictly below the threshold: visible.
    let mut tiles = vec![tile(125); 10];
    tiles[5] = tile(124);
    let map = GameMap::new(10, 1, 10, 10, tiles).unwrap();
    let observer = soldier(0, ScenePoint::new(5, 5), ItemBehavior::Standing, &map);
    let target = soldier(1, ScenePoint::new(95, 5), ItemBehavior::Standing, &map);
    let vis = Visibility::with_scene_item_target(&observer, &target, &map);
    assert_eq!(vis.path_final_opacity, 999);
    assert_eq!(vis.to_scene_item_opacity, 499);
    assert!(vis.visible);
}

#[test]
fn test_target_behavior_adjusts_opacity() {
    let map = corridor(100);
    let observer = soldier(0, ScenePoint::new(5, 5), ItemBehavior::Standing, &map);

    let hiding = soldier(
        1,
        ScenePoint::new(95, 5),
        ItemBehavior::HideTo(ScenePoint::new(95, 5), vec![]),
        &map,
    );
    let vis = Visibility::with_scene_item_target(&observer, &hiding, &map);
    // 0.8 - (-1.0) = 1.8: concealed target is not visible.
    assert_eq!(vis.to_scene_item_opacity, 1800);
    assert!(!vis.visible);

    let running = soldier(
        2,
        ScenePoint::new(95, 5),
        ItemBehavior::MoveFastTo(ScenePoint::new(95, 5), vec![GridPoint::new(9, 0)]),
        &map,
    );
    let vis = Visibility::with_scene_item_target(&observer, &running, &map);
    // 0.8 - 2.0 = -1.2: fast movement exposes the target.
    assert_eq!(vis.to_scene_item_opacity, -1200);
    assert!(vis.visible);
}

#[test]
fn test_behavior_opacity_modifier_values() {
    let dest = ScenePoint::new(0, 0);
    assert_eq!(behavior_opacity_modifier(&ItemBehavior::Standing), 500);
    assert_eq!(behavior_opacity_modifier(&ItemBehavior::Dead), 0);
    assert_eq!(behavior_opacity_modifier(&ItemBehavior::Unconscious), 0);
    assert_eq!(behavior_opacity_modifier(&ItemBehavior::MoveTo(dest, vec![])), 1000);
    assert_eq!(behavior_opacity_modifier(&ItemBehavior::MoveFastTo(dest, vec![])), 2000);
    assert_eq!(behavior_opacity_modifier(&ItemBehavior::HideTo(dest, vec![])), -1000);
    assert_eq!(behavior_opacity_modifier(&ItemBehavior::EngageSceneItem(3)), 0);
    assert_eq!(behavior_opacity_modifier(&ItemBehavior::EngageGridPoint(GridPoint::new(1, 1))), 0);
}

#[test]
fn test_grid_point_from_scene_point_truncates() {
    let map = GameMap::new(10, 10, 10, 10, vec![tile(0); 100]).unwrap();
    let p = grid_point_from_scene_point(&ScenePoint::new(23, 47), &map);
    assert_eq!(p, GridPoint::new(2, 4));
    let origin = grid_point_from_scene_point(&ScenePoint::new(0, 0), &map);
    assert_eq!(origin, GridPoint::new(0, 0));
    let edge = grid_point_from_scene_point(&ScenePoint::new(99, 99), &map);
    assert_eq!(edge, GridPoint::new(9, 9));
}

#[test]
fn test_game_map_rejects_bad_dimensions() {
    assert!(GameMap::new(0, 1, 10, 10, vec![]).is_none());
    assert!(GameMap::new(2, 2, 10, 10, vec![tile(0); 3]).is_none());
    assert!(GameMap::new(1, 1, 0, 10, vec![tile(0)]).is_none());
    assert!(GameMap::new(1, 1, 10, 10, vec![TerrainTile {
        opacity: -5,
        pathfind_cost: 1,
        passable: true,
    }])
    .is_none());
}
