use combat_core::behavior::{ItemBehavior, Order};
use combat_core::map::{GameMap, TerrainTile};
use combat_core::physics::{GridPoint, HitType, PhysicEvent};
use combat_core::scene::item::{
    apply_scene_item_modifier, apply_scene_item_modifiers, SceneItem, SceneItemModifier,
    SceneItemType, Side,
};
use combat_core::scene::MainStateModifier;
use combat_core::weapon::Weapon;
use combat_core::{Message, ScenePoint};

fn tile(opacity: i64) -> TerrainTile {
    TerrainTile { opacity, pathfind_cost: 1, passable: true }
}

fn small_map() -> GameMap {
    GameMap::new(10, 10, 10, 10, vec![tile(100); 100]).unwrap()
}

fn soldier(map: &GameMap) -> SceneItem {
    SceneItem::new(
        7,
        SceneItemType::Soldier,
        ScenePoint::new(23, 47),
        ItemBehavior::Standing,
        map,
        Side::A,
        Weapon::new(),
    )
}

#[test]
fn test_new_scene_item_grid_position_is_projection() {
    let map = small_map();
    let item = soldier(&map);
    assert_eq!(item.grid_position, GridPoint::new(2, 4));
    assert_eq!(item.position, ScenePoint::new(23, 47));
    assert!(item.current_order.is_none());
    assert!(item.next_order.is_none());
    assert!(item.visibilities.is_empty());
    assert!(item.reloading_since.is_none());
    assert!(item.acquiring_since.is_none());
    assert!(!item.weapon.need_reload);
}

#[test]
fn test_switch_with_queued_order_adopts_it() {
    let map = small_map();
    let mut item = soldier(&map);
    let order = Order::MoveTo(ScenePoint::new(80, 80));
    let msgs = apply_scene_item_modifier(&mut item, SceneItemModifier::SetNextOrder(order), 0);
    assert!(msgs.is_empty());
    assert_eq!(item.next_order, Some(order));
    let msgs = apply_scene_item_modifier(&mut item, SceneItemModifier::SwitchToNextOrder, 0);
    assert!(msgs.is_empty());
    assert_eq!(item.current_order, Some(order));
    assert!(item.next_order.is_none());
}

#[test]
fn test_switch_without_queued_order_resets_to_standing() {
    let map = small_map();
    let mut item = soldier(&map);
    // Whatever the unit was doing, with no queued order the switch clears
    // the current order and leaves it standing.
    let behavior = ItemBehavior::MoveFastTo(
        ScenePoint::new(80, 80),
        vec![GridPoint::new(3, 4), GridPoint::new(4, 4)],
    );
    apply_scene_item_modifier(&mut item, SceneItemModifier::ChangeBehavior(behavior), 0);
    apply_scene_item_modifier(
        &mut item,
        SceneItemModifier::SetNextOrder(Order::HideTo(ScenePoint::new(1, 1))),
        0,
    );
    apply_scene_item_modifier(&mut item, SceneItemModifier::SwitchToNextOrder, 0);
    // The queue was consumed; a second switch finds it empty.
    apply_scene_item_modifier(&mut item, SceneItemModifier::SwitchToNextOrder, 0);
    assert!(matches!(item.behavior, ItemBehavior::Standing));
    assert!(item.current_order.is_none());
    assert!(item.next_order.is_none());
}

#[test]
fn test_advance_path_switches_exactly_after_last_cell() {
    let map = small_map();
    let mut item = soldier(&map);
    let path = vec![GridPoint::new(3, 4), GridPoint::new(4, 4), GridPoint::new(5, 4)];
    let dest = ScenePoint::new(55, 45);
    apply_scene_item_modifier(
        &mut item,
        SceneItemModifier::ChangeBehavior(ItemBehavior::MoveTo(dest, path)),
        0,
    );
    // First advance: two cells remain, no switch yet.
    apply_scene_item_modifier(&mut item, SceneItemModifier::ReachMoveGridPoint, 0);
    match &item.behavior {
        ItemBehavior::MoveTo(_, remaining) => {
            assert_eq!(remaining, &vec![GridPoint::new(4, 4), GridPoint::new(5, 4)]);
        },
        _ => panic!("behavior must still follow the path"),
    }
    // Second advance: one cell remains, still no switch.
    apply_scene_item_modifier(&mut item, SceneItemModifier::ReachMoveGridPoint, 0);
    match &item.behavior {
        ItemBehavior::MoveTo(_, remaining) => {
            assert_eq!(remaining, &vec![GridPoint::new(5, 4)]);
        },
        _ => panic!("behavior must still follow the path"),
    }
    // Third advance empties the path: with no queued order the unit stands.
    apply_scene_item_modifier(&mut item, SceneItemModifier::ReachMoveGridPoint, 0);
    assert!(matches!(item.behavior, ItemBehavior::Standing));
    assert!(item.current_order.is_none());
}

#[test]
fn test_advance_path_ignored_by_non_path_behaviors() {
    let map = small_map();
    let mut item = soldier(&map);
    apply_scene_item_modifier(
        &mut item,
        SceneItemModifier::ChangeBehavior(ItemBehavior::EngageSceneItem(2)),
        0,
    );
    let msgs = apply_scene_item_modifier(&mut item, SceneItemModifier::ReachMoveGridPoint, 0);
    assert!(msgs.is_empty());
    assert!(matches!(item.behavior, ItemBehavior::EngageSceneItem(2)));
}

#[test]
fn test_fire_twice_in_one_batch_emits_two_messages() {
    let map = small_map();
    let mut item = soldier(&map);
    let target = ScenePoint::new(90, 90);
    let messages = apply_scene_item_modifiers(
        &mut item,
        vec![
            SceneItemModifier::FireOnSceneItem(3, target),
            SceneItemModifier::FireOnSceneItem(3, target),
        ],
        11,
    );
    assert_eq!(messages.len(), 2);
    for message in messages.iter() {
        let Message::MainStateMessage(MainStateModifier::PushPhysicEvent(event)) = message;
        match event {
            PhysicEvent::BulletFire(from, to, shot_id, hit) => {
                assert_eq!(*from, ScenePoint::new(23, 47));
                assert_eq!(*to, target);
                assert_eq!(*shot_id, Some(3));
                assert!(matches!(hit, HitType::Deadly));
            },
            PhysicEvent::Explosion => panic!("fire emits bullet events only"),
        }
    }
    assert!(item.weapon.need_reload);
    assert_eq!(item.reloading_since, Some(11));
}

#[test]
fn test_second_fire_overwrites_reload_timestamp() {
    let map = small_map();
    let mut item = soldier(&map);
    let target = ScenePoint::new(90, 90);
    let msgs = apply_scene_item_modifier(&mut item, SceneItemModifier::FireOnSceneItem(3, target), 5);
    assert_eq!(msgs.len(), 1);
    assert_eq!(item.reloading_since, Some(5));
    let msgs = apply_scene_item_modifier(&mut item, SceneItemModifier::FireOnSceneItem(3, target), 9);
    assert_eq!(msgs.len(), 1);
    assert_eq!(item.reloading_since, Some(9));
    assert!(item.weapon.need_reload);
}

#[test]
fn test_begin_acquire_stamps_frame() {
    let map = small_map();
    let mut item = soldier(&map);
    let msgs = apply_scene_item_modifier(&mut item, SceneItemModifier::BeginAcquire, 42);
    assert!(msgs.is_empty());
    assert_eq!(item.acquiring_since, Some(42));
}

#[test]
fn test_position_and_angle_modifiers() {
    let map = small_map();
    let mut item = soldier(&map);
    apply_scene_item_modifier(
        &mut item,
        SceneItemModifier::ChangePosition(ScenePoint::new(60, 61)),
        0,
    );
    assert_eq!(item.position, ScenePoint::new(60, 61));
    apply_scene_item_modifier(
        &mut item,
        SceneItemModifier::ChangeGridPosition(GridPoint::new(6, 6)),
        0,
    );
    assert_eq!(item.grid_position, GridPoint::new(6, 6));
    apply_scene_item_modifier(&mut item, SceneItemModifier::ChangeDisplayAngle(1571), 0);
    assert_eq!(item.display_angle, 1571);
}

#[test]
fn test_batch_applies_in_order() {
    let map = small_map();
    let mut item = soldier(&map);
    let order = Order::MoveFastTo(ScenePoint::new(88, 12));
    let messages = apply_scene_item_modifiers(
        &mut item,
        vec![
            SceneItemModifier::SetNextOrder(order),
            SceneItemModifier::SwitchToNextOrder,
            SceneItemModifier::ChangeDisplayAngle(200),
        ],
        0,
    );
    assert!(messages.is_empty());
    // The switch saw the order queued by the earlier modifier of the batch.
    assert_eq!(item.current_order, Some(order));
    assert!(item.next_order.is_none());
    assert_eq!(item.display_angle, 200);
}
