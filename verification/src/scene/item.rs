use vstd::prelude::*;

use crate::behavior::{BehaviorModel, ItemBehavior, Order};
use crate::map::GameMap;
use crate::physics::util::{
    grid_point_from_scene_point, scene_point_in_map, spec_grid_point_from_scene_point,
};
use crate::physics::visibility::{visibilities_model, Visibility, VisibilityModel};
use crate::physics::{GridPoint, HitType, MetaEvent, PhysicEvent};
use crate::scene::MainStateModifier;
use crate::weapon::Weapon;
use crate::{Message, SceneItemId, ScenePoint};

verus! {

/// The nature of a scene item.
#[derive(Clone, Copy, Debug, PartialEq, Eq, Structural)]
pub enum SceneItemType {
    Soldier,
}

/// The side a scene item fights on.
#[derive(Clone, Copy, Debug, PartialEq, Eq, Hash, Structural)]
pub enum Side {
    A,
    B,
}

/// A simulation unit: its position, behavior, orders, cached visibilities
/// and weapon state.
pub struct SceneItem {
    pub id: SceneItemId,
    pub type_: SceneItemType,
    pub position: ScenePoint,
    pub grid_position: GridPoint,
    pub behavior: ItemBehavior,
    pub meta_events: Vec<MetaEvent>,
    pub current_order: Option<Order>,
    pub next_order: Option<Order>,
    /// Facing angle used by the rendering layer, in milliradians.
    pub display_angle: i64,
    pub visibilities: Vec<Visibility>,
    pub side: Side,
    pub weapon: Weapon,
    pub reloading_since: Option<u32>,
    pub acquiring_since: Option<u32>,
}

/// Mathematical model of a scene item.
#[verifier::ext_equal]
pub struct SceneItemModel {
    pub id: SceneItemId,
    pub type_: SceneItemType,
    pub position: ScenePoint,
    pub grid_position: GridPoint,
    pub behavior: BehaviorModel,
    pub meta_events: Seq<MetaEvent>,
    pub current_order: Option<Order>,
    pub next_order: Option<Order>,
    pub display_angle: i64,
    pub visibilities: Seq<VisibilityModel>,
    pub side: Side,
    pub weapon: Weapon,
    pub reloading_since: Option<u32>,
    pub acquiring_since: Option<u32>,
}

impl View for SceneItem {
    type V = SceneItemModel;

    open spec fn view(&self) -> SceneItemModel {
        SceneItemModel {
            id: self.id,
            type_: self.type_,
            position: self.position,
            grid_position: self.grid_position,
            behavior: self.behavior@,
            meta_events: self.meta_events@,
            current_order: self.current_order,
            next_order: self.next_order,
            display_angle: self.display_angle,
            visibilities: visibilities_model(self.visibilities@),
            side: self.side,
            weapon: self.weapon,
            reloading_since: self.reloading_since,
            acquiring_since: self.acquiring_since,
        }
    }
}

/// The unit's grid position is the projection of its continuous position:
/// the invariant the coordinate mapper maintains.
pub open spec fn grid_position_synced(item: SceneItemModel, map: &GameMap) -> bool {
    item.grid_position == spec_grid_point_from_scene_point(map, item.position)
}

impl SceneItem {
    /// A fresh unit at a position, with its grid position projected from the
    /// continuous position, no orders, no cached visibilities, and a loaded
    /// weapon.
    pub fn new(
        id: SceneItemId,
        type_: SceneItemType,
        position: ScenePoint,
        behavior: ItemBehavior,
        map: &GameMap,
        side: Side,
        weapon: Weapon,
    ) -> (r: SceneItem)
        requires
            map.wf(),
            scene_point_in_map(map, position),
        ensures
            r@ == (SceneItemModel {
                id,
                type_,
                position,
                grid_position: spec_grid_point_from_scene_point(map, position),
                behavior: behavior@,
                meta_events: Seq::empty(),
                current_order: None,
                next_order: None,
                display_angle: 0,
                visibilities: Seq::empty(),
                side,
                weapon,
                reloading_since: None,
                acquiring_since: None,
            }),
            grid_position_synced(r@, map),
    {
        let grid_position = grid_point_from_scene_point(&position, map);
        let r = SceneItem {
            id,
            type_,
            position,
            grid_position,
            behavior,
            meta_events: Vec::new(),
            current_order: None,
            next_order: None,
            display_angle: 0,
            visibilities: Vec::new(),
            side,
            weapon,
            reloading_since: None,
            acquiring_since: None,
        };
        proof {
            assert(r@.meta_events =~= Seq::<MetaEvent>::empty());
            assert(r@.visibilities =~= Seq::<VisibilityModel>::empty());
        }
        r
    }
}

/// A named state-transition request: the only sanctioned way to mutate a
/// scene item.
pub enum SceneItemModifier {
    SwitchToNextOrder,
    ChangeDisplayAngle(i64),
    ChangeBehavior(ItemBehavior),
    ChangePosition(ScenePoint),
    ChangeGridPosition(GridPoint),
    ReachMoveGridPoint,
    ChangeVisibilities(Vec<Visibility>),
    SetNextOrder(Order),
    BeginAcquire,
    FireOnSceneItem(SceneItemId, ScenePoint),
}

/// Mathematical model of a modifier.
pub enum SceneItemModifierModel {
    SwitchToNextOrder,
    ChangeDisplayAngle(i64),
    ChangeBehavior(BehaviorModel),
    ChangePosition(ScenePoint),
    ChangeGridPosition(GridPoint),
    ReachMoveGridPoint,
    ChangeVisibilities(Seq<VisibilityModel>),
    SetNextOrder(Order),
    BeginAcquire,
    FireOnSceneItem(SceneItemId, ScenePoint),
}

impl View for SceneItemModifier {
    type V = SceneItemModifierModel;

    open spec fn view(&self) -> SceneItemModifierModel {
        match self {
            SceneItemModifier::SwitchToNextOrder => SceneItemModifierModel::SwitchToNextOrder,
            SceneItemModifier::ChangeDisplayAngle(a) => SceneItemModifierModel::ChangeDisplayAngle(
                *a,
            ),
            SceneItemModifier::ChangeBehavior(b) => SceneItemModifierModel::ChangeBehavior(b@),
            SceneItemModifier::ChangePosition(p) => SceneItemModifierModel::ChangePosition(*p),
            SceneItemModifier::ChangeGridPosition(g) => SceneItemModifierModel::ChangeGridPosition(
                *g,
            ),
            SceneItemModifier::ReachMoveGridPoint => SceneItemModifierModel::ReachMoveGridPoint,
            SceneItemModifier::ChangeVisibilities(v) => SceneItemModifierModel::ChangeVisibilities(
                visibilities_model(v@),
            ),
            SceneItemModifier::SetNextOrder(o) => SceneItemModifierModel::SetNextOrder(*o),
            SceneItemModifier::BeginAcquire => SceneItemModifierModel::BeginAcquire,
            SceneItemModifier::FireOnSceneItem(id, p) => SceneItemModifierModel::FireOnSceneItem(
                *id,
                *p,
            ),
        }
    }
}

/// The model of a batch of modifiers.
pub open spec fn modifiers_model(ms: Seq<SceneItemModifier>) -> Seq<SceneItemModifierModel> {
    ms.map_values(|m: SceneItemModifier| m@)
}

/// Adopting the queued order: it becomes current and the queue clears;
/// with no queued order, the current order clears and behavior resets to
/// Standing.
pub open spec fn spec_switch_to_next_order(item: SceneItemModel) -> SceneItemModel {
    if item.next_order is Some {
        SceneItemModel { current_order: item.next_order, next_order: None, ..item }
    } else {
        SceneItemModel { current_order: None, behavior: BehaviorModel::Standing, ..item }
    }
}

/// The remaining path of a path-carrying behavior.
pub open spec fn behavior_path(b: BehaviorModel) -> Option<Seq<GridPoint>> {
    match b {
        BehaviorModel::MoveTo(_, p) => Some(p),
        BehaviorModel::MoveFastTo(_, p) => Some(p),
        BehaviorModel::HideTo(_, p) => Some(p),
        _ => None,
    }
}

/// The same behavior with its remaining path replaced; leaves a behavior
/// without a path unchanged.
pub open spec fn behavior_with_path(b: BehaviorModel, p: Seq<GridPoint>) -> BehaviorModel {
    match b {
        BehaviorModel::MoveTo(dest, _) => BehaviorModel::MoveTo(dest, p),
        BehaviorModel::MoveFastTo(dest, _) => BehaviorModel::MoveFastTo(dest, p),
        BehaviorModel::HideTo(dest, _) => BehaviorModel::HideTo(dest, p),
        other => other,
    }
}

/// Advancing along the path: the just-reached first cell is dropped; when
/// the path has become empty the switch to the next order triggers; a
/// behavior without a path ignores the modifier.
pub open spec fn spec_reach_move_grid_point(item: SceneItemModel) -> SceneItemModel {
    match behavior_path(item.behavior) {
        Some(path) => {
            let advanced = if path.len() == 0 {
                path
            } else {
                path.skip(1)
            };
            let moved = SceneItemModel {
                behavior: behavior_with_path(item.behavior, advanced),
                ..item
            };
            if advanced.len() == 0 {
                spec_switch_to_next_order(moved)
            } else {
                moved
            }
        },
        None => item,
    }
}

/// The single bullet-fired message the fire modifier emits.
pub open spec fn spec_fire_message(
    item: SceneItemModel,
    scene_item_id: SceneItemId,
    scene_point: ScenePoint,
) -> Message {
    Message::MainStateMessage(
        MainStateModifier::PushPhysicEvent(
            PhysicEvent::BulletFire(item.position, scene_point, Some(scene_item_id), HitType::Deadly),
        ),
    )
}

/// What applying one modifier does: the new unit state and the outbound
/// messages emitted, in order.
pub open spec fn spec_apply_modifier(
    item: SceneItemModel,
    m: SceneItemModifierModel,
    frame_i: u32,
) -> (SceneItemModel, Seq<Message>) {
    match m {
        SceneItemModifierModel::SwitchToNextOrder => (
            spec_switch_to_next_order(item),
            Seq::empty(),
        ),
        SceneItemModifierModel::ChangeDisplayAngle(a) => (
            SceneItemModel { display_angle: a, ..item },
            Seq::empty(),
        ),
        SceneItemModifierModel::ChangeBehavior(b) => (
            SceneItemModel { behavior: b, ..item },
            Seq::empty(),
        ),
        SceneItemModifierModel::ChangePosition(p) => (
            SceneItemModel { position: p, ..item },
            Seq::empty(),
        ),
        SceneItemModifierModel::ChangeGridPosition(g) => (
            SceneItemModel { grid_position: g, ..item },
            Seq::empty(),
        ),
        SceneItemModifierModel::ReachMoveGridPoint => (
            spec_reach_move_grid_point(item),
            Seq::empty(),
        ),
        SceneItemModifierModel::ChangeVisibilities(vs) => (
            SceneItemModel { visibilities: vs, ..item },
            Seq::empty(),
        ),
        SceneItemModifierModel::SetNextOrder(o) => (
            SceneItemModel { next_order: Some(o), ..item },
            Seq::empty(),
        ),
        SceneItemModifierModel::BeginAcquire => (
            SceneItemModel { acquiring_since: Some(frame_i), ..item },
            Seq::empty(),
        ),
        SceneItemModifierModel::FireOnSceneItem(id, p) => (
            SceneItemModel {
                weapon: Weapon { need_reload: true },
                reloading_since: Some(frame_i),
                ..item
            },
            seq![spec_fire_message(item, id, p)],
        ),
    }
}

/// Applying a batch is applying each modifier in order and concatenating
/// the emitted messages.
pub open spec fn spec_apply_modifiers(
    item: SceneItemModel,
    ms: Seq<SceneItemModifierModel>,
    frame_i: u32,
) -> (SceneItemModel, Seq<Message>)
    decreases ms.len(),
{
    if ms.len() == 0 {
        (item, Seq::empty())
    } else {
        let (item1, msgs1) = spec_apply_modifier(item, ms[0], frame_i);
        let (item2, msgs2) = spec_apply_modifiers(item1, ms.skip(1), frame_i);
        (item2, msgs1 + msgs2)
    }
}

/// Adopts the queued order, or resets to Standing when none is queued.
fn switch_to_next_order(scene_item: &mut SceneItem)
    ensures
        final(scene_item)@ == spec_switch_to_next_order(old(scene_item)@),
{
    match scene_item.next_order {
        Some(next) => {
            scene_item.current_order = Some(next);
            scene_item.next_order = None;
        },
        None => {
            scene_item.current_order = None;
            scene_item.behavior = ItemBehavior::Standing;
        },
    }
}

/// Applies one modifier to a scene item and returns the outbound messages it
/// emitted, exactly as the transition model states.
pub fn apply_scene_item_modifier(
    scene_item: &mut SceneItem,
    modifier: SceneItemModifier,
    frame_i: u32,
) -> (messages: Vec<Message>)
    ensures
        final(scene_item)@ == spec_apply_modifier(old(scene_item)@, modifier@, frame_i).0,
        messages@ == spec_apply_modifier(old(scene_item)@, modifier@, frame_i).1,
{
    let mut messages: Vec<Message> = Vec::new();
    match modifier {
        SceneItemModifier::SwitchToNextOrder => {
            switch_to_next_order(scene_item);
        },
        SceneItemModifier::ChangeDisplayAngle(new_angle) => {
            scene_item.display_angle = new_angle;
        },
        SceneItemModifier::ChangeBehavior(new_behavior) => {
            scene_item.behavior = new_behavior;
        },
        SceneItemModifier::ChangePosition(new_point) => {
            scene_item.position = new_point;
        },
        SceneItemModifier::ChangeGridPosition(new_grid_point) => {
            scene_item.grid_position = new_grid_point;
        },
        SceneItemModifier::ReachMoveGridPoint => {
            let mut behavior = ItemBehavior::Standing;
            core::mem::swap(&mut scene_item.behavior, &mut behavior);
            let mut reached = false;
            let new_behavior = match behavior {
                ItemBehavior::MoveTo(dest, mut grid_path) => {
                    if grid_path.len() > 0 {
                        grid_path.remove(0);
                    }
                    if grid_path.len() == 0 {
                        reached = true;
                    }
                    proof {
                        assert(grid_path@ =~= (if old(scene_item)@.behavior->MoveTo_1.len() == 0 {
                            old(scene_item)@.behavior->MoveTo_1
                        } else {
                            old(scene_item)@.behavior->MoveTo_1.skip(1)
                        }));
                    }
                    ItemBehavior::MoveTo(dest, grid_path)
                },
                ItemBehavior::MoveFastTo(dest, mut grid_path) => {
                    if grid_path.len() > 0 {
                        grid_path.remove(0);
                    }
                    if grid_path.len() == 0 {
                        reached = true;
                    }
                    proof {
                        assert(grid_path@ =~= (if old(
                            scene_item,
                        )@.behavior->MoveFastTo_1.len() == 0 {
                            old(scene_item)@.behavior->MoveFastTo_1
                        } else {
                            old(scene_item)@.behavior->MoveFastTo_1.skip(1)
                        }));
                    }
                    ItemBehavior::MoveFastTo(dest, grid_path)
                },
                ItemBehavior::HideTo(dest, mut grid_path) => {
                    if grid_path.len() > 0 {
                        grid_path.remove(0);
                    }
                    if grid_path.len() == 0 {
                        reached = true;
                    }
                    proof {
                        assert(grid_path@ =~= (if old(scene_item)@.behavior->HideTo_1.len() == 0 {
                            old(scene_item)@.behavior->HideTo_1
                        } else {
                            old(scene_item)@.behavior->HideTo_1.skip(1)
                        }));
                    }
                    ItemBehavior::HideTo(dest, grid_path)
                },
                other => other,
            };
            scene_item.behavior = new_behavior;
            if reached {
                switch_to_next_order(scene_item);
            }
        },
        SceneItemModifier::ChangeVisibilities(visibilities) => {
            scene_item.visibilities = visibilities;
        },
        SceneItemModifier::SetNextOrder(order) => {
            scene_item.next_order = Some(order);
        },
        SceneItemModifier::BeginAcquire => {
            scene_item.acquiring_since = Some(frame_i);
        },
        SceneItemModifier::FireOnSceneItem(scene_item_id, scene_point) => {
            scene_item.weapon.need_reload = true;
            scene_item.reloading_since = Some(frame_i);
            let hit_type = HitType::Deadly;
            messages.push(
                Message::MainStateMessage(
                    MainStateModifier::PushPhysicEvent(
                        PhysicEvent::BulletFire(
                            scene_item.position,
                            scene_point,
                            Some(scene_item_id),
                            hit_type,
                        ),
                    ),
                ),
            );
        },
    }
    messages
}

/// Applies a batch of modifiers in order and concatenates their messages.
pub fn apply_scene_item_modifiers(
    scene_item: &mut SceneItem,
    modifiers: Vec<SceneItemModifier>,
    frame_i: u32,
) -> (messages: Vec<Message>)
    ensures
        final(scene_item)@ == spec_apply_modifiers(
            old(scene_item)@,
            modifiers_model(modifiers@),
            frame_i,
        ).0,
        messages@ == spec_apply_modifiers(old(scene_item)@, modifiers_model(modifiers@), frame_i).1,
{
    let ghost item0 = scene_item@;
    let ghost ms_all = modifiers_model(modifiers@);
    let mut messages: Vec<Message> = Vec::new();
    let mut remaining = modifiers;
    proof {
        assert(messages@ + spec_apply_modifiers(scene_item@, modifiers_model(remaining@), frame_i).1
            =~= spec_apply_modifiers(item0, ms_all, frame_i).1);
    }
    while remaining.len() > 0
        invariant
            spec_apply_modifiers(scene_item@, modifiers_model(remaining@), frame_i).0
                == spec_apply_modifiers(item0, ms_all, frame_i).0,
            messages@ + spec_apply_modifiers(scene_item@, modifiers_model(remaining@), frame_i).1
                == spec_apply_modifiers(item0, ms_all, frame_i).1,
        decreases remaining@.len(),
    {
        let ghost pre_item = scene_item@;
        let ghost pre_rem = modifiers_model(remaining@);
        let m = remaining.remove(0);
        proof {
            assert(modifiers_model(remaining@) =~= pre_rem.skip(1));
            assert(m@ == pre_rem[0]);
        }
        let ghost pre_msgs = messages@;
        let mut new_messages = apply_scene_item_modifier(scene_item, m, frame_i);
        let ghost emitted = new_messages@;
        messages.append(&mut new_messages);
        proof {
            let rest = spec_apply_modifiers(scene_item@, modifiers_model(remaining@), frame_i).1;
            assert(spec_apply_modifiers(pre_item, pre_rem, frame_i).1 == emitted + rest);
            assert((pre_msgs + emitted) + rest =~= pre_msgs + (emitted + rest));
        }
    }
    proof {
        assert(messages@ + spec_apply_modifiers(scene_item@, modifiers_model(remaining@), frame_i).1
            =~= messages@);
    }
    messages
}

/// Law: switching to the next order with an empty queue always clears the
/// current order and resets behavior to Standing, whatever the prior
/// behavior, and emits no message.
pub proof fn lemma_switch_without_next_order(item: SceneItemModel, frame_i: u32)
    requires
        item.next_order is None,
    ensures
        spec_apply_modifier(
            item,
            SceneItemModifierModel::SwitchToNextOrder,
            frame_i,
        ).0.behavior is Standing,
        spec_apply_modifier(
            item,
            SceneItemModifierModel::SwitchToNextOrder,
            frame_i,
        ).0.current_order is None,
        spec_apply_modifier(item, SceneItemModifierModel::SwitchToNextOrder, frame_i).1 == Seq::<
            Message,
        >::empty(),
{
}

/// Law: the fire modifier always marks the weapon as needing reload, stamps
/// the reload start with the current frame, and emits exactly one
/// bullet-fired message, carrying the unit's position, the target point, the
/// fired-on item and the hit classification.
pub proof fn lemma_fire_always_reloads_and_emits_one(
    item: SceneItemModel,
    scene_item_id: SceneItemId,
    target: ScenePoint,
    frame_i: u32,
)
    ensures
        spec_apply_modifier(
            item,
            SceneItemModifierModel::FireOnSceneItem(scene_item_id, target),
            frame_i,
        ).0.weapon.need_reload,
        spec_apply_modifier(
            item,
            SceneItemModifierModel::FireOnSceneItem(scene_item_id, target),
            frame_i,
        ).0.reloading_since == Some(frame_i),
        spec_apply_modifier(
            item,
            SceneItemModifierModel::FireOnSceneItem(scene_item_id, target),
            frame_i,
        ).1 == seq![spec_fire_message(item, scene_item_id, target)],
        spec_apply_modifier(
            item,
            SceneItemModifierModel::FireOnSceneItem(scene_item_id, target),
            frame_i,
        ).1.len() == 1,
{
}

/// The unit state after `n` successive advance-path applications.
pub open spec fn spec_apply_reach_n(item: SceneItemModel, n: nat) -> SceneItemModel
    decreases n,
{
    if n == 0 {
        item
    } else {
        spec_reach_move_grid_point(spec_apply_reach_n(item, (n - 1) as nat))
    }
}

/// Replacing the path of a path-carrying behavior keeps the variant and
/// destination, and composes.
proof fn lemma_with_path_facts(b: BehaviorModel, p: Seq<GridPoint>)
    requires
        behavior_path(b) is Some,
    ensures
        behavior_path(behavior_with_path(b, p)) == Some(p),
        behavior_with_path(b, behavior_path(b)->0) == b,
        forall|q: Seq<GridPoint>| #[trigger] behavior_with_path(behavior_with_path(b, p), q)
            == behavior_with_path(b, q),
{
    match b {
        BehaviorModel::MoveTo(_, _) => {
        },
        BehaviorModel::MoveFastTo(_, _) => {
        },
        BehaviorModel::HideTo(_, _) => {
        },
        _ => {
        },
    }
}

/// After `k` advances on a path of length above `k`, the unit still follows
/// the same behavior with the first `k` cells dropped, and nothing else of
/// it has changed.
proof fn lemma_reach_iterate(item: SceneItemModel, path: Seq<GridPoint>, k: int)
    requires
        behavior_path(item.behavior) == Some(path),
        0 <= k < path.len(),
    ensures
        spec_apply_reach_n(item, k as nat) == (SceneItemModel {
            behavior: behavior_with_path(item.behavior, path.skip(k)),
            ..item
        }),
    decreases k,
{
    lemma_with_path_facts(item.behavior, path);
    if k == 0 {
        assert(path.skip(0) =~= path);
        assert(behavior_with_path(item.behavior, path) == item.behavior);
        assert((SceneItemModel { behavior: item.behavior, ..item }) =~= item);
    } else {
        lemma_reach_iterate(item, path, k - 1);
        let prev = spec_apply_reach_n(item, (k - 1) as nat);
        lemma_with_path_facts(item.behavior, path.skip(k - 1));
        assert(behavior_path(prev.behavior) == Some(path.skip(k - 1)));
        assert(path.skip(k - 1).len() == path.len() - k + 1 >= 2);
        assert(path.skip(k - 1).skip(1) =~= path.skip(k));
        assert(spec_apply_reach_n(item, k as nat) == spec_reach_move_grid_point(prev));
    }
}

/// Law: with a remaining path of length N, the advance-path modifier leaves
/// the unit on the same behavior with one cell dropped per application and
/// its orders untouched through the first N - 1 applications, and the Nth
/// application, never an earlier one, performs the switch to the next order.
pub proof fn lemma_advance_path_switches_exactly_at_end(item: SceneItemModel, path: Seq<GridPoint>)
    requires
        behavior_path(item.behavior) == Some(path),
        path.len() >= 1,
    ensures
        forall|k: int|
            0 <= k < path.len() ==> #[trigger] spec_apply_reach_n(item, k as nat)
                == (SceneItemModel {
                behavior: behavior_with_path(item.behavior, path.skip(k)),
                ..item
            }),
        spec_apply_reach_n(item, path.len() as nat) == spec_switch_to_next_order(
            SceneItemModel {
                behavior: behavior_with_path(item.behavior, Seq::empty()),
                ..item
            },
        ),
{
    assert forall|k: int| 0 <= k < path.len() implies #[trigger] spec_apply_reach_n(item, k as nat)
        == (SceneItemModel {
        behavior: behavior_with_path(item.behavior, path.skip(k)),
        ..item
    }) by {
        lemma_reach_iterate(item, path, k);
    }
    let n = path.len() as int;
    lemma_reach_iterate(item, path, n - 1);
    let prev = spec_apply_reach_n(item, (n - 1) as nat);
    lemma_with_path_facts(item.behavior, path.skip(n - 1));
    assert(path.skip(n - 1).len() == 1);
    assert(path.skip(n - 1).skip(1) =~= Seq::<GridPoint>::empty());
    assert(spec_apply_reach_n(item, n as nat) == spec_reach_move_grid_point(prev));
}

/// The visible subset of a visibility sequence, in order.
pub open spec fn spec_visible_visibilities(vs: Seq<VisibilityModel>) -> Seq<VisibilityModel>
    decreases vs.len(),
{
    if vs.len() == 0 {
        Seq::empty()
    } else {
        let prev = spec_visible_visibilities(vs.drop_last());
        if vs.last().visible {
            prev.push(vs.last())
        } else {
            prev
        }
    }
}

/// The model of a sequence of visibility references.
pub open spec fn visibility_refs_model(v: Seq<&Visibility>) -> Seq<VisibilityModel> {
    v.map_values(|x: &Visibility| x@)
}

impl SceneItem {
    /// The cached visibility results judged visible, in order.
    pub fn visible_visibilities(&self) -> (r: Vec<&Visibility>)
        ensures
            visibility_refs_model(r@) == spec_visible_visibilities(self@.visibilities),
    {
        let mut r: Vec<&Visibility> = Vec::new();
        proof {
            assert(visibility_refs_model(r@) =~= Seq::<VisibilityModel>::empty());
            assert(self@.visibilities.take(0) =~= Seq::<VisibilityModel>::empty());
        }
        let mut i: usize = 0;
        while i < self.visibilities.len()
            invariant
                i <= self.visibilities@.len(),
                visibility_refs_model(r@) == spec_visible_visibilities(
                    self@.visibilities.take(i as int),
                ),
            decreases self.visibilities@.len() - i,
        {
            proof {
                assert(self@.visibilities.take(i as int + 1).drop_last() =~= self@.visibilities.take(
                    i as int,
                ));
                assert(self@.visibilities.take(i as int + 1).last() == self@.visibilities[i as int]);
            }
            if self.visibilities[i].visible {
                r.push(&self.visibilities[i]);
                proof {
                    assert(visibility_refs_model(r@) =~= spec_visible_visibilities(
                        self@.visibilities.take(i as int + 1),
                    ));
                }
            }
            i = i + 1;
        }
        proof {
            assert(self@.visibilities.take(self.visibilities@.len() as int) =~= self@.visibilities);
        }
        r
    }

    /// The first cached visibility targeting the given scene item, if any.
    pub fn visibility_for(&self, scene_item_id: SceneItemId) -> (r: Option<&Visibility>)
        ensures
            r matches Some(v) ==> exists|i: int|
                {
                    &&& 0 <= i < self@.visibilities.len()
                    &&& #[trigger] self@.visibilities[i] == v@
                    &&& v@.to_scene_item_id == Some(scene_item_id)
                    &&& forall|j: int|
                        0 <= j < i ==> (#[trigger] self@.visibilities[j]).to_scene_item_id != Some(
                            scene_item_id,
                        )
                },
            r is None ==> forall|i: int|
                0 <= i < self@.visibilities.len() ==> (#[trigger] self@.visibilities[i]).to_scene_item_id
                    != Some(scene_item_id),
    {
        let mut i: usize = 0;
        while i < self.visibilities.len()
            invariant
                i <= self.visibilities@.len(),
                forall|j: int|
                    0 <= j < i ==> (#[trigger] self@.visibilities[j]).to_scene_item_id != Some(
                        scene_item_id,
                    ),
            decreases self.visibilities@.len() - i,
        {
            let found = match self.visibilities[i].to_scene_item_id {
                Some(other_id) => other_id == scene_item_id,
                None => false,
            };
            if found {
                let v = &self.visibilities[i];
                proof {
                    assert(self@.visibilities[i as int] == v@);
                    assert(self@.visibilities[i as int].to_scene_item_id == Some(scene_item_id));
                }
                return Some(v);
            }
            i = i + 1;
        }
        None
    }
}

} // verus!
