use vstd::prelude::*;

use crate::physics::GridPoint;
use crate::{SceneItemId, ScenePoint};

verus! {

/// A queued intent for a unit, not yet adopted as its behavior.
#[derive(Clone, Copy, Debug, PartialEq, Eq, Structural)]
pub enum Order {
    MoveTo(ScenePoint),
    MoveFastTo(ScenePoint),
    HideTo(ScenePoint),
}

/// A unit's currently-executing activity. The moving variants carry their
/// destination and the remaining path, consumed front-to-back as the unit
/// advances.
pub enum ItemBehavior {
    Standing,
    Dead,
    Unconscious,
    MoveTo(ScenePoint, Vec<GridPoint>),
    MoveFastTo(ScenePoint, Vec<GridPoint>),
    HideTo(ScenePoint, Vec<GridPoint>),
    EngageSceneItem(SceneItemId),
    EngageGridPoint(GridPoint),
}

/// Mathematical model of a behavior: the remaining path as a sequence.
pub enum BehaviorModel {
    Standing,
    Dead,
    Unconscious,
    MoveTo(ScenePoint, Seq<GridPoint>),
    MoveFastTo(ScenePoint, Seq<GridPoint>),
    HideTo(ScenePoint, Seq<GridPoint>),
    EngageSceneItem(SceneItemId),
    EngageGridPoint(GridPoint),
}

impl View for ItemBehavior {
    type V = BehaviorModel;

    open spec fn view(&self) -> BehaviorModel {
        match self {
            ItemBehavior::Standing => BehaviorModel::Standing,
            ItemBehavior::Dead => BehaviorModel::Dead,
            ItemBehavior::Unconscious => BehaviorModel::Unconscious,
            ItemBehavior::MoveTo(dest, path) => BehaviorModel::MoveTo(*dest, path@),
            ItemBehavior::MoveFastTo(dest, path) => BehaviorModel::MoveFastTo(*dest, path@),
            ItemBehavior::HideTo(dest, path) => BehaviorModel::HideTo(*dest, path@),
            ItemBehavior::EngageSceneItem(id) => BehaviorModel::EngageSceneItem(*id),
            ItemBehavior::EngageGridPoint(p) => BehaviorModel::EngageGridPoint(*p),
        }
    }
}

} // verus!
