use vstd::prelude::*;

pub mod path;
pub mod util;
pub mod visibility;

use crate::{SceneItemId, ScenePoint};

verus! {

/// An event handed to the physics layer of the surrounding game loop.
#[derive(Clone, Copy, Debug, PartialEq, Eq, Structural)]
pub enum PhysicEvent {
    Explosion,
    BulletFire(ScenePoint, ScenePoint, Option<SceneItemId>, HitType),
}

/// An event a scene item perceives about its surroundings.
#[derive(Clone, Copy, Debug, PartialEq, Eq, Structural)]
pub enum MetaEvent {
    FeelExplosion,
}

/// Severity classification of a bullet hit.
#[derive(Clone, Copy, Debug, PartialEq, Eq, Structural)]
pub enum HitType {
    Deadly,
    Incapacity,
    Hurting,
    VeryClose,
    Missed,
}

/// A discrete map cell coordinate.
#[derive(Clone, Copy, Debug, PartialEq, Eq, Hash, Structural)]
pub struct GridPoint {
    pub x: i32,
    pub y: i32,
}

impl GridPoint {
    pub fn new(x: i32, y: i32) -> (r: Self)
        ensures
            r.x == x,
            r.y == y,
    {
        GridPoint { x, y }
    }
}

} // verus!
