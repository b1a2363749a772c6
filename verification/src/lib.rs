use vstd::prelude::*;

pub mod behavior;
pub mod config;
pub mod map;
pub mod physics;
pub mod scene;
pub mod ui;
pub mod weapon;

verus! {

/// Identifier of a scene item (unit) within the running scene.
pub type SceneItemId = usize;

/// A position in continuous scene space, held at pixel resolution.
#[derive(Clone, Copy, Debug, PartialEq, Eq, Structural)]
pub struct ScenePoint {
    pub x: i64,
    pub y: i64,
}

impl ScenePoint {
    pub fn new(x: i64, y: i64) -> (r: Self)
        ensures
            r.x == x,
            r.y == y,
    {
        ScenePoint { x, y }
    }
}

/// A position in window space, used by the user-interface event types.
#[derive(Clone, Copy, Debug, PartialEq, Eq, Structural)]
pub struct WindowPoint {
    pub x: i64,
    pub y: i64,
}

impl WindowPoint {
    pub fn new(x: i64, y: i64) -> (r: Self)
        ensures
            r.x == x,
            r.y == y,
    {
        WindowPoint { x, y }
    }
}

/// An outbound message produced while applying modifiers to a scene item;
/// the surrounding tick driver drains these after all units are processed.
#[derive(Clone, Copy, Debug, PartialEq, Eq, Structural)]
pub enum Message {
    MainStateMessage(crate::scene::MainStateModifier),
}

} // verus!
