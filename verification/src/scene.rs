use vstd::prelude::*;

pub mod item;

use crate::physics::PhysicEvent;

verus! {

/// A request to the main game state, carried by an outbound message.
#[derive(Clone, Copy, Debug, PartialEq, Eq, Structural)]
pub enum MainStateModifier {
    PushPhysicEvent(PhysicEvent),
}

} // verus!
