use vstd::prelude::*;

verus! {

/// A unit's weapon state.
#[derive(Clone, Copy, Debug, PartialEq, Eq, Structural)]
pub struct Weapon {
    /// Set when the weapon has fired and must reload before firing again.
    pub need_reload: bool,
}

impl Weapon {
    /// A freshly loaded weapon.
    pub fn new() -> (r: Weapon)
        ensures
            !r.need_reload,
    {
        Weapon { need_reload: false }
    }
}

} // verus!

