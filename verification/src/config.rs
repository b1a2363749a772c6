use vstd::prelude::*;

verus! {

// Opacity and opacity-like quantities are held in thousandths, so that a
// terrain opacity written 0.1 elsewhere is the value 100 here.

/// A target is visible when its adjusted opacity is strictly below this
/// threshold (one half of a unit); exactly at the threshold it is not visible.
pub const VISIBLE_OPACITY_THRESHOLD: i64 = 500;

/// Number of traced cells nearest the observer whose terrain opacity is
/// ignored during a visibility trace (the observer's blind-spot rule).
pub const VISIBILITY_FIRSTS: usize = 2;

/// Largest terrain opacity a single tile may carry (one hundred units).
pub const MAX_TILE_OPACITY: i64 = 100_000;

/// Largest pathfinding cost a single tile may carry.
pub const MAX_TILE_PATHFIND_COST: u64 = 100_000;

/// Largest number of cells a map may have along either axis.
pub const MAX_GRID_DIM: usize = 16384;

/// Largest pixel size of a cell along either axis.
pub const MAX_TILE_SIDE: i64 = 4096;

} // verus!
