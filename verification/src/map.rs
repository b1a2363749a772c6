use vstd::prelude::*;

use crate::config::{MAX_GRID_DIM, MAX_TILE_OPACITY, MAX_TILE_PATHFIND_COST, MAX_TILE_SIDE};
use crate::physics::GridPoint;

verus! {

/// Static per-cell terrain data.
#[derive(Clone, Copy, Debug, PartialEq, Eq, Structural)]
pub struct TerrainTile {
    /// Contribution of this cell to line-of-sight blocking, in thousandths.
    pub opacity: i64,
    /// Cost of stepping onto this cell during pathfinding.
    pub pathfind_cost: u64,
    /// Whether units may step onto this cell at all.
    pub passable: bool,
}

/// The map: a rectangular grid of terrain tiles, with the pixel size of a
/// cell, shared read-only by every unit during a tick.
pub struct GameMap {
    pub width: usize,
    pub height: usize,
    /// Pixel width of one cell.
    pub tile_width: i64,
    /// Pixel height of one cell.
    pub tile_height: i64,
    /// Row-major tiles: the tile of cell (x, y) is at index y * width + x.
    pub tiles: Vec<TerrainTile>,
}

impl GameMap {
    /// Well-formedness: positive bounded dimensions and tile sizes, one tile
    /// per cell, and every tile's opacity and cost within the fixed caps.
    pub open spec fn wf(&self) -> bool {
        &&& 1 <= self.width <= MAX_GRID_DIM
        &&& 1 <= self.height <= MAX_GRID_DIM
        &&& 1 <= self.tile_width <= MAX_TILE_SIDE
        &&& 1 <= self.tile_height <= MAX_TILE_SIDE
        &&& self.tiles@.len() == self.width * self.height
        &&& forall|i: int|
            0 <= i < self.tiles@.len() ==> {
                &&& 0 <= (#[trigger] self.tiles@[i]).opacity <= MAX_TILE_OPACITY
                &&& self.tiles@[i].pathfind_cost <= MAX_TILE_PATHFIND_COST
            }
    }

    /// Whether a grid point lies within the map.
    pub open spec fn contains_grid_point(&self, p: GridPoint) -> bool {
        0 <= p.x < self.width && 0 <= p.y < self.height
    }

    /// The terrain tile of an in-bounds grid point.
    pub open spec fn tile_at(&self, p: GridPoint) -> TerrainTile
        recommends
            self.wf(),
            self.contains_grid_point(p),
    {
        self.tiles@[p.y * self.width + p.x]
    }

    /// One pathfinding step: from cell `a` onto a distinct orthogonally
    /// adjacent in-bounds passable cell `b`.
    pub open spec fn spec_step(&self, a: GridPoint, b: GridPoint) -> bool {
        &&& self.contains_grid_point(a)
        &&& self.contains_grid_point(b)
        &&& self.tile_at(b).passable
        &&& ((a.x == b.x && (a.y - b.y == 1 || b.y - a.y == 1)) || (a.y == b.y && (a.x - b.x == 1
            || b.x - a.x == 1)))
    }

    /// The cost of a step is the cost of the cell stepped onto.
    pub open spec fn spec_step_cost(&self, b: GridPoint) -> u64
        recommends
            self.wf(),
            self.contains_grid_point(b),
    {
        self.tile_at(b).pathfind_cost
    }

    /// The tile of every in-bounds cell respects the opacity and cost caps.
    pub proof fn lemma_tile_within_caps(&self, p: GridPoint)
        requires
            self.wf(),
            self.contains_grid_point(p),
        ensures
            0 <= self.tile_at(p).opacity <= MAX_TILE_OPACITY,
            self.tile_at(p).pathfind_cost <= MAX_TILE_PATHFIND_COST,
    {
        assert(0 <= p.y * self.width + p.x < self.width * self.height) by (nonlinear_arith)
            requires
                0 <= p.x < self.width,
                0 <= p.y < self.height,
        ;
    }

    /// Builds a map, checking every well-formedness condition; returns `None`
    /// exactly when one of them fails.
    pub fn new(width: usize, height: usize, tile_width: i64, tile_height: i64, tiles: Vec<
        TerrainTile,
    >) -> (r: Option<GameMap>)
        ensures
            r matches Some(m) ==> {
                &&& m.wf()
                &&& m.width == width
                &&& m.height == height
                &&& m.tile_width == tile_width
                &&& m.tile_height == tile_height
                &&& m.tiles == tiles
            },
            r is None ==> !(GameMap {
                width,
                height,
                tile_width,
                tile_height,
                tiles,
            }).wf(),
    {
        if !(1 <= width && width <= MAX_GRID_DIM && 1 <= height && height <= MAX_GRID_DIM) {
            return None;
        }
        if !(1 <= tile_width && tile_width <= MAX_TILE_SIDE && 1 <= tile_height && tile_height
            <= MAX_TILE_SIDE) {
            return None;
        }
        proof {
            assert((width as int) * (height as int) <= 0x1000_0000) by (nonlinear_arith)
                requires
                    0 < width <= MAX_GRID_DIM,
                    0 < height <= MAX_GRID_DIM,
            ;
        }
        if tiles.len() != width * height {
            return None;
        }
        let mut i: usize = 0;
        while i < tiles.len()
            invariant
                i <= tiles@.len(),
                forall|j: int|
                    0 <= j < i ==> {
                        &&& 0 <= (#[trigger] tiles@[j]).opacity <= MAX_TILE_OPACITY
                        &&& tiles@[j].pathfind_cost <= MAX_TILE_PATHFIND_COST
                    },
            decreases tiles@.len() - i,
        {
            let t = tiles[i];
            if !(0 <= t.opacity && t.opacity <= MAX_TILE_OPACITY && t.pathfind_cost
                <= MAX_TILE_PATHFIND_COST) {
                return None;
            }
            i = i + 1;
        }
        Some(GameMap { width, height, tile_width, tile_height, tiles })
    }

    /// Whether a grid point lies within the map.
    pub fn contains(&self, p: &GridPoint) -> (r: bool)
        ensures
            r == self.contains_grid_point(*p),
    {
        0 <= p.x && (p.x as usize) < self.width && 0 <= p.y && (p.y as usize) < self.height
    }

    /// The terrain tile of an in-bounds grid point.
    pub fn tile(&self, p: &GridPoint) -> (t: TerrainTile)
        requires
            self.wf(),
            self.contains_grid_point(*p),
        ensures
            t == self.tile_at(*p),
    {
        proof {
            assert((p.y as int) * (self.width as int) + (p.x as int) < (self.width as int) * (
            self.height as int)) by (nonlinear_arith)
                requires
                    0 <= p.x < self.width,
                    0 <= p.y < self.height,
            ;
            assert((self.width as int) * (self.height as int) <= 0x1000_0000) by (nonlinear_arith)
                requires
                    0 < self.width <= MAX_GRID_DIM,
                    0 < self.height <= MAX_GRID_DIM,
            ;
        }
        let ix: usize = (p.y as usize) * self.width + (p.x as usize);
        self.tiles[ix]
    }

    /// Every passable orthogonal neighbour of `p`, with its step cost: the
    /// adjacency and cost query the pathfinder searches over.
    pub fn successors(&self, p: &GridPoint) -> (r: Vec<(GridPoint, u64)>)
        requires
            self.wf(),
        ensures
            forall|i: int|
                0 <= i < r@.len() ==> {
                    &&& self.spec_step(*p, (#[trigger] r@[i]).0)
                    &&& r@[i].1 == self.spec_step_cost(r@[i].0)
                },
            forall|q: GridPoint| #[trigger]
                self.spec_step(*p, q) ==> r@.contains((q, self.spec_step_cost(q))),
    {
        let mut r: Vec<(GridPoint, u64)> = Vec::new();
        if !self.contains(p) {
            return r;
        }
        if p.y >= 1 {
            let q = GridPoint { x: p.x, y: p.y - 1 };
            let t = self.tile(&q);
            if t.passable {
                r.push((q, t.pathfind_cost));
            }
        }
        if (p.y as usize) + 1 < self.height {
            let q = GridPoint { x: p.x, y: p.y + 1 };
            let t = self.tile(&q);
            if t.passable {
                r.push((q, t.pathfind_cost));
            }
        }
        if p.x >= 1 {
            let q = GridPoint { x: p.x - 1, y: p.y };
            let t = self.tile(&q);
            if t.passable {
                r.push((q, t.pathfind_cost));
            }
        }
        if (p.x as usize) + 1 < self.width {
            let q = GridPoint { x: p.x + 1, y: p.y };
            let t = self.tile(&q);
            if t.passable {
                r.push((q, t.pathfind_cost));
            }
        }
        proof {
            broadcast use vstd::seq_lib::lemma_seq_contains_after_push;

            assert forall|q: GridPoint| #[trigger]
                self.spec_step(*p, q) implies r@.contains((q, self.spec_step_cost(q))) by {
                if q.x == p.x && p.y - q.y == 1 {
                    assert(q == GridPoint { x: p.x, y: (p.y - 1) as i32 });
                } else if q.x == p.x && q.y - p.y == 1 {
                    assert(q == GridPoint { x: p.x, y: (p.y + 1) as i32 });
                } else if q.y == p.y && p.x - q.x == 1 {
                    assert(q == GridPoint { x: (p.x - 1) as i32, y: p.y });
                } else {
                    assert(q == GridPoint { x: (p.x + 1) as i32, y: p.y });
                }
            }
        }
        r
    }
}

} // verus!
