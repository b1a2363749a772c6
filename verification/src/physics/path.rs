use vstd::prelude::*;

use crate::map::GameMap;
use crate::physics::GridPoint;

verus! {

/// Every consecutive pair of cells in `path` is one pathfinding step.
pub open spec fn is_grid_path(map: &GameMap, path: Seq<GridPoint>) -> bool {
    forall|i: int| 0 <= i < path.len() - 1 ==> map.spec_step(#[trigger] path[i], path[i + 1])
}

/// `path` is a walk from `from` to `to`, both endpoints included.
pub open spec fn connects(map: &GameMap, path: Seq<GridPoint>, from: GridPoint, to: GridPoint) -> bool {
    &&& path.len() >= 1
    &&& path[0] == from
    &&& path[path.len() - 1] == to
    &&& is_grid_path(map, path)
}

/// Some walk leads from `from` to `to`.
pub open spec fn reachable(map: &GameMap, from: GridPoint, to: GridPoint) -> bool {
    exists|path: Seq<GridPoint>| connects(map, path, from, to)
}

/// Total cost of a walk: the sum of the step costs of every cell after the
/// first.
pub open spec fn path_cost(map: &GameMap, path: Seq<GridPoint>) -> int
    decreases path.len(),
{
    if path.len() <= 1 {
        0
    } else {
        path_cost(map, path.drop_last()) + map.spec_step_cost(path.last())
    }
}

/// Relies on pathfinding's `dijkstra`: it searches the graph given by the
/// `successors` closure and returns a minimum-cost path from `from` to the
/// first node satisfying the success predicate, both endpoints included, or
/// `None` exactly when no such node can be reached.
#[verifier::external_body]
fn dijkstra_shortest_path(map: &GameMap, from: &GridPoint, to: &GridPoint) -> (r: Option<
    Vec<GridPoint>,
>)
    requires
        map.wf(),
    ensures
        r matches Some(path) ==> connects(map, path@, *from, *to),
        r is Some <==> reachable(map, *from, *to),
        r matches Some(path) ==> forall|other: Seq<GridPoint>|
            connects(map, other, *from, *to) ==> path_cost(map, other) >= path_cost(map, path@),
{
    match pathfinding::prelude::dijkstra(from, |p| map.successors(p), |p| *p == *to) {
        None => None,
        Some(path) => Some(path.0),
    }
}

/// Shortest path over the map's adjacency from `from` to `to`, both endpoints
/// included; `None` exactly when `to` cannot be reached from `from`. Pure in
/// the map and deterministic for a given map.
pub fn find_path(map: &GameMap, from: &GridPoint, to: &GridPoint) -> (r: Option<Vec<GridPoint>>)
    requires
        map.wf(),
    ensures
        r matches Some(path) ==> {
            &&& path@.len() >= 1
            &&& path@[0] == *from
            &&& path@[path@.len() - 1] == *to
            &&& is_grid_path(map, path@)
        },
        r is Some <==> reachable(map, *from, *to),
        r matches Some(path) ==> forall|other: Seq<GridPoint>|
            connects(map, other, *from, *to) ==> path_cost(map, other) >= path_cost(map, path@),
{
    dijkstra_shortest_path(map, from, to)
}

} // verus!
