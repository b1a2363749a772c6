use vstd::prelude::*;

use crate::behavior::{BehaviorModel, ItemBehavior};
use crate::config::{
    MAX_GRID_DIM, MAX_TILE_OPACITY, MAX_TILE_SIDE, VISIBILITY_FIRSTS, VISIBLE_OPACITY_THRESHOLD,
};
use crate::map::GameMap;
use crate::scene::item::SceneItem;
use crate::physics::util::{
    grid_point_from_scene_point, lemma_spec_grid_point_in_map, scene_point_in_map,
    spec_grid_point_from_scene_point,
};
use crate::physics::GridPoint;
use crate::{SceneItemId, ScenePoint};

verus! {

/// The pixel sequence the line-rasterization algorithm yields between two
/// points; named here, stated only through the trusted trace wrapper.
pub uninterp spec fn bresenham_line(x0: i64, y0: i64, x1: i64, y1: i64) -> Seq<(i64, i64)>;

/// The number of pixels on the rasterized line: the larger of the two
/// absolute coordinate differences.
pub open spec fn chebyshev_len(x0: i64, y0: i64, x1: i64, y1: i64) -> int {
    let dx = if x1 >= x0 { x1 - x0 } else { x0 - x1 };
    let dy = if y1 >= y0 { y1 - y0 } else { y0 - y1 };
    if dx >= dy {
        dx
    } else {
        dy
    }
}

/// The scene point at a traced pixel.
pub open spec fn pixel_scene_point(px: (i64, i64)) -> ScenePoint {
    ScenePoint { x: px.0, y: px.1 }
}

/// Whether a traced pixel lies within the map's pixel area.
pub open spec fn pixel_in_map(map: &GameMap, px: (i64, i64)) -> bool {
    scene_point_in_map(map, pixel_scene_point(px))
}

/// The cell a traced pixel falls into.
pub open spec fn pixel_grid_point(map: &GameMap, px: (i64, i64)) -> GridPoint
    recommends
        map.wf(),
        pixel_in_map(map, px),
{
    spec_grid_point_from_scene_point(map, pixel_scene_point(px))
}

/// The distinct cells a pixel sequence crosses, in first-visit order.
pub open spec fn traced_cells(map: &GameMap, pixels: Seq<(i64, i64)>) -> Seq<GridPoint>
    decreases pixels.len(),
{
    if pixels.len() == 0 {
        Seq::empty()
    } else {
        let prev = traced_cells(map, pixels.drop_last());
        let cell = pixel_grid_point(map, pixels.last());
        if prev.contains(cell) {
            prev
        } else {
            prev.push(cell)
        }
    }
}

/// Cumulative opacity of a cell sequence: the sum of the terrain opacities of
/// the cells whose first-visit index is at least `firsts`; the `firsts`
/// cells nearest the observer contribute nothing.
pub open spec fn cells_opacity(map: &GameMap, cells: Seq<GridPoint>, firsts: int) -> int
    decreases cells.len(),
{
    if cells.len() == 0 {
        0
    } else {
        cells_opacity(map, cells.drop_last(), firsts) + if cells.len() - 1 < firsts {
            0
        } else {
            map.tile_at(cells.last()).opacity as int
        }
    }
}

/// The recorded opacity profile: one sample per newly visited cell, carrying
/// the traced pixel and the cumulative opacity reached there.
pub open spec fn traced_segments(map: &GameMap, pixels: Seq<(i64, i64)>, firsts: int) -> Seq<
    (ScenePoint, int),
>
    decreases pixels.len(),
{
    if pixels.len() == 0 {
        Seq::empty()
    } else {
        let prev_segments = traced_segments(map, pixels.drop_last(), firsts);
        let prev_cells = traced_cells(map, pixels.drop_last());
        let cell = pixel_grid_point(map, pixels.last());
        if prev_cells.contains(cell) {
            prev_segments
        } else {
            prev_segments.push(
                (
                    pixel_scene_point(pixels.last()),
                    cells_opacity(map, prev_cells.push(cell), firsts),
                ),
            )
        }
    }
}

/// Opacity offset a target's behavior applies before the unit is judged visible or not:
/// fast movement exposes the target, deliberate concealment hides it, and
/// terminal states contribute nothing.
pub open spec fn spec_behavior_opacity_modifier(b: BehaviorModel) -> int {
    match b {
        BehaviorModel::Standing => 500,
        BehaviorModel::Dead => 0,
        BehaviorModel::Unconscious => 0,
        BehaviorModel::MoveTo(_, _) => 1000,
        BehaviorModel::MoveFastTo(_, _) => 2000,
        BehaviorModel::HideTo(_, _) => -1000,
        BehaviorModel::EngageSceneItem(_) => 0,
        BehaviorModel::EngageGridPoint(_) => 0,
    }
}

/// Mathematical model of one visibility trace result.
#[verifier::ext_equal]
pub struct VisibilityModel {
    pub from_scene_point: ScenePoint,
    pub from_scene_id: SceneItemId,
    pub to_scene_point: ScenePoint,
    pub to_scene_item_id: Option<SceneItemId>,
    pub path_final_opacity: int,
    pub to_scene_item_opacity: int,
    pub opacity_segments: Seq<(ScenePoint, int)>,
    pub visible: bool,
}

/// The visibility result one trace must produce: the opacity profile over
/// the rasterized line, the final path opacity, the target-adjusted opacity,
/// and whether it stays below the visibility threshold.
pub open spec fn spec_visibility(
    map: &GameMap,
    from_scene_point: ScenePoint,
    from_scene_id: SceneItemId,
    to_scene_point: ScenePoint,
    to_scene_item_id: Option<SceneItemId>,
    to_behavior: BehaviorModel,
) -> VisibilityModel {
    let pixels = bresenham_line(from_scene_point.x, from_scene_point.y, to_scene_point.x, to_scene_point.y);
    let final_opacity = cells_opacity(map, traced_cells(map, pixels), VISIBILITY_FIRSTS as int);
    let adjusted = final_opacity - spec_behavior_opacity_modifier(to_behavior);
    VisibilityModel {
        from_scene_point,
        from_scene_id,
        to_scene_point,
        to_scene_item_id,
        path_final_opacity: final_opacity,
        to_scene_item_opacity: adjusted,
        opacity_segments: traced_segments(map, pixels, VISIBILITY_FIRSTS as int),
        visible: adjusted < VISIBLE_OPACITY_THRESHOLD,
    }
}

/// Result of one observer-to-target visibility trace.
#[derive(Clone, Debug)]
pub struct Visibility {
    pub from_scene_point: ScenePoint,
    pub from_scene_id: SceneItemId,
    pub to_scene_point: ScenePoint,
    pub to_scene_item_id: Option<SceneItemId>,
    pub path_final_opacity: i64,
    pub to_scene_item_opacity: i64,
    pub opacity_segments: Vec<(ScenePoint, i64)>,
    pub visible: bool,
}

/// The model of a recorded sample sequence.
pub open spec fn segments_model(v: Seq<(ScenePoint, i64)>) -> Seq<(ScenePoint, int)> {
    v.map_values(|s: (ScenePoint, i64)| (s.0, s.1 as int))
}

/// The model of a sequence of visibility results.
pub open spec fn visibilities_model(v: Seq<Visibility>) -> Seq<VisibilityModel> {
    v.map_values(|x: Visibility| x@)
}

impl View for Visibility {
    type V = VisibilityModel;

    open spec fn view(&self) -> VisibilityModel {
        VisibilityModel {
            from_scene_point: self.from_scene_point,
            from_scene_id: self.from_scene_id,
            to_scene_point: self.to_scene_point,
            to_scene_item_id: self.to_scene_item_id,
            path_final_opacity: self.path_final_opacity as int,
            to_scene_item_opacity: self.to_scene_item_opacity as int,
            opacity_segments: segments_model(self.opacity_segments@),
            visible: self.visible,
        }
    }
}

/// Relies on bresenham's `Bresenham` iterator: it yields the rasterized
/// straight line between the two points at pixel resolution, starting at the
/// first point and excluding the second, with max(|dx|, |dy|) pixels that
/// all stay within the bounding rectangle of the two endpoints.
#[verifier::external_body]
fn trace_line_pixels(from: &ScenePoint, to: &ScenePoint) -> (r: Vec<(i64, i64)>)
    requires
        -0x4000_0000 <= from.x <= 0x4000_0000,
        -0x4000_0000 <= from.y <= 0x4000_0000,
        -0x4000_0000 <= to.x <= 0x4000_0000,
        -0x4000_0000 <= to.y <= 0x4000_0000,
    ensures
        r@ == bresenham_line(from.x, from.y, to.x, to.y),
        r@.len() == chebyshev_len(from.x, from.y, to.x, to.y),
        r@.len() > 0 ==> r@[0] == (from.x, from.y),
        forall|i: int|
            0 <= i < r@.len() ==> {
                let p = #[trigger] r@[i];
                &&& (if from.x <= to.x {
                    from.x <= p.0 <= to.x
                } else {
                    to.x <= p.0 <= from.x
                })
                &&& (if from.y <= to.y {
                    from.y <= p.1 <= to.y
                } else {
                    to.y <= p.1 <= from.y
                })
            },
{
    bresenham::Bresenham::new((from.x as isize, from.y as isize), (to.x as isize, to.y as isize))
        .map(|p: (isize, isize)| (p.0 as i64, p.1 as i64))
        .collect()
}

/// The opacity offset of a target's behavior, in thousandths.
pub fn behavior_opacity_modifier(behavior: &ItemBehavior) -> (r: i64)
    ensures
        r as int == spec_behavior_opacity_modifier(behavior@),
        -1000 <= r <= 2000,
{
    match behavior {
        ItemBehavior::Standing => 500,
        ItemBehavior::Dead => 0,
        ItemBehavior::Unconscious => 0,
        ItemBehavior::MoveTo(_, _) => 1000,
        ItemBehavior::MoveFastTo(_, _) => 2000,
        ItemBehavior::HideTo(_, _) => -1000,
        ItemBehavior::EngageSceneItem(_) => 0,
        ItemBehavior::EngageGridPoint(_) => 0,
    }
}

/// Whether a cell was already visited in this trace.
fn grid_path_contains(grid_path: &Vec<GridPoint>, p: &GridPoint) -> (r: bool)
    ensures
        r == grid_path@.contains(*p),
{
    let mut i: usize = 0;
    while i < grid_path.len()
        invariant
            i <= grid_path@.len(),
            forall|j: int| 0 <= j < i ==> grid_path@[j] != *p,
        decreases grid_path@.len() - i,
    {
        if grid_path[i] == *p {
            return true;
        }
        i = i + 1;
    }
    proof {
        assert(!grid_path@.contains(*p));
    }
    false
}

impl Visibility {
    /// Traces the line from an observer unit to a target unit, accumulating
    /// terrain opacity cell by cell, and delivers the opacity profile, the
    /// target-adjusted opacity and whether the target is visible. Both positions
    /// must lie within the map; every traced cell then does too.
    pub fn with_scene_item_target(
        scene_item_from: &SceneItem,
        to_scene_item: &SceneItem,
        map: &GameMap,
    ) -> (r: Visibility)
        requires
            map.wf(),
            scene_point_in_map(map, scene_item_from.position),
            scene_point_in_map(map, to_scene_item.position),
        ensures
            r@ == spec_visibility(
                map,
                scene_item_from.position,
                scene_item_from.id,
                to_scene_item.position,
                Some(to_scene_item.id),
                to_scene_item.behavior@,
            ),
            r.visible == (r@.to_scene_item_opacity < VISIBLE_OPACITY_THRESHOLD),
    {
        proof {
            vstd::arithmetic::mul::lemma_mul_inequality(
                map.width as int,
                MAX_GRID_DIM as int,
                map.tile_width as int,
            );
            vstd::arithmetic::mul::lemma_mul_inequality(
                map.tile_width as int,
                MAX_TILE_SIDE as int,
                MAX_GRID_DIM as int,
            );
            assert((MAX_GRID_DIM as int) * (MAX_TILE_SIDE as int) == 0x400_0000);
            vstd::arithmetic::mul::lemma_mul_inequality(
                map.height as int,
                MAX_GRID_DIM as int,
                map.tile_height as int,
            );
            vstd::arithmetic::mul::lemma_mul_inequality(
                map.tile_height as int,
                MAX_TILE_SIDE as int,
                MAX_GRID_DIM as int,
            );
            vstd::arithmetic::mul::lemma_mul_is_commutative(
                map.width as int,
                map.tile_width as int,
            );
            vstd::arithmetic::mul::lemma_mul_is_commutative(
                map.height as int,
                map.tile_height as int,
            );
        }
        let pixels = trace_line_pixels(&scene_item_from.position, &to_scene_item.position);
        let ghost pix = pixels@;
        proof {
            assert forall|i: int| 0 <= i < pix.len() implies pixel_in_map(map, #[trigger] pix[i]) by {}
        }
        let mut opacity_segments: Vec<(ScenePoint, i64)> = Vec::new();
        let mut grid_path: Vec<GridPoint> = Vec::new();
        let mut path_final_opacity: i64 = 0;
        let mut idx: usize = 0;
        proof {
            assert(pix.take(0) =~= Seq::<(i64, i64)>::empty());
            assert(segments_model(opacity_segments@) =~= Seq::<(ScenePoint, int)>::empty());
        }
        while idx < pixels.len()
            invariant
                map.wf(),
                pixels@ == pix,
                idx <= pix.len(),
                pix.len() <= 0x400_0000,
                forall|i: int| 0 <= i < pix.len() ==> pixel_in_map(map, #[trigger] pix[i]),
                grid_path@ == traced_cells(map, pix.take(idx as int)),
                segments_model(opacity_segments@) == traced_segments(
                    map,
                    pix.take(idx as int),
                    VISIBILITY_FIRSTS as int,
                ),
                path_final_opacity as int == cells_opacity(
                    map,
                    grid_path@,
                    VISIBILITY_FIRSTS as int,
                ),
                0 <= path_final_opacity as int <= grid_path@.len() * MAX_TILE_OPACITY,
                grid_path@.len() <= idx,
            decreases pix.len() - idx,
        {
            let (px, py) = pixels[idx];
            let pixel_point = ScenePoint { x: px, y: py };
            proof {
                assert(pixel_in_map(map, pix[idx as int]));
                assert(pixel_point == pixel_scene_point(pix[idx as int]));
                assert(pix.take(idx as int + 1).drop_last() =~= pix.take(idx as int));
                assert(pix.take(idx as int + 1).last() == pix[idx as int]);
            }
            let grid_point = grid_point_from_scene_point(&pixel_point, map);
            if !grid_path_contains(&grid_path, &grid_point) {
                let tile = map.tile(&grid_point);
                let contribution: i64 = if grid_path.len() < VISIBILITY_FIRSTS {
                    0
                } else {
                    tile.opacity
                };
                proof {
                    map.lemma_tile_within_caps(grid_point);
                    vstd::arithmetic::mul::lemma_mul_inequality(
                        grid_path@.len() as int + 1,
                        0x400_0000,
                        MAX_TILE_OPACITY as int,
                    );
                    assert((grid_path@.len() + 1) * MAX_TILE_OPACITY == grid_path@.len()
                        * MAX_TILE_OPACITY + MAX_TILE_OPACITY) by (nonlinear_arith);
                }
                path_final_opacity = path_final_opacity + contribution;
                grid_path.push(grid_point);
                opacity_segments.push((pixel_point, path_final_opacity));
                proof {
                    let prev_cells = traced_cells(map, pix.take(idx as int));
                    assert(grid_path@.drop_last() =~= prev_cells);
                    assert(grid_path@ == traced_cells(map, pix.take(idx as int + 1)));
                    assert(path_final_opacity as int == cells_opacity(
                        map,
                        grid_path@,
                        VISIBILITY_FIRSTS as int,
                    ));
                    assert(segments_model(opacity_segments@) =~= traced_segments(
                        map,
                        pix.take(idx as int + 1),
                        VISIBILITY_FIRSTS as int,
                    ));
                }
            }
            idx = idx + 1;
        }
        proof {
            assert(pix.take(pix.len() as int) =~= pix);
        }
        let modifier = behavior_opacity_modifier(&to_scene_item.behavior);
        let to_scene_item_opacity = path_final_opacity - modifier;
        let visible = to_scene_item_opacity < VISIBLE_OPACITY_THRESHOLD;
        let r = Visibility {
            from_scene_id: scene_item_from.id,
            from_scene_point: scene_item_from.position,
            to_scene_point: to_scene_item.position,
            to_scene_item_id: Some(to_scene_item.id),
            opacity_segments,
            path_final_opacity,
            to_scene_item_opacity,
            visible,
        };
        proof {
            assert(r@ =~= spec_visibility(
                map,
                scene_item_from.position,
                scene_item_from.id,
                to_scene_item.position,
                Some(to_scene_item.id),
                to_scene_item.behavior@,
            ));
        }
        r
    }
}

/// Every cell a pixel sequence crosses lies within the map, and there are no
/// more cells than pixels.
pub proof fn lemma_traced_cells_in_map(map: &GameMap, pixels: Seq<(i64, i64)>)
    requires
        map.wf(),
        forall|i: int| 0 <= i < pixels.len() ==> pixel_in_map(map, #[trigger] pixels[i]),
    ensures
        forall|i: int|
            0 <= i < traced_cells(map, pixels).len() ==> map.contains_grid_point(
                #[trigger] traced_cells(map, pixels)[i],
            ),
        traced_cells(map, pixels).len() <= pixels.len(),
    decreases pixels.len(),
{
    if pixels.len() > 0 {
        assert(forall|i: int|
            0 <= i < pixels.drop_last().len() ==> pixel_in_map(
                map,
                #[trigger] pixels.drop_last()[i],
            ));
        lemma_traced_cells_in_map(map, pixels.drop_last());
        lemma_spec_grid_point_in_map(map, pixel_scene_point(pixels.last()));
    }
}

/// Each recorded sample's opacity is the cumulative opacity of the cell
/// prefix visited so far, and there is one sample per visited cell.
proof fn lemma_traced_segments_structure(map: &GameMap, pixels: Seq<(i64, i64)>, firsts: int)
    ensures
        traced_segments(map, pixels, firsts).len() == traced_cells(map, pixels).len(),
        forall|k: int|
            0 <= k < traced_segments(map, pixels, firsts).len() ==> (#[trigger] traced_segments(
                map,
                pixels,
                firsts,
            )[k]).1 == cells_opacity(map, traced_cells(map, pixels).take(k + 1), firsts),
    decreases pixels.len(),
{
    if pixels.len() > 0 {
        lemma_traced_segments_structure(map, pixels.drop_last(), firsts);
        let prev_cells = traced_cells(map, pixels.drop_last());
        let cells = traced_cells(map, pixels);
        let prev_segments = traced_segments(map, pixels.drop_last(), firsts);
        let segments = traced_segments(map, pixels, firsts);
        let cell = pixel_grid_point(map, pixels.last());
        if prev_cells.contains(cell) {
            assert(cells == prev_cells);
            assert(segments == prev_segments);
        } else {
            assert(cells == prev_cells.push(cell));
            assert forall|k: int| 0 <= k < segments.len() implies (#[trigger] segments[k]).1
                == cells_opacity(map, cells.take(k + 1), firsts) by {
                if k < prev_segments.len() {
                    assert(cells.take(k + 1) =~= prev_cells.take(k + 1));
                } else {
                    assert(cells.take(k + 1) =~= cells);
                }
            }
        }
    }
}

/// Cumulative opacity never decreases along prefixes of the visited cells.
proof fn lemma_cells_opacity_take_monotonic(
    map: &GameMap,
    cells: Seq<GridPoint>,
    firsts: int,
    i: int,
    j: int,
)
    requires
        map.wf(),
        forall|k: int| 0 <= k < cells.len() ==> map.contains_grid_point(#[trigger] cells[k]),
        0 <= i <= j <= cells.len(),
    ensures
        cells_opacity(map, cells.take(i), firsts) <= cells_opacity(map, cells.take(j), firsts),
    decreases j - i,
{
    if i < j {
        lemma_cells_opacity_take_monotonic(map, cells, firsts, i, j - 1);
        assert(cells.take(j).drop_last() =~= cells.take(j - 1));
        assert(cells.take(j).last() == cells[j - 1]);
        assert(map.contains_grid_point(cells[j - 1]));
        map.lemma_tile_within_caps(cells[j - 1]);
    }
}

/// Law: along one visibility trace the recorded cumulative opacities never
/// decrease, there is exactly one sample per newly visited cell, and the last
/// recorded value equals the sum of the terrain opacities of the distinct
/// cells crossed after the first `firsts` cells.
pub proof fn lemma_visibility_profile(map: &GameMap, pixels: Seq<(i64, i64)>, firsts: int)
    requires
        map.wf(),
        forall|i: int| 0 <= i < pixels.len() ==> pixel_in_map(map, #[trigger] pixels[i]),
    ensures
        traced_segments(map, pixels, firsts).len() == traced_cells(map, pixels).len(),
        forall|i: int, j: int|
            0 <= i <= j < traced_segments(map, pixels, firsts).len() ==> (#[trigger] traced_segments(
                map,
                pixels,
                firsts,
            )[i]).1 <= (#[trigger] traced_segments(map, pixels, firsts)[j]).1,
        traced_segments(map, pixels, firsts).len() > 0 ==> traced_segments(
            map,
            pixels,
            firsts,
        ).last().1 == cells_opacity(map, traced_cells(map, pixels), firsts),
{
    let cells = traced_cells(map, pixels);
    let segments = traced_segments(map, pixels, firsts);
    lemma_traced_cells_in_map(map, pixels);
    lemma_traced_segments_structure(map, pixels, firsts);
    assert forall|i: int, j: int| 0 <= i <= j < segments.len() implies (#[trigger] segments[i]).1
        <= (#[trigger] segments[j]).1 by {
        lemma_cells_opacity_take_monotonic(map, cells, firsts, i + 1, j + 1);
    }
    if segments.len() > 0 {
        assert(cells.take(cells.len() as int) =~= cells);
    }
}

} // verus!
