use vstd::prelude::*;

use crate::geometry::{in_box, Pos, Size, COORD_LIMIT, REACH_LIMIT, SIZE_LIMIT};

verus! {

/// The face of an obstacle that a footprint has entered.
#[derive(Clone, Copy, Debug, PartialEq, Eq, Structural)]
pub enum Collision {
    Left,
    Right,
    Top,
    Bottom,
    Inside,
}

/// The footprints of `a` and `b` overlap (open rectangles). Doubled coordinates
/// keep half sizes exact: `2 * x - w` is twice the lower edge.
pub open spec fn overlaps(a: Pos, a_size: Size, b: Pos, b_size: Size) -> bool {
    &&& 2 * a.x - a_size.w < 2 * b.x + b_size.w
    &&& 2 * a.x + a_size.w > 2 * b.x - b_size.w
    &&& 2 * a.y - a_size.h < 2 * b.y + b_size.h
    &&& 2 * a.y + a_size.h > 2 * b.y - b_size.h
}

/// The side hit along one axis, from the doubled edges of both intervals, with the
/// doubled penetration depth; `None` for the depth stands for an unbounded one.
pub open spec fn axis_side(a_min: int, a_max: int, b_min: int, b_max: int, low: Collision, high: Collision)
    -> (Collision, Option<int>)
{
    if a_min < b_min && a_max > b_min && a_max < b_max {
        (low, Some(a_max - b_min))
    } else if a_min > b_min && a_min < b_max && a_max > b_max {
        (high, Some(b_max - a_min))
    } else {
        (Collision::Inside, None)
    }
}

/// Which face of `b` the footprint of `a` entered, if they overlap: the side along
/// the axis of smaller penetration, the horizontal one on a tie.
pub open spec fn collide_spec(a: Pos, a_size: Size, b: Pos, b_size: Size) -> Option<Collision> {
    if !overlaps(a, a_size, b, b_size) {
        None
    } else {
        let (xs, xd) = axis_side(2 * a.x - a_size.w, 2 * a.x + a_size.w, 2 * b.x - b_size.w, 2 * b.x + b_size.w,
            Collision::Left, Collision::Right);
        let (ys, yd) = axis_side(2 * a.y - a_size.h, 2 * a.y + a_size.h, 2 * b.y - b_size.h, 2 * b.y + b_size.h,
            Collision::Bottom, Collision::Top);
        let y_first = match (yd, xd) {
            (Some(dy), Some(dx)) => dy < dx,
            (Some(_), None) => true,
            (None, _) => false,
        };
        if y_first { Some(ys) } else { Some(xs) }
    }
}

fn axis_side_exec(a_min: i64, a_max: i64, b_min: i64, b_max: i64, low: Collision, high: Collision)
    -> (r: (Collision, Option<i64>))
    requires
        -4 * REACH_LIMIT <= a_min <= 4 * REACH_LIMIT,
        -4 * REACH_LIMIT <= a_max <= 4 * REACH_LIMIT,
        -4 * REACH_LIMIT <= b_min <= 4 * REACH_LIMIT,
        -4 * REACH_LIMIT <= b_max <= 4 * REACH_LIMIT,
    ensures
        r.0 == axis_side(a_min as int, a_max as int, b_min as int, b_max as int, low, high).0,
        r.1 matches Some(d) ==> axis_side(a_min as int, a_max as int, b_min as int, b_max as int, low, high).1
            == Some(d as int),
        r.1 is None ==> axis_side(a_min as int, a_max as int, b_min as int, b_max as int, low, high).1 is None,
{
    if a_min < b_min && a_max > b_min && a_max < b_max {
        (low, Some(a_max - b_min))
    } else if a_min > b_min && a_min < b_max && a_max > b_max {
        (high, Some(b_max - a_min))
    } else {
        (Collision::Inside, None)
    }
}

/// Axis-aligned footprint test of `a` against `b`, reporting the face of `b` entered.
pub fn collide(a: Pos, a_size: Size, b: Pos, b_size: Size) -> (r: Option<Collision>)
    requires
        in_box(a, REACH_LIMIT as int),
        in_box(b, REACH_LIMIT as int),
        a_size.wf(),
        b_size.wf(),
    ensures
        r == collide_spec(a, a_size, b, b_size),
{
    let a_min_x = 2 * a.x - a_size.w;
    let a_max_x = 2 * a.x + a_size.w;
    let b_min_x = 2 * b.x - b_size.w;
    let b_max_x = 2 * b.x + b_size.w;
    let a_min_y = 2 * a.y - a_size.h;
    let a_max_y = 2 * a.y + a_size.h;
    let b_min_y = 2 * b.y - b_size.h;
    let b_max_y = 2 * b.y + b_size.h;
    if !(a_min_x < b_max_x && a_max_x > b_min_x && a_min_y < b_max_y && a_max_y > b_min_y) {
        return None;
    }
    let (xs, xd) = axis_side_exec(a_min_x, a_max_x, b_min_x, b_max_x, Collision::Left, Collision::Right);
    let (ys, yd) = axis_side_exec(a_min_y, a_max_y, b_min_y, b_max_y, Collision::Bottom, Collision::Top);
    let y_first = match (yd, xd) {
        (Some(dy), Some(dx)) => dy < dx,
        (Some(_), None) => true,
        (None, _) => false,
    };
    if y_first {
        Some(ys)
    } else {
        Some(xs)
    }
}

/// The tentative position after the push-out from one obstacle of edge `tile`:
/// the entered face decides the axis, which is snapped one tile from the obstacle's
/// centre; a footprint entirely inside is left where it is.
pub open spec fn resolve_one_spec(target: Pos, size: Size, wall: Pos, tile: i64) -> Pos {
    match collide_spec(target, size, wall, Size { w: tile, h: tile }) {
        Some(Collision::Bottom) => Pos { y: (wall.y - tile) as i64, ..target },
        Some(Collision::Top) => Pos { y: (wall.y + tile) as i64, ..target },
        Some(Collision::Left) => Pos { x: (wall.x - tile) as i64, ..target },
        Some(Collision::Right) => Pos { x: (wall.x + tile) as i64, ..target },
        _ => target,
    }
}

/// Every obstacle tested in turn against the position corrected so far.
pub open spec fn resolve_spec(target: Pos, size: Size, walls: Seq<Pos>, tile: i64) -> Pos
    decreases walls.len(),
{
    if walls.len() == 0 {
        target
    } else {
        resolve_one_spec(resolve_spec(target, size, walls.drop_last(), tile), size, walls.last(), tile)
    }
}

pub open spec fn walls_wf(walls: Seq<Pos>) -> bool {
    forall|i: int| 0 <= i < walls.len() ==> #[trigger] in_box(walls[i], COORD_LIMIT as int)
}

/// Push-out from a single obstacle.
pub fn resolve_one(target: Pos, size: Size, wall: Pos, tile: i64) -> (r: Pos)
    requires
        in_box(target, REACH_LIMIT as int),
        in_box(wall, COORD_LIMIT as int),
        size.wf(),
        0 <= tile <= SIZE_LIMIT,
    ensures
        r == resolve_one_spec(target, size, wall, tile),
        in_box(r, REACH_LIMIT as int),
{
    match collide(target, size, wall, Size::square(tile)) {
        Some(Collision::Bottom) => Pos { y: wall.y - tile, ..target },
        Some(Collision::Top) => Pos { y: wall.y + tile, ..target },
        Some(Collision::Left) => Pos { x: wall.x - tile, ..target },
        Some(Collision::Right) => Pos { x: wall.x + tile, ..target },
        _ => target,
    }
}

/// Corrects a tentative position against every obstacle, in order.
pub fn resolve(target: Pos, size: Size, walls: &Vec<Pos>, tile: i64) -> (r: Pos)
    requires
        in_box(target, REACH_LIMIT as int),
        walls_wf(walls@),
        size.wf(),
        0 <= tile <= SIZE_LIMIT,
    ensures
        r == resolve_spec(target, size, walls@, tile),
        in_box(r, REACH_LIMIT as int),
{
    let mut cur = target;
    let mut i: usize = 0;
    while i < walls.len()
        invariant
            0 <= i <= walls@.len(),
            cur == resolve_spec(target, size, walls@.subrange(0, i as int), tile),
            in_box(cur, REACH_LIMIT as int),
            walls_wf(walls@),
            size.wf(),
            0 <= tile <= SIZE_LIMIT,
        decreases walls@.len() - i,
    {
        proof {
            let s = walls@.subrange(0, i as int + 1);
            assert(s.drop_last() =~= walls@.subrange(0, i as int));
            assert(in_box(walls@[i as int], COORD_LIMIT as int));
        }
        cur = resolve_one(cur, size, walls[i], tile);
        i = i + 1;
    }
    assert(walls@.subrange(0, walls@.len() as int) =~= walls@);
    cur
}

} // verus!

verus! {

/// The open intervals of length `a_len` around `a` and `b_len` around `b` meet.
pub open spec fn axis_overlap(a: int, a_len: int, b: int, b_len: int) -> bool {
    2 * a - a_len < 2 * b + b_len && 2 * a + a_len > 2 * b - b_len
}

/// After the push-out from an obstacle that was entered through a face, the
/// footprint no longer overlaps that obstacle along the corrected axis, provided
/// the footprint is no longer than a tile along that axis.
pub proof fn lemma_push_out_clears_axis(target: Pos, size: Size, wall: Pos, tile: i64)
    requires
        in_box(target, REACH_LIMIT as int),
        in_box(wall, COORD_LIMIT as int),
        size.wf(),
        0 <= tile <= SIZE_LIMIT,
    ensures
        ({
            let r = resolve_one_spec(target, size, wall, tile);
            match collide_spec(target, size, wall, Size { w: tile, h: tile }) {
                Some(Collision::Left) | Some(Collision::Right) => size.w <= tile ==> !axis_overlap(
                    r.x as int,
                    size.w as int,
                    wall.x as int,
                    tile as int,
                ),
                Some(Collision::Top) | Some(Collision::Bottom) => size.h <= tile ==> !axis_overlap(
                    r.y as int,
                    size.h as int,
                    wall.y as int,
                    tile as int,
                ),
                _ => r == target,
            }
        }),
{
}

} // verus!
