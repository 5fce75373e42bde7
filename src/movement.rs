use vstd::prelude::*;

use crate::collision::{resolve, resolve_spec, walls_wf};
use crate::geometry::{in_box, Pos, Size, COORD_LIMIT, REACH_LIMIT, SIZE_LIMIT};

verus! {

/// Microseconds in one second: frame times are given in microseconds.
pub const MICROS_PER_SECOND: u64 = 1_000_000;

/// Largest movement speed, in tiles per second.
pub const SPEED_LIMIT: u64 = 1024;

/// Largest frame time, in microseconds.
pub const DT_LIMIT: u64 = 4_194_304;

/// The four directional signals held during a frame.
#[derive(Clone, Copy, Debug, PartialEq, Eq, Structural)]
pub struct Intent {
    pub up: bool,
    pub down: bool,
    pub left: bool,
    pub right: bool,
}

/// +1, -1 or 0 along one axis: opposite signals cancel.
pub open spec fn axis_dir(pos: bool, neg: bool) -> int {
    (if pos { 1int } else { 0int }) - (if neg { 1int } else { 0int })
}

impl Intent {
    pub open spec fn dx(self) -> int {
        axis_dir(self.right, self.left)
    }

    pub open spec fn dy(self) -> int {
        axis_dir(self.up, self.down)
    }

    /// No net direction: the signals are all off or cancel out.
    pub open spec fn is_still(self) -> bool {
        self.dx() == 0 && self.dy() == 0
    }
}

/// Distance covered in one frame: speed (tiles per second) times tile edge times
/// the frame time (microseconds), rounded down to a whole length unit.
pub open spec fn step_len(speed: int, tile: int, dt: int) -> int {
    speed * tile * dt / (MICROS_PER_SECOND as int)
}

/// `c` is `step / sqrt(2)` rounded down.
pub open spec fn is_diag_len(step: int, c: int) -> bool {
    0 <= c && 2 * (c * c) <= step * step && step * step < 2 * ((c + 1) * (c + 1))
}

/// Each axis component of a diagonal step of length `step`.
pub open spec fn diag_len(step: int) -> int {
    choose|c: int| is_diag_len(step, c)
}

/// The displacement for one frame: the unit direction of the held signals scaled to
/// `step`, each component of a diagonal rounded down in magnitude.
pub open spec fn offset_spec(intent: Intent, step: int) -> (int, int) {
    if intent.dx() != 0 && intent.dy() != 0 {
        (intent.dx() * diag_len(step), intent.dy() * diag_len(step))
    } else {
        (intent.dx() * step, intent.dy() * step)
    }
}

/// Where the footprint would go with no obstacles.
pub open spec fn tentative_spec(pos: Pos, intent: Intent, step: int) -> Pos {
    let off = offset_spec(intent, step);
    Pos { x: (pos.x + off.0) as i64, y: (pos.y + off.1) as i64 }
}

/// The position after one frame of movement: unchanged with no net direction, else
/// the tentative position corrected against every obstacle.
pub open spec fn movement_spec(
    pos: Pos,
    size: Size,
    intent: Intent,
    speed: int,
    tile: i64,
    dt: int,
    walls: Seq<Pos>,
) -> Pos {
    if intent.is_still() {
        pos
    } else {
        resolve_spec(tentative_spec(pos, intent, step_len(speed, tile as int, dt)), size, walls, tile)
    }
}

proof fn lemma_diag_len_unique(step: int, c: int)
    requires
        step >= 0,
        is_diag_len(step, c),
    ensures
        diag_len(step) == c,
{
    let d = diag_len(step);
    assert(is_diag_len(step, d));
    if d < c {
        assert((d + 1) * (d + 1) <= c * c) by (nonlinear_arith)
            requires 0 <= d + 1 <= c;
    }
    if c < d {
        assert((c + 1) * (c + 1) <= d * d) by (nonlinear_arith)
            requires 0 <= c + 1 <= d;
    }
}

/// `step / sqrt(2)` rounded down, by bisection over the squares.
fn diag_component(step: u64) -> (c: u64)
    requires
        step <= REACH_LIMIT,
    ensures
        c == diag_len(step as int),
        c <= step,
{
    assert(step as int * step as int <= REACH_LIMIT * REACH_LIMIT) by (nonlinear_arith)
        requires 0 <= step <= REACH_LIMIT;
    let s2: u128 = (step as u128) * (step as u128);
    let mut lo: u128 = 0;
    let mut hi: u128 = step as u128 + 1;
    assert(2 * (hi * hi) > s2) by (nonlinear_arith)
        requires hi == step + 1, s2 == step * step, step >= 0;
    while lo + 1 < hi
        invariant
            lo < hi <= step as u128 + 1,
            s2 == step as int * step as int,
            2 * (lo * lo) <= s2,
            2 * (hi * hi) > s2,
            step <= REACH_LIMIT,
        decreases hi - lo,
    {
        let mid: u128 = lo + (hi - lo) / 2;
        assert(mid * mid <= (REACH_LIMIT + 1) * (REACH_LIMIT + 1)) by (nonlinear_arith)
            requires 0 <= mid <= REACH_LIMIT + 1;
        if 2 * (mid * mid) <= s2 {
            lo = mid;
        } else {
            hi = mid;
        }
    }
    proof {
        assert(lo + 1 == hi);
        assert(is_diag_len(step as int, lo as int));
        lemma_diag_len_unique(step as int, lo as int);
        if lo > step {
            assert(lo * lo > step * step) by (nonlinear_arith)
                requires lo > step, step >= 0;
        }
    }
    lo as u64
}

/// The length of one frame's step.
fn frame_step(speed: u64, tile: i64, dt: u64) -> (r: u64)
    requires
        speed <= SPEED_LIMIT,
        0 <= tile <= SIZE_LIMIT,
        dt <= DT_LIMIT,
    ensures
        r == step_len(speed as int, tile as int, dt as int),
        r < COORD_LIMIT / 2,
{
    assert(speed as int * tile as int <= SPEED_LIMIT * SIZE_LIMIT) by (nonlinear_arith)
        requires 0 <= speed <= SPEED_LIMIT, 0 <= tile <= SIZE_LIMIT;
    let st: u128 = (speed as u128) * (tile as u128);
    assert(st * dt as int <= SPEED_LIMIT * SIZE_LIMIT * DT_LIMIT) by (nonlinear_arith)
        requires 0 <= st <= SPEED_LIMIT * SIZE_LIMIT, 0 <= dt <= DT_LIMIT;
    let p: u128 = st * (dt as u128);
    assert(p == speed as int * tile as int * dt as int);
    let r: u128 = p / (MICROS_PER_SECOND as u128);
    proof {
        vstd::arithmetic::div_mod::lemma_div_is_ordered(
            p as int,
            SPEED_LIMIT * SIZE_LIMIT * DT_LIMIT,
            MICROS_PER_SECOND as int,
        );
    }
    r as u64
}

/// Moves a footprint one frame in the held direction and pushes it out of the
/// obstacles (each a square of edge `tile`).
pub fn move_and_collide(
    pos: Pos,
    size: Size,
    intent: Intent,
    speed: u64,
    tile: i64,
    dt: u64,
    walls: &Vec<Pos>,
) -> (r: Pos)
    requires
        in_box(pos, COORD_LIMIT as int),
        size.wf(),
        speed <= SPEED_LIMIT,
        0 <= tile <= SIZE_LIMIT,
        dt <= DT_LIMIT,
        walls_wf(walls@),
    ensures
        r == movement_spec(pos, size, intent, speed as int, tile, dt as int, walls@),
        in_box(r, REACH_LIMIT as int),
{
    let dx: i64 = (if intent.right { 1i64 } else { 0i64 }) - (if intent.left { 1i64 } else { 0i64 });
    let dy: i64 = (if intent.up { 1i64 } else { 0i64 }) - (if intent.down { 1i64 } else { 0i64 });
    if dx == 0 && dy == 0 {
        return pos;
    }
    let step = frame_step(speed, tile, dt);
    let len: i64 = if dx != 0 && dy != 0 {
        diag_component(step) as i64
    } else {
        step as i64
    };
    assert(-(len as int) <= dx * len <= len && -(len as int) <= dy * len <= len) by (nonlinear_arith)
        requires -1 <= dx <= 1, -1 <= dy <= 1, len >= 0;
    assert(-REACH_LIMIT <= pos.x + dx * len <= REACH_LIMIT);
    assert(-REACH_LIMIT <= pos.y + dy * len <= REACH_LIMIT);
    let target = Pos { x: pos.x + dx * len, y: pos.y + dy * len };
    resolve(target, size, walls, tile)
}

} // verus!

verus! {

/// Exactly one of the four directional signals is held.
pub open spec fn single_direction(intent: Intent) -> bool {
    (if intent.up { 1int } else { 0int }) + (if intent.down { 1int } else { 0int }) + (if intent.left {
        1int
    } else {
        0int
    }) + (if intent.right { 1int } else { 0int }) == 1
}

/// With one direction held and no obstacles, a frame moves the position by the unit
/// vector of that direction times speed, tile edge and frame time.
pub proof fn lemma_free_single_direction_move(
    pos: Pos,
    size: Size,
    intent: Intent,
    speed: int,
    tile: i64,
    dt: int,
)
    requires
        single_direction(intent),
    ensures
        intent.dx() * intent.dx() + intent.dy() * intent.dy() == 1,
        movement_spec(pos, size, intent, speed, tile, dt, Seq::<Pos>::empty()) == (Pos {
            x: (pos.x + intent.dx() * step_len(speed, tile as int, dt)) as i64,
            y: (pos.y + intent.dy() * step_len(speed, tile as int, dt)) as i64,
        }),
{
    let t = tentative_spec(pos, intent, step_len(speed, tile as int, dt));
    assert(intent.dx() * intent.dx() + intent.dy() * intent.dy() == 1) by (nonlinear_arith)
        requires
            (intent.dx() == 0 && (intent.dy() == 1 || intent.dy() == -1)) || (intent.dy() == 0 && (
            intent.dx() == 1 || intent.dx() == -1));
    assert(resolve_spec(t, size, Seq::<Pos>::empty(), tile) == t);
}

} // verus!
