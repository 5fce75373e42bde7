use vstd::prelude::*;

verus! {

/// Lengths are measured in millionths of a world unit (one world unit is one pixel).
pub const UNITS_PER_PIXEL: i64 = 1_000_000;

/// Largest magnitude of a settled position coordinate (player or obstacle).
pub const COORD_LIMIT: i64 = 1_125_899_906_842_624;

/// Largest magnitude of a tentative coordinate handed to the collision resolver.
pub const REACH_LIMIT: i64 = 4_503_599_627_370_496;

/// Largest footprint edge or tile edge.
pub const SIZE_LIMIT: i64 = 68_719_476_736;

/// A point of the plane, or a displacement.
#[derive(Clone, Copy, Debug, PartialEq, Eq, Structural)]
pub struct Pos {
    pub x: i64,
    pub y: i64,
}

/// Width and height of an axis-aligned footprint centred on a position.
#[derive(Clone, Copy, Debug, PartialEq, Eq, Structural)]
pub struct Size {
    pub w: i64,
    pub h: i64,
}

pub open spec fn in_box(p: Pos, limit: int) -> bool {
    -limit <= p.x <= limit && -limit <= p.y <= limit
}

impl Size {
    pub open spec fn wf(self) -> bool {
        0 <= self.w <= SIZE_LIMIT && 0 <= self.h <= SIZE_LIMIT
    }

    /// A square footprint of edge `edge`.
    pub fn square(edge: i64) -> (r: Size)
        ensures
            r.w == edge && r.h == edge,
    {
        Size { w: edge, h: edge }
    }
}

} // verus!
