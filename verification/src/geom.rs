//! Integer geometry: axis-aligned boxes on a signed coordinate grid.
//!
//! Every entity that takes part in collision (movers and obstacles alike)
//! is described by a [`Rect`]: a center position and half-extents. All
//! coordinates are integers; the grid is fine enough (one unit per pixel)
//! that nothing finer is ever needed.

use vstd::prelude::*;
use crate::utils::Direction;

verus! {

/// Largest magnitude a coordinate or half-extent may have. Keeping every
/// box inside this bound makes all edge and gap arithmetic fit in `i64`
/// with room to spare.
pub const COORD_LIMIT: i64 = 0x4_0000_0000_0000;

/// An axis-aligned rectangle: center `(cx, cy)` plus half-extents
/// `(hw, hh)`. Its edges are `cx - hw .. cx + hw` and `cy - hh .. cy + hh`.
#[derive(Debug, PartialEq, Eq, Structural, Copy, Clone)]
pub struct Rect {
    pub cx: i64,
    pub cy: i64,
    pub hw: i64,
    pub hh: i64,
}

impl Rect {
    /// A well-formed box has non-negative half-extents and lies within the
    /// coordinate bound.
    pub open spec fn wf(self) -> bool {
        &&& 0 <= self.hw <= COORD_LIMIT
        &&& 0 <= self.hh <= COORD_LIMIT
        &&& -COORD_LIMIT <= self.cx <= COORD_LIMIT
        &&& -COORD_LIMIT <= self.cy <= COORD_LIMIT
    }

    pub open spec fn min_x(self) -> int {
        self.cx - self.hw
    }

    pub open spec fn max_x(self) -> int {
        self.cx + self.hw
    }

    pub open spec fn min_y(self) -> int {
        self.cy - self.hh
    }

    pub open spec fn max_y(self) -> int {
        self.cy + self.hh
    }

    pub fn new(cx: i64, cy: i64, hw: i64, hh: i64) -> (r: Rect)
        requires
            0 <= hw <= COORD_LIMIT,
            0 <= hh <= COORD_LIMIT,
            -COORD_LIMIT <= cx <= COORD_LIMIT,
            -COORD_LIMIT <= cy <= COORD_LIMIT,
        ensures
            r == (Rect { cx, cy, hw, hh }),
            r.wf(),
    {
        Rect { cx, cy, hw, hh }
    }

}

/// Unit step of a direction along the x axis.
pub open spec fn dir_dx(direction: Direction) -> int {
    match direction {
        Direction::Right => 1,
        Direction::Left => -1,
        Direction::Up | Direction::Down => 0,
    }
}

/// Unit step of a direction along the y axis.
pub open spec fn dir_dy(direction: Direction) -> int {
    match direction {
        Direction::Up => 1,
        Direction::Down => -1,
        Direction::Left | Direction::Right => 0,
    }
}

} // verus!
