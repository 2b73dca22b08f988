//! The directional collider: signed clearance between a mover and an
//! obstacle along one of the four cardinal directions, and the side of an
//! obstacle that a projectile struck.

use vstd::prelude::*;
use crate::geom::{dir_dx, dir_dy, Rect};
use crate::utils::Direction;

verus! {

/// The kind of an entity a mover's path is tested against.
#[derive(Debug, PartialEq, Eq, Structural, Copy, Clone)]
pub enum Collider {
    /// Boundary of the battle field.
    Boundary,
    Brick,
    Iron,
    River,
    Grass,
    Snow,
    /// The eagle.
    Base,
    Tank,
    Bullet,
    PowerUp,
}

/// Do the projections of `a` and `b` onto the axis perpendicular to
/// `direction` overlap? Exact edge-touch does not count as overlap: a
/// mover may slide past an obstacle it is flush with.
pub open spec fn perp_overlap(a: Rect, b: Rect, direction: Direction) -> bool {
    match direction {
        Direction::Up | Direction::Down => b.max_x() > a.min_x() && b.min_x() < a.max_x(),
        Direction::Left | Direction::Right => b.max_y() > a.min_y() && b.min_y() < a.max_y(),
    }
}

/// Signed distance along the `direction` axis from the mover `a`'s leading
/// edge to the obstacle `b`'s trailing edge. Positive means free travel
/// room; zero or negative means contact or overlap.
pub open spec fn axis_gap(a: Rect, b: Rect, direction: Direction) -> int {
    match direction {
        Direction::Up => b.min_y() - a.max_y(),
        Direction::Right => b.min_x() - a.max_x(),
        Direction::Down => a.min_y() - b.max_y(),
        Direction::Left => a.min_x() - b.max_x(),
    }
}

/// Clearance of mover `a` against obstacle `b` when travelling along
/// `direction`: `None` when the obstacle is not in the mover's lane
/// (perpendicular projections do not overlap), otherwise the signed gap
/// between the facing edges.
pub fn collide(a: &Rect, b: &Rect, direction: Direction) -> (r: Option<i64>)
    requires
        a.wf(),
        b.wf(),
    ensures
        (r is Some) == perp_overlap(*a, *b, direction),
        r matches Some(gap) ==> gap == axis_gap(*a, *b, direction),
{
    let a_min_x = a.cx - a.hw;
    let a_max_x = a.cx + a.hw;
    let a_min_y = a.cy - a.hh;
    let a_max_y = a.cy + a.hh;
    let b_min_x = b.cx - b.hw;
    let b_max_x = b.cx + b.hw;
    let b_min_y = b.cy - b.hh;
    let b_max_y = b.cy + b.hh;
    match direction {
        Direction::Up => {
            if b_max_x <= a_min_x || b_min_x >= a_max_x {
                None
            } else {
                Some(b_min_y - a_max_y)
            }
        }
        Direction::Right => {
            if b_max_y <= a_min_y || b_min_y >= a_max_y {
                None
            } else {
                Some(b_min_x - a_max_x)
            }
        }
        Direction::Down => {
            if b_max_x <= a_min_x || b_min_x >= a_max_x {
                None
            } else {
                Some(a_min_y - b_max_y)
            }
        }
        Direction::Left => {
            if b_max_y <= a_min_y || b_min_y >= a_max_y {
                None
            } else {
                Some(a_min_x - b_max_x)
            }
        }
    }
}

/// The side of an obstacle's box, from the obstacle's own point of view.
#[derive(Debug, PartialEq, Eq, Structural, Copy, Clone)]
pub enum Side {
    Top,
    Bottom,
    Left,
    Right,
}

/// Width of the overlap of the two boxes' projections onto the x axis
/// (positive only when they genuinely overlap).
pub open spec fn overlap_x(a: Rect, b: Rect) -> int {
    vstd::math::min(a.max_x(), b.max_x()) - vstd::math::max(a.min_x(), b.min_x())
}

/// Height of the overlap of the two boxes' projections onto the y axis.
pub open spec fn overlap_y(a: Rect, b: Rect) -> int {
    vstd::math::min(a.max_y(), b.max_y()) - vstd::math::max(a.min_y(), b.min_y())
}

/// Do the two boxes overlap on both axes? Edge-touch is not overlap.
pub open spec fn boxes_overlap(a: Rect, b: Rect) -> bool {
    overlap_x(a, b) > 0 && overlap_y(a, b) > 0
}

/// The side of `target` that an overlapping box `probe` struck: the axis
/// with the shallower overlap decides (ties favour the horizontal sides),
/// and the struck side is the one `probe`'s center lies toward (ties go to
/// `Top`, respectively `Left`).
pub open spec fn impact_side_spec(probe: Rect, target: Rect) -> Option<Side> {
    if !boxes_overlap(probe, target) {
        None
    } else if overlap_y(probe, target) < overlap_x(probe, target) {
        if probe.cy >= target.cy {
            Some(Side::Top)
        } else {
            Some(Side::Bottom)
        }
    } else {
        if probe.cx <= target.cx {
            Some(Side::Left)
        } else {
            Some(Side::Right)
        }
    }
}

/// Which side of `target` the box `probe` hit, if they overlap at all.
/// Used by the projectile broad phase to choose the impact side handed to
/// the brick fragmentation engine.
pub fn impact_side(probe: &Rect, target: &Rect) -> (r: Option<Side>)
    requires
        probe.wf(),
        target.wf(),
    ensures
        r == impact_side_spec(*probe, *target),
{
    let p_min_x = probe.cx - probe.hw;
    let p_max_x = probe.cx + probe.hw;
    let p_min_y = probe.cy - probe.hh;
    let p_max_y = probe.cy + probe.hh;
    let t_min_x = target.cx - target.hw;
    let t_max_x = target.cx + target.hw;
    let t_min_y = target.cy - target.hh;
    let t_max_y = target.cy + target.hh;
    let ox = (if p_max_x < t_max_x { p_max_x } else { t_max_x })
        - (if p_min_x > t_min_x { p_min_x } else { t_min_x });
    let oy = (if p_max_y < t_max_y { p_max_y } else { t_max_y })
        - (if p_min_y > t_min_y { p_min_y } else { t_min_y });
    if ox <= 0 || oy <= 0 {
        None
    } else if oy < ox {
        if probe.cy >= target.cy {
            Some(Side::Top)
        } else {
            Some(Side::Bottom)
        }
    } else {
        if probe.cx <= target.cx {
            Some(Side::Left)
        } else {
            Some(Side::Right)
        }
    }
}

/// Clearance symmetry: whenever the obstacle `b` lies strictly ahead of
/// the mover `a` along `direction` and in its lane, the clearance is a
/// positive number equal to the true gap between `a`'s leading edge and
/// `b`'s trailing edge, whichever of the four directions is travelled.
pub proof fn lemma_clearance_symmetry(a: Rect, b: Rect, direction: Direction)
    requires
        perp_overlap(a, b, direction),
        match direction {
            Direction::Up => b.min_y() > a.max_y(),
            Direction::Right => b.min_x() > a.max_x(),
            Direction::Down => b.max_y() < a.min_y(),
            Direction::Left => b.max_x() < a.min_x(),
        },
    ensures
        axis_gap(a, b, direction) > 0,
        axis_gap(a, b, direction) == (match direction {
            Direction::Up => b.min_y() - a.max_y(),
            Direction::Right => b.min_x() - a.max_x(),
            Direction::Down => a.min_y() - b.max_y(),
            Direction::Left => a.min_x() - b.max_x(),
        }),
{
}

/// Perpendicular independence: when the projections of `a` and `b` onto
/// the axis perpendicular to `direction` do not overlap, the obstacle is
/// irrelevant to the move no matter where the two boxes stand along the
/// direction axis. `a2` is `a` displaced by any amount `t` along that
/// axis, and the clearance is absent for it as well.
pub proof fn lemma_perpendicular_independence(a: Rect, a2: Rect, b: Rect, direction: Direction, t: int)
    requires
        !perp_overlap(a, b, direction),
        a2.hw == a.hw,
        a2.hh == a.hh,
        a2.cx == a.cx + t * dir_dx(direction),
        a2.cy == a.cy + t * dir_dy(direction),
    ensures
        !perp_overlap(a2, b, direction),
{
}

/// Monotonicity: displacing the mover by `t` along its travel direction
/// changes the clearance by exactly `-t`. Moving closer to the obstacle
/// strictly decreases the clearance until contact at zero, and the value
/// keeps falling below zero on overlap; the obstacle stays in the lane
/// throughout.
pub proof fn lemma_clearance_monotonic(a: Rect, a2: Rect, b: Rect, direction: Direction, t: int)
    requires
        perp_overlap(a, b, direction),
        a2.hw == a.hw,
        a2.hh == a.hh,
        a2.cx == a.cx + t * dir_dx(direction),
        a2.cy == a.cy + t * dir_dy(direction),
    ensures
        perp_overlap(a2, b, direction),
        axis_gap(a2, b, direction) == axis_gap(a, b, direction) - t,
{
}

} // verus!
