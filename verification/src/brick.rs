//! The destructible-brick fragmentation engine.
//!
//! A masonry cell subdivides on impact: a whole brick is materialized as
//! four quarter fragments; a quarter shrinks to an elongated half-quarter;
//! a half-quarter struck on its short axis shrinks to a minimum square
//! fragment; minimum fragments are destroyed outright. All offsets and
//! extents in this module are counted in half-minimum-cell units: a
//! minimum fragment is 2 by 2 such units, a quarter 4 by 4, a whole brick
//! 8 by 8.

use vstd::prelude::*;
use crate::collision::Side;

verus! {

/// One fragment level of a destructible masonry cell.
///
/// `Brick` is the whole cell; it is never materialized as a single
/// collidable obstacle but stands for the four `QuarterBrick`s spawned in
/// its footprint. The four `HalfQuarterBrick*` variants name the half of
/// the quarter that remains; `MinBrick1` and `MinBrick2` are the two
/// sprite flavours of the smallest fragment.
#[derive(Debug, PartialEq, Eq, Structural, Copy, Clone)]
pub enum BrickType {
    Brick,
    QuarterBrick,
    HalfQuarterBrickTop,
    HalfQuarterBrickRight,
    HalfQuarterBrickBottom,
    HalfQuarterBrickLeft,
    MinBrick1,
    MinBrick2,
}

/// Per-fragment state carried by a brick obstacle.
#[derive(Debug, PartialEq, Eq, Structural, Copy, Clone)]
pub struct State {
    pub b_type: BrickType,
}

/// A displacement from a destroyed fragment's center to its replacement's
/// center, in half-minimum-cell units.
#[derive(Debug, PartialEq, Eq, Structural, Copy, Clone)]
pub struct Offset {
    pub dx: i64,
    pub dy: i64,
}

/// What becomes of a fragment that a projectile struck.
#[derive(Debug, PartialEq, Eq, Structural, Copy, Clone)]
pub enum FragmentOutcome {
    /// The fragment is destroyed and nothing replaces it.
    Destroyed,
    /// The impact is absorbed: no terrain change.
    Unaffected,
    /// The fragment is destroyed and one smaller fragment is created,
    /// displaced from the destroyed fragment's center by the offset.
    Replace(BrickType, Offset),
    /// Reserved for subdivisions that would leave two fragments; no
    /// current fragment kind produces it.
    ReplaceTwo(BrickType, Offset, BrickType, Offset),
}

/// Half-width of a fragment's footprint, in half-minimum-cell units.
pub open spec fn frag_half_w(kind: BrickType) -> int {
    match kind {
        BrickType::Brick => 4,
        BrickType::QuarterBrick => 2,
        BrickType::HalfQuarterBrickTop | BrickType::HalfQuarterBrickBottom => 2,
        BrickType::HalfQuarterBrickLeft | BrickType::HalfQuarterBrickRight => 1,
        BrickType::MinBrick1 | BrickType::MinBrick2 => 1,
    }
}

/// Half-height of a fragment's footprint, in half-minimum-cell units.
pub open spec fn frag_half_h(kind: BrickType) -> int {
    match kind {
        BrickType::Brick => 4,
        BrickType::QuarterBrick => 2,
        BrickType::HalfQuarterBrickTop | BrickType::HalfQuarterBrickBottom => 1,
        BrickType::HalfQuarterBrickLeft | BrickType::HalfQuarterBrickRight => 2,
        BrickType::MinBrick1 | BrickType::MinBrick2 => 1,
    }
}

/// Footprint half-extents of a fragment, in half-minimum-cell units.
pub fn fragment_half_size(kind: BrickType) -> (r: (i64, i64))
    ensures
        r.0 == frag_half_w(kind),
        r.1 == frag_half_h(kind),
{
    match kind {
        BrickType::Brick => (4, 4),
        BrickType::QuarterBrick => (2, 2),
        BrickType::HalfQuarterBrickTop | BrickType::HalfQuarterBrickBottom => (2, 1),
        BrickType::HalfQuarterBrickLeft | BrickType::HalfQuarterBrickRight => (1, 2),
        BrickType::MinBrick1 | BrickType::MinBrick2 => (1, 1),
    }
}

/// The fragmentation state machine: what a fragment of kind `kind` becomes
/// when a projectile strikes its `side`.
///
/// A quarter always shrinks to the half-quarter away from the struck side,
/// displaced one half-minimum cell toward the remaining half. A
/// half-quarter struck on its short axis shrinks to a minimum fragment
/// displaced toward the side opposite the impact, the sprite flavour
/// alternating by side so that neighbouring remains form a checkerboard; a
/// strike along its long axis is absorbed. Minimum fragments are destroyed
/// whatever the side. The whole `Brick` never stands as an obstacle, so
/// its entry here is arbitrary and unreachable under [`on_impact`]'s
/// contract.
pub open spec fn on_impact_spec(kind: BrickType, side: Side) -> FragmentOutcome {
    match kind {
        BrickType::Brick => FragmentOutcome::Unaffected,
        BrickType::QuarterBrick => match side {
            Side::Top => FragmentOutcome::Replace(
                BrickType::HalfQuarterBrickBottom,
                Offset { dx: 0, dy: -1i64 },
            ),
            Side::Right => FragmentOutcome::Replace(
                BrickType::HalfQuarterBrickLeft,
                Offset { dx: -1i64, dy: 0 },
            ),
            Side::Bottom => FragmentOutcome::Replace(
                BrickType::HalfQuarterBrickTop,
                Offset { dx: 0, dy: 1 },
            ),
            Side::Left => FragmentOutcome::Replace(
                BrickType::HalfQuarterBrickRight,
                Offset { dx: 1, dy: 0 },
            ),
        },
        BrickType::HalfQuarterBrickTop => match side {
            Side::Top | Side::Bottom => FragmentOutcome::Unaffected,
            Side::Left => FragmentOutcome::Replace(
                BrickType::MinBrick2,
                Offset { dx: 1, dy: 0 },
            ),
            Side::Right => FragmentOutcome::Replace(
                BrickType::MinBrick1,
                Offset { dx: -1i64, dy: 0 },
            ),
        },
        BrickType::HalfQuarterBrickBottom => match side {
            Side::Top | Side::Bottom => FragmentOutcome::Unaffected,
            Side::Left => FragmentOutcome::Replace(
                BrickType::MinBrick1,
                Offset { dx: 1, dy: 0 },
            ),
            Side::Right => FragmentOutcome::Replace(
                BrickType::MinBrick2,
                Offset { dx: -1i64, dy: 0 },
            ),
        },
        BrickType::HalfQuarterBrickRight => match side {
            Side::Left | Side::Right => FragmentOutcome::Unaffected,
            Side::Top => FragmentOutcome::Replace(
                BrickType::MinBrick1,
                Offset { dx: 0, dy: -1i64 },
            ),
            Side::Bottom => FragmentOutcome::Replace(
                BrickType::MinBrick2,
                Offset { dx: 0, dy: 1 },
            ),
        },
        BrickType::HalfQuarterBrickLeft => match side {
            Side::Left | Side::Right => FragmentOutcome::Unaffected,
            Side::Top => FragmentOutcome::Replace(
                BrickType::MinBrick2,
                Offset { dx: 0, dy: -1i64 },
            ),
            Side::Bottom => FragmentOutcome::Replace(
                BrickType::MinBrick1,
                Offset { dx: 0, dy: 1 },
            ),
        },
        BrickType::MinBrick1 | BrickType::MinBrick2 => FragmentOutcome::Destroyed,
    }
}

/// Resolve a projectile impact on one brick fragment.
///
/// The whole `Brick` is never materialized as a collidable obstacle, so
/// calling this on it is a contract violation, not a runtime condition.
pub fn on_impact(kind: BrickType, side: Side) -> (r: FragmentOutcome)
    requires
        kind != BrickType::Brick,
    ensures
        r == on_impact_spec(kind, side),
{
    match kind {
        BrickType::Brick => FragmentOutcome::Unaffected,
        BrickType::QuarterBrick => match side {
            Side::Top => FragmentOutcome::Replace(
                BrickType::HalfQuarterBrickBottom,
                Offset { dx: 0, dy: -1i64 },
            ),
            Side::Right => FragmentOutcome::Replace(
                BrickType::HalfQuarterBrickLeft,
                Offset { dx: -1i64, dy: 0 },
            ),
            Side::Bottom => FragmentOutcome::Replace(
                BrickType::HalfQuarterBrickTop,
                Offset { dx: 0, dy: 1 },
            ),
            Side::Left => FragmentOutcome::Replace(
                BrickType::HalfQuarterBrickRight,
                Offset { dx: 1, dy: 0 },
            ),
        },
        BrickType::HalfQuarterBrickTop => match side {
            Side::Top | Side::Bottom => FragmentOutcome::Unaffected,
            Side::Left => FragmentOutcome::Replace(
                BrickType::MinBrick2,
                Offset { dx: 1, dy: 0 },
            ),
            Side::Right => FragmentOutcome::Replace(
                BrickType::MinBrick1,
                Offset { dx: -1i64, dy: 0 },
            ),
        },
        BrickType::HalfQuarterBrickBottom => match side {
            Side::Top | Side::Bottom => FragmentOutcome::Unaffected,
            Side::Left => FragmentOutcome::Replace(
                BrickType::MinBrick1,
                Offset { dx: 1, dy: 0 },
            ),
            Side::Right => FragmentOutcome::Replace(
                BrickType::MinBrick2,
                Offset { dx: -1i64, dy: 0 },
            ),
        },
        BrickType::HalfQuarterBrickRight => match side {
            Side::Left | Side::Right => FragmentOutcome::Unaffected,
            Side::Top => FragmentOutcome::Replace(
                BrickType::MinBrick1,
                Offset { dx: 0, dy: -1i64 },
            ),
            Side::Bottom => FragmentOutcome::Replace(
                BrickType::MinBrick2,
                Offset { dx: 0, dy: 1 },
            ),
        },
        BrickType::HalfQuarterBrickLeft => match side {
            Side::Left | Side::Right => FragmentOutcome::Unaffected,
            Side::Top => FragmentOutcome::Replace(
                BrickType::MinBrick2,
                Offset { dx: 0, dy: -1i64 },
            ),
            Side::Bottom => FragmentOutcome::Replace(
                BrickType::MinBrick1,
                Offset { dx: 0, dy: 1 },
            ),
        },
        BrickType::MinBrick1 | BrickType::MinBrick2 => FragmentOutcome::Destroyed,
    }
}

/// Does the footprint of a fragment of kind `inner`, displaced by `off`
/// from a shared reference center, lie wholly within the footprint of a
/// centered fragment of kind `outer`?
pub open spec fn replacement_contained(outer: BrickType, inner: BrickType, off: Offset) -> bool {
    &&& -frag_half_w(outer) <= off.dx - frag_half_w(inner)
    &&& off.dx + frag_half_w(inner) <= frag_half_w(outer)
    &&& -frag_half_h(outer) <= off.dy - frag_half_h(inner)
    &&& off.dy + frag_half_h(inner) <= frag_half_h(outer)
}

/// Fragment conservation: destroying a quarter always yields exactly one
/// half-quarter replacement whose footprint lies wholly inside the
/// quarter's; destroying a half-quarter on its short axis yields exactly
/// one minimum fragment contained in it, and a strike along its long axis
/// yields no replacement at all. No impact ever yields two fragments or
/// grows the footprint.
pub proof fn lemma_fragment_conservation(kind: BrickType, side: Side)
    requires
        kind != BrickType::Brick,
        kind != BrickType::MinBrick1,
        kind != BrickType::MinBrick2,
    ensures
        kind == BrickType::QuarterBrick ==> on_impact_spec(kind, side) matches FragmentOutcome::Replace(k, off),
        on_impact_spec(kind, side) matches FragmentOutcome::Replace(k, off) ==> replacement_contained(
            kind,
            k,
            off,
        ),
        on_impact_spec(kind, side) is Replace || on_impact_spec(kind, side) is Unaffected,
{
}

/// Terminal fragments: a minimum fragment is destroyed outright, with no
/// replacement, whichever side is struck.
pub proof fn lemma_terminal_fragment(kind: BrickType, side: Side)
    requires
        kind == BrickType::MinBrick1 || kind == BrickType::MinBrick2,
    ensures
        on_impact_spec(kind, side) == FragmentOutcome::Destroyed,
{
}

/// Center offsets, in half-minimum-cell units, of the four quarter
/// fragments that together occupy a whole brick's footprint: one per
/// 2-by-2 arrangement, each a quarter of the whole.
pub fn whole_brick_quarters() -> (r: Vec<Offset>)
    ensures
        r@.len() == 4,
        r@[0] == (Offset { dx: -2i64, dy: 2 }),
        r@[1] == (Offset { dx: 2, dy: 2 }),
        r@[2] == (Offset { dx: -2i64, dy: -2i64 }),
        r@[3] == (Offset { dx: 2, dy: -2i64 }),
        forall|i: int| 0 <= i < 4 ==> replacement_contained(
            BrickType::Brick,
            BrickType::QuarterBrick,
            #[trigger] r@[i],
        ),
{
    let mut v: Vec<Offset> = Vec::new();
    v.push(Offset { dx: -2i64, dy: 2 });
    v.push(Offset { dx: 2, dy: 2 });
    v.push(Offset { dx: -2i64, dy: -2i64 });
    v.push(Offset { dx: 2, dy: -2i64 });
    v
}

/// Sprite-atlas index of a materialized fragment kind, within the brick
/// row of the atlas.
pub fn sprite_for(kind: BrickType) -> (r: usize)
    requires
        kind != BrickType::Brick,
    ensures
        r == 258 + (match kind {
            BrickType::Brick => 0int,
            BrickType::QuarterBrick => 1int,
            BrickType::HalfQuarterBrickTop => 2int,
            BrickType::HalfQuarterBrickRight => 3int,
            BrickType::HalfQuarterBrickBottom => 4int,
            BrickType::HalfQuarterBrickLeft => 5int,
            BrickType::MinBrick1 => 6int,
            BrickType::MinBrick2 => 7int,
        }),
{
    match kind {
        BrickType::Brick => 258,
        BrickType::QuarterBrick => 259,
        BrickType::HalfQuarterBrickTop => 260,
        BrickType::HalfQuarterBrickRight => 261,
        BrickType::HalfQuarterBrickBottom => 262,
        BrickType::HalfQuarterBrickLeft => 263,
        BrickType::MinBrick1 => 264,
        BrickType::MinBrick2 => 265,
    }
}

} // verus!
