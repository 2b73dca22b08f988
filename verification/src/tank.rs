//! Tank state and lane alignment.
//!
//! When a tank turns onto a perpendicular axis, its off-axis coordinate is
//! snapped to the nearest multiple of the minimum terrain-cell width so
//! that tanks stay grid-aligned while steering through gaps.

use vstd::prelude::*;
use crate::geom::COORD_LIMIT;
use crate::power_up::PowerType;
use crate::utils::{direction_sprite_offset, Direction, Owner};

verus! {

/// Highest power level a tank can reach.
pub const MAX_LEVEL: u8 = 4;

/// Gameplay state of one tank.
#[derive(Debug, PartialEq, Eq, Structural, Copy, Clone)]
pub struct Data {
    pub direction: Direction,
    pub owner: Owner,
    /// Power level: 0 through [`MAX_LEVEL`].
    pub level: u8,
    /// Whether a helmet shield currently protects the tank.
    pub shield: bool,
    /// Whether the tank may cross rivers.
    pub amphibious: bool,
    /// Sprite-atlas index of the tank's upward-facing frame.
    pub base_sprite: usize,
    /// Extra lives collected.
    pub life: u8,
}

impl Data {
    pub fn new(direction: Direction, owner: Owner, level: u8) -> (r: Data)
        ensures
            r == (Data { direction, owner, level, ..Data::default_spec() }),
    {
        Data {
            direction,
            owner,
            level,
            shield: false,
            amphibious: false,
            base_sprite: 0,
            life: 0,
        }
    }

    /// The state a freshly spawned player tank starts in.
    pub open spec fn default_spec() -> Data {
        Data {
            direction: Direction::Up,
            owner: Owner::P1,
            level: 0,
            shield: false,
            amphibious: false,
            base_sprite: 0,
            life: 0,
        }
    }
}

impl Default for Data {
    fn default() -> (r: Data)
        ensures
            r == Data::default_spec(),
    {
        Data {
            direction: Direction::Up,
            owner: Owner::P1,
            level: 0,
            shield: false,
            amphibious: false,
            base_sprite: 0,
            life: 0,
        }
    }
}

/// What collecting a power-up asks the surrounding world to do beyond
/// mutating the collecting tank itself.
#[derive(Debug, PartialEq, Eq, Structural, Copy, Clone)]
pub enum PowerUpEffect {
    /// Nothing beyond the tank mutation.
    NoEffect,
    /// Attach a shield entity to the collecting tank.
    SpawnShield,
    /// Swap the base's wall, on the collector's behalf.
    ChangeBaseWall,
    /// Destroy all of the collector's enemies.
    DestroyAllEnemies,
}

/// The tank state, current sprite index, and requested world effect that
/// collecting power-up `p` produces.
pub open spec fn power_up_spec(t: Data, s: usize, p: PowerType) -> (Data, usize, PowerUpEffect) {
    match p {
        PowerType::Helmet => (Data { shield: true, ..t }, s, PowerUpEffect::SpawnShield),
        PowerType::Star => if t.level == 3 {
            (Data { level: 4u8, ..t }, s, PowerUpEffect::NoEffect)
        } else if t.level <= 2 {
            (
                Data { level: (t.level + 1) as u8, base_sprite: (t.base_sprite + 16) as usize, ..t },
                (s + 16) as usize,
                PowerUpEffect::NoEffect,
            )
        } else {
            (t, s, PowerUpEffect::NoEffect)
        },
        PowerType::Gun => (
            Data {
                base_sprite: 48usize,
                level: vstd::math::min(MAX_LEVEL as int, t.level + 3) as u8,
                ..t
            },
            (48 + direction_sprite_offset(t.direction)) as usize,
            PowerUpEffect::NoEffect,
        ),
        PowerType::Tank => if t.life < 99 {
            (Data { life: (t.life + 1) as u8, ..t }, s, PowerUpEffect::NoEffect)
        } else {
            (t, s, PowerUpEffect::NoEffect)
        },
        PowerType::Clock => (t, s, PowerUpEffect::NoEffect),
        PowerType::Shovel => (t, s, PowerUpEffect::ChangeBaseWall),
        PowerType::Grenade => (t, s, PowerUpEffect::DestroyAllEnemies),
    }
}

/// Apply a collected power-up to the collecting tank.
///
/// A helmet raises the shield; a star raises the power level one step
/// (adjusting the sprite family below full power); a gun jumps straight
/// to the heavy sprite family and near-full power; a tank grants an extra
/// life up to 99; a clock changes nothing here (freezing enemies is the
/// world's business); shovel and grenade only request their world
/// effects.
pub fn apply_power_up(tank: &mut Data, sprite: &mut usize, p: PowerType) -> (e: PowerUpEffect)
    requires
        old(tank).base_sprite <= usize::MAX - 16,
        *old(sprite) <= usize::MAX - 16,
    ensures
        *final(tank) == power_up_spec(*old(tank), *old(sprite), p).0,
        *final(sprite) == power_up_spec(*old(tank), *old(sprite), p).1,
        e == power_up_spec(*old(tank), *old(sprite), p).2,
{
    match p {
        PowerType::Helmet => {
            tank.shield = true;
            PowerUpEffect::SpawnShield
        }
        PowerType::Star => {
            if tank.level == 3 {
                tank.level = 4;
            } else if tank.level <= 2 {
                tank.level = tank.level + 1;
                tank.base_sprite = tank.base_sprite + 16;
                *sprite = *sprite + 16;
            }
            PowerUpEffect::NoEffect
        }
        PowerType::Gun => {
            tank.base_sprite = 48;
            tank.level = if tank.level == 0 {
                3
            } else {
                MAX_LEVEL
            };
            *sprite = match tank.direction {
                Direction::Up => 48,
                Direction::Left => 50,
                Direction::Down => 52,
                Direction::Right => 54,
            };
            PowerUpEffect::NoEffect
        }
        PowerType::Tank => {
            if tank.life < 99 {
                tank.life = tank.life + 1;
            }
            PowerUpEffect::NoEffect
        }
        PowerType::Clock => PowerUpEffect::NoEffect,
        PowerType::Shovel => PowerUpEffect::ChangeBaseWall,
        PowerType::Grenade => PowerUpEffect::DestroyAllEnemies,
    }
}

/// The nearest multiple of `cell` to `x`, rounding magnitudes whose
/// remainder exceeds half a cell away from zero and all others toward
/// zero (so an exact half-cell remainder rounds toward zero).
pub open spec fn snap_spec(x: int, cell: int) -> int
    recommends
        cell > 0,
{
    let d = if x >= 0 { x } else { -x };
    let q = d / cell;
    let n = if d % cell > cell / 2 { q + 1 } else { q };
    if x >= 0 {
        n * cell
    } else {
        -(n * cell)
    }
}

/// The snapped value differs from the coordinate by the remainder of the
/// division by `cell`, in whichever way the rounding went. Relates the
/// multiple `n * cell` chosen by `snap_spec` to the magnitude `d`.
proof fn lemma_snap_rounding(d: int, cell: int)
    requires
        cell > 0,
        d >= 0,
    ensures
        d % cell <= cell / 2 ==> (d / cell) * cell == d - d % cell,
        d % cell > cell / 2 ==> (d / cell + 1) * cell == d + (cell - d % cell),
        (d / cell) * cell >= 0,
        (d / cell + 1) * cell <= d + cell,
{
    let q = d / cell;
    let r = d % cell;
    vstd::arithmetic::div_mod::lemma_fundamental_div_mod(d, cell);
    vstd::arithmetic::div_mod::lemma_mod_bound(d, cell);
    vstd::arithmetic::div_mod::lemma_div_pos_is_pos(d, cell);
    assert(q * cell == d - r && (q + 1) * cell == d - r + cell && q * cell >= 0)
        by (nonlinear_arith)
        requires
            d == cell * q + r,
            q >= 0,
            cell > 0,
    ;
}

/// Snap one coordinate to the lane grid of width `cell`.
pub fn snap_to_lane(x: i64, cell: i64) -> (r: i64)
    requires
        0 < cell <= COORD_LIMIT,
        -COORD_LIMIT <= x <= COORD_LIMIT,
    ensures
        r == snap_spec(x as int, cell as int),
{
    let d: i64 = if x >= 0 { x } else { -x };
    let q: i64 = d / cell;
    let rem: i64 = d % cell;
    let n: i64 = if rem > cell / 2 { q + 1 } else { q };
    proof {
        lemma_snap_rounding(d as int, cell as int);
    }
    let m: i64 = n * cell;
    if x >= 0 { m } else { -m }
}

/// The snapped value is never farther than half a cell from the original
/// coordinate, and it is a multiple of the cell width.
pub proof fn lemma_snap_near(x: int, cell: int)
    requires
        cell > 0,
    ensures
        -(cell / 2) <= snap_spec(x, cell) - x <= cell / 2,
        snap_spec(x, cell) % cell == 0,
{
    let d = if x >= 0 { x } else { -x };
    let q = d / cell;
    let n = if d % cell > cell / 2 { q + 1 } else { q };
    lemma_snap_rounding(d, cell);
    vstd::arithmetic::div_mod::lemma_mod_bound(d, cell);
    vstd::arithmetic::div_mod::lemma_fundamental_div_mod(cell, 2);
    vstd::arithmetic::div_mod::lemma_mod_bound(cell, 2);
    vstd::arithmetic::div_mod::lemma_mod_multiples_basic(n, cell);
    vstd::arithmetic::div_mod::lemma_mod_multiples_basic(-n, cell);
    assert(-(n * cell) == (-n) * cell) by (nonlinear_arith);
}

/// Turn-snap idempotence: a coordinate that has already been snapped to
/// the lane grid is left exactly where it is by any further snap, so only
/// the first turn onto an axis can move a tank sideways.
pub proof fn lemma_snap_idempotent(x: int, cell: int)
    requires
        cell > 0,
    ensures
        snap_spec(snap_spec(x, cell), cell) == snap_spec(x, cell),
{
    let d = if x >= 0 { x } else { -x };
    let q = d / cell;
    let n = if d % cell > cell / 2 { q + 1 } else { q };
    lemma_snap_rounding(d, cell);
    assert(n >= 0);
    let s = snap_spec(x, cell);
    let sd = if s >= 0 { s } else { -s };
    assert(sd == n * cell);
    vstd::arithmetic::div_mod::lemma_div_multiples_vanish(n, cell);
    vstd::arithmetic::div_mod::lemma_mod_multiples_basic(n, cell);
    assert(n * cell == cell * n) by (nonlinear_arith);
    assert(sd / cell == n && sd % cell == 0);
}

/// When a tank turns onto a perpendicular axis, the coordinate it keeps
/// steering on is snapped to the lane grid: the x coordinate when the new
/// facing is vertical, the y coordinate when it is horizontal.
pub fn cal_position(x: i64, y: i64, new_direction: Direction, cell: i64) -> (r: i64)
    requires
        0 < cell <= COORD_LIMIT,
        -COORD_LIMIT <= x <= COORD_LIMIT,
        -COORD_LIMIT <= y <= COORD_LIMIT,
    ensures
        r == (match new_direction {
            Direction::Up | Direction::Down => snap_spec(x as int, cell as int),
            Direction::Left | Direction::Right => snap_spec(y as int, cell as int),
        }),
{
    match new_direction {
        Direction::Up | Direction::Down => snap_to_lane(x, cell),
        Direction::Left | Direction::Right => snap_to_lane(y, cell),
    }
}

} // verus!
