//! Projectiles: where they spawn, how they fly, and what a hit does.
//!
//! The projectile broad phase (owned by the surrounding world) detects
//! bullet-versus-obstacle overlaps each tick; the decisions here turn one
//! such overlap into an outcome — which entities despawn, whether a brick
//! fragment subdivides — and the per-tick deduplication makes sure a
//! bullet that grazes two adjacent fragments in one tick is despawned at
//! most once.

use vstd::prelude::*;
use crate::brick::{on_impact, on_impact_spec, BrickType, FragmentOutcome};
use crate::collision::Side;
use crate::geom::{dir_dx, dir_dy, COORD_LIMIT, Rect};
use crate::movement::{MovementTimer, TICK_LIMIT};
use crate::state;
use crate::utils::{Direction, Owner};

verus! {

/// Per-bullet state: its travel direction, its per-tick speed, who fired
/// it, and the firing tank's power level at that moment.
#[derive(Debug, PartialEq, Eq, Structural, Copy, Clone)]
pub struct State {
    pub direction: Direction,
    pub speed: i64,
    pub source: Owner,
    pub level: u8,
}

/// Where a bullet fired by a tank centered at `(x, y)` facing `direction`
/// first appears: `dist` units ahead of the tank's center.
pub fn cal_position(x: i64, y: i64, direction: Direction, dist: i64) -> (r: (i64, i64))
    requires
        -COORD_LIMIT <= x <= COORD_LIMIT,
        -COORD_LIMIT <= y <= COORD_LIMIT,
        0 <= dist <= COORD_LIMIT,
    ensures
        r.0 == x + dist * dir_dx(direction),
        r.1 == y + dist * dir_dy(direction),
{
    match direction {
        Direction::Up => (x, y + dist),
        Direction::Right => (x + dist, y),
        Direction::Down => (x, y - dist),
        Direction::Left => (x - dist, y),
    }
}

/// Sprite-atlas index of a bullet facing `direction`, within the bullet
/// run of the atlas.
pub fn sprite_for(direction: Direction) -> (r: usize)
    ensures
        r == 276 + (match direction {
            Direction::Up => 0int,
            Direction::Left => 1int,
            Direction::Down => 2int,
            Direction::Right => 3int,
        }),
{
    let i: usize = match direction {
        Direction::Up => 0,
        Direction::Left => 1,
        Direction::Down => 2,
        Direction::Right => 3,
    };
    crate::texture::SpriteIndex::bullet(i)
}

/// One tick of bullet flight: when the movement-rate timer fires, the
/// bullet advances by its speed along its direction; otherwise it stays
/// put. Bullets do not scan for clearance — what they hit, the broad
/// phase reports after the fact.
pub fn flight_step(rect: &mut Rect, timer: &mut MovementTimer, direction: Direction, speed: i64, dt: u64) -> (moved: bool)
    requires
        old(rect).wf(),
        old(timer).wf(),
        0 <= speed <= COORD_LIMIT,
        -COORD_LIMIT + speed <= old(rect).cx,
        old(rect).cx + speed <= COORD_LIMIT,
        -COORD_LIMIT + speed <= old(rect).cy,
        old(rect).cy + speed <= COORD_LIMIT,
        dt <= TICK_LIMIT,
    ensures
        final(rect).wf(),
        final(rect).hw == old(rect).hw,
        final(rect).hh == old(rect).hh,
        final(timer).period == old(timer).period,
        final(timer).acc == (old(timer).acc + dt) % (old(timer).period as int),
        moved == (old(timer).acc + dt >= old(timer).period),
        moved ==> {
            &&& final(rect).cx == old(rect).cx + speed * dir_dx(direction)
            &&& final(rect).cy == old(rect).cy + speed * dir_dy(direction)
        },
        !moved ==> *final(rect) == *old(rect),
{
    let fired = timer.tick(dt);
    if fired {
        match direction {
            Direction::Up => {
                rect.cy = rect.cy + speed;
            }
            Direction::Right => {
                rect.cx = rect.cx + speed;
            }
            Direction::Down => {
                rect.cy = rect.cy - speed;
            }
            Direction::Left => {
                rect.cx = rect.cx - speed;
            }
        }
    }
    fired
}

/// What one bullet-versus-obstacle overlap amounts to.
#[derive(Debug, PartialEq, Eq, Structural, Copy, Clone)]
pub enum HitOutcome {
    /// No interaction: the bullet flies on and the obstacle stands.
    Ignored,
    /// The bullet despawns; the struck fragment changes as the
    /// fragmentation outcome says (an `Unaffected` outcome leaves it
    /// standing).
    BrickImpact(FragmentOutcome),
    /// The bullet despawns; the iron block is destroyed only by a bullet
    /// of power level three or more.
    IronImpact { destroyed: bool },
    /// The bullet despawns against the field boundary.
    BoundaryImpact,
    /// The bullet despawns and the base (the eagle) is destroyed.
    BaseImpact,
    /// Two opposing bullets met: both despawn.
    BulletClash,
    /// The bullet despawns against a tank, destroying it only when the
    /// bullet's owner and the tank are true enemies of different teams.
    TankImpact { destroyed: bool },
}

/// The outcome a bullet fired by `source` at power `level` produces when
/// the broad phase reports it overlapping the obstacle `target`, struck
/// on `side`.
pub open spec fn bullet_hit_spec(source: Owner, level: u8, target: state::State, side: Side) -> HitOutcome {
    match target {
        state::State::River | state::State::Snow | state::State::Grass | state::State::PowerUp(_) => HitOutcome::Ignored,
        state::State::Brick(s) => HitOutcome::BrickImpact(on_impact_spec(s.b_type, side)),
        state::State::Iron => HitOutcome::IronImpact { destroyed: level > 2 },
        state::State::Boundary => HitOutcome::BoundaryImpact,
        state::State::Base => HitOutcome::BaseImpact,
        state::State::Bullet(b) => if b.source == source {
            HitOutcome::Ignored
        } else {
            HitOutcome::BulletClash
        },
        state::State::Tank(t) => if t.owner == source {
            HitOutcome::Ignored
        } else {
            match (source, t.owner) {
                (Owner::P1, Owner::AI) | (Owner::P2, Owner::AI) => HitOutcome::TankImpact { destroyed: true },
                (Owner::AI, Owner::AI) => HitOutcome::Ignored,
                _ => HitOutcome::TankImpact { destroyed: false },
            }
        },
    }
}

/// Decide what a reported bullet hit does to the world.
///
/// Rivers, snow, grass and power-ups never interact with bullets; bricks
/// subdivide by the fragmentation engine; iron falls only to high-power
/// bullets; friendly fire (same owner, or one computer tank shooting
/// another) is ignored; a player's bullet destroys a computer tank, while
/// hits between the two players and computer hits on players stop the
/// bullet without destroying the tank.
pub fn bullet_hit(source: Owner, level: u8, target: &state::State, side: Side) -> (r: HitOutcome)
    requires
        *target matches state::State::Brick(s) ==> s.b_type != BrickType::Brick,
    ensures
        r == bullet_hit_spec(source, level, *target, side),
{
    match target {
        state::State::River | state::State::Snow | state::State::Grass | state::State::PowerUp(_) => HitOutcome::Ignored,
        state::State::Brick(s) => HitOutcome::BrickImpact(on_impact(s.b_type, side)),
        state::State::Iron => HitOutcome::IronImpact { destroyed: level > 2 },
        state::State::Boundary => HitOutcome::BoundaryImpact,
        state::State::Base => HitOutcome::BaseImpact,
        state::State::Bullet(b) => if b.source == source {
            HitOutcome::Ignored
        } else {
            HitOutcome::BulletClash
        },
        state::State::Tank(t) => {
            if t.owner == source {
                HitOutcome::Ignored
            } else {
                match (source, t.owner) {
                    (Owner::P1, Owner::AI) | (Owner::P2, Owner::AI) => HitOutcome::TankImpact { destroyed: true },
                    (Owner::AI, Owner::AI) => HitOutcome::Ignored,
                    _ => HitOutcome::TankImpact { destroyed: false },
                }
            }
        },
    }
}

/// Does the id list contain `x`?
pub fn contains_id(ids: &Vec<u64>, x: u64) -> (r: bool)
    ensures
        r == ids@.contains(x),
{
    let mut i: usize = 0;
    while i < ids.len()
        invariant
            0 <= i <= ids@.len(),
            forall|j: int| 0 <= j < i ==> ids@[j] != x,
        decreases ids@.len() - i,
    {
        if ids[i] == x {
            return true;
        }
        i += 1;
    }
    false
}

/// Deduplicate the bullets despawned in one tick.
///
/// A bullet overlapping two adjacent brick fragments at a seam registers
/// two hits in the same tick; collecting every hit first and despawning
/// each bullet at most once keeps the second hit from despawning (and
/// exploding) a bullet that is already gone. The result lists each id of
/// the input exactly once, keeping first-occurrence order.
pub fn dedup_despawns(hits: &Vec<u64>) -> (r: Vec<u64>)
    ensures
        r@.no_duplicates(),
        forall|x: u64| r@.contains(x) == hits@.contains(x),
{
    let mut out: Vec<u64> = Vec::new();
    let mut i: usize = 0;
    while i < hits.len()
        invariant
            0 <= i <= hits@.len(),
            out@.no_duplicates(),
            forall|x: u64| out@.contains(x) == hits@.take(i as int).contains(x),
        decreases hits@.len() - i,
    {
        let x = hits[i];
        proof {
            assert(hits@.take(i + 1) =~= hits@.take(i as int).push(hits@[i as int]));
            assert(forall|y: u64| #[trigger] hits@.take(i + 1).contains(y)
                == (hits@.take(i as int).contains(y) || y == hits@[i as int])) by {
                assert forall|y: u64|
                    hits@.take(i + 1).contains(y)
                        == (hits@.take(i as int).contains(y) || y == hits@[i as int]) by {
                    vstd::seq_lib::lemma_seq_contains_after_push(
                        hits@.take(i as int),
                        hits@[i as int],
                        y,
                    );
                }
            }
        }
        if !contains_id(&out, x) {
            let ghost prev = out@;
            out.push(x);
            proof {
                assert forall|y: u64| #[trigger] out@.contains(y) == (prev.contains(y) || y == x) by {
                    vstd::seq_lib::lemma_seq_contains_after_push(prev, x, y);
                }
            }
        }
        i += 1;
    }
    proof {
        assert(hits@.take(hits@.len() as int) =~= hits@);
    }
    out
}

} // verus!
