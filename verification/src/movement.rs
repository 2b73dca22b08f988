//! The movement resolver.
//!
//! Each simulation tick an actor asks, for its current facing and speed,
//! how far it may advance before striking any obstacle. Obstacles whose
//! kind does not block the actor are exempt from the scan; obstacles out
//! of the actor's lane report no clearance; a non-positive clearance from
//! any obstacle blocks the move outright; otherwise the actor advances by
//! its speed capped at the smallest clearance. A request to face another
//! direction turns the actor instead of translating it, snapping its
//! off-axis coordinate to the lane grid unless the turn is a reversal.

use vstd::prelude::*;
use crate::collision::{axis_gap, collide, perp_overlap, Collider};
use crate::geom::{dir_dx, dir_dy, Rect, COORD_LIMIT};
use crate::tank::{cal_position, snap_spec};
use crate::utils::{direction_sprite_offset, Direction};

verus! {

/// One entry of the per-tick obstacle snapshot: its kind and its box.
#[derive(Debug, PartialEq, Eq, Structural, Copy, Clone)]
pub struct Obstacle {
    pub kind: Collider,
    pub rect: Rect,
}

/// The set of obstacle kinds that block a given mover. Ground cover that
/// the mover may drive or fly over is excluded from the clearance scan
/// entirely rather than given a contrived clearance.
#[derive(Debug, PartialEq, Eq, Structural, Copy, Clone)]
pub struct KindSet {
    pub boundary: bool,
    pub brick: bool,
    pub iron: bool,
    pub river: bool,
    pub grass: bool,
    pub snow: bool,
    pub base: bool,
    pub tank: bool,
    pub bullet: bool,
    pub power_up: bool,
}

impl KindSet {
    pub open spec fn contains(self, kind: Collider) -> bool {
        match kind {
            Collider::Boundary => self.boundary,
            Collider::Brick => self.brick,
            Collider::Iron => self.iron,
            Collider::River => self.river,
            Collider::Grass => self.grass,
            Collider::Snow => self.snow,
            Collider::Base => self.base,
            Collider::Tank => self.tank,
            Collider::Bullet => self.bullet,
            Collider::PowerUp => self.power_up,
        }
    }

    pub fn allows(&self, kind: Collider) -> (r: bool)
        ensures
            r == self.contains(kind),
    {
        match kind {
            Collider::Boundary => self.boundary,
            Collider::Brick => self.brick,
            Collider::Iron => self.iron,
            Collider::River => self.river,
            Collider::Grass => self.grass,
            Collider::Snow => self.snow,
            Collider::Base => self.base,
            Collider::Tank => self.tank,
            Collider::Bullet => self.bullet,
            Collider::PowerUp => self.power_up,
        }
    }

    /// What blocks a tank: terrain and actors, but not ground cover
    /// (grass, snow), not bullets (handled by the projectile pass) and
    /// not power-ups (picked up, not collided with).
    pub fn tank_blockers() -> (r: KindSet)
        ensures
            r == (KindSet {
                boundary: true,
                brick: true,
                iron: true,
                river: true,
                grass: false,
                snow: false,
                base: true,
                tank: true,
                bullet: false,
                power_up: false,
            }),
    {
        KindSet {
            boundary: true,
            brick: true,
            iron: true,
            river: true,
            grass: false,
            snow: false,
            base: true,
            tank: true,
            bullet: false,
            power_up: false,
        }
    }

    /// What a bullet can strike: everything solid, and other bullets;
    /// it flies over rivers, snow, grass and power-ups.
    pub fn bullet_blockers() -> (r: KindSet)
        ensures
            r == (KindSet {
                boundary: true,
                brick: true,
                iron: true,
                river: false,
                grass: false,
                snow: false,
                base: true,
                tank: true,
                bullet: true,
                power_up: false,
            }),
    {
        KindSet {
            boundary: true,
            brick: true,
            iron: true,
            river: false,
            grass: false,
            snow: false,
            base: true,
            tank: true,
            bullet: true,
            power_up: false,
        }
    }
}

/// The smaller of two optional clearances; an absent value does not
/// constrain.
pub open spec fn merge_min(a: Option<int>, b: Option<int>) -> Option<int> {
    match (a, b) {
        (Option::None, x) => x,
        (x, Option::None) => x,
        (Option::Some(p), Option::Some(q)) => Option::Some(vstd::math::min(p, q)),
    }
}

/// The clearance one obstacle contributes to a scan: nothing when its
/// kind does not block or it is out of the mover's lane, otherwise the
/// signed gap along the direction axis.
pub open spec fn obstacle_clearance(a: Rect, o: Obstacle, direction: Direction, blocking: KindSet) -> Option<int> {
    if blocking.contains(o.kind) && perp_overlap(a, o.rect, direction) {
        Option::Some(axis_gap(a, o.rect, direction))
    } else {
        Option::None
    }
}

/// The least clearance the mover `a` has against the obstacles, scanned
/// in order; `None` when no obstacle constrains the move at all.
pub open spec fn scan_clearance(a: Rect, obs: Seq<Obstacle>, direction: Direction, blocking: KindSet) -> Option<int>
    decreases obs.len(),
{
    if obs.len() == 0 {
        Option::<int>::None
    } else {
        merge_min(
            scan_clearance(a, obs.drop_last(), direction, blocking),
            obstacle_clearance(a, obs.last(), direction, blocking),
        )
    }
}

/// What the scan's result means obstacle by obstacle: it is absent
/// exactly when no blocking obstacle is in the lane, and when present it
/// is the least clearance some blocking obstacle reports.
pub proof fn lemma_scan_clearance_characterizes(a: Rect, obs: Seq<Obstacle>, direction: Direction, blocking: KindSet)
    ensures
        (scan_clearance(a, obs, direction, blocking) is None) == (forall|i: int|
            0 <= i < obs.len() ==> #[trigger] obstacle_clearance(a, obs[i], direction, blocking) is None),
        scan_clearance(a, obs, direction, blocking) matches Some(m) ==> {
            &&& exists|i: int|
                0 <= i < obs.len() && #[trigger] obstacle_clearance(a, obs[i], direction, blocking) == Option::Some(m)
            &&& forall|i: int|
                0 <= i < obs.len() ==> (#[trigger] obstacle_clearance(a, obs[i], direction, blocking) matches Some(c)
                    ==> c >= m)
        },
    decreases obs.len(),
{
    if obs.len() > 0 {
        lemma_scan_clearance_characterizes(a, obs.drop_last(), direction, blocking);
        assert(obs.drop_last().len() == obs.len() - 1);
        assert(forall|i: int| 0 <= i < obs.len() - 1 ==> obs.drop_last()[i] == obs[i]);
        assert(obs.last() == obs[obs.len() - 1]);
    }
}

/// Scan the obstacle snapshot and report the least clearance of the
/// mover `a` along `direction`, skipping kinds that do not block.
pub fn min_clearance(a: &Rect, obstacles: &Vec<Obstacle>, direction: Direction, blocking: &KindSet) -> (r: Option<i64>)
    requires
        a.wf(),
        forall|i: int| 0 <= i < obstacles@.len() ==> (#[trigger] obstacles@[i]).rect.wf(),
    ensures
        (r is Some) == (scan_clearance(*a, obstacles@, direction, *blocking) is Some),
        r matches Some(v) ==> scan_clearance(*a, obstacles@, direction, *blocking) == Option::Some(v as int),
{
    let mut best: Option<i64> = None;
    let mut i: usize = 0;
    while i < obstacles.len()
        invariant
            0 <= i <= obstacles@.len(),
            a.wf(),
            forall|j: int| 0 <= j < obstacles@.len() ==> (#[trigger] obstacles@[j]).rect.wf(),
            (best is Some) == (scan_clearance(*a, obstacles@.take(i as int), direction, *blocking) is Some),
            best matches Some(v) ==> scan_clearance(*a, obstacles@.take(i as int), direction, *blocking)
                == Option::Some(v as int),
        decreases obstacles@.len() - i,
    {
        let o = &obstacles[i];
        proof {
            assert(obstacles@.take(i + 1).drop_last() =~= obstacles@.take(i as int));
            assert(obstacles@.take(i + 1).last() == obstacles@[i as int]);
        }
        if blocking.allows(o.kind) {
            match collide(a, &o.rect, direction) {
                Some(c) => {
                    best = match best {
                        Some(b) => if c < b {
                            Some(c)
                        } else {
                            Some(b)
                        },
                        None => Some(c),
                    };
                }
                None => {}
            }
        }
        i += 1;
    }
    proof {
        assert(obstacles@.take(obstacles@.len() as int) =~= obstacles@);
    }
    best
}

/// Largest tick duration and timer period the movement timer accepts,
/// so that its accumulator arithmetic can never overflow.
pub const TICK_LIMIT: u64 = 1_000_000_000;

/// An accumulate-and-compare movement-rate timer: it fires once the
/// accumulated elapsed time reaches its period, keeping the excess, so
/// that effective speed is time-normalized rather than per-invocation.
#[derive(Debug, PartialEq, Eq, Structural, Copy, Clone)]
pub struct MovementTimer {
    pub acc: u64,
    pub period: u64,
}

impl MovementTimer {
    pub open spec fn wf(self) -> bool {
        &&& 0 < self.period <= TICK_LIMIT
        &&& self.acc < self.period
    }

    pub fn new(period: u64) -> (r: MovementTimer)
        requires
            0 < period <= TICK_LIMIT,
        ensures
            r == (MovementTimer { acc: 0, period }),
            r.wf(),
    {
        MovementTimer { acc: 0, period }
    }

    /// Advance the timer by `dt` elapsed time units; report whether it
    /// fired, and keep the remainder past whole periods.
    pub fn tick(&mut self, dt: u64) -> (fired: bool)
        requires
            old(self).wf(),
            dt <= TICK_LIMIT,
        ensures
            final(self).wf(),
            final(self).period == old(self).period,
            fired == (old(self).acc + dt >= old(self).period),
            final(self).acc == (old(self).acc + dt) % (old(self).period as int),
    {
        let sum = self.acc + dt;
        if sum >= self.period {
            self.acc = sum % self.period;
            true
        } else {
            proof {
                vstd::arithmetic::div_mod::lemma_small_mod(sum as nat, self.period as nat);
            }
            self.acc = sum;
            false
        }
    }
}

/// Largest sprite-atlas base index an actor may carry; keeps sprite
/// index arithmetic comfortably inside `usize`.
pub const SPRITE_LIMIT: usize = 100_000;

/// A steerable mover: its box, its facing, its sprite indices and its
/// movement-rate timer.
#[derive(Debug, PartialEq, Eq, Structural, Copy, Clone)]
pub struct Actor {
    pub rect: Rect,
    pub direction: Direction,
    pub base_sprite: usize,
    pub sprite: usize,
    pub timer: MovementTimer,
}

impl Actor {
    pub open spec fn wf(self) -> bool {
        &&& self.rect.wf()
        &&& self.base_sprite <= SPRITE_LIMIT
        &&& self.timer.wf()
    }
}

/// What one resolver invocation did to the actor.
#[derive(Debug, PartialEq, Eq, Structural, Copy, Clone)]
pub enum MovementOutcome {
    /// The request was a turn: facing (and sprite) changed, no translation.
    Turned,
    /// The movement-rate timer has not fired yet: nothing moved.
    Idle,
    /// An obstacle is already in contact or overlapping: zero displacement.
    Blocked,
    /// The actor advanced by the given distance along its facing.
    Moved(i64),
}

/// Is the scanned clearance one that blocks the move outright?
pub open spec fn scan_blocks(mc: Option<int>) -> bool {
    mc matches Some(m) && m <= 0
}

/// How far a mover with the given speed travels against the scanned
/// clearance: unconstrained movers travel at full speed, blocked movers
/// not at all, and otherwise speed is capped by the least clearance.
pub open spec fn step_dist(mc: Option<int>, speed: int) -> int {
    match mc {
        Option::None => speed,
        Option::Some(m) => if m <= 0 {
            0
        } else {
            vstd::math::min(m, speed)
        },
    }
}

/// Resolve one tick of movement for `actor`.
///
/// A request to face a direction other than the current one is a turn:
/// the facing and sprite change, the off-axis coordinate snaps to the
/// lane grid of width `cell` unless the turn is a reversal, and no
/// translation happens this tick. A request to keep facing is a
/// translation: once the movement-rate timer fires, the obstacle snapshot
/// is scanned and the actor advances by its speed capped at the least
/// clearance — never more than `speed`, never past an obstacle, exactly
/// `speed` when nothing constrains it — or not at all when some blocking
/// obstacle is already in contact.
pub fn resolve_move(
    actor: &mut Actor,
    obstacles: &Vec<Obstacle>,
    requested: Direction,
    speed: i64,
    cell: i64,
    dt: u64,
    blocking: &KindSet,
) -> (r: MovementOutcome)
    requires
        old(actor).wf(),
        0 <= speed,
        0 < cell,
        speed + cell <= COORD_LIMIT,
        -COORD_LIMIT + speed + cell <= old(actor).rect.cx,
        old(actor).rect.cx + speed + cell <= COORD_LIMIT,
        -COORD_LIMIT + speed + cell <= old(actor).rect.cy,
        old(actor).rect.cy + speed + cell <= COORD_LIMIT,
        dt <= TICK_LIMIT,
        forall|i: int| 0 <= i < obstacles@.len() ==> (#[trigger] obstacles@[i]).rect.wf(),
    ensures
        final(actor).wf(),
        final(actor).rect.hw == old(actor).rect.hw,
        final(actor).rect.hh == old(actor).rect.hh,
        final(actor).base_sprite == old(actor).base_sprite,
        requested != old(actor).direction ==> {
            &&& r == MovementOutcome::Turned
            &&& final(actor).direction == requested
            &&& final(actor).sprite == old(actor).base_sprite + direction_sprite_offset(requested)
            &&& final(actor).timer == old(actor).timer
            &&& requested == old(actor).direction.opposite_of() ==> final(actor).rect == old(actor).rect
            &&& requested != old(actor).direction.opposite_of() ==> (match requested {
                Direction::Up | Direction::Down => {
                    &&& final(actor).rect.cx == snap_spec(old(actor).rect.cx as int, cell as int)
                    &&& final(actor).rect.cy == old(actor).rect.cy
                },
                Direction::Left | Direction::Right => {
                    &&& final(actor).rect.cy == snap_spec(old(actor).rect.cy as int, cell as int)
                    &&& final(actor).rect.cx == old(actor).rect.cx
                },
            })
        },
        requested == old(actor).direction ==> {
            &&& final(actor).direction == old(actor).direction
            &&& final(actor).sprite == old(actor).sprite
            &&& final(actor).timer.period == old(actor).timer.period
            &&& final(actor).timer.acc == (old(actor).timer.acc + dt) % (old(actor).timer.period as int)
            &&& (old(actor).timer.acc + dt < old(actor).timer.period ==> r == MovementOutcome::Idle
                && final(actor).rect == old(actor).rect)
            &&& (old(actor).timer.acc + dt >= old(actor).timer.period ==> {
                let mc = scan_clearance(old(actor).rect, obstacles@, old(actor).direction, *blocking);
                &&& (scan_blocks(mc) ==> r == MovementOutcome::Blocked && final(actor).rect == old(actor).rect)
                &&& (!scan_blocks(mc) ==> {
                    let d = step_dist(mc, speed as int);
                    &&& r == MovementOutcome::Moved(d as i64)
                    &&& 0 <= d <= speed
                    &&& final(actor).rect.cx == old(actor).rect.cx + d * dir_dx(requested)
                    &&& final(actor).rect.cy == old(actor).rect.cy + d * dir_dy(requested)
                    &&& (mc is None ==> d == speed)
                })
            })
        },
{
    if requested != actor.direction {
        let offset: usize = match requested {
            Direction::Up => 0,
            Direction::Left => 2,
            Direction::Down => 4,
            Direction::Right => 6,
        };
        actor.sprite = actor.base_sprite + offset;
        if !actor.direction.is_opposite(requested) {
            proof {
                crate::tank::lemma_snap_near(actor.rect.cx as int, cell as int);
                crate::tank::lemma_snap_near(actor.rect.cy as int, cell as int);
            }
            match requested {
                Direction::Up | Direction::Down => {
                    actor.rect.cx = cal_position(actor.rect.cx, actor.rect.cy, requested, cell);
                }
                Direction::Left | Direction::Right => {
                    actor.rect.cy = cal_position(actor.rect.cx, actor.rect.cy, requested, cell);
                }
            }
        }
        actor.direction = requested;
        return MovementOutcome::Turned;
    }
    let fired = actor.timer.tick(dt);
    if !fired {
        return MovementOutcome::Idle;
    }
    let mc = min_clearance(&actor.rect, obstacles, actor.direction, blocking);
    let d: i64 = match mc {
        Some(m) => {
            if m <= 0 {
                return MovementOutcome::Blocked;
            }
            if m < speed {
                m
            } else {
                speed
            }
        }
        None => speed,
    };
    match actor.direction {
        Direction::Up => {
            actor.rect.cy = actor.rect.cy + d;
        }
        Direction::Down => {
            actor.rect.cy = actor.rect.cy - d;
        }
        Direction::Right => {
            actor.rect.cx = actor.rect.cx + d;
        }
        Direction::Left => {
            actor.rect.cx = actor.rect.cx - d;
        }
    }
    MovementOutcome::Moved(d)
}

} // verus!
