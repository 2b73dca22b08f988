//! The base's protective wall and the shovel countdown.
//!
//! Collecting a shovel swaps the eight wall cells around the base from
//! brick to iron for a fixed while; near the end of that while the wall
//! blinks between the two materials, and when the countdown runs out the
//! brick wall is restored. The decisions live here; despawning and
//! spawning the wall entities is the surrounding world's work, directed
//! by the returned actions.

use vstd::prelude::*;
use crate::movement::{MovementTimer, TICK_LIMIT};
use crate::utils::Owner;

verus! {

/// The material of the base's wall cells.
#[derive(Debug, PartialEq, Eq, Structural, Copy, Clone)]
pub enum BaseWallType {
    Iron,
    Brick,
}

/// A request to swap the base's wall, raised when a tank collects a
/// shovel power-up.
#[derive(Debug, PartialEq, Eq, Structural, Copy, Clone)]
pub struct ChangeBaseWall {
    pub by: Owner,
}

/// What the world should do to the wall cells this tick.
#[derive(Debug, PartialEq, Eq, Structural, Copy, Clone)]
pub enum BaseWallAction {
    /// Leave the wall as it stands.
    Wait,
    /// Despawn the wall cells and build them anew from the given material.
    Rebuild(BaseWallType),
    /// Despawn the wall cells and leave the base bare.
    Clear,
}

/// Center positions of the eight wall cells around the base, in
/// minimum-cell units relative to the field's center: a bracket of three
/// columns and three rows shielding the eagle's corner.
pub fn base_wall_positions() -> (r: Vec<(i64, i64)>)
    ensures
        r@.len() == 8,
        r@[0] == (-5i64, -25i64),
        r@[1] == (-5i64, -23i64),
        r@[2] == (-5i64, -21i64),
        r@[3] == (-3i64, -21i64),
        r@[4] == (-1i64, -21i64),
        r@[5] == (1i64, -21i64),
        r@[6] == (1i64, -23i64),
        r@[7] == (1i64, -25i64),
{
    let mut v: Vec<(i64, i64)> = Vec::new();
    v.push((-5, -25));
    v.push((-5, -23));
    v.push((-5, -21));
    v.push((-3, -21));
    v.push((-1, -21));
    v.push((1, -21));
    v.push((1, -23));
    v.push((1, -25));
    v
}

/// The shovel countdown's state.
///
/// While `changed` holds, `elapsed` counts toward `duration`; once the
/// time left falls below `blink_window`, the repeating blink timer drives
/// the wall back and forth between iron and brick (`normal` tracks which
/// phase comes next), and at the end the brick wall is restored for good.
#[derive(Debug, PartialEq, Eq, Structural, Copy, Clone)]
pub struct BaseWallState {
    pub changed: bool,
    pub changed_by: Owner,
    pub normal: bool,
    pub elapsed: u64,
    pub duration: u64,
    pub blink_window: u64,
    pub blink: MovementTimer,
}

impl BaseWallState {
    pub open spec fn wf(self) -> bool {
        &&& 0 < self.duration <= TICK_LIMIT
        &&& self.elapsed <= self.duration
        &&& self.blink_window <= self.duration
        &&& self.blink.wf()
    }

    /// A fresh countdown at rest: the wall is the normal brick one.
    pub fn new(duration: u64, blink_window: u64, blink_period: u64) -> (r: BaseWallState)
        requires
            0 < duration <= TICK_LIMIT,
            blink_window <= duration,
            0 < blink_period <= TICK_LIMIT,
        ensures
            r.wf(),
            !r.changed,
            r.normal,
            r.elapsed == 0,
            r.duration == duration,
            r.blink_window == blink_window,
            r.blink == (MovementTimer { acc: 0, period: blink_period }),
    {
        BaseWallState {
            changed: false,
            changed_by: Owner::P1,
            normal: true,
            elapsed: 0,
            duration,
            blink_window,
            blink: MovementTimer::new(blink_period),
        }
    }

    /// Answer a shovel pickup: the countdown starts (or keeps running)
    /// and the wall is rebuilt at once — in iron for a player's shovel;
    /// a computer shovel removes the wall outright.
    pub fn handle_change(&mut self, event: ChangeBaseWall) -> (action: BaseWallAction)
        requires
            old(self).wf(),
        ensures
            final(self).wf(),
            final(self).changed,
            final(self).changed_by == event.by,
            final(self).normal == old(self).normal,
            final(self).elapsed == old(self).elapsed,
            final(self).duration == old(self).duration,
            final(self).blink_window == old(self).blink_window,
            final(self).blink == old(self).blink,
            action == (if event.by != Owner::AI {
                BaseWallAction::Rebuild(BaseWallType::Iron)
            } else {
                BaseWallAction::Clear
            }),
    {
        self.changed = true;
        self.changed_by = event.by;
        if !matches!(event.by, Owner::AI) {
            BaseWallAction::Rebuild(BaseWallType::Iron)
        } else {
            BaseWallAction::Clear
        }
    }

    /// Advance the countdown by `dt` elapsed time units.
    ///
    /// At rest nothing happens. A running countdown that reaches its
    /// duration restores the brick wall and comes to rest. Inside the
    /// final blink window, each firing of the blink timer rebuilds the
    /// wall in the material of the current phase — iron on the `normal`
    /// phase, brick on the other — and flips the phase. A countdown
    /// started by a computer shovel never blinks here; that state is a
    /// contract violation, not a runtime condition.
    pub fn count_down(&mut self, dt: u64) -> (action: BaseWallAction)
        requires
            old(self).wf(),
            dt <= TICK_LIMIT,
            old(self).changed ==> old(self).changed_by != Owner::AI,
        ensures
            final(self).wf(),
            final(self).changed_by == old(self).changed_by,
            final(self).duration == old(self).duration,
            final(self).blink_window == old(self).blink_window,
            !old(self).changed ==> *final(self) == *old(self) && action == BaseWallAction::Wait,
            old(self).changed ==> {
                let run = vstd::math::min(old(self).elapsed + dt, old(self).duration as int);
                &&& final(self).elapsed == run
                &&& (run >= old(self).duration ==> {
                    &&& action == BaseWallAction::Rebuild(BaseWallType::Brick)
                    &&& !final(self).changed
                    &&& final(self).normal
                    &&& final(self).blink == old(self).blink
                })
                &&& (run < old(self).duration ==> {
                    &&& final(self).changed
                    &&& (old(self).duration - run > old(self).blink_window ==> {
                        &&& action == BaseWallAction::Wait
                        &&& final(self).normal == old(self).normal
                        &&& final(self).blink == old(self).blink
                    })
                    &&& (old(self).duration - run <= old(self).blink_window ==> {
                        &&& final(self).blink.period == old(self).blink.period
                        &&& final(self).blink.acc == (old(self).blink.acc + dt) % (
                        old(self).blink.period as int)
                        &&& (old(self).blink.acc + dt >= old(self).blink.period ==> {
                            &&& action == BaseWallAction::Rebuild(
                                if old(self).normal {
                                    BaseWallType::Iron
                                } else {
                                    BaseWallType::Brick
                                },
                            )
                            &&& final(self).normal == !old(self).normal
                        })
                        &&& (old(self).blink.acc + dt < old(self).blink.period ==> {
                            &&& action == BaseWallAction::Wait
                            &&& final(self).normal == old(self).normal
                        })
                    })
                })
            },
    {
        if !self.changed {
            return BaseWallAction::Wait;
        }
        let sum = self.elapsed + dt;
        self.elapsed = if sum >= self.duration {
            self.duration
        } else {
            sum
        };
        if self.elapsed >= self.duration {
            self.changed = false;
            self.normal = true;
            return BaseWallAction::Rebuild(BaseWallType::Brick);
        }
        if self.duration - self.elapsed <= self.blink_window {
            let fired = self.blink.tick(dt);
            if fired {
                let material = if self.normal {
                    BaseWallType::Iron
                } else {
                    BaseWallType::Brick
                };
                self.normal = !self.normal;
                return BaseWallAction::Rebuild(material);
            }
        }
        BaseWallAction::Wait
    }
}

} // verus!
