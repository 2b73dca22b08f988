//! The spawn star: the twinkle that precedes every tank.
//!
//! A star enlarges through its four frames, shrinks back, enlarges once
//! more, and on reaching its largest frame the second time asks the world
//! to replace it with the tank it announces. The world owns the entity
//! and the frame timer; the state stepping lives here.

use vstd::prelude::*;
use crate::utils::Owner;

verus! {

/// Whether the star is currently shrinking or enlarging.
#[derive(Debug, PartialEq, Eq, Structural, Copy, Clone)]
pub enum State {
    Shrink,
    Enlarge,
}

/// One spawn star: whose tank it announces, at what power level, whether
/// it has finished its first full twinkle, and which way it is going.
#[derive(Debug, PartialEq, Eq, Structural, Copy, Clone)]
pub struct Star {
    pub owner: Owner,
    pub level: u8,
    pub done: bool,
    pub state: State,
}

impl Star {
    /// A star freshly spawned at its smallest frame.
    pub fn new(owner: Owner, level: u8) -> (r: Star)
        ensures
            r == (Star { owner, level, done: false, state: State::Enlarge }),
    {
        Star { owner, level, done: false, state: State::Enlarge }
    }
}

/// What one firing of the star's frame timer asks of the world.
#[derive(Debug, PartialEq, Eq, Structural, Copy, Clone)]
pub enum TwinkleAction {
    /// Show the given atlas frame.
    SetFrame(usize),
    /// Despawn the star and spawn its announced tank in its place.
    SpawnTank,
}

/// The star and action one twinkle step produces from the current atlas
/// frame (the star frames are the run 272 through 275).
pub open spec fn twinkle_spec(frame: usize, star: Star) -> (Star, TwinkleAction) {
    if frame == 272 {
        (
            Star { state: State::Enlarge, ..star },
            TwinkleAction::SetFrame((frame + 1) as usize),
        )
    } else if frame == 275 {
        if star.done {
            (star, TwinkleAction::SpawnTank)
        } else {
            (
                Star { done: true, state: State::Shrink, ..star },
                TwinkleAction::SetFrame((frame - 1) as usize),
            )
        }
    } else {
        match star.state {
            State::Shrink => (star, TwinkleAction::SetFrame((frame - 1) as usize)),
            State::Enlarge => (star, TwinkleAction::SetFrame((frame + 1) as usize)),
        }
    }
}

/// Step the twinkle once: at the smallest frame the star turns to
/// enlarging and grows; at the largest it either shrinks (first arrival)
/// or, the twinkle complete, yields to the tank; in between it follows
/// its current phase.
pub fn twinkle_step(frame: usize, star: &mut Star) -> (action: TwinkleAction)
    requires
        272 <= frame <= 275,
    ensures
        *final(star) == twinkle_spec(frame, *old(star)).0,
        action == twinkle_spec(frame, *old(star)).1,
        action matches TwinkleAction::SetFrame(f) ==> 272 <= f <= 275,
{
    if frame == 272 {
        if matches!(star.state, State::Shrink) {
            star.state = State::Enlarge;
        }
        TwinkleAction::SetFrame(frame + 1)
    } else if frame == 275 {
        if star.done {
            TwinkleAction::SpawnTank
        } else {
            star.done = true;
            star.state = State::Shrink;
            TwinkleAction::SetFrame(frame - 1)
        }
    } else {
        match star.state {
            State::Shrink => TwinkleAction::SetFrame(frame - 1),
            State::Enlarge => TwinkleAction::SetFrame(frame + 1),
        }
    }
}

} // verus!
