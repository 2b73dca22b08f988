//! The computer driver: a random per-tick decision — one of four actions
//! plus whether to fire — mapped onto the movement resolver.

use vstd::prelude::*;
use rand::Rng;
use crate::utils::Direction;

verus! {

/// What a computer tank does this tick.
#[derive(Debug, PartialEq, Eq, Structural, Copy, Clone)]
pub enum Action {
    MoveForward,
    TurnLeft,
    TurnRight,
    TurnAround,
}

/// A computer tank's decision for one tick.
#[derive(Debug, PartialEq, Eq, Structural, Copy, Clone)]
pub struct Decision {
    pub action: Action,
    pub fire: bool,
}

/// Relies on rand's `Rng::gen_range` over `lo..hi`: the sample lies in
/// the half-open range, and the call panics only on an empty range, which
/// the precondition rules out.
#[verifier::external_body]
fn random_roll(lo: u64, hi: u64) -> (r: u64)
    requires
        lo < hi,
    ensures
        lo <= r < hi,
{
    rand::thread_rng().gen_range(lo..hi)
}

impl Decision {
    /// The action a roll in `0..4` selects.
    pub open spec fn action_of_roll(roll: u64) -> Action {
        if roll == 0 {
            Action::MoveForward
        } else if roll == 1 {
            Action::TurnLeft
        } else if roll == 2 {
            Action::TurnRight
        } else {
            Action::TurnAround
        }
    }

    /// Build the decision that two uniform rolls select: the first picks
    /// the action, the second decides firing (a zero fires).
    pub fn from_rolls(action_roll: u64, fire_roll: u64) -> (r: Decision)
        requires
            action_roll < 4,
            fire_roll < 2,
        ensures
            r.action == Decision::action_of_roll(action_roll),
            r.fire == (fire_roll == 0),
    {
        let action = match action_roll {
            0 => Action::MoveForward,
            1 => Action::TurnLeft,
            2 => Action::TurnRight,
            _ => Action::TurnAround,
        };
        Decision { action, fire: fire_roll == 0 }
    }

    /// Draw a fresh random decision: each action equally likely, firing
    /// on half the ticks. Nothing can be promised of which decision comes
    /// back, only that it is the one its rolls select.
    pub fn random() -> (r: Decision)
    {
        let action_roll = random_roll(0, 4);
        let fire_roll = random_roll(0, 2);
        Decision::from_rolls(action_roll, fire_roll)
    }
}

/// The direction an action asks the movement resolver to face: moving
/// forward keeps the current facing, the turns permute it.
pub fn decide_direction(current: Direction, action: Action) -> (r: Direction)
    ensures
        r == (match action {
            Action::MoveForward => current,
            Action::TurnLeft => current.left_of(),
            Action::TurnRight => current.right_of(),
            Action::TurnAround => current.opposite_of(),
        }),
{
    let mut d = current;
    match action {
        Action::MoveForward => {}
        Action::TurnLeft => d.turn_left(),
        Action::TurnRight => d.turn_right(),
        Action::TurnAround => d.turn_around(),
    }
    d
}

} // verus!
