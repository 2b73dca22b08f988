//! The tagged union carried by every obstacle: its kind together with the
//! kind-specific payload the decision logic reads.

use vstd::prelude::*;
use crate::collision::Collider;

verus! {

/// Kind and payload of one world entity, as the core reads it.
#[derive(Debug, PartialEq, Eq, Structural, Copy, Clone)]
pub enum State {
    /// Boundary of the battle field.
    Boundary,
    Brick(crate::brick::State),
    Iron,
    River,
    Grass,
    Snow,
    /// The eagle.
    Base,
    Tank(crate::tank::Data),
    Bullet(crate::bullet::State),
    PowerUp(crate::power_up::PowerType),
}

impl State {
    /// The collider kind this state belongs to.
    pub open spec fn collider_spec(self) -> Collider {
        match self {
            State::Boundary => Collider::Boundary,
            State::Brick(_) => Collider::Brick,
            State::Iron => Collider::Iron,
            State::River => Collider::River,
            State::Grass => Collider::Grass,
            State::Snow => Collider::Snow,
            State::Base => Collider::Base,
            State::Tank(_) => Collider::Tank,
            State::Bullet(_) => Collider::Bullet,
            State::PowerUp(_) => Collider::PowerUp,
        }
    }

    pub fn collider(&self) -> (r: Collider)
        ensures
            r == self.collider_spec(),
    {
        match self {
            State::Boundary => Collider::Boundary,
            State::Brick(_) => Collider::Brick,
            State::Iron => Collider::Iron,
            State::River => Collider::River,
            State::Grass => Collider::Grass,
            State::Snow => Collider::Snow,
            State::Base => Collider::Base,
            State::Tank(_) => Collider::Tank,
            State::Bullet(_) => Collider::Bullet,
            State::PowerUp(_) => Collider::PowerUp,
        }
    }

    /// The brick payload; calling this on any other kind is a contract
    /// violation.
    pub fn as_brick(&self) -> (r: &crate::brick::State)
        requires
            *self is Brick,
        ensures
            *self == State::Brick(*r),
    {
        match self {
            State::Brick(s) => s,
            _ => unreached(),
        }
    }

    /// The bullet payload; calling this on any other kind is a contract
    /// violation.
    pub fn as_bullet(&self) -> (r: &crate::bullet::State)
        requires
            *self is Bullet,
        ensures
            *self == State::Bullet(*r),
    {
        match self {
            State::Bullet(s) => s,
            _ => unreached(),
        }
    }

    /// The tank payload; calling this on any other kind is a contract
    /// violation.
    pub fn as_tank(&self) -> (r: &crate::tank::Data)
        requires
            *self is Tank,
        ensures
            *self == State::Tank(*r),
    {
        match self {
            State::Tank(s) => s,
            _ => unreached(),
        }
    }

    /// Mutable access to the tank payload; calling this on any other kind
    /// is a contract violation.
    pub fn as_mut_tank(&mut self) -> (r: &mut crate::tank::Data)
        requires
            *old(self) is Tank,
        ensures
            *old(self) == State::Tank(*r),
            *final(self) == State::Tank(*final(r)),
    {
        match self {
            State::Tank(s) => s,
            _ => unreached(),
        }
    }

    /// The power-up payload; calling this on any other kind is a contract
    /// violation.
    pub fn as_power_up(&self) -> (r: &crate::power_up::PowerType)
        requires
            *self is PowerUp,
        ensures
            *self == State::PowerUp(*r),
    {
        match self {
            State::PowerUp(s) => s,
            _ => unreached(),
        }
    }
}

} // verus!
