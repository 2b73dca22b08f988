//! Directions of travel, actor ownership, and sprite-index selection.

use vstd::prelude::*;

verus! {

/// One of the four cardinal directions a mover can face.
///
/// Turning left, right or around is a fixed permutation of this 4-cycle;
/// `Up`/`Down` and `Left`/`Right` are mutually opposite.
#[derive(Debug, PartialEq, Eq, Structural, Copy, Clone)]
pub enum Direction {
    Left,
    Up,
    Right,
    Down,
}

impl Direction {
    /// The direction 90 degrees counter-clockwise of `self`.
    pub open spec fn left_of(self) -> Direction {
        match self {
            Direction::Left => Direction::Down,
            Direction::Up => Direction::Left,
            Direction::Right => Direction::Up,
            Direction::Down => Direction::Right,
        }
    }

    /// The direction 90 degrees clockwise of `self`.
    pub open spec fn right_of(self) -> Direction {
        match self {
            Direction::Left => Direction::Up,
            Direction::Up => Direction::Right,
            Direction::Right => Direction::Down,
            Direction::Down => Direction::Left,
        }
    }

    /// The direction opposite to `self`.
    pub open spec fn opposite_of(self) -> Direction {
        match self {
            Direction::Left => Direction::Right,
            Direction::Up => Direction::Down,
            Direction::Right => Direction::Left,
            Direction::Down => Direction::Up,
        }
    }

    pub fn turn_left(&mut self)
        ensures
            *final(self) == old(self).left_of(),
    {
        *self = match self {
            Direction::Left => Direction::Down,
            Direction::Up => Direction::Left,
            Direction::Right => Direction::Up,
            Direction::Down => Direction::Right,
        }
    }

    pub fn turn_right(&mut self)
        ensures
            *final(self) == old(self).right_of(),
    {
        *self = match self {
            Direction::Left => Direction::Up,
            Direction::Up => Direction::Right,
            Direction::Right => Direction::Down,
            Direction::Down => Direction::Left,
        }
    }

    pub fn turn_around(&mut self)
        ensures
            *final(self) == old(self).opposite_of(),
    {
        *self = match self {
            Direction::Left => Direction::Right,
            Direction::Up => Direction::Down,
            Direction::Right => Direction::Left,
            Direction::Down => Direction::Up,
        }
    }

    pub fn is_opposite(self, other: Direction) -> (r: bool)
        ensures
            r == (other == self.opposite_of()),
    {
        match self {
            Direction::Left => other == Direction::Right,
            Direction::Right => other == Direction::Left,
            Direction::Up => other == Direction::Down,
            Direction::Down => other == Direction::Up,
        }
    }
}

/// Who controls an actor: one of the two players, or the computer.
#[derive(Debug, PartialEq, Eq, Structural, Copy, Clone)]
pub enum Owner {
    P1,
    P2,
    AI,
}

impl Owner {
    /// Players are enemies of the computer's tanks and vice versa;
    /// actors on the same team are not enemies of each other.
    pub fn is_enemy(self, other: Owner) -> (r: bool)
        ensures
            r == (match self {
                Owner::P1 | Owner::P2 => other == Owner::AI,
                Owner::AI => other != Owner::AI,
            }),
    {
        match self {
            Owner::P1 | Owner::P2 => other == Owner::AI,
            Owner::AI => other != Owner::AI,
        }
    }
}

/// Marker for entities belonging to player one.
pub struct P1;

/// Marker for entities belonging to player two.
pub struct P2;

/// Marker for computer-controlled entities.
pub struct AI;

/// Sprite-atlas offset that a facing direction contributes to a tank's
/// sprite index.
pub open spec fn direction_sprite_offset(direction: Direction) -> int {
    match direction {
        Direction::Up => 0,
        Direction::Left => 2,
        Direction::Down => 4,
        Direction::Right => 6,
    }
}

/// Sprite-atlas base index of a tank owner at a given power level.
pub open spec fn tank_sprite_base(owner: Owner, level: u8) -> int {
    (match owner {
        Owner::P1 => 0int,
        Owner::P2 => 128int,
        Owner::AI => 96int,
    }) + (match level {
        0u8 => 0int,
        1u8 => 8int,
        2u8 => 16int,
        _ => 24int,
    })
}

/// The battle field divides into blocks of `block_width` units; block
/// `(0, 0)` sits at the field's center. The center of a block's sprite is
/// half a block left of the block column's right edge, so a block's world
/// position is its x index shifted half a block down the axis.
pub fn block2translation(bx: i64, by: i64, block_width: i64) -> (r: (i64, i64))
    requires
        -1000 <= bx <= 1000,
        -1000 <= by <= 1000,
        0 < block_width <= 1_000_000,
        block_width % 2 == 0,
    ensures
        r.0 == bx * block_width - block_width / 2,
        r.1 == by * block_width,
{
    proof {
        assert(-(1000 * 1_000_000) <= bx * block_width <= 1000 * 1_000_000
            && -(1000 * 1_000_000) <= by * block_width <= 1000 * 1_000_000) by (nonlinear_arith)
            requires
                -1000 <= bx <= 1000,
                -1000 <= by <= 1000,
                0 < block_width <= 1_000_000,
        ;
    }
    (bx * block_width - block_width / 2, by * block_width)
}

/// Sprite index of a tank with the given owner, power level and facing.
pub fn get_sprite(owner: Owner, level: u8, direction: Direction) -> (r: usize)
    ensures
        r == tank_sprite_base(owner, level) + direction_sprite_offset(direction),
{
    let mut base_index: usize = match owner {
        Owner::P1 => 0,
        Owner::P2 => 128,
        Owner::AI => 96,
    };
    base_index += match level {
        0 => 0,
        1 => 8,
        2 => 16,
        _ => 24,
    };
    base_index + match direction {
        Direction::Up => 0,
        Direction::Left => 2,
        Direction::Down => 4,
        Direction::Right => 6,
    }
}

} // verus!
