//! Sprite-atlas layout: where each entity family's frames sit in the
//! texture atlas. The tank frames occupy the front of the atlas (see
//! [`crate::utils::get_sprite`]); the terrain and effect frames follow in
//! consecutive runs addressed here.

use vstd::prelude::*;

verus! {

/// Index arithmetic for the sprite atlas's terrain and effect runs.
pub struct SpriteIndex;

impl SpriteIndex {
    /// The two base (eagle) frames.
    pub fn base(i: usize) -> (r: usize)
        requires
            i < 2,
        ensures
            r == 256 + i,
    {
        256 + i
    }

    /// The eight brick-fragment frames, ordered as
    /// [`crate::brick::sprite_for`] maps them.
    pub fn brick(i: usize) -> (r: usize)
        requires
            i < 8,
        ensures
            r == 258 + i,
    {
        258 + i
    }

    pub fn iron() -> (r: usize)
        ensures
            r == 266,
    {
        266
    }

    pub fn grass() -> (r: usize)
        ensures
            r == 267,
    {
        267
    }

    pub fn snow() -> (r: usize)
        ensures
            r == 268,
    {
        268
    }

    /// The three river animation frames.
    pub fn river(i: usize) -> (r: usize)
        requires
            i < 3,
        ensures
            r == 269 + i,
    {
        269 + i
    }

    /// The four star (spawn twinkle) frames.
    pub fn star(i: usize) -> (r: usize)
        requires
            i < 4,
        ensures
            r == 272 + i,
    {
        272 + i
    }

    /// The four bullet frames, one per facing.
    pub fn bullet(i: usize) -> (r: usize)
        requires
            i < 4,
        ensures
            r == 276 + i,
    {
        276 + i
    }

    /// The seven power-up frames.
    pub fn power_up(i: usize) -> (r: usize)
        requires
            i < 7,
        ensures
            r == 280 + i,
    {
        280 + i
    }

    /// The five explosion frames.
    pub fn explosion(i: usize) -> (r: usize)
        requires
            i < 5,
        ensures
            r == 287 + i,
    {
        287 + i
    }

    /// The two shield frames.
    pub fn shield(i: usize) -> (r: usize)
        requires
            i < 2,
        ensures
            r == 292 + i,
    {
        292 + i
    }
}

} // verus!
