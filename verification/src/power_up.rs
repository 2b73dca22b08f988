//! Power-up kinds and their sprite frames.

use vstd::prelude::*;

verus! {

/// A collectible power-up's kind.
#[derive(Debug, PartialEq, Eq, Structural, Copy, Clone)]
pub enum PowerType {
    /// Temporary shield around the collecting tank.
    Helmet,
    /// Freezes enemy tanks.
    Clock,
    /// Swaps the base's brick wall for iron for a while.
    Shovel,
    /// Raises the collecting tank's power level by one.
    Star,
    /// Destroys every enemy on the field.
    Grenade,
    /// Grants an extra life.
    Tank,
    /// Raises the collecting tank to full power at once.
    Gun,
}

impl PowerType {
    /// Position of this power-up's frame within the atlas's power-up run.
    pub open spec fn frame(self) -> int {
        match self {
            PowerType::Helmet => 0,
            PowerType::Clock => 1,
            PowerType::Shovel => 2,
            PowerType::Star => 3,
            PowerType::Grenade => 4,
            PowerType::Tank => 5,
            PowerType::Gun => 6,
        }
    }

    /// Sprite-atlas index of this power-up's frame.
    pub fn sprite_index(self) -> (r: usize)
        ensures
            r == 280 + self.frame(),
    {
        let i: usize = match self {
            PowerType::Helmet => 0,
            PowerType::Clock => 1,
            PowerType::Shovel => 2,
            PowerType::Star => 3,
            PowerType::Grenade => 4,
            PowerType::Tank => 5,
            PowerType::Gun => 6,
        };
        crate::texture::SpriteIndex::power_up(i)
    }
}

} // verus!
