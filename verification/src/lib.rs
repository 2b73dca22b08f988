//! Core logic of a top-down arcade tank game: axis-aligned directional
//! collision, grid-snapped movement resolution, and destructible-brick
//! fragmentation. Rendering, input devices and entity lifetime are left to
//! the surrounding application; this crate computes movement deltas and
//! terrain-mutation instructions from plain values.

pub mod ai;
pub mod animation;
pub mod base_wall;
pub mod brick;
pub mod bullet;
pub mod collision;
pub mod geom;
pub mod movement;
pub mod power_up;
pub mod star;
pub mod state;
pub mod tank;
pub mod texture;
pub mod utils;

pub use utils::Direction;
pub use utils::Owner;
