//! Frame stepping for the looping cosmetic animations: explosions burn
//! through their run once, rivers and tracks oscillate between two
//! frames. The world owns the frame timers; each step rule lives here.

use vstd::prelude::*;

verus! {

/// The next explosion frame, or nothing when the explosion has burnt out
/// and should despawn. Small explosions end after the third frame of the
/// run 287 through 291; big ones play it whole.
pub open spec fn explosion_spec(frame: usize, is_big: bool) -> Option<usize> {
    if frame == 289 {
        if is_big {
            Option::Some((frame + 1) as usize)
        } else {
            Option::None
        }
    } else if frame == 291 {
        Option::None
    } else {
        Option::Some((frame + 1) as usize)
    }
}

/// Step an explosion's animation once.
pub fn explosion_step(frame: usize, is_big: bool) -> (r: Option<usize>)
    requires
        287 <= frame <= 291,
    ensures
        r == explosion_spec(frame, is_big),
        r matches Some(f) ==> 287 <= f <= 291,
{
    if frame == 289 {
        if is_big {
            Some(frame + 1)
        } else {
            None
        }
    } else if frame == 291 {
        None
    } else {
        Some(frame + 1)
    }
}

/// The next river frame: the water oscillates between the two frames 270
/// and 271 of the atlas's river run.
pub fn wave_step(frame: usize) -> (r: usize)
    requires
        270 <= frame <= 271,
    ensures
        frame == 270 ==> r == 271,
        frame == 271 ==> r == 270,
{
    if frame == 270 {
        frame + 1
    } else {
        frame - 1
    }
}

/// The next frame of a two-frame flip-book laid out in pairs: an even
/// frame steps to its odd partner and back. Drives the tank-track and
/// shield animations.
pub fn toggle_frame(frame: usize) -> (r: usize)
    requires
        frame < usize::MAX,
    ensures
        frame % 2 == 0 ==> r == frame + 1,
        frame % 2 != 0 ==> r == frame - 1,
{
    if frame % 2 == 0 {
        frame + 1
    } else {
        frame - 1
    }
}

} // verus!
