use battle_city::animation::{explosion_step, toggle_frame, wave_step};
use battle_city::star::{twinkle_step, Star, State, TwinkleAction};
use battle_city::utils::Owner;

#[test]
fn star_twinkles_once_then_yields_the_tank() {
    // A fresh star enlarges 272..275, shrinks back to 272, enlarges again
    // and only then asks for the tank.
    let mut star = Star::new(Owner::P2, 1);
    let mut frame = 272;
    let mut actions = Vec::new();
    for _ in 0..20 {
        match twinkle_step(frame, &mut star) {
            TwinkleAction::SetFrame(f) => {
                actions.push(f);
                frame = f;
            }
            TwinkleAction::SpawnTank => {
                actions.push(9999);
                break;
            }
        }
    }
    assert_eq!(
        actions,
        vec![273, 274, 275, 274, 273, 272, 273, 274, 275, 9999]
    );
    assert!(star.done);
    assert_eq!(star.owner, Owner::P2);
    assert_eq!(star.level, 1);
}

#[test]
fn star_first_peak_turns_it_around() {
    let mut star = Star::new(Owner::P1, 0);
    assert_eq!(twinkle_step(275, &mut star), TwinkleAction::SetFrame(274));
    assert!(star.done);
    assert_eq!(star.state, State::Shrink);
    // The second peak spawns.
    assert_eq!(twinkle_step(275, &mut star), TwinkleAction::SpawnTank);
}

#[test]
fn small_explosions_burn_three_frames() {
    assert_eq!(explosion_step(287, false), Some(288));
    assert_eq!(explosion_step(288, false), Some(289));
    assert_eq!(explosion_step(289, false), None);
}

#[test]
fn big_explosions_play_the_whole_run() {
    assert_eq!(explosion_step(289, true), Some(290));
    assert_eq!(explosion_step(290, true), Some(291));
    assert_eq!(explosion_step(291, true), None);
}

#[test]
fn river_water_oscillates() {
    assert_eq!(wave_step(270), 271);
    assert_eq!(wave_step(271), 270);
}

#[test]
fn track_frames_flip_in_pairs() {
    assert_eq!(toggle_frame(0), 1);
    assert_eq!(toggle_frame(1), 0);
    assert_eq!(toggle_frame(96), 97);
    assert_eq!(toggle_frame(97), 96);
    assert_eq!(toggle_frame(292), 293);
    assert_eq!(toggle_frame(293), 292);
}
