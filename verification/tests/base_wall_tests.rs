use battle_city::base_wall::{
    base_wall_positions, BaseWallAction, BaseWallState, BaseWallType, ChangeBaseWall,
};
use battle_city::utils::Owner;

#[test]
fn wall_cells_bracket_the_base() {
    let cells = base_wall_positions();
    assert_eq!(
        cells,
        vec![
            (-5, -25),
            (-5, -23),
            (-5, -21),
            (-3, -21),
            (-1, -21),
            (1, -21),
            (1, -23),
            (1, -25),
        ]
    );
}

#[test]
fn player_shovel_builds_iron() {
    let mut state = BaseWallState::new(100, 30, 10);
    let action = state.handle_change(ChangeBaseWall { by: Owner::P2 });
    assert_eq!(action, BaseWallAction::Rebuild(BaseWallType::Iron));
    assert!(state.changed);
    assert_eq!(state.changed_by, Owner::P2);
}

#[test]
fn computer_shovel_clears_the_wall() {
    let mut state = BaseWallState::new(100, 30, 10);
    let action = state.handle_change(ChangeBaseWall { by: Owner::AI });
    assert_eq!(action, BaseWallAction::Clear);
    assert!(state.changed);
}

#[test]
fn countdown_rests_until_a_shovel() {
    let mut state = BaseWallState::new(100, 30, 10);
    assert_eq!(state.count_down(50), BaseWallAction::Wait);
    assert!(!state.changed);
    assert_eq!(state.elapsed, 0);
}

#[test]
fn countdown_blinks_then_restores_brick() {
    let mut state = BaseWallState::new(100, 30, 10);
    state.handle_change(ChangeBaseWall { by: Owner::P1 });

    // Far from the deadline: nothing visible happens.
    assert_eq!(state.count_down(50), BaseWallAction::Wait);
    assert_eq!(state.elapsed, 50);

    // Inside the blink window the blink timer starts firing: first back
    // to iron, then to brick, alternating.
    assert_eq!(state.count_down(25), BaseWallAction::Rebuild(BaseWallType::Iron));
    assert!(!state.normal);
    assert_eq!(state.count_down(10), BaseWallAction::Rebuild(BaseWallType::Brick));
    assert!(state.normal);

    // A tick too short for the blink period changes nothing.
    assert_eq!(state.count_down(4), BaseWallAction::Wait);

    // Reaching the duration restores the brick wall for good.
    assert_eq!(state.count_down(20), BaseWallAction::Rebuild(BaseWallType::Brick));
    assert!(!state.changed);
    assert!(state.normal);
    assert_eq!(state.elapsed, 100);

    // And the countdown is at rest again.
    assert_eq!(state.count_down(50), BaseWallAction::Wait);
}
