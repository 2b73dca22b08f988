use battle_city::ai::{decide_direction, Action, Decision};
use battle_city::brick::BrickType;
use battle_city::bullet::State as BulletState;
use battle_city::power_up::PowerType;
use battle_city::state::State;
use battle_city::tank::Data;
use battle_city::texture::SpriteIndex;
use battle_city::utils::{block2translation, get_sprite, Direction, Owner};

#[test]
fn turning_cycles_the_four_directions() {
    let mut d = Direction::Up;
    d.turn_left();
    assert_eq!(d, Direction::Left);
    d.turn_left();
    assert_eq!(d, Direction::Down);
    d.turn_left();
    assert_eq!(d, Direction::Right);
    d.turn_left();
    assert_eq!(d, Direction::Up);
    d.turn_right();
    assert_eq!(d, Direction::Right);
    d.turn_right();
    assert_eq!(d, Direction::Down);
    d.turn_around();
    assert_eq!(d, Direction::Up);
    let mut l = Direction::Left;
    l.turn_around();
    assert_eq!(l, Direction::Right);
}

#[test]
fn opposites() {
    assert!(Direction::Up.is_opposite(Direction::Down));
    assert!(Direction::Down.is_opposite(Direction::Up));
    assert!(Direction::Left.is_opposite(Direction::Right));
    assert!(Direction::Right.is_opposite(Direction::Left));
    assert!(!Direction::Up.is_opposite(Direction::Left));
    assert!(!Direction::Up.is_opposite(Direction::Up));
}

#[test]
fn enemies_are_cross_team() {
    assert!(Owner::P1.is_enemy(Owner::AI));
    assert!(Owner::P2.is_enemy(Owner::AI));
    assert!(Owner::AI.is_enemy(Owner::P1));
    assert!(Owner::AI.is_enemy(Owner::P2));
    assert!(!Owner::P1.is_enemy(Owner::P2));
    assert!(!Owner::P1.is_enemy(Owner::P1));
    assert!(!Owner::AI.is_enemy(Owner::AI));
}

#[test]
fn tank_sprites_by_owner_level_and_facing() {
    assert_eq!(get_sprite(Owner::P1, 0, Direction::Up), 0);
    assert_eq!(get_sprite(Owner::P1, 1, Direction::Left), 10);
    assert_eq!(get_sprite(Owner::AI, 2, Direction::Left), 114);
    assert_eq!(get_sprite(Owner::P2, 0, Direction::Right), 134);
    assert_eq!(get_sprite(Owner::P2, 7, Direction::Down), 156);
}

#[test]
fn test_block2translation() {
    // Block (0, 0) sits half a block left of the field's center line.
    let block_width = 16;
    let result = block2translation(0, 0, block_width);
    let expected = (-block_width / 2, 0);
    assert_eq!(result, expected);
}

#[test]
fn block_grid_positions() {
    assert_eq!(block2translation(3, -2, 16), (40, -32));
    assert_eq!(block2translation(-6, 6, 16), (-104, 96));
}

#[test]
fn decisions_follow_their_rolls() {
    assert_eq!(
        Decision::from_rolls(0, 0),
        Decision { action: Action::MoveForward, fire: true }
    );
    assert_eq!(Decision::from_rolls(1, 1), Decision { action: Action::TurnLeft, fire: false });
    assert_eq!(Decision::from_rolls(2, 0), Decision { action: Action::TurnRight, fire: true });
    assert_eq!(Decision::from_rolls(3, 1), Decision { action: Action::TurnAround, fire: false });
}

#[test]
fn random_decisions_vary() {
    // Over many draws the random decision must not be one constant value:
    // that would mean the randomness never reached the decision.
    let mut seen_actions = Vec::new();
    let mut seen_fire = Vec::new();
    for _ in 0..300 {
        let d = Decision::random();
        if !seen_actions.contains(&d.action) {
            seen_actions.push(d.action);
        }
        if !seen_fire.contains(&d.fire) {
            seen_fire.push(d.fire);
        }
    }
    assert!(seen_actions.len() >= 2);
    assert_eq!(seen_fire.len(), 2);
}

#[test]
fn actions_map_to_requested_directions() {
    assert_eq!(decide_direction(Direction::Up, Action::MoveForward), Direction::Up);
    assert_eq!(decide_direction(Direction::Up, Action::TurnLeft), Direction::Left);
    assert_eq!(decide_direction(Direction::Up, Action::TurnRight), Direction::Right);
    assert_eq!(decide_direction(Direction::Up, Action::TurnAround), Direction::Down);
    assert_eq!(decide_direction(Direction::Left, Action::TurnLeft), Direction::Down);
}

#[test]
fn atlas_runs() {
    assert_eq!(SpriteIndex::base(0), 256);
    assert_eq!(SpriteIndex::brick(7), 265);
    assert_eq!(SpriteIndex::iron(), 266);
    assert_eq!(SpriteIndex::grass(), 267);
    assert_eq!(SpriteIndex::snow(), 268);
    assert_eq!(SpriteIndex::river(2), 271);
    assert_eq!(SpriteIndex::star(0), 272);
    assert_eq!(SpriteIndex::bullet(3), 279);
    assert_eq!(SpriteIndex::power_up(6), 286);
    assert_eq!(SpriteIndex::explosion(4), 291);
    assert_eq!(SpriteIndex::shield(1), 293);
}

#[test]
fn state_accessors_return_their_payloads() {
    let brick = State::Brick(battle_city::brick::State { b_type: BrickType::MinBrick2 });
    assert_eq!(brick.as_brick().b_type, BrickType::MinBrick2);
    let bullet = State::Bullet(BulletState {
        direction: Direction::Down,
        speed: 4,
        source: Owner::P2,
        level: 1,
    });
    assert_eq!(bullet.as_bullet().source, Owner::P2);
    let mut tank = State::Tank(Data::default());
    assert_eq!(tank.as_tank().owner, Owner::P1);
    tank.as_mut_tank().level = 3;
    assert_eq!(tank.as_tank().level, 3);
    let power = State::PowerUp(PowerType::Shovel);
    assert_eq!(*power.as_power_up(), PowerType::Shovel);
    assert_eq!(brick.collider(), battle_city::collision::Collider::Brick);
    assert_eq!(State::Boundary.collider(), battle_city::collision::Collider::Boundary);
}
