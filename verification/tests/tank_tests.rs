use battle_city::power_up::PowerType;
use battle_city::tank::{apply_power_up, cal_position, Data, PowerUpEffect, MAX_LEVEL};
use battle_city::utils::{Direction, Owner};

#[test]
fn lane_snap_rounds_to_nearest_cell() {
    // Remainders beyond half a cell round away from zero, the rest
    // (half-cell ties included) toward zero.
    assert_eq!(cal_position(5, 0, Direction::Up, 4), 4);
    assert_eq!(cal_position(6, 0, Direction::Down, 4), 4);
    assert_eq!(cal_position(7, 0, Direction::Up, 4), 8);
    assert_eq!(cal_position(8, 0, Direction::Up, 4), 8);
    assert_eq!(cal_position(0, 0, Direction::Up, 4), 0);
    assert_eq!(cal_position(-5, 0, Direction::Up, 4), -4);
    assert_eq!(cal_position(-7, 0, Direction::Up, 4), -8);
}

#[test]
fn lane_snap_uses_the_off_axis_coordinate() {
    // Vertical facings snap x; horizontal facings snap y.
    assert_eq!(cal_position(5, 11, Direction::Up, 4), 4);
    assert_eq!(cal_position(5, 11, Direction::Left, 4), 12);
    assert_eq!(cal_position(5, 11, Direction::Right, 4), 12);
}

#[test]
fn lane_snap_is_idempotent() {
    for x in [-9, -6, -1, 0, 3, 5, 22] {
        let once = cal_position(x, 0, Direction::Up, 4);
        assert_eq!(cal_position(once, 0, Direction::Up, 4), once);
    }
}

#[test]
fn fresh_tank_state() {
    let d = Data::default();
    assert_eq!(d.direction, Direction::Up);
    assert_eq!(d.owner, Owner::P1);
    assert_eq!(d.level, 0);
    assert!(!d.shield);
    assert!(!d.amphibious);
    assert_eq!(d.base_sprite, 0);
    let n = Data::new(Direction::Left, Owner::AI, 2);
    assert_eq!(n.direction, Direction::Left);
    assert_eq!(n.owner, Owner::AI);
    assert_eq!(n.level, 2);
    assert!(!n.shield);
}

#[test]
fn helmet_raises_shield() {
    let mut tank = Data::default();
    let mut sprite = 0;
    let e = apply_power_up(&mut tank, &mut sprite, PowerType::Helmet);
    assert_eq!(e, PowerUpEffect::SpawnShield);
    assert!(tank.shield);
    assert_eq!(sprite, 0);
}

#[test]
fn star_steps_up_one_level() {
    let mut tank = Data::default();
    let mut sprite = 2;
    let e = apply_power_up(&mut tank, &mut sprite, PowerType::Star);
    assert_eq!(e, PowerUpEffect::NoEffect);
    assert_eq!(tank.level, 1);
    assert_eq!(tank.base_sprite, 16);
    assert_eq!(sprite, 18);
}

#[test]
fn star_at_level_three_reaches_max_quietly() {
    // The step from three to four unlocks play effects but no new sprite
    // family.
    let mut tank = Data { level: 3, base_sprite: 48, ..Default::default() };
    let mut sprite = 50;
    apply_power_up(&mut tank, &mut sprite, PowerType::Star);
    assert_eq!(tank.level, 4);
    assert_eq!(tank.base_sprite, 48);
    assert_eq!(sprite, 50);
}

#[test]
fn star_at_max_level_changes_nothing() {
    let mut tank = Data { level: 4, base_sprite: 48, ..Default::default() };
    let mut sprite = 50;
    apply_power_up(&mut tank, &mut sprite, PowerType::Star);
    assert_eq!(tank.level, 4);
    assert_eq!(tank.base_sprite, 48);
    assert_eq!(sprite, 50);
}

#[test]
fn gun_jumps_to_heavy_family() {
    let mut tank = Data { direction: Direction::Right, ..Default::default() };
    let mut sprite = 6;
    apply_power_up(&mut tank, &mut sprite, PowerType::Gun);
    assert_eq!(tank.base_sprite, 48);
    assert_eq!(tank.level, 3);
    assert_eq!(sprite, 54);
    // From any level above zero the gun reaches full power.
    let mut tank2 = Data { level: 2, direction: Direction::Up, ..Default::default() };
    let mut sprite2 = 32;
    apply_power_up(&mut tank2, &mut sprite2, PowerType::Gun);
    assert_eq!(tank2.level, MAX_LEVEL);
    assert_eq!(sprite2, 48);
}

#[test]
fn extra_life_caps_at_ninety_nine() {
    let mut tank = Data::default();
    let mut sprite = 0;
    apply_power_up(&mut tank, &mut sprite, PowerType::Tank);
    assert_eq!(tank.life, 1);
    let mut rich = Data { life: 99, ..Default::default() };
    apply_power_up(&mut rich, &mut sprite, PowerType::Tank);
    assert_eq!(rich.life, 99);
}

#[test]
fn world_effect_power_ups() {
    let mut tank = Data::default();
    let mut sprite = 0;
    assert_eq!(apply_power_up(&mut tank, &mut sprite, PowerType::Clock), PowerUpEffect::NoEffect);
    assert_eq!(
        apply_power_up(&mut tank, &mut sprite, PowerType::Shovel),
        PowerUpEffect::ChangeBaseWall
    );
    assert_eq!(
        apply_power_up(&mut tank, &mut sprite, PowerType::Grenade),
        PowerUpEffect::DestroyAllEnemies
    );
    // None of the three touches the tank itself.
    assert_eq!(tank, Data::default());
}

#[test]
fn power_up_sprites() {
    assert_eq!(PowerType::Helmet.sprite_index(), 280);
    assert_eq!(PowerType::Clock.sprite_index(), 281);
    assert_eq!(PowerType::Shovel.sprite_index(), 282);
    assert_eq!(PowerType::Star.sprite_index(), 283);
    assert_eq!(PowerType::Grenade.sprite_index(), 284);
    assert_eq!(PowerType::Tank.sprite_index(), 285);
    assert_eq!(PowerType::Gun.sprite_index(), 286);
}
