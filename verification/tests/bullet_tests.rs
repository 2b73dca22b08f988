use battle_city::brick::{BrickType, FragmentOutcome, Offset};
use battle_city::bullet::{
    bullet_hit, cal_position, contains_id, dedup_despawns, flight_step, sprite_for, HitOutcome,
    State as BulletState,
};
use battle_city::collision::Side;
use battle_city::geom::Rect;
use battle_city::movement::MovementTimer;
use battle_city::power_up::PowerType;
use battle_city::state::State;
use battle_city::tank::Data;
use battle_city::utils::{Direction, Owner};

#[test]
fn bullet_spawns_ahead_of_the_muzzle() {
    assert_eq!(cal_position(10, 20, Direction::Up, 6), (10, 26));
    assert_eq!(cal_position(10, 20, Direction::Right, 6), (16, 20));
    assert_eq!(cal_position(10, 20, Direction::Down, 6), (10, 14));
    assert_eq!(cal_position(10, 20, Direction::Left, 6), (4, 20));
}

#[test]
fn bullet_sprites_by_facing() {
    assert_eq!(sprite_for(Direction::Up), 276);
    assert_eq!(sprite_for(Direction::Left), 277);
    assert_eq!(sprite_for(Direction::Down), 278);
    assert_eq!(sprite_for(Direction::Right), 279);
}

#[test]
fn flight_advances_when_timer_fires() {
    let mut rect = Rect { cx: 0, cy: 0, hw: 1, hh: 1 };
    let mut timer = MovementTimer::new(10);
    assert!(!flight_step(&mut rect, &mut timer, Direction::Up, 3, 4));
    assert_eq!(rect.cy, 0);
    assert!(flight_step(&mut rect, &mut timer, Direction::Up, 3, 7));
    assert_eq!(rect.cy, 3);
    assert_eq!(timer.acc, 1);
    assert!(flight_step(&mut rect, &mut timer, Direction::Left, 3, 9));
    assert_eq!(rect.cx, -3);
    assert_eq!(rect.cy, 3);
}

#[test]
fn hit_on_brick_fragments_it() {
    let target = State::Brick(battle_city::brick::State { b_type: BrickType::QuarterBrick });
    assert_eq!(
        bullet_hit(Owner::P1, 0, &target, Side::Top),
        HitOutcome::BrickImpact(FragmentOutcome::Replace(
            BrickType::HalfQuarterBrickBottom,
            Offset { dx: 0, dy: -1 }
        ))
    );
    let min = State::Brick(battle_city::brick::State { b_type: BrickType::MinBrick1 });
    assert_eq!(
        bullet_hit(Owner::P2, 1, &min, Side::Left),
        HitOutcome::BrickImpact(FragmentOutcome::Destroyed)
    );
}

#[test]
fn iron_falls_only_to_high_power() {
    assert_eq!(
        bullet_hit(Owner::P1, 2, &State::Iron, Side::Left),
        HitOutcome::IronImpact { destroyed: false }
    );
    assert_eq!(
        bullet_hit(Owner::P1, 3, &State::Iron, Side::Left),
        HitOutcome::IronImpact { destroyed: true }
    );
}

#[test]
fn boundary_and_base_hits() {
    assert_eq!(bullet_hit(Owner::AI, 0, &State::Boundary, Side::Top), HitOutcome::BoundaryImpact);
    assert_eq!(bullet_hit(Owner::AI, 0, &State::Base, Side::Top), HitOutcome::BaseImpact);
}

#[test]
fn soft_terrain_ignores_bullets() {
    for target in [
        State::River,
        State::Snow,
        State::Grass,
        State::PowerUp(PowerType::Star),
    ] {
        assert_eq!(bullet_hit(Owner::P1, 4, &target, Side::Top), HitOutcome::Ignored);
    }
}

fn bullet_of(source: Owner) -> State {
    State::Bullet(BulletState { direction: Direction::Up, speed: 3, source, level: 0 })
}

#[test]
fn opposing_bullets_clash() {
    assert_eq!(
        bullet_hit(Owner::P1, 0, &bullet_of(Owner::AI), Side::Top),
        HitOutcome::BulletClash
    );
    assert_eq!(
        bullet_hit(Owner::P1, 0, &bullet_of(Owner::P1), Side::Top),
        HitOutcome::Ignored
    );
}

fn tank_of(owner: Owner) -> State {
    State::Tank(Data { owner, ..Default::default() })
}

#[test]
fn tank_hits_follow_team_rules() {
    // A player's bullet destroys a computer tank.
    assert_eq!(
        bullet_hit(Owner::P1, 0, &tank_of(Owner::AI), Side::Top),
        HitOutcome::TankImpact { destroyed: true }
    );
    assert_eq!(
        bullet_hit(Owner::P2, 0, &tank_of(Owner::AI), Side::Top),
        HitOutcome::TankImpact { destroyed: true }
    );
    // Hits between players stop the bullet without destruction.
    assert_eq!(
        bullet_hit(Owner::P1, 0, &tank_of(Owner::P2), Side::Top),
        HitOutcome::TankImpact { destroyed: false }
    );
    assert_eq!(
        bullet_hit(Owner::P2, 0, &tank_of(Owner::P1), Side::Top),
        HitOutcome::TankImpact { destroyed: false }
    );
    // Computer bullets never destroy players here, and computer tanks
    // never shoot each other down.
    assert_eq!(
        bullet_hit(Owner::AI, 0, &tank_of(Owner::P1), Side::Top),
        HitOutcome::TankImpact { destroyed: false }
    );
    assert_eq!(bullet_hit(Owner::AI, 0, &tank_of(Owner::AI), Side::Top), HitOutcome::Ignored);
    // One's own tank is never hit by one's own bullet.
    assert_eq!(bullet_hit(Owner::P1, 0, &tank_of(Owner::P1), Side::Top), HitOutcome::Ignored);
}

#[test]
fn despawns_deduplicated_per_tick() {
    // A bullet that struck two fragments in one tick appears twice in the
    // hit list but must despawn once.
    let hits = vec![7, 3, 7, 9, 3, 7];
    let dedup = dedup_despawns(&hits);
    assert_eq!(dedup, vec![7, 3, 9]);
    let empty: Vec<u64> = Vec::new();
    assert_eq!(dedup_despawns(&empty), Vec::<u64>::new());
}

#[test]
fn id_lookup() {
    let ids = vec![1, 5, 9];
    assert!(contains_id(&ids, 5));
    assert!(!contains_id(&ids, 4));
}
