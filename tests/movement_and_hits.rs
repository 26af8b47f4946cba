use mmo_game::collision::{
    collide, player_attack_enemy_system, AttackBody, Hitbox, Hurtbox, TargetBody,
};
use mmo_game::components::SpriteSize;
use mmo_game::direction::{Direction, IVec2};
use mmo_game::movement::{isqrt, movable_system, Movable, Velocity};
use mmo_game::timer::Timer;

#[test]
fn isqrt_values() {
    assert_eq!(isqrt(0), 0);
    assert_eq!(isqrt(1), 1);
    assert_eq!(isqrt(17), 4);
    assert_eq!(isqrt(24), 4);
    assert_eq!(isqrt(25), 5);
    assert_eq!(isqrt(u128::MAX), u64::MAX);
}

#[test]
fn straight_movement_is_speed_times_time() {
    let m = Movable { speed: 500, auto_despawn: false };
    let p = movable_system(IVec2::new(10, 20), Velocity { x: 1, y: 0 }, m, 1_000);
    assert_eq!(p, IVec2::new(500_010, 20));
    let p = movable_system(IVec2::new(0, 0), Velocity { x: 0, y: -1 }, m, 2_000);
    assert_eq!(p, IVec2::new(0, -1_000_000));
}

#[test]
fn diagonal_movement_is_normalized() {
    let m = Movable { speed: 500, auto_despawn: false };
    let p = movable_system(IVec2::new(0, 0), Velocity { x: 1, y: 1 }, m, 1_000);
    // 500_000 / sqrt(2) = 353_553.39
    assert_eq!(p, IVec2::new(353_553, 353_553));
    let p = movable_system(IVec2::new(0, 0), Velocity { x: -1, y: 1 }, m, 1_000);
    assert_eq!(p, IVec2::new(-353_553, 353_553));
}

#[test]
fn zero_velocity_does_not_move() {
    let m = Movable { speed: 500, auto_despawn: false };
    let p = movable_system(IVec2::new(7, -7), Velocity::zero(), m, 1_000_000);
    assert_eq!(p, IVec2::new(7, -7));
}

fn attack(x: i64, y: i64, w: i64, h: i64) -> AttackBody {
    AttackBody { position: IVec2::new(x, y), hitbox: Hitbox::new(IVec2::new(w, h), None) }
}

fn target(x: i64, y: i64, w: i64, h: i64) -> TargetBody {
    TargetBody { position: IVec2::new(x, y), hurtbox: Hurtbox::new(IVec2::new(w, h), None) }
}

#[test]
fn overlap_removes_and_touching_does_not() {
    assert!(collide(&attack(0, 0, 2, 2), &target(1, 1, 2, 2)));
    // edges touch at x = 1 only
    assert!(!collide(&attack(0, 0, 2, 2), &target(2, 0, 2, 2)));
    assert!(!collide(&attack(0, 0, 2, 2), &target(0, 5, 2, 2)));
    // a point attack inside a unit target
    assert!(collide(&attack(0, 0, 0, 0), &target(0, 0, 1, 1)));
}

#[test]
fn offsets_shift_the_boxes() {
    let a = AttackBody {
        position: IVec2::new(0, 0),
        hitbox: Hitbox::new(IVec2::new(2, 2), Some(IVec2::new(10, 0))),
    };
    assert!(collide(&a, &target(10, 0, 2, 2)));
    assert!(!collide(&a, &target(0, 0, 2, 2)));
    let h = Hurtbox::new(IVec2::new(4, 4), None);
    assert_eq!(h.offset, IVec2::new(0, 0));
}

#[test]
fn attack_resolution_marks_exactly_overlapped_targets() {
    let attacks = vec![attack(0, 0, 4, 4), attack(100, 100, 2, 2)];
    let targets = vec![target(1, 1, 2, 2), target(50, 50, 2, 2), target(101, 100, 2, 2), target(3, 0, 2, 2)];
    let removed = player_attack_enemy_system(&attacks, &targets);
    assert_eq!(removed, vec![true, false, true, false]);
    assert_eq!(player_attack_enemy_system(&vec![], &targets), vec![false; 4]);
    assert!(player_attack_enemy_system(&attacks, &vec![]).is_empty());
}

#[test]
fn one_shot_timer_finishes_once() {
    let mut t = Timer::new(250_000, false);
    t.tick(200_000);
    assert!(!t.just_finished());
    t.tick(100_000);
    assert!(t.just_finished());
    assert_eq!(t.elapsed_us, 250_000);
    t.tick(100_000);
    assert!(!t.just_finished());
}

#[test]
fn repeating_timer_wraps() {
    let mut t = Timer::new(100_000, true);
    t.tick(250_000);
    assert!(t.just_finished());
    assert_eq!(t.elapsed_us, 50_000);
    t.tick(10_000);
    assert!(!t.just_finished());
    assert_eq!(t.elapsed_us, 60_000);
}

#[test]
fn conversions() {
    assert_eq!(SpriteSize::from((16, 32)), SpriteSize(IVec2::new(16, 32)));
    assert_eq!(IVec2::from(Direction::Up), IVec2::new(0, 1));
    assert_eq!(IVec2::from(Direction::Down), IVec2::new(0, -1));
    assert_eq!(IVec2::from(Direction::Left), IVec2::new(-1, 0));
    assert_eq!(IVec2::from(Direction::Right), IVec2::new(1, 0));
}
