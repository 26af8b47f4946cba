use mmo_game::direction::{Direction, ObjectDirection};
use mmo_game::movement::{resolve_velocity, KeyInput, Velocity};
use mmo_game::player::{
    player_keyboard_event_system, PlayerControl, PlayerState, ATTACK_DURATION_US,
};

fn keys(left: bool, right: bool, up: bool, down: bool, attack: bool) -> KeyInput {
    KeyInput { left, right, up, down, attack_just_pressed: attack }
}

#[test]
fn velocity_is_unit_or_zero_for_all_key_combinations() {
    for bits in 0u8..16 {
        let k = keys(bits & 1 != 0, bits & 2 != 0, bits & 4 != 0, bits & 8 != 0, false);
        let (v, _) = resolve_velocity(&k, Direction::Down);
        assert!((-1..=1).contains(&v.x) && (-1..=1).contains(&v.y));
        let len_sq = v.x * v.x + v.y * v.y;
        let any_key = k.left || k.right || k.up || k.down;
        assert_eq!(len_sq == 0, !any_key);
        if len_sq > 0 {
            let norm = (len_sq as f64).sqrt();
            let (nx, ny) = (v.x as f64 / norm, v.y as f64 / norm);
            assert!((nx * nx + ny * ny - 1.0).abs() < 1e-12);
        }
    }
}

#[test]
fn opposing_keys_follow_fixed_priority() {
    let (v, facing) = resolve_velocity(&keys(true, true, false, false, false), Direction::Down);
    assert_eq!(v, Velocity { x: -1, y: 0 });
    assert_eq!(facing, Direction::Left);
    let (v, facing) = resolve_velocity(&keys(true, false, true, true, false), Direction::Down);
    assert_eq!(v, Velocity { x: -1, y: 1 });
    assert_eq!(facing, Direction::Up);
    let (v, facing) = resolve_velocity(&keys(false, false, false, false, false), Direction::Left);
    assert_eq!(v, Velocity { x: 0, y: 0 });
    assert_eq!(facing, Direction::Left);
}

#[test]
fn no_keys_is_idle_and_right_is_walking_right() {
    let mut c = PlayerControl::new();
    player_keyboard_event_system(&mut c, &keys(false, false, false, false, false), 16_000);
    assert_eq!(c.state, PlayerState::Idle);
    assert_eq!(c.velocity, Velocity { x: 0, y: 0 });
    player_keyboard_event_system(&mut c, &keys(false, true, false, false, false), 16_000);
    assert_eq!(c.state, PlayerState::Walking);
    assert_eq!(c.direction.current_direction, Direction::Right);
    assert_eq!(c.direction.previous_direction, Direction::Down);
    player_keyboard_event_system(&mut c, &keys(false, false, false, false, false), 16_000);
    assert_eq!(c.state, PlayerState::Idle);
    assert_eq!(c.direction, ObjectDirection::new(Direction::Right));
}

#[test]
fn attack_installs_one_quarter_second_timer() {
    let mut c = PlayerControl::new();
    player_keyboard_event_system(&mut c, &keys(false, false, false, false, true), 16_000);
    assert_eq!(c.state, PlayerState::Attacking);
    let t = c.state_timer.expect("attack timer").0;
    assert_eq!(t.duration_us, 250_000);
    assert_eq!(t.duration_us, ATTACK_DURATION_US);
    assert_eq!(t.elapsed_us, 0);
    assert!(!t.repeating);

    player_keyboard_event_system(&mut c, &keys(false, false, false, false, true), 100_000);
    assert_eq!(c.state, PlayerState::Attacking);
    let t = c.state_timer.expect("still the same timer").0;
    assert_eq!(t.elapsed_us, 100_000);
}

#[test]
fn attack_ends_idle_without_keys() {
    let mut c = PlayerControl::new();
    player_keyboard_event_system(&mut c, &keys(false, false, false, false, true), 16_000);
    player_keyboard_event_system(&mut c, &keys(false, false, false, false, false), 200_000);
    assert_eq!(c.state, PlayerState::Attacking);
    player_keyboard_event_system(&mut c, &keys(false, false, false, false, false), 50_000);
    assert_eq!(c.state, PlayerState::Idle);
    assert!(c.state_timer.is_none());
}

#[test]
fn attack_ends_walking_with_key_held() {
    let mut c = PlayerControl::new();
    player_keyboard_event_system(&mut c, &keys(false, false, false, false, true), 16_000);
    player_keyboard_event_system(&mut c, &keys(false, false, true, false, false), 300_000);
    assert_eq!(c.state, PlayerState::Walking);
    assert!(c.state_timer.is_none());
    assert_eq!(c.direction.current_direction, Direction::Up);
}

#[test]
fn movement_keys_still_steer_during_attack() {
    let mut c = PlayerControl::new();
    player_keyboard_event_system(&mut c, &keys(false, false, false, false, true), 16_000);
    player_keyboard_event_system(&mut c, &keys(true, false, false, false, false), 16_000);
    assert_eq!(c.state, PlayerState::Attacking);
    assert_eq!(c.velocity, Velocity { x: -1, y: 0 });
    assert_eq!(c.direction.current_direction, Direction::Left);
}
