use vstd::prelude::*;
use crate::direction::{Direction, ObjectDirection};
use crate::movement::{KeyInput, Velocity, velocity_of, facing_of, resolve_velocity};
use crate::timer::Timer;

verus! {

/// Length of the attack lockout: a quarter of a second.
pub const ATTACK_DURATION_US: u64 = 250_000;

#[derive(Clone, Copy, Debug, PartialEq, Eq, Structural)]
pub enum PlayerState {
    Idle,
    Walking,
    Attacking,
}

/// The countdown that holds the player in `Attacking`.
#[derive(Clone, Copy, Debug, PartialEq, Eq, Structural)]
pub struct StateTimer(pub Timer);

/// Everything the keyboard system reads and writes for the player.
#[derive(Clone, Copy, Debug, PartialEq, Eq, Structural)]
pub struct PlayerControl {
    pub velocity: Velocity,
    pub direction: ObjectDirection,
    pub state: PlayerState,
    pub state_timer: Option<StateTimer>,
}

/// Idle when the velocity is zero, else Walking.
pub open spec fn moving_state(v: Velocity) -> PlayerState {
    if v.is_zero() { PlayerState::Idle } else { PlayerState::Walking }
}

/// The lockout timer as it is installed by an attack.
pub open spec fn fresh_attack_timer() -> StateTimer {
    StateTimer(Timer {
        duration_us: ATTACK_DURATION_US,
        elapsed_us: 0,
        repeating: false,
        just_finished: false,
    })
}

impl PlayerControl {
    /// The player is Attacking exactly while a one-shot attack timer of the
    /// fixed length is present and still counting.
    pub open spec fn wf(self) -> bool {
        &&& self.velocity.wf()
        &&& (self.state == PlayerState::Attacking) == self.state_timer.is_some()
        &&& self.state_timer matches Some(t) ==> {
            &&& t.0.wf()
            &&& !t.0.repeating
            &&& t.0.duration_us == ATTACK_DURATION_US
            &&& t.0.elapsed_us < ATTACK_DURATION_US
        }
    }

    /// The player as just spawned: idle, at rest, facing down.
    pub fn new() -> (r: PlayerControl)
        ensures
            r.wf(),
            r.state == PlayerState::Idle,
            r.velocity.is_zero(),
            r.direction == (ObjectDirection {
                current_direction: Direction::Down,
                previous_direction: Direction::Down,
            }),
            r.state_timer.is_none(),
    {
        PlayerControl {
            velocity: Velocity::zero(),
            direction: ObjectDirection::new(Direction::Down),
            state: PlayerState::Idle,
            state_timer: None,
        }
    }
}

/// One tick of the keyboard system, `delta_us` microseconds after the last.
pub open spec fn keyboard_step(c: PlayerControl, keys: KeyInput, delta_us: u64) -> PlayerControl {
    let v = velocity_of(keys);
    let dir = ObjectDirection {
        current_direction: facing_of(keys, c.direction.current_direction),
        previous_direction: c.direction.current_direction,
    };
    match c.state_timer {
        Some(t) => {
            let t2 = t.0.ticked(delta_us);
            if t2.just_finished {
                PlayerControl { velocity: v, direction: dir, state: moving_state(v), state_timer: None }
            } else {
                PlayerControl { velocity: v, direction: dir, state: c.state, state_timer: Some(StateTimer(t2)) }
            }
        },
        None => {
            if keys.attack_just_pressed {
                PlayerControl {
                    velocity: v,
                    direction: dir,
                    state: PlayerState::Attacking,
                    state_timer: Some(fresh_attack_timer()),
                }
            } else {
                PlayerControl { velocity: v, direction: dir, state: moving_state(v), state_timer: None }
            }
        },
    }
}

/// Reads this tick's keys: sets velocity and facing, then moves the state
/// machine. While the attack timer runs the state stays Attacking and an
/// attack press is dropped; on the tick the timer runs out it is removed
/// and the state follows the velocity again.
pub fn player_keyboard_event_system(ctl: &mut PlayerControl, keys: &KeyInput, delta_us: u64)
    requires
        old(ctl).wf(),
    ensures
        final(ctl).wf(),
        *final(ctl) == keyboard_step(*old(ctl), *keys, delta_us),
{
    ctl.direction.previous_direction = ctl.direction.current_direction;
    let (v, facing) = resolve_velocity(keys, ctl.direction.current_direction);
    ctl.velocity = v;
    ctl.direction.current_direction = facing;
    let moving = if v.is_moving() { PlayerState::Walking } else { PlayerState::Idle };
    match ctl.state_timer {
        Some(t) => {
            let mut timer = t.0;
            timer.tick(delta_us);
            if timer.just_finished() {
                ctl.state_timer = None;
                ctl.state = moving;
            } else {
                ctl.state_timer = Some(StateTimer(timer));
            }
        },
        None => {
            if keys.attack_just_pressed {
                ctl.state = PlayerState::Attacking;
                ctl.state_timer = Some(StateTimer(Timer::new(ATTACK_DURATION_US, false)));
            } else {
                ctl.state = moving;
            }
        },
    }
}

/// Outside an attack and with no attack press, the player is Idle exactly
/// when the velocity is zero and Walking otherwise; holding only Right
/// walks facing Right.
pub proof fn lemma_idle_walking_follows_velocity(c: PlayerControl, keys: KeyInput, delta_us: u64)
    requires
        c.wf(),
        c.state != PlayerState::Attacking,
        !keys.attack_just_pressed,
    ensures
        keyboard_step(c, keys, delta_us).state == PlayerState::Idle
            <==> keyboard_step(c, keys, delta_us).velocity.is_zero(),
        keyboard_step(c, keys, delta_us).state == PlayerState::Walking
            <==> !keyboard_step(c, keys, delta_us).velocity.is_zero(),
        (!keys.left && keys.right && !keys.up && !keys.down) ==> {
            &&& keyboard_step(c, keys, delta_us).state == PlayerState::Walking
            &&& keyboard_step(c, keys, delta_us).direction.current_direction == Direction::Right
        },
        (!keys.left && !keys.right && !keys.up && !keys.down)
            ==> keyboard_step(c, keys, delta_us).state == PlayerState::Idle,
{
}

/// An attack press outside an attack starts one with a fresh quarter-second
/// timer; a press during an attack changes nothing but the timer's count,
/// which keeps running from where it was.
pub proof fn lemma_attack_starts_once(c: PlayerControl, keys: KeyInput, delta_us: u64)
    requires
        c.wf(),
        keys.attack_just_pressed,
    ensures
        c.state != PlayerState::Attacking ==> {
            &&& keyboard_step(c, keys, delta_us).state == PlayerState::Attacking
            &&& keyboard_step(c, keys, delta_us).state_timer == Some(fresh_attack_timer())
        },
        c.state == PlayerState::Attacking && c.state_timer.unwrap().0.elapsed_us + delta_us
            < ATTACK_DURATION_US ==> {
            &&& keyboard_step(c, keys, delta_us).state == PlayerState::Attacking
            &&& keyboard_step(c, keys, delta_us).state_timer.unwrap().0.elapsed_us
                == c.state_timer.unwrap().0.elapsed_us + delta_us
        },
{
}

/// When the attack timer runs out the player is Idle with no movement key
/// held and Walking with one held, and the timer is gone.
pub proof fn lemma_attack_ends(c: PlayerControl, keys: KeyInput, delta_us: u64)
    requires
        c.wf(),
        c.state == PlayerState::Attacking,
        c.state_timer.unwrap().0.elapsed_us + delta_us >= ATTACK_DURATION_US,
    ensures
        keyboard_step(c, keys, delta_us).state_timer.is_none(),
        (!keys.left && !keys.right && !keys.up && !keys.down)
            ==> keyboard_step(c, keys, delta_us).state == PlayerState::Idle,
        (keys.left || keys.right || keys.up || keys.down)
            ==> keyboard_step(c, keys, delta_us).state == PlayerState::Walking,
{
}

} // verus!
