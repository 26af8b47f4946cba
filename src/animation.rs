use vstd::prelude::*;
use crate::direction::{Direction, ObjectDirection};
use crate::player::PlayerState;
use crate::timer::Timer;

verus! {

/// Time each animation frame is shown: a tenth of a second.
pub const FRAME_DURATION_US: u64 = 100_000;

/// Frames per animation cycle.
pub const FRAMES_PER_RANGE: usize = 4;

/// First atlas index of each walking cycle.
pub const PLAYER_WALK_DOWN_FIRST: usize = 0;
pub const PLAYER_WALK_RIGHT_FIRST: usize = 4;
pub const PLAYER_WALK_UP_FIRST: usize = 8;
pub const PLAYER_WALK_LEFT_FIRST: usize = 12;

/// First atlas index of each attacking cycle.
pub const PLAYER_ATTACK_DOWN_FIRST: usize = 0;
pub const PLAYER_ATTACK_UP_FIRST: usize = 4;
pub const PLAYER_ATTACK_RIGHT_FIRST: usize = 8;
pub const PLAYER_ATTACK_LEFT_FIRST: usize = 12;

/// Which sprite sheet the player is drawn from.
#[derive(Clone, Copy, Debug, PartialEq, Eq, Structural)]
pub enum AtlasKind {
    Walk,
    Attack,
}

/// The sprite sheet for a state: Idle shares the walking sheet.
pub open spec fn atlas_of(state: PlayerState) -> AtlasKind {
    match state {
        PlayerState::Attacking => AtlasKind::Attack,
        _ => AtlasKind::Walk,
    }
}

/// First index of the 4-frame cycle for a state and facing.
pub open spec fn range_first(state: PlayerState, dir: Direction) -> usize {
    match state {
        PlayerState::Attacking => match dir {
            Direction::Down => PLAYER_ATTACK_DOWN_FIRST,
            Direction::Up => PLAYER_ATTACK_UP_FIRST,
            Direction::Right => PLAYER_ATTACK_RIGHT_FIRST,
            Direction::Left => PLAYER_ATTACK_LEFT_FIRST,
        },
        _ => match dir {
            Direction::Down => PLAYER_WALK_DOWN_FIRST,
            Direction::Right => PLAYER_WALK_RIGHT_FIRST,
            Direction::Up => PLAYER_WALK_UP_FIRST,
            Direction::Left => PLAYER_WALK_LEFT_FIRST,
        },
    }
}

/// `i` is one of the four indices `first ..= first + 3`.
pub open spec fn in_range(i: int, first: int) -> bool {
    first <= i < first + FRAMES_PER_RANGE
}

/// The frame after `i` in the cycle that starts at `first`: an index from
/// elsewhere restarts the cycle, and an index that reaches the cycle's last
/// one wraps to its first.
pub open spec fn next_frame(first: int, i: int) -> int {
    if !in_range(i, first) {
        first
    } else if i + 1 >= first + FRAMES_PER_RANGE - 1 {
        first
    } else {
        i + 1
    }
}

/// The sheet for a state.
pub fn atlas_for(state: PlayerState) -> (r: AtlasKind)
    ensures
        r == atlas_of(state),
{
    match state {
        PlayerState::Attacking => AtlasKind::Attack,
        _ => AtlasKind::Walk,
    }
}

/// First index of the cycle for a state and facing.
pub fn frame_range_first(state: PlayerState, dir: Direction) -> (r: usize)
    ensures
        r == range_first(state, dir),
        r + FRAMES_PER_RANGE <= 16,
{
    match state {
        PlayerState::Attacking => match dir {
            Direction::Down => PLAYER_ATTACK_DOWN_FIRST,
            Direction::Up => PLAYER_ATTACK_UP_FIRST,
            Direction::Right => PLAYER_ATTACK_RIGHT_FIRST,
            Direction::Left => PLAYER_ATTACK_LEFT_FIRST,
        },
        _ => match dir {
            Direction::Down => PLAYER_WALK_DOWN_FIRST,
            Direction::Right => PLAYER_WALK_RIGHT_FIRST,
            Direction::Up => PLAYER_WALK_UP_FIRST,
            Direction::Left => PLAYER_WALK_LEFT_FIRST,
        },
    }
}

/// The frame that follows `index` in the cycle starting at `first`.
pub fn advance_frame(first: usize, index: usize) -> (r: usize)
    requires
        first + FRAMES_PER_RANGE <= usize::MAX,
    ensures
        r == next_frame(first as int, index as int),
{
    if index < first || index >= first + FRAMES_PER_RANGE {
        first
    } else if index + 1 >= first + FRAMES_PER_RANGE - 1 {
        first
    } else {
        index + 1
    }
}

/// The animated sprite of the player.
#[derive(Clone, Copy, Debug, PartialEq, Eq, Structural)]
pub struct SpriteAnimation {
    /// Repeating frame timer.
    pub timer: Timer,
    /// Current index in the atlas.
    pub index: usize,
    pub atlas: AtlasKind,
}

impl SpriteAnimation {
    pub open spec fn wf(self) -> bool {
        &&& self.timer.wf()
        &&& self.timer.repeating
        &&& self.timer.duration_us == FRAME_DURATION_US
    }

    /// The first walking frame facing down, with a fresh frame timer.
    pub fn new() -> (r: SpriteAnimation)
        ensures
            r.wf(),
            r.index == PLAYER_WALK_DOWN_FIRST,
            r.atlas == AtlasKind::Walk,
            r.timer.elapsed_us == 0,
    {
        SpriteAnimation {
            timer: Timer::new(FRAME_DURATION_US, true),
            index: PLAYER_WALK_DOWN_FIRST,
            atlas: AtlasKind::Walk,
        }
    }
}

/// One tick of the animation for the given state and facing.
pub open spec fn animate_step(a: SpriteAnimation, state: PlayerState, dir: Direction, delta_us: u64) -> SpriteAnimation {
    let first = range_first(state, dir);
    let atlas = atlas_of(state);
    if state == PlayerState::Idle {
        SpriteAnimation { index: first, atlas, ..a }
    } else {
        let t = a.timer.ticked(delta_us);
        if t.just_finished {
            SpriteAnimation { timer: t, index: next_frame(first as int, a.index as int) as usize, atlas }
        } else {
            SpriteAnimation { timer: t, index: a.index, atlas }
        }
    }
}

/// Picks the sheet and cycle for the state and facing. Idle shows the
/// cycle's first frame and leaves the timer alone; otherwise the timer runs
/// and each time it fires the frame moves on.
pub fn animate_player_sprite_system(
    anim: &mut SpriteAnimation,
    direction: &ObjectDirection,
    state: PlayerState,
    delta_us: u64,
)
    requires
        old(anim).wf(),
    ensures
        final(anim).wf(),
        *final(anim) == animate_step(*old(anim), state, direction.current_direction, delta_us),
{
    let dir = direction.current_direction;
    let first = frame_range_first(state, dir);
    anim.atlas = atlas_for(state);
    if state == PlayerState::Idle {
        anim.index = first;
        return;
    }
    anim.timer.tick(delta_us);
    if anim.timer.just_finished() {
        anim.index = advance_frame(first, anim.index);
    }
}

/// The frame index stays within the cycle of the state and facing: it is
/// there after any tick on which the player is Idle or the timer fires, and
/// a tick never moves it out once it is there. After a change of facing the
/// first firing lands on the new cycle's first frame.
pub proof fn lemma_frame_in_range(a: SpriteAnimation, state: PlayerState, dir: Direction, delta_us: u64)
    requires
        a.wf(),
    ensures
        ({
            let b = animate_step(a, state, dir, delta_us);
            &&& (state == PlayerState::Idle || b.timer.just_finished)
                ==> in_range(b.index as int, range_first(state, dir) as int)
            &&& in_range(a.index as int, range_first(state, dir) as int)
                ==> in_range(b.index as int, range_first(state, dir) as int)
            &&& (!in_range(a.index as int, range_first(state, dir) as int) && b.timer.just_finished)
                ==> b.index == range_first(state, dir)
        }),
{
}

/// Advancing from any frame of a cycle stays in the cycle, and advancing
/// from its last frame gives its first, never the index after it.
pub proof fn lemma_frame_wraps(first: int, i: int)
    requires
        first >= 0,
        in_range(i, first),
    ensures
        in_range(next_frame(first, i), first),
        i == first + FRAMES_PER_RANGE - 1 ==> next_frame(first, i) == first,
        next_frame(first, i) != first + FRAMES_PER_RANGE,
{
}

} // verus!
