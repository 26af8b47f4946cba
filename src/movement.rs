use vstd::prelude::*;
use crate::direction::{Direction, IVec2};

verus! {

/// The movement and attack keys as sampled on one tick.
#[derive(Clone, Copy, Debug, PartialEq, Eq, Structural)]
pub struct KeyInput {
    pub left: bool,
    pub right: bool,
    pub up: bool,
    pub down: bool,
    /// The attack key went down on this very tick.
    pub attack_just_pressed: bool,
}

/// The direction of motion as an axis vector `(x, y)`, each part -1, 0 or 1.
/// The velocity it stands for is that vector scaled to length 1, or zero
/// when both parts are 0.
#[derive(Clone, Copy, Debug, PartialEq, Eq, Structural)]
pub struct Velocity {
    pub x: i64,
    pub y: i64,
}

/// Settings of an entity that the movement integrator moves.
#[derive(Clone, Copy, Debug, PartialEq, Eq, Structural)]
pub struct Movable {
    /// Pixels per second.
    pub speed: u64,
    pub auto_despawn: bool,
}

pub open spec fn is_axis(c: int) -> bool {
    -1 <= c <= 1
}

impl Velocity {
    pub open spec fn wf(self) -> bool {
        is_axis(self.x as int) && is_axis(self.y as int)
    }

    pub open spec fn is_zero(self) -> bool {
        self.x == 0 && self.y == 0
    }

    /// Squared length of the axis vector; the velocity is the axis vector
    /// divided by the square root of this.
    pub open spec fn axis_len_sq(self) -> int {
        self.x * self.x + self.y * self.y
    }

    /// Squared length of the velocity, as numerator and denominator.
    pub open spec fn magnitude_sq(self) -> (int, int) {
        if self.is_zero() {
            (0, 1)
        } else {
            (self.x * self.x + self.y * self.y, self.axis_len_sq())
        }
    }

    /// The velocity of an entity at rest.
    pub fn zero() -> (r: Velocity)
        ensures
            r.wf(),
            r.is_zero(),
    {
        Velocity { x: 0, y: 0 }
    }

    pub fn is_moving(&self) -> (r: bool)
        ensures
            r == !self.is_zero(),
    {
        self.x != 0 || self.y != 0
    }
}

/// Horizontal part of the velocity: left wins over right.
pub open spec fn axis_x_of(k: KeyInput) -> int {
    if k.left { -1 } else if k.right { 1 } else { 0 }
}

/// Vertical part of the velocity: up wins over down.
pub open spec fn axis_y_of(k: KeyInput) -> int {
    if k.up { 1 } else if k.down { -1 } else { 0 }
}

pub open spec fn velocity_of(k: KeyInput) -> Velocity {
    Velocity { x: axis_x_of(k) as i64, y: axis_y_of(k) as i64 }
}

/// The facing after this tick's keys: a held vertical key decides, else a
/// held horizontal key, else the facing stays as it was. On each axis the
/// same key wins as for the velocity.
pub open spec fn facing_of(k: KeyInput, before: Direction) -> Direction {
    if k.up {
        Direction::Up
    } else if k.down {
        Direction::Down
    } else if k.left {
        Direction::Left
    } else if k.right {
        Direction::Right
    } else {
        before
    }
}

/// Turns the held keys into a velocity and a facing.
pub fn resolve_velocity(keys: &KeyInput, before: Direction) -> (r: (Velocity, Direction))
    ensures
        r.0 == velocity_of(*keys),
        r.0.wf(),
        r.1 == facing_of(*keys, before),
{
    let mut facing = before;
    let x: i64 = if keys.left {
        facing = Direction::Left;
        -1
    } else if keys.right {
        facing = Direction::Right;
        1
    } else {
        0
    };
    let y: i64 = if keys.up {
        facing = Direction::Up;
        1
    } else if keys.down {
        facing = Direction::Down;
        -1
    } else {
        0
    };
    (Velocity { x, y }, facing)
}

/// The resolved velocity is zero or of length exactly 1, whatever keys are held.
pub proof fn lemma_velocity_unit_or_zero(keys: KeyInput)
    ensures
        velocity_of(keys).wf(),
        velocity_of(keys).is_zero() ==> velocity_of(keys).magnitude_sq() == (0int, 1int),
        !velocity_of(keys).is_zero() ==> {
            let (num, den) = velocity_of(keys).magnitude_sq();
            num == den && den > 0
        },
{
    let v = velocity_of(keys);
    if !v.is_zero() {
        assert(v.x * v.x + v.y * v.y > 0) by (nonlinear_arith)
            requires
                -1 <= v.x <= 1,
                -1 <= v.y <= 1,
                v.x != 0 || v.y != 0;
    }
}

/// Largest `r` with `r * r <= n`.
pub fn isqrt(n: u128) -> (r: u64)
    ensures
        r * r <= n,
        n < (r + 1) * (r + 1),
{
    let mut lo: u128 = 0;
    let mut hi: u128 = 0x1_0000_0000_0000_0000;
    assert(hi * hi > u128::MAX) by (nonlinear_arith)
        requires hi == 0x1_0000_0000_0000_0000u128;
    while hi - lo > 1
        invariant
            lo < hi <= 0x1_0000_0000_0000_0000u128,
            lo * lo <= n,
            n < hi * hi,
        decreases hi - lo,
    {
        let mid: u128 = lo + (hi - lo) / 2;
        assert(mid * mid <= (hi - 1) * (hi - 1)) by (nonlinear_arith)
            requires lo < mid < hi;
        assert((hi - 1) * (hi - 1) <= 0xFFFF_FFFF_FFFF_FFFFu128 * 0xFFFF_FFFF_FFFF_FFFFu128)
            by (nonlinear_arith)
            requires 1 <= hi <= 0x1_0000_0000_0000_0000u128;
        if mid * mid <= n {
            lo = mid;
        } else {
            hi = mid;
        }
    }
    lo as u64
}

pub open spec fn abs(a: int) -> int {
    if a < 0 { -a } else { a }
}

/// `d` is the distance `s` along the unit vector `(c, ...) / sqrt(n)`,
/// projected on one axis and rounded toward zero.
pub open spec fn is_axis_step(d: int, c: int, n: int, s: int) -> bool {
    if n == 0 {
        d == 0
    } else {
        &&& d * c >= 0
        &&& d * d * n <= s * s * (c * c)
        &&& s * s * (c * c) < (abs(d) + 1) * (abs(d) + 1) * n
    }
}

/// Displacement along one axis after moving `s` units at velocity `v`.
fn axis_step(c: i64, n: i64, s: u64) -> (d: i128)
    requires
        is_axis(c as int),
        n == 0 ==> c == 0,
        n == 1 || n == 2 || n == 0,
    ensures
        is_axis_step(d as int, c as int, n as int, s as int),
        abs(d as int) <= s,
{
    let ghost ss: int = (s as int) * (s as int);
    if c == 0 {
        assert(ss * ((c as int) * (c as int)) == 0) by (nonlinear_arith)
            requires c == 0;
        assert(is_axis_step(0, c as int, n as int, s as int));
        0
    } else if n == 1 {
        assert((c as int) * (c as int) == 1) by (nonlinear_arith)
            requires c == 1 || c == -1;
        let d: i128 = if c > 0 { s as i128 } else { -(s as i128) };
        assert(d * d == (s as int) * (s as int)) by (nonlinear_arith)
            requires d == s || d == -s;
        assert(d * c >= 0) by (nonlinear_arith)
            requires (c == 1 && d == s) || (c == -1 && d == -s), s >= 0;
        assert(d * d * 1 == d * d);
        assert((abs(d as int) + 1) * (abs(d as int) + 1) > (s as int) * (s as int))
            by (nonlinear_arith)
            requires abs(d as int) == s, s >= 0;
        d
    } else {
        assert((c as int) * (c as int) == 1) by (nonlinear_arith)
            requires c == 1 || c == -1;
        assert((s as int) * (s as int) <= u128::MAX) by (nonlinear_arith)
            requires s <= u64::MAX;
        let sq: u128 = (s as u128) * (s as u128);
        let q: u128 = sq / 2;
        let m: u64 = isqrt(q);
        let ghost mi: int = m as int;
        assert(mi * mi * 2 <= sq) by (nonlinear_arith)
            requires mi * mi <= q, q * 2 <= sq;
        assert(sq < (mi + 1) * (mi + 1) * 2) by (nonlinear_arith)
            requires q < (mi + 1) * (mi + 1), sq <= q * 2 + 1;
        assert(mi <= s) by (nonlinear_arith)
            requires mi * mi * 2 <= (s as int) * (s as int), mi >= 0, s >= 0;
        let d: i128 = if c > 0 { m as i128 } else { -(m as i128) };
        assert(d * d == mi * mi) by (nonlinear_arith)
            requires d == mi || d == -mi;
        assert(d * c >= 0) by (nonlinear_arith)
            requires (c == 1 && d == mi) || (c == -1 && d == -mi), mi >= 0;
        assert(abs(d as int) == mi);
        assert(sq == ss);
        assert(is_axis_step(d as int, c as int, n as int, s as int));
        d
    }
}

/// The spot reached from `pos` after moving `s` position units at `v`.
pub open spec fn moved(pos: IVec2, v: Velocity, s: int, to: IVec2) -> bool {
    &&& is_axis_step(to.x - pos.x, v.x as int, v.axis_len_sq(), s)
    &&& is_axis_step(to.y - pos.y, v.y as int, v.axis_len_sq(), s)
}

/// The velocity has length 1 in the integrator too: moving `s` units at a
/// non-zero velocity covers a distance of at most `s`, short of it only by
/// the rounding toward zero on each axis; at zero velocity nothing moves.
pub proof fn lemma_step_has_unit_speed(pos: IVec2, v: Velocity, s: int, to: IVec2)
    requires
        v.wf(),
        s >= 0,
        moved(pos, v, s, to),
    ensures
        ({
            let dx = to.x - pos.x;
            let dy = to.y - pos.y;
            &&& v.is_zero() ==> dx == 0 && dy == 0
            &&& dx * dx + dy * dy <= s * s
            &&& !v.is_zero() ==> s * s < (abs(dx) + 1) * (abs(dx) + 1) + (abs(dy) + 1) * (abs(dy) + 1)
        }),
{
    let dx = to.x - pos.x;
    let dy = to.y - pos.y;
    let cx = v.x as int;
    let cy = v.y as int;
    let n = v.axis_len_sq();
    assert(n == cx * cx + cy * cy);
    if v.is_zero() {
        assert(n == 0) by (nonlinear_arith)
            requires n == cx * cx + cy * cy, cx == 0, cy == 0;
        assert(dx * dx + dy * dy <= s * s) by (nonlinear_arith)
            requires dx == 0, dy == 0;
    } else {
        assert(n > 0) by (nonlinear_arith)
            requires n == cx * cx + cy * cy, cx != 0 || cy != 0, -1 <= cx <= 1, -1 <= cy <= 1;
        let ax = (abs(dx) + 1) * (abs(dx) + 1);
        let ay = (abs(dy) + 1) * (abs(dy) + 1);
        assert((dx * dx + dy * dy) * n <= s * s * n) by (nonlinear_arith)
            requires
                dx * dx * n <= s * s * (cx * cx),
                dy * dy * n <= s * s * (cy * cy),
                n == cx * cx + cy * cy;
        assert(dx * dx + dy * dy <= s * s) by (nonlinear_arith)
            requires (dx * dx + dy * dy) * n <= s * s * n, n > 0;
        assert(s * s * n < (ax + ay) * n) by (nonlinear_arith)
            requires
                s * s * (cx * cx) < ax * n,
                s * s * (cy * cy) < ay * n,
                n == cx * cx + cy * cy;
        assert(s * s < ax + ay) by (nonlinear_arith)
            requires s * s * n < (ax + ay) * n, n > 0;
    }
}

/// Moves `pos` by velocity × speed × elapsed time. Positions count
/// millionths of a pixel, the speed pixels per second and the time
/// microseconds, so the distance covered is `speed * elapsed_us` exactly.
pub fn movable_system(pos: IVec2, v: Velocity, movable: Movable, elapsed_us: u64) -> (r: IVec2)
    requires
        v.wf(),
        movable.speed * elapsed_us <= u64::MAX,
        i64::MIN + movable.speed * elapsed_us <= pos.x <= i64::MAX - movable.speed * elapsed_us,
        i64::MIN + movable.speed * elapsed_us <= pos.y <= i64::MAX - movable.speed * elapsed_us,
    ensures
        moved(pos, v, movable.speed * elapsed_us, r),
{
    let s: u64 = movable.speed * elapsed_us;
    let n: i64 = (if v.x != 0 { 1i64 } else { 0i64 }) + (if v.y != 0 { 1i64 } else { 0i64 });
    assert(n == v.axis_len_sq()) by (nonlinear_arith)
        requires
            -1 <= v.x <= 1,
            -1 <= v.y <= 1,
            n == (if v.x != 0 { 1int } else { 0int }) + (if v.y != 0 { 1int } else { 0int });
    let dx: i128 = axis_step(v.x, n, s);
    let dy: i128 = axis_step(v.y, n, s);
    IVec2 { x: (pos.x as i128 + dx) as i64, y: (pos.y as i128 + dy) as i64 }
}

} // verus!
