use vstd::prelude::*;

use crate::geometry::Vec2;

verus! {

/// Largest magnitude allowed for a velocity, acceleration or speed component.
pub const MOTION_LIMIT: i64 = 4294967296;

/// Divisor applied to an acceleration before it is added to a velocity
/// (an acceleration nudges the velocity by a tenth of itself each tick).
pub const ACCEL_DIVISOR: i64 = 10;

/// Damping is expressed in thousandths of the velocity lost per tick.
pub const DAMPING_ONE: i64 = 1000;

/// Division that rounds toward zero, as integer division does on machines.
pub open spec fn trunc_div(a: int, b: int) -> int {
    if a >= 0 {
        a / b
    } else {
        -((-a) / b)
    }
}

/// Physical state of a moving entity.
#[derive(Clone, Copy, Debug, PartialEq, Eq, Structural)]
pub struct Movement {
    pub acceleration: Vec2,
    pub velocity: Vec2,
    /// Thousandths of the velocity lost on a tick without acceleration.
    pub damping: i64,
    pub max_speed: i64,
}

pub open spec fn within_limit(v: i64) -> bool {
    -MOTION_LIMIT <= v <= MOTION_LIMIT
}

/// `r` is the smallest natural number whose square reaches `s`.
pub open spec fn is_ceil_sqrt(s: int, r: int) -> bool {
    r >= 0 && r * r >= s && (r == 0 || (r - 1) * (r - 1) < s)
}

pub open spec fn ceil_sqrt(s: int) -> int {
    choose|r: int| is_ceil_sqrt(s, r)
}

/// Velocity after the acceleration nudge or, without acceleration, after damping.
pub open spec fn nudged_velocity(m: Movement) -> (int, int) {
    if m.acceleration.x != 0 || m.acceleration.y != 0 {
        (
            m.velocity.x + trunc_div(m.acceleration.x as int, ACCEL_DIVISOR as int),
            m.velocity.y + trunc_div(m.acceleration.y as int, ACCEL_DIVISOR as int),
        )
    } else {
        (
            trunc_div(m.velocity.x * (DAMPING_ONE - m.damping), DAMPING_ONE as int),
            trunc_div(m.velocity.y * (DAMPING_ONE - m.damping), DAMPING_ONE as int),
        )
    }
}

/// A velocity longer than `max` rescaled to length `max`, keeping its direction.
pub open spec fn speed_limited(vx: int, vy: int, max: int) -> (int, int) {
    let s = vx * vx + vy * vy;
    if s > max * max {
        let l = ceil_sqrt(s);
        (trunc_div(vx * max, l), trunc_div(vy * max, l))
    } else {
        (vx, vy)
    }
}

/// Velocity after one integrator step.
pub open spec fn stepped_velocity(m: Movement) -> (int, int) {
    let n = nudged_velocity(m);
    speed_limited(n.0, n.1, m.max_speed as int)
}

/// `a` held to the range of `i64`.
pub open spec fn saturated(a: int) -> int {
    if a > i64::MAX {
        i64::MAX as int
    } else if a < i64::MIN {
        i64::MIN as int
    } else {
        a
    }
}

impl Movement {
    /// Components and parameters within the ranges the integrator handles.
    pub open spec fn wf(self) -> bool {
        &&& within_limit(self.acceleration.x)
        &&& within_limit(self.acceleration.y)
        &&& within_limit(self.velocity.x)
        &&& within_limit(self.velocity.y)
        &&& 0 <= self.max_speed <= MOTION_LIMIT
        &&& 0 <= self.damping <= DAMPING_ONE
    }

    pub fn is_wf(&self) -> (r: bool)
        ensures
            r == self.wf(),
    {
        let l = MOTION_LIMIT;
        -l <= self.acceleration.x && self.acceleration.x <= l && -l <= self.acceleration.y
            && self.acceleration.y <= l && -l <= self.velocity.x && self.velocity.x <= l && -l
            <= self.velocity.y && self.velocity.y <= l && 0 <= self.max_speed && self.max_speed
            <= l && 0 <= self.damping && self.damping <= DAMPING_ONE
    }
}

fn trunc_div_exec(a: i128, b: i128) -> (r: i128)
    requires
        b > 0,
        a > i128::MIN,
    ensures
        r == trunc_div(a as int, b as int),
{
    if a >= 0 {
        a / b
    } else {
        -((-a) / b)
    }
}

pub(crate) proof fn lemma_trunc_div_bound(a: int, b: int)
    requires
        b > 0,
    ensures
        trunc_div(a, b) * b <= a || a < 0,
        (a >= 0 ==> 0 <= trunc_div(a, b) <= a),
        (a < 0 ==> a <= trunc_div(a, b) <= 0),
        (a >= 0 ==> trunc_div(a, b) * b <= a),
        (a < 0 ==> trunc_div(a, b) * b >= a),
{
    if a >= 0 {
        assert(0 <= a / b) by (nonlinear_arith) requires a >= 0, b > 0;
        assert(a / b <= a) by (nonlinear_arith) requires a >= 0, b > 0;
        assert((a / b) * b <= a) by (nonlinear_arith) requires a >= 0, b > 0;
    } else {
        let na = -a;
        assert(0 <= na / b) by (nonlinear_arith) requires na >= 0, b > 0;
        assert(na / b <= na) by (nonlinear_arith) requires na >= 0, b > 0;
        assert((na / b) * b <= na) by (nonlinear_arith) requires na >= 0, b > 0;
        assert(-(na / b) * b == -((na / b) * b)) by (nonlinear_arith);
    }
}

/// The smallest `r` with `r * r >= s`.
fn ceil_sqrt_exec(s: i128) -> (r: i128)
    requires
        0 <= s <= 0x10_0000_0000_0000_0000,
    ensures
        is_ceil_sqrt(s as int, r as int),
        r <= 0x4_0000_0000,
{
    let mut lo: i128 = 0;
    let mut hi: i128 = 0x4_0000_0000;
    assert(hi * hi >= s);
    while lo < hi
        invariant
            0 <= lo <= hi <= 0x4_0000_0000,
            hi * hi >= s,
            lo == 0 || (lo - 1) * (lo - 1) < s,
        decreases hi - lo,
    {
        let mid = lo + (hi - lo) / 2;
        assert(mid * mid <= 0x10_0000_0000_0000_0000) by (nonlinear_arith)
            requires 0 <= mid <= 0x4_0000_0000;
        if mid * mid >= s {
            hi = mid;
        } else {
            lo = mid + 1;
        }
    }
    lo
}

proof fn lemma_ceil_sqrt_unique(s: int, r: int)
    requires
        is_ceil_sqrt(s, r),
    ensures
        ceil_sqrt(s) == r,
{
    let c = ceil_sqrt(s);
    assert(is_ceil_sqrt(s, c));
    if c < r {
        assert(c * c <= (r - 1) * (r - 1)) by (nonlinear_arith)
            requires 0 <= c, c <= r - 1;
    } else if r < c {
        assert(r * r <= (c - 1) * (c - 1)) by (nonlinear_arith)
            requires 0 <= r, r <= c - 1;
    }
}


proof fn lemma_component_scaled(n: int, f: int, max: int, l: int)
    requires
        max >= 0,
        l > 0,
        (n * max >= 0 ==> 0 <= f && f * l <= n * max),
        (n * max < 0 ==> f <= 0 && f * l >= n * max),
    ensures
        f * f * (l * l) <= n * n * (max * max),
{
    let a = if f >= 0 { f * l } else { -(f * l) };
    let b = if n * max >= 0 { n * max } else { -(n * max) };
    assert(f >= 0 ==> f * l >= 0) by (nonlinear_arith) requires l > 0;
    assert(f < 0 ==> f * l < 0) by (nonlinear_arith) requires l > 0;
    assert(0 <= a <= b);
    assert(a * a <= b * b) by (nonlinear_arith) requires 0 <= a <= b;
    assert(a * a == f * f * (l * l)) by (nonlinear_arith)
        requires a == f * l || a == -(f * l);
    assert(b * b == n * n * (max * max)) by (nonlinear_arith)
        requires b == n * max || b == -(n * max);
}

proof fn lemma_rescaled_within(nx: int, ny: int, max: int, l: int, fx: int, fy: int)
    requires
        max >= 0,
        l > 0,
        l * l >= nx * nx + ny * ny,
        fx * fx * (l * l) <= nx * nx * (max * max),
        fy * fy * (l * l) <= ny * ny * (max * max),
    ensures
        fx * fx + fy * fy <= max * max,
{
    let ll = l * l;
    let mm = max * max;
    assert(ll > 0) by (nonlinear_arith) requires l > 0, ll == l * l;
    assert(mm >= 0) by (nonlinear_arith) requires max >= 0, mm == max * max;
    assert((fx * fx + fy * fy) * ll <= (nx * nx + ny * ny) * mm) by (nonlinear_arith)
        requires
            fx * fx * ll <= nx * nx * mm,
            fy * fy * ll <= ny * ny * mm;
    assert((nx * nx + ny * ny) * mm <= ll * mm) by (nonlinear_arith)
        requires
            ll >= nx * nx + ny * ny,
            mm >= 0;
    assert(fx * fx + fy * fy <= mm) by (nonlinear_arith)
        requires
            (fx * fx + fy * fy) * ll <= ll * mm,
            ll > 0;
}

proof fn lemma_square_bound(v: int, s: int, max: int)
    requires
        max >= 0,
        v * v <= s,
        s <= max * max,
    ensures
        -max <= v <= max,
{
    if v > max {
        assert(v * v > max * max) by (nonlinear_arith) requires v > max, max >= 0;
    }
    if v < -max {
        assert(v * v > max * max) by (nonlinear_arith) requires v < -max, max >= 0;
    }
}

/// The speed clamp: rescales a velocity longer than `max` to length `max`.
fn limit_speed(nx: i128, ny: i128, max: i128) -> (r: (i128, i128))
    requires
        -0x2_0000_0000 <= nx <= 0x2_0000_0000,
        -0x2_0000_0000 <= ny <= 0x2_0000_0000,
        0 <= max <= MOTION_LIMIT,
    ensures
        r.0 == speed_limited(nx as int, ny as int, max as int).0,
        r.1 == speed_limited(nx as int, ny as int, max as int).1,
        r.0 * r.0 + r.1 * r.1 <= max * max,
{
    assert(nx * nx <= 0x4_0000_0000_0000_0000) by (nonlinear_arith)
        requires -0x2_0000_0000 <= nx <= 0x2_0000_0000;
    assert(ny * ny <= 0x4_0000_0000_0000_0000) by (nonlinear_arith)
        requires -0x2_0000_0000 <= ny <= 0x2_0000_0000;
    assert(nx * nx >= 0 && ny * ny >= 0) by (nonlinear_arith);
    assert(max * max <= 0x1_0000_0000_0000_0000) by (nonlinear_arith)
        requires 0 <= max <= MOTION_LIMIT;
    let s = nx * nx + ny * ny;
    if s > max * max {
        let l = ceil_sqrt_exec(s);
        proof {
            lemma_ceil_sqrt_unique(s as int, l as int);
            assert(max * max >= 0) by (nonlinear_arith) requires max >= 0;
            assert(l > 0);
        }
        assert(-0x2_0000_0000 * MOTION_LIMIT <= nx * max <= 0x2_0000_0000 * MOTION_LIMIT)
            by (nonlinear_arith)
            requires -0x2_0000_0000 <= nx <= 0x2_0000_0000, 0 <= max <= MOTION_LIMIT;
        assert(-0x2_0000_0000 * MOTION_LIMIT <= ny * max <= 0x2_0000_0000 * MOTION_LIMIT)
            by (nonlinear_arith)
            requires -0x2_0000_0000 <= ny <= 0x2_0000_0000, 0 <= max <= MOTION_LIMIT;
        let fx = trunc_div_exec(nx * max, l);
        let fy = trunc_div_exec(ny * max, l);
        proof {
            lemma_trunc_div_bound(nx * max, l as int);
            lemma_trunc_div_bound(ny * max, l as int);
            lemma_component_scaled(nx as int, fx as int, max as int, l as int);
            lemma_component_scaled(ny as int, fy as int, max as int, l as int);
            lemma_rescaled_within(nx as int, ny as int, max as int, l as int, fx as int, fy as int);
        }
        (fx, fy)
    } else {
        (nx, ny)
    }
}


/// Velocity after the acceleration nudge or the damping, before the clamp.
fn nudge(m: &Movement) -> (r: (i128, i128))
    requires
        m.wf(),
    ensures
        r.0 == nudged_velocity(*m).0,
        r.1 == nudged_velocity(*m).1,
        -0x2_0000_0000 <= r.0 <= 0x2_0000_0000,
        -0x2_0000_0000 <= r.1 <= 0x2_0000_0000,
{
    let vx = m.velocity.x as i128;
    let vy = m.velocity.y as i128;
    if m.acceleration.x != 0 || m.acceleration.y != 0 {
        let dx = trunc_div_exec(m.acceleration.x as i128, ACCEL_DIVISOR as i128);
        let dy = trunc_div_exec(m.acceleration.y as i128, ACCEL_DIVISOR as i128);
        proof {
            lemma_trunc_div_bound(m.acceleration.x as int, ACCEL_DIVISOR as int);
            lemma_trunc_div_bound(m.acceleration.y as int, ACCEL_DIVISOR as int);
        }
        (vx + dx, vy + dy)
    } else {
        let keep = (DAMPING_ONE - m.damping) as i128;
        assert(-MOTION_LIMIT * DAMPING_ONE <= vx * keep <= MOTION_LIMIT * DAMPING_ONE)
            by (nonlinear_arith)
            requires -MOTION_LIMIT <= vx <= MOTION_LIMIT, 0 <= keep <= DAMPING_ONE;
        assert(-MOTION_LIMIT * DAMPING_ONE <= vy * keep <= MOTION_LIMIT * DAMPING_ONE)
            by (nonlinear_arith)
            requires -MOTION_LIMIT <= vy <= MOTION_LIMIT, 0 <= keep <= DAMPING_ONE;
        let dx = trunc_div_exec(vx * keep, DAMPING_ONE as i128);
        let dy = trunc_div_exec(vy * keep, DAMPING_ONE as i128);
        proof {
            lemma_trunc_div_bound(vx * keep, DAMPING_ONE as int);
            lemma_trunc_div_bound(vy * keep, DAMPING_ONE as int);
        }
        (dx, dy)
    }
}

/// `v` held to the range of `i64`.
pub(crate) fn saturate(v: i128) -> (r: i64)
    ensures
        r == saturated(v as int),
{
    if v > i64::MAX as i128 {
        i64::MAX
    } else if v < i64::MIN as i128 {
        i64::MIN
    } else {
        v as i64
    }
}

/// One integrator step on an entity's movement and position: the velocity is
/// nudged by a tenth of the acceleration, or damped when there is none, then
/// held to `max_speed`, and the position advances by the new velocity.
pub fn integrate(movement: &mut Movement, translation: &mut Vec2)
    requires
        old(movement).wf(),
    ensures
        final(movement).wf(),
        final(movement).acceleration == old(movement).acceleration,
        final(movement).damping == old(movement).damping,
        final(movement).max_speed == old(movement).max_speed,
        final(movement).velocity.x == stepped_velocity(*old(movement)).0,
        final(movement).velocity.y == stepped_velocity(*old(movement)).1,
        final(movement).velocity.length_sq() <= old(movement).max_speed * old(movement).max_speed,
        final(translation).x == saturated(old(translation).x + final(movement).velocity.x),
        final(translation).y == saturated(old(translation).y + final(movement).velocity.y),
{
    let n = nudge(movement);
    let max = movement.max_speed as i128;
    let v = limit_speed(n.0, n.1, max);
    proof {
        assert(v.0 * v.0 >= 0 && v.1 * v.1 >= 0) by (nonlinear_arith);
        lemma_square_bound(v.0 as int, max * max, max as int);
        lemma_square_bound(v.1 as int, max * max, max as int);
    }
    movement.velocity = Vec2 { x: v.0 as i64, y: v.1 as i64 };
    translation.x = saturate(translation.x as i128 + v.0);
    translation.y = saturate(translation.y as i128 + v.1);
}


/// A body with neither acceleration nor damping, moving no faster than its
/// speed limit, keeps exactly the same velocity through an integrator step.
pub proof fn lemma_undamped_velocity_kept(m: Movement)
    requires
        m.wf(),
        m.acceleration.x == 0,
        m.acceleration.y == 0,
        m.damping == 0,
        m.velocity.length_sq() <= m.max_speed * m.max_speed,
    ensures
        stepped_velocity(m).0 == m.velocity.x,
        stepped_velocity(m).1 == m.velocity.y,
{
    let vx = m.velocity.x as int;
    let vy = m.velocity.y as int;
    assert((vx * 1000) / 1000 == vx) by (nonlinear_arith);
    assert((-(vx * 1000)) / 1000 == -vx) by (nonlinear_arith);
    assert((vy * 1000) / 1000 == vy) by (nonlinear_arith);
    assert((-(vy * 1000)) / 1000 == -vy) by (nonlinear_arith);
    assert(vx < 0 ==> vx * 1000 < 0) by (nonlinear_arith);
    assert(vx >= 0 ==> vx * 1000 >= 0) by (nonlinear_arith);
    assert(vy < 0 ==> vy * 1000 < 0) by (nonlinear_arith);
    assert(vy >= 0 ==> vy * 1000 >= 0) by (nonlinear_arith);
    assert(trunc_div(vx * 1000, 1000) == vx);
    assert(trunc_div(vy * 1000, 1000) == vy);
}


pub(crate) proof fn lemma_ceil_sqrt_from(s: int, r: int)
    requires
        s >= 0,
        r >= 0,
        r == 0 || (r - 1) * (r - 1) < s,
    ensures
        is_ceil_sqrt(s, ceil_sqrt(s)),
    decreases s - r,
{
    if r * r >= s {
        assert(is_ceil_sqrt(s, r));
    } else {
        if r >= 1 {
            assert(r <= r * r) by (nonlinear_arith) requires r >= 1;
        }
        lemma_ceil_sqrt_from(s, r + 1);
    }
}

/// For every movement state, the velocity after one integrator step is no
/// longer than `max_speed`.
pub proof fn lemma_stepped_within_limit(m: Movement)
    requires
        m.wf(),
    ensures
        stepped_velocity(m).0 * stepped_velocity(m).0 + stepped_velocity(m).1 * stepped_velocity(
            m,
        ).1 <= m.max_speed * m.max_speed,
{
    let n = nudged_velocity(m);
    let max = m.max_speed as int;
    let s = n.0 * n.0 + n.1 * n.1;
    if s > max * max {
        assert(n.0 * n.0 >= 0 && n.1 * n.1 >= 0) by (nonlinear_arith);
        lemma_ceil_sqrt_from(s, 0);
        let l = ceil_sqrt(s);
        assert(max * max >= 0) by (nonlinear_arith) requires max >= 0;
        if l == 0 {
            assert(l * l == 0);
        }
        lemma_trunc_div_bound(n.0 * max, l);
        lemma_trunc_div_bound(n.1 * max, l);
        lemma_component_scaled(n.0, trunc_div(n.0 * max, l), max, l);
        lemma_component_scaled(n.1, trunc_div(n.1 * max, l), max, l);
        lemma_rescaled_within(n.0, n.1, max, l, trunc_div(n.0 * max, l), trunc_div(n.1 * max, l));
    }
}

} // verus!
