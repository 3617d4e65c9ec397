use vstd::prelude::*;

use crate::configuration_properties::{DRAG_DENOMINATOR, DT_LIMIT, GRAVITY_LIMIT, VEL_LIMIT};
use crate::fixed::{
    div_trunc, lemma_div_trunc_bounds, lemma_mul_milli_exact, mul_milli, mul_milli_spec,
    FP_FACTOR_LIMIT,
};

verus! {

/// Vertical velocity after constant gravity acts for `dt` milliseconds:
/// the velocity loses `gravity * dt` (downward acceleration, unbounded —
/// there is no terminal velocity).
pub open spec fn apply_gravity_spec(vy: int, gravity: int, dt: int) -> int {
    vy - mul_milli_spec(gravity, dt)
}

pub fn apply_gravity(vy: i64, gravity: i64, dt: i64) -> (r: i64)
    requires
        -VEL_LIMIT <= vy <= VEL_LIMIT,
        0 <= gravity <= GRAVITY_LIMIT,
        0 <= dt <= DT_LIMIT,
    ensures
        r == apply_gravity_spec(vy as int, gravity as int, dt as int),
{
    proof {
        assert(gravity * dt <= 1_000_000_000_000) by (nonlinear_arith)
            requires
                0 <= gravity <= 1_000_000,
                0 <= dt <= 1_000_000,
        ;
    }
    let delta: i64 = mul_milli(gravity, dt);
    vy - delta
}

/// Horizontal velocity after one tick of air resistance: the velocity
/// loses the fraction `drag_numerator / DRAG_DENOMINATOR` of itself, once
/// per tick and not scaled by the tick's duration.
pub open spec fn apply_drag_spec(vx: int, drag_numerator: int) -> int {
    vx - div_trunc(vx * drag_numerator, DRAG_DENOMINATOR as int)
}

pub fn apply_drag(vx: i64, drag_numerator: i64) -> (r: i64)
    requires
        -FP_FACTOR_LIMIT <= vx <= FP_FACTOR_LIMIT,
        0 <= drag_numerator <= DRAG_DENOMINATOR,
    ensures
        r == apply_drag_spec(vx as int, drag_numerator as int),
{
    proof {
        assert(i64::MIN <= vx * drag_numerator <= i64::MAX) by (nonlinear_arith)
            requires
                -3_000_000_000 <= vx <= 3_000_000_000,
                0 <= drag_numerator <= 10_000,
        ;
        lemma_div_trunc_bounds(vx * drag_numerator, DRAG_DENOMINATOR as int);
    }
    let loss: i64 = (vx * drag_numerator) / DRAG_DENOMINATOR;
    vx - loss
}

/// The distance covered in `dt` milliseconds at constant velocity `v`.
pub open spec fn position_delta_spec(v: int, dt: int) -> int {
    mul_milli_spec(v, dt)
}

pub fn position_delta(v: i64, dt: i64) -> (r: i64)
    requires
        -FP_FACTOR_LIMIT <= v <= FP_FACTOR_LIMIT,
        0 <= dt <= DT_LIMIT,
    ensures
        r == position_delta_spec(v as int, dt as int),
{
    mul_milli(v, dt)
}

/// Vertical velocity of an unobstructed projectile after `n` ticks of
/// duration `dt`: gravity is applied once per tick.
pub open spec fn free_flight_velocity_y(vy0: int, gravity: int, dt: int, n: nat) -> int
    decreases n,
{
    if n == 0 {
        vy0
    } else {
        apply_gravity_spec(free_flight_velocity_y(vy0, gravity, dt, (n - 1) as nat), gravity, dt)
    }
}

/// Height of an unobstructed projectile after `n` ticks of duration `dt`:
/// each tick first integrates the velocity, then moves by it.
pub open spec fn free_flight_y(y0: int, vy0: int, gravity: int, dt: int, n: nat) -> int
    decreases n,
{
    if n == 0 {
        y0
    } else {
        free_flight_y(y0, vy0, gravity, dt, (n - 1) as nat) + mul_milli_spec(
            free_flight_velocity_y(vy0, gravity, dt, n),
            dt,
        )
    }
}

/// Horizontal position of an unobstructed projectile with zero drag after
/// `n` ticks: the horizontal velocity stays `vx0`.
pub open spec fn free_flight_x(x0: int, vx0: int, dt: int, n: nat) -> int
    decreases n,
{
    if n == 0 {
        x0
    } else {
        free_flight_x(x0, vx0, dt, (n - 1) as nat) + mul_milli_spec(vx0, dt)
    }
}

/// With zero drag the horizontal velocity never changes.
pub proof fn lemma_zero_drag_keeps_velocity(vx: int)
    ensures
        apply_drag_spec(vx, 0) == vx,
{
    assert(vx * 0 == 0);
}

/// Sum of the tick numbers 1 through `n`: the accumulated gravity steps a
/// falling body has taken after `n` ticks.
pub open spec fn tick_sum(n: nat) -> nat
    decreases n,
{
    if n == 0 {
        0
    } else {
        n + tick_sum((n - 1) as nat)
    }
}

/// The tick sum in closed form: twice `tick_sum(n)` is `n * (n + 1)`.
pub proof fn lemma_tick_sum_closed_form(n: nat)
    ensures
        2 * tick_sum(n) == n * (n + 1),
    decreases n,
{
    if n == 0 {
        assert(tick_sum(n) == 0);
        assert(n * (n + 1) == 0);
    } else {
        let m = (n - 1) as nat;
        lemma_tick_sum_closed_form(m);
        assert(2 * tick_sum(n) == n * (n + 1)) by (nonlinear_arith)
            requires
                2 * tick_sum(m) == m * (m + 1),
                tick_sum(n) == n + tick_sum(m),
                n == m + 1,
        ;
    }
}

/// Ballistic trajectory in closed form: for tick durations that are a
/// whole number of fixed-point steps (so the integration is exact), a
/// projectile under gravity `g` with zero drag sits, after `n` ticks of
/// `dt = 1000 * k` milliseconds, at the parabola
/// `y0 + n*k*vy0 - g*k*k*tick_sum(n)` with `x0 + n*k*vx0`, where
/// `2 * tick_sum(n) == n * (n + 1)`. Against the continuous parabola
/// `vy0*t - g*t*t/2` at `t = n*k` seconds, the discrete trajectory is low
/// by exactly `g*k*k*n/2`: one gravity step of lead per tick, the
/// tolerance of the fixed per-tick stepping. A shot fired at 45 degrees
/// is the case `vx0 == vy0`.
pub proof fn lemma_ballistic_parabola(
    x0: int,
    y0: int,
    vx0: int,
    vy0: int,
    gravity: int,
    dt: int,
    n: nat,
)
    requires
        dt % 1000 == 0,
        dt >= 0,
    ensures
        free_flight_velocity_y(vy0, gravity, dt, n) == vy0 - n * (gravity * (dt / 1000)),
        free_flight_y(y0, vy0, gravity, dt, n) == y0 + n * ((dt / 1000) * vy0) - (gravity * ((dt
            / 1000) * (dt / 1000))) * tick_sum(n),
        free_flight_x(x0, vx0, dt, n) == x0 + n * ((dt / 1000) * vx0),
    decreases n,
{
    let k = dt / 1000;
    lemma_mul_milli_exact(gravity, dt);
    assert(mul_milli_spec(gravity, dt) == gravity * k);
    if n == 0 {
        assert(tick_sum(n) == 0);
        assert(free_flight_y(y0, vy0, gravity, dt, n) == y0 + n * (k * vy0) - (gravity * (k * k))
            * tick_sum(n)) by (nonlinear_arith)
            requires
                n == 0,
                free_flight_y(y0, vy0, gravity, dt, n) == y0,
                tick_sum(n) == 0,
        ;
    } else {
        let m = (n - 1) as nat;
        lemma_ballistic_parabola(x0, y0, vx0, vy0, gravity, dt, m);
        let vym = free_flight_velocity_y(vy0, gravity, dt, m);
        let vyn = free_flight_velocity_y(vy0, gravity, dt, n);
        assert(vyn == vym - gravity * k);
        assert(vyn == vy0 - n * (gravity * k)) by (nonlinear_arith)
            requires
                vym == vy0 - m * (gravity * k),
                vyn == vym - gravity * k,
                n == m + 1,
        ;
        lemma_mul_milli_exact(vyn, dt);
        assert(mul_milli_spec(vyn, dt) == vyn * k);
        lemma_mul_milli_exact(vx0, dt);
        assert(free_flight_x(x0, vx0, dt, n) == x0 + n * (k * vx0)) by (nonlinear_arith)
            requires
                free_flight_x(x0, vx0, dt, n) == free_flight_x(x0, vx0, dt, m) + vx0 * k,
                free_flight_x(x0, vx0, dt, m) == x0 + m * (k * vx0),
                n == m + 1,
        ;
        let ym = free_flight_y(y0, vy0, gravity, dt, m);
        let yn = free_flight_y(y0, vy0, gravity, dt, n);
        assert(yn == ym + vyn * k);
        assert(yn == y0 + n * (k * vy0) - (gravity * (k * k)) * tick_sum(n)) by (nonlinear_arith)
            requires
                yn == ym + vyn * k,
                ym == y0 + m * (k * vy0) - (gravity * (k * k)) * tick_sum(m),
                vyn == vy0 - n * (gravity * k),
                n == m + 1,
                tick_sum(n) == n + tick_sum(m),
        ;
    }
}

} // verus!
