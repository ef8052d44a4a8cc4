//! Fixed-point units and the two arithmetic primitives of the simulation.
//!
//! Positions are in millionths of a world unit, speeds in thousandths of a
//! world unit per second, and elapsed time in milliseconds.  Moving at
//! `speed` for `dt` milliseconds with the half factor of the motion rule
//! displaces an entity by `speed * dt / 2` position units, rounded toward
//! zero.

use vstd::prelude::*;
use vstd::arithmetic::div_mod::lemma_div_is_ordered;

verus! {

/// Highest vertical position a paddle or the ball may occupy (0.763 units).
pub const Y_LIMIT: i64 = 763_000;

/// Depth beyond which the ball is past a paddle (1.445 units).
pub const Z_LIMIT: i64 = 1_445_000;

/// Speed every entity starts with (1.0 units per second).
pub const BASE_SPEED: i64 = 1_000;

/// Depth offset of each paddle from the centre line (1.2 units).
pub const PADDLE_DEPTH: i64 = 1_200_000;

/// Largest speed magnitude the simulation accepts (1000 units per second).
pub const SPEED_LIMIT: i64 = 1_000_000;

/// Largest displacement one frame can produce: half of `SPEED_LIMIT`
/// times the largest representable elapsed time.
pub const MAX_STEP: i64 = 2_147_483_647_500_000;

/// Bound on the ball's vertical position accepted by a frame update.  It
/// lies far outside any reachable play area and only keeps the `i64`
/// arithmetic of a single frame exact.
pub const VERTICAL_RANGE: i64 = 4_000_000_000_000_000;

/// Half of `n`, rounded toward zero.
pub open spec fn half_toward_zero(n: int) -> int {
    if n >= 0 {
        n / 2
    } else {
        -((-n) / 2)
    }
}

/// Displacement covered at `speed` over `dt` milliseconds: half of
/// `speed * dt`, rounded toward zero.
pub open spec fn step_len(speed: int, dt: int) -> int {
    half_toward_zero(speed * dt)
}

/// `v` forced into the closed interval `[lo, hi]`.
pub open spec fn clamped(v: int, lo: int, hi: int) -> int {
    if v < lo {
        lo
    } else if v > hi {
        hi
    } else {
        v
    }
}

/// A displacement at a nonnegative speed is never negative and grows
/// monotonically with the elapsed time.
pub proof fn lemma_step_len_monotone(speed: int, dt1: int, dt2: int)
    requires
        0 <= speed,
        0 <= dt1 <= dt2,
    ensures
        0 <= step_len(speed, dt1) <= step_len(speed, dt2),
{
    assert(0 <= speed * dt1 && speed * dt1 <= speed * dt2) by (nonlinear_arith)
        requires
            0 <= speed,
            0 <= dt1 <= dt2,
    ;
    lemma_div_is_ordered(0, speed * dt1, 2);
    lemma_div_is_ordered(speed * dt1, speed * dt2, 2);
}

/// Executable clamp into `[lo, hi]`.
pub fn clamp_i64(v: i64, lo: i64, hi: i64) -> (r: i64)
    requires
        lo <= hi,
    ensures
        r == clamped(v as int, lo as int, hi as int),
{
    if v < lo {
        lo
    } else if v > hi {
        hi
    } else {
        v
    }
}

/// Executable displacement at `speed` over `dt` milliseconds.
pub fn step_amount(speed: i64, dt: u32) -> (r: i64)
    requires
        -SPEED_LIMIT <= speed <= SPEED_LIMIT,
    ensures
        r == step_len(speed as int, dt as int),
        -MAX_STEP <= r <= MAX_STEP,
{
    let d: i64 = dt as i64;
    if speed >= 0 {
        assert(0 <= speed * d <= 4_294_967_295_000_000) by (nonlinear_arith)
            requires
                0 <= speed <= 1_000_000,
                0 <= d <= 4_294_967_295,
        ;
        let p: i64 = speed * d;
        proof {
            lemma_div_is_ordered(p as int, 4_294_967_295_000_000, 2);
        }
        let h: i64 = ((p as u64) / 2) as i64;
        h
    } else {
        let m: i64 = -speed;
        assert(0 <= m * d <= 4_294_967_295_000_000) by (nonlinear_arith)
            requires
                0 <= m <= 1_000_000,
                0 <= d <= 4_294_967_295,
        ;
        let p: i64 = m * d;
        proof {
            lemma_div_is_ordered(p as int, 4_294_967_295_000_000, 2);
            assert(speed * d == -(m * d)) by (nonlinear_arith)
                requires
                    m == -speed,
            ;
        }
        let h: i64 = ((p as u64) / 2) as i64;
        -h
    }
}

} // verus!
