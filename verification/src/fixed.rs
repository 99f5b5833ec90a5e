//! Fixed-point arithmetic for the simulation.
//!
//! Coordinates, velocities, sizes and angles are `i64` values holding
//! `SCALE` sub-units per pixel (or per angle unit). Velocity-to-displacement
//! scaling divides by 1000 (milliseconds to seconds) with truncation toward
//! zero, mirroring how a cast-to-integer result would behave.

use vstd::arithmetic::div_mod::lemma_div_is_ordered;
use vstd::arithmetic::div_mod::lemma_div_pos_is_pos;
use vstd::prelude::*;

verus! {

/// Fixed-point sub-units per pixel.
pub const SCALE: i64 = 1_000_000;

/// Largest magnitude, in fixed-point sub-units, that a well-formed coordinate,
/// velocity component, size or angle may have (one million pixels).
pub const COORD_LIMIT: i64 = 1_000_000_000_000;

/// Largest time delta, in milliseconds, a single simulation step accepts
/// (1000 seconds).
pub const DELTA_LIMIT: u64 = 1_000_000;

/// Largest magnitude a single-step displacement can reach:
/// `COORD_LIMIT * DELTA_LIMIT / 1000`.
pub const STEP_LIMIT: i64 = 1_000_000_000_000_000;

/// Quotient `x / d` truncated toward zero (the behaviour of machine signed
/// division), as opposed to the Euclidean `/` of spec arithmetic.
pub open spec fn div_trunc(x: int, d: int) -> int
    recommends
        d > 0,
{
    if x >= 0 {
        x / d
    } else {
        -((-x) / d)
    }
}

/// `a * n / d` with the division truncated toward zero.
pub open spec fn mul_div(a: int, n: int, d: int) -> int
    recommends
        d > 0,
{
    div_trunc(a * n, d)
}

/// Truncating division keeps the magnitude bound of its dividend, shrunk by
/// the divisor.
pub proof fn lemma_div_trunc_bound(x: int, d: int, b: int)
    requires
        d > 0,
        0 <= b,
        -b <= x <= b,
    ensures
        -(b / d) <= div_trunc(x, d) <= b / d,
{
    if x >= 0 {
        lemma_div_is_ordered(x, b, d);
        lemma_div_pos_is_pos(x, d);
    } else {
        lemma_div_is_ordered(-x, b, d);
        lemma_div_pos_is_pos(-x, d);
    }
}

/// Magnitude bound for a scaled product: if `|a| <= b` and `0 <= n <= m`,
/// then `|a * n / d| <= b * m / d`.
pub proof fn lemma_mul_div_bound(a: int, n: int, d: int, b: int, m: int)
    requires
        d > 0,
        0 <= b,
        -b <= a <= b,
        0 <= n <= m,
    ensures
        -((b * m) / d) <= mul_div(a, n, d) <= (b * m) / d,
{
    assert(-(b * m) <= a * n <= b * m) by (nonlinear_arith)
        requires
            0 <= b,
            -b <= a <= b,
            0 <= n <= m,
    ;
    assert(0 <= b * m) by (nonlinear_arith)
        requires
            0 <= b,
            0 <= m,
    ;
    lemma_div_trunc_bound(a * n, d, b * m);
}

/// Computes `a * n / d` with the division truncated toward zero, exactly as
/// [`mul_div`] describes, using 128-bit intermediates so the product cannot
/// overflow.
pub(crate) fn mul_div_trunc(a: i64, n: u64, d: u64) -> (r: i64)
    requires
        d > 0,
        -(i64::MAX as int) <= mul_div(a as int, n as int, d as int) <= i64::MAX as int,
    ensures
        r == mul_div(a as int, n as int, d as int),
{
    let neg: bool = a < 0;
    let mag: u128 = if neg {
        (-(a as i128)) as u128
    } else {
        a as u128
    };
    assert(mag <= 0x8000_0000_0000_0000u128);
    assert(mag * (n as u128) <= 0x8000_0000_0000_0000 * 0xffff_ffff_ffff_ffff) by (nonlinear_arith)
        requires
            mag <= 0x8000_0000_0000_0000u128,
            n <= 0xffff_ffff_ffff_ffffu64,
    ;
    let q: u128 = (mag * (n as u128)) / (d as u128);
    proof {
        if neg {
            assert((a as int) * (n as int) == -((mag as int) * (n as int))) by (nonlinear_arith)
                requires
                    mag == -(a as int),
            ;
        } else {
            assert(mag == a as int);
            vstd::arithmetic::mul::lemma_mul_nonnegative(a as int, n as int);
        }
        if (mag as int) * (n as int) == 0 {
            vstd::arithmetic::div_mod::lemma_div_of0(d as int);
        } else {
            lemma_div_pos_is_pos((mag as int) * (n as int), d as int);
        }
        assert(q == div_trunc((mag as int) * (n as int), d as int));
        if neg {
            assert(mul_div(a as int, n as int, d as int) == -(q as int));
        } else {
            assert(mul_div(a as int, n as int, d as int) == q as int);
        }
    }
    if neg {
        -(q as i64)
    } else {
        q as i64
    }
}

} // verus!
