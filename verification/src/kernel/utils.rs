//! Straight lines between two points, evaluated in whole numbers.

use vstd::prelude::*;
use vstd::arithmetic::div_mod::lemma_fundamental_div_mod_converse;
use crate::fixed::ONE;

verus! {

/// The height at `x` of the straight line through `a` and `b`, rounded down
/// to a whole number.
///
/// Two points with the same `x` give no line. They are read as the step that
/// such lines tend to: the height of `a` to the left of them, that of `b`
/// from them on.
pub open spec fn line_through(a: (int, int), b: (int, int), x: int) -> int {
    if a.0 == b.0 {
        if x < a.0 {
            a.1
        } else {
            b.1
        }
    } else if a.0 < b.0 {
        a.1 + ((b.1 - a.1) * (x - a.0)) / (b.0 - a.0)
    } else {
        b.1 + ((a.1 - b.1) * (x - b.0)) / (a.0 - b.0)
    }
}

/// Divides rounding towards negative infinity.
pub fn div_floor(n: i128, d: i128) -> (q: i128)
    requires
        d > 0,
    ensures
        q == n / d,
{
    if n >= 0 {
        let q: u128 = (n as u128) / (d as u128);
        q as i128
    } else {
        // -i128::MAX - 1 <= n < 0, so 0 <= -(n + 1) <= i128::MAX
        let m: u128 = (-(n + 1)) as u128;
        let q: u128 = m / (d as u128);
        proof {
            let r = (m % (d as u128)) as int;
            assert(m == (d as int) * (q as int) + r) by {
                vstd::arithmetic::div_mod::lemma_fundamental_div_mod(m as int, d as int);
            }
            assert((d as int) * (-(q as int) - 1) == -((d as int) * (q as int)) - d)
                by (nonlinear_arith);
            lemma_fundamental_div_mod_converse(
                n as int,
                d as int,
                -(q as int) - 1,
                d - r - 1,
            );
        }
        -(q as i128) - 1
    }
}

/// Evaluates at `x` the straight line through `a` and `b`, rounding down.
pub fn linear_from_points(a: (i64, i32), b: (i64, i32), x: i64) -> (y: i128)
    ensures
        y == line_through((a.0 as int, a.1 as int), (b.0 as int, b.1 as int), x as int),
{
    if a.0 == b.0 {
        if x < a.0 {
            a.1 as i128
        } else {
            b.1 as i128
        }
    } else {
        let (left, right) = if a.0 < b.0 {
            (a, b)
        } else {
            (b, a)
        };
        let rise: i128 = right.1 as i128 - left.1 as i128;
        let run: i128 = x as i128 - left.0 as i128;
        let span: i128 = right.0 as i128 - left.0 as i128;
        assert(-0x1_0000_0000_0000_0000_0000_0000 <= rise * run
            <= 0x1_0000_0000_0000_0000_0000_0000) by (nonlinear_arith)
            requires
                -0x1_0000_0000 <= rise <= 0x1_0000_0000,
                -0x1_0000_0000_0000_0000 <= run <= 0x1_0000_0000_0000_0000,
        ;
        let steps: i128 = div_floor(rise * run, span);
        assert(-0x1_0000_0000_0000_0000_0000_0000 <= steps
            <= 0x1_0000_0000_0000_0000_0000_0000) by (nonlinear_arith)
            requires
                steps == (rise * run) / (span as int),
                span >= 1,
                -0x1_0000_0000_0000_0000_0000_0000 <= rise * run
                    <= 0x1_0000_0000_0000_0000_0000_0000,
        ;
        left.1 as i128 + steps
    }
}

/// The fixed-point number `v` held within nought and one.
pub open spec fn clamp_unit(v: int) -> int {
    if v < 0 {
        0
    } else if v > ONE {
        ONE as int
    } else {
        v
    }
}

/// The blend `start * t + end * (1 - t)` of two fixed-point numbers, rounded
/// down and held within nought and one.
pub open spec fn blend(start: int, end: int, t: int) -> int {
    clamp_unit((start * t + end * (ONE - t)) / (ONE as int))
}

/// Blends `start` and `end` by the fixed-point share `t` of `start`, and holds
/// the result within nought and one.
pub fn lerp(start: i32, end: i32, t: i32) -> (value: u32)
    ensures
        value == blend(start as int, end as int, t as int),
        value <= ONE,
{
    let rest: i128 = ONE as i128 - t as i128;
    assert(-0x1_0000_0000_0000_0000 <= start * t <= 0x1_0000_0000_0000_0000
        && -0x1_0000_0000_0000_0000 <= end * rest <= 0x1_0000_0000_0000_0000)
        by (nonlinear_arith)
        requires
            -0x8000_0000 <= start <= 0x8000_0000,
            -0x8000_0000 <= end <= 0x8000_0000,
            -0x8000_0000 <= t <= 0x8000_0000,
            -0x8000_0000 <= rest <= 0x1_0000_0000,
    ;
    let from_start: i128 = start as i128 * t as i128;
    let from_end: i128 = end as i128 * rest;
    let v: i128 = div_floor(from_start + from_end, ONE as i128);
    if v < 0 {
        0
    } else if v > ONE as i128 {
        ONE
    } else {
        v as u32
    }
}

} // verus!
