//! Fixed-point numbers as IEEE 754 single-precision numbers, in whole-number
//! arithmetic.
//!
//! The shader reads its parameters as single-precision numbers. This module
//! finds the bit pattern of the number nearest to a fixed-point number.

use vstd::prelude::*;
use vstd::arithmetic::power2::{lemma_pow2_strictly_increases, lemma_pow2_unfold, pow2};
use vstd::arithmetic::div_mod::{lemma_fundamental_div_mod, lemma_fundamental_div_mod_converse};

verus! {

/// The place of the highest set bit of `v`: the logarithm to base two, rounded
/// down. Nought for nought.
pub open spec fn floor_log2(v: nat) -> nat
    decreases v,
{
    if v < 2 {
        0
    } else {
        1 + floor_log2(v / 2)
    }
}

/// A positive number lies between the power of two of its logarithm and the
/// next power of two.
pub proof fn lemma_floor_log2_bounds(v: nat)
    requires
        v > 0,
    ensures
        pow2(floor_log2(v)) <= v < pow2(floor_log2(v) + 1),
    decreases v,
{
    if v < 2 {
        vstd::arithmetic::power2::lemma2_to64();
    } else {
        lemma_floor_log2_bounds(v / 2);
        lemma_pow2_unfold(floor_log2(v));
        lemma_pow2_unfold(floor_log2(v) + 1);
    }
}

/// The logarithm of `v` is the only `e` with `2^e <= v < 2^(e + 1)`.
pub proof fn lemma_floor_log2_is(v: nat, e: nat)
    requires
        pow2(e) <= v < pow2(e + 1),
    ensures
        floor_log2(v) == e,
{
    vstd::arithmetic::power2::lemma_pow2_pos(e);
    lemma_floor_log2_bounds(v);
    let l = floor_log2(v);
    if l < e {
        if l + 1 < e {
            lemma_pow2_strictly_increases(l + 1, e);
        }
    } else if e < l {
        if e + 1 < l {
            lemma_pow2_strictly_increases(e + 1, l);
        }
    }
}

/// The bit pattern of the single-precision number nearest to the fixed-point
/// number `value`; of two that are equally near, the one with an even
/// significand.
///
/// With `e` the logarithm of `value`, the significand is `value / 2^(e - 23)`
/// rounded to a whole number, which has twenty-four bits. The pattern holds
/// its lower twenty-three bits below the exponent `e - 16`, which is stored
/// with 127 added to it. A significand that rounding lifts to `2^24` carries
/// into the exponent by itself.
pub open spec fn binary32_bits(value: nat) -> nat {
    if value == 0 {
        0
    } else {
        let e = floor_log2(value);
        let scaled = value * 0x80_0000;
        let low = scaled / pow2(e);
        let rest = scaled % pow2(e);
        let up: nat = if 2 * rest > pow2(e) || (2 * rest == pow2(e) && low % 2 == 1) {
            1
        } else {
            0
        };
        ((e + 111) * 0x80_0000 + (low - 0x80_0000) + up) as nat
    }
}

/// The exponent field of a bit pattern.
pub open spec fn exponent_field(bits: nat) -> nat {
    bits / 0x80_0000
}

/// The significand of the normal number with the given bit pattern: its
/// fraction field below a leading one.
pub open spec fn significand(bits: nat) -> nat {
    0x80_0000 + bits % 0x80_0000
}

/// The number that [`binary32_bits`] finds is positive, normal and finite,
/// and it lies within half a unit in its last place of `value`.
///
/// The pattern stands for `significand * 2^(exponent_field - 150)`. A
/// fixed-point `value` stands for `value / 2^16`. Both are compared here
/// after multiplication by `2^39`.
pub proof fn lemma_binary32_is_nearest(value: nat)
    requires
        0 < value < 0x1_0000_0000_0000_0000,
    ensures
        111 <= exponent_field(binary32_bits(value)) <= 175,
        binary32_bits(value) < 0x8000_0000,
        ({
            let bits = binary32_bits(value);
            let unit = pow2((exponent_field(bits) - 111) as nat);
            let shown = significand(bits) * unit;
            let exact = value * 0x80_0000;
            2 * (shown - exact) <= unit && 2 * (exact - shown) <= unit
        }),
{
    let e = floor_log2(value);
    let p = pow2(e);
    let scaled = value * 0x80_0000;
    let low = scaled / p;
    let rest = scaled % p;
    lemma_floor_log2_bounds(value);
    lemma_pow2_unfold(e + 1);
    vstd::arithmetic::power2::lemma2_to64();
    if e >= 64 {
        if e > 64 {
            lemma_pow2_strictly_increases(64, e);
        }
    }
    lemma_fundamental_div_mod(scaled as int, p as int);
    assert(0x80_0000 <= low < 0x100_0000) by (nonlinear_arith)
        requires
            scaled == p * low + rest,
            0 <= rest < p,
            p * 0x80_0000 <= scaled < p * 0x100_0000,
    ;
    let bits = binary32_bits(value);
    let up: nat = if 2 * rest > p || (2 * rest == p && low % 2 == 1) {
        1
    } else {
        0
    };
    assert(bits == (e + 111) * 0x80_0000 + (low - 0x80_0000) + up);
    if low + up == 0x100_0000 {
        assert(bits == (e + 112) * 0x80_0000);
        assert(exponent_field(bits) == e + 112);
        assert(significand(bits) == 0x80_0000);
        assert(0x80_0000 * pow2(e + 1) - scaled == p - rest) by (nonlinear_arith)
            requires
                pow2(e + 1) == 2 * p,
                scaled == p * low + rest,
                low + 1 == 0x100_0000,
        ;
    } else {
        lemma_fundamental_div_mod_converse(
            bits as int,
            0x80_0000,
            (e + 111) as int,
            (low - 0x80_0000 + up) as int,
        );
        assert(exponent_field(bits) == e + 111);
        assert(significand(bits) == low + up);
        assert((low + up) * p - scaled == up * p - rest) by (nonlinear_arith)
            requires
                scaled == p * low + rest,
        ;
        assert(up * p == if up == 1 { p } else { 0 }) by (nonlinear_arith)
            requires
                up == 0 || up == 1,
        ;
    }
}

/// Finds the bit pattern of the single-precision number nearest to the
/// fixed-point number `value`.
pub fn to_binary32(value: u64) -> (bits: u32)
    ensures
        bits == binary32_bits(value as nat),
{
    if value == 0 {
        return 0;
    }
    let mut e: u32 = 0;
    let mut p: u128 = 1;
    proof {
        vstd::arithmetic::power2::lemma2_to64();
    }
    while 2 * p <= value as u128
        invariant
            p == pow2(e as nat),
            0 < p <= value,
            e < 64,
        decreases value - p,
    {
        proof {
            lemma_pow2_unfold((e + 1) as nat);
            vstd::arithmetic::power2::lemma2_to64();
            if e + 1 > 64 {
                lemma_pow2_strictly_increases(64, (e + 1) as nat);
            }
        }
        p = 2 * p;
        e = e + 1;
    }
    proof {
        lemma_pow2_unfold((e + 1) as nat);
        lemma_floor_log2_is(value as nat, e as nat);
        lemma_binary32_is_nearest(value as nat);
    }
    let scaled: u128 = value as u128 * 0x80_0000;
    let low: u128 = scaled / p;
    let rest: u128 = scaled % p;
    let up: u128 = if 2 * rest > p || (2 * rest == p && low % 2 == 1) {
        1
    } else {
        0
    };
    proof {
        lemma_fundamental_div_mod(scaled as int, p as int);
        assert(0x80_0000 <= low < 0x100_0000) by (nonlinear_arith)
            requires
                scaled == p * low + rest,
                0 <= rest < p,
                p * 0x80_0000 <= scaled < p * 0x100_0000,
        ;
    }
    ((e as u128 + 111) * 0x80_0000 + (low - 0x80_0000) + up) as u32
}

} // verus!
