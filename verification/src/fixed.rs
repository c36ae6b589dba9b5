//! Fixed-point arithmetic: sixteen fractional bits, square roots rounded down.

use vstd::prelude::*;

verus! {

/// The fixed-point number one: a length of one pixel, or full weight.
pub const ONE: u32 = 65536;

/// `root` is the square root of `n`, rounded down.
pub open spec fn is_floor_sqrt(n: nat, root: nat) -> bool {
    root * root <= n < (root + 1) * (root + 1)
}

/// The square root of `n`, rounded down.
pub open spec fn floor_sqrt(n: nat) -> nat {
    choose|root: nat| is_floor_sqrt(n, root)
}

/// Every natural number has a rounded-down square root.
pub proof fn lemma_floor_sqrt_exists(n: nat)
    ensures
        is_floor_sqrt(n, floor_sqrt(n)),
    decreases n,
{
    if n == 0 {
        assert(is_floor_sqrt(0, 0)) by (nonlinear_arith);
    } else {
        lemma_floor_sqrt_exists((n - 1) as nat);
        let r = floor_sqrt((n - 1) as nat);
        if (r + 1) * (r + 1) <= n {
            assert((r + 2) * (r + 2) > (r + 1) * (r + 1)) by (nonlinear_arith);
            assert(is_floor_sqrt(n, r + 1));
        } else {
            assert(is_floor_sqrt(n, r));
        }
    }
}

/// At most one number is the rounded-down square root of `n`.
pub proof fn lemma_floor_sqrt_unique(n: nat, a: nat, b: nat)
    requires
        is_floor_sqrt(n, a),
        is_floor_sqrt(n, b),
    ensures
        a == b,
{
    if a < b {
        assert((a + 1) * (a + 1) <= b * b) by (nonlinear_arith)
            requires
                a + 1 <= b,
        ;
    } else if b < a {
        assert((b + 1) * (b + 1) <= a * a) by (nonlinear_arith)
            requires
                b + 1 <= a,
        ;
    }
}

/// The rounded-down square root of `n` is the only `root` with
/// `root * root <= n < (root + 1) * (root + 1)`.
pub proof fn lemma_floor_sqrt_is(n: nat, root: nat)
    requires
        is_floor_sqrt(n, root),
    ensures
        floor_sqrt(n) == root,
{
    lemma_floor_sqrt_exists(n);
    lemma_floor_sqrt_unique(n, root, floor_sqrt(n));
}

/// The rounded-down square root of `n` lies below `bound` exactly if `n` lies
/// below the square of `bound`.
pub proof fn lemma_floor_sqrt_below(n: nat, bound: nat)
    ensures
        floor_sqrt(n) < bound <==> n < bound * bound,
{
    lemma_floor_sqrt_exists(n);
    let root = floor_sqrt(n);
    if root < bound {
        assert((root + 1) * (root + 1) <= bound * bound) by (nonlinear_arith)
            requires
                root + 1 <= bound,
        ;
    } else {
        assert(bound * bound <= root * root) by (nonlinear_arith)
            requires
                bound <= root,
        ;
    }
}

/// Computes the square root of `n`, rounded down, by bisection.
pub fn isqrt(n: u128) -> (root: u64)
    ensures
        root == floor_sqrt(n as nat),
{
    let mut lo: u128 = 0;
    let mut hi: u128 = 0x1_0000_0000_0000_0000;
    assert(n < hi * hi) by (nonlinear_arith)
        requires
            hi == 0x1_0000_0000_0000_0000u128,
            n <= u128::MAX,
    ;
    while hi - lo > 1
        invariant
            lo < hi <= 0x1_0000_0000_0000_0000,
            lo * lo <= n < hi * hi,
        decreases hi - lo,
    {
        let mid: u128 = lo + (hi - lo) / 2;
        assert(mid * mid <= u128::MAX) by (nonlinear_arith)
            requires
                mid <= 0xffff_ffff_ffff_ffffu128,
        ;
        if mid * mid <= n {
            lo = mid;
        } else {
            hi = mid;
        }
    }
    proof {
        assert(hi == lo + 1);
        lemma_floor_sqrt_is(n as nat, lo as nat);
    }
    lo as u64
}

} // verus!
