//! Fixed-point scalar arithmetic: the global scale, integer square roots,
//! and rounding of a scaled value to whole units.

use vstd::prelude::*;

verus! {

/// Number of fixed-point subunits per logical unit. One subunit is 1/10000
/// of a logical unit, so integer results resolve 1e-4 of a unit.
pub const FP_SCALE: i64 = 10_000;

/// Half of `FP_SCALE`, the threshold used when rounding to whole units.
pub const FP_HALF: i64 = 5_000;

/// The square of an integer.
pub open spec fn sq(x: int) -> int {
    x * x
}

/// `r` is the square root of `n`, rounded down to an integer.
pub open spec fn is_floor_sqrt(n: int, r: int) -> bool {
    0 <= r && sq(r) <= n < sq(r + 1)
}

/// The square root of `n`, rounded down to an integer.
pub open spec fn floor_sqrt(n: int) -> int {
    choose|r: int| is_floor_sqrt(n, r)
}

/// Every nonnegative integer has a rounded-down square root.
pub proof fn lemma_floor_sqrt_exists(n: int)
    requires
        n >= 0,
    ensures
        is_floor_sqrt(n, floor_sqrt(n)),
    decreases n,
{
    if n == 0 {
        assert(is_floor_sqrt(0, 0));
    } else {
        lemma_floor_sqrt_exists(n - 1);
        let r = floor_sqrt(n - 1);
        if sq(r + 1) <= n {
            assert(n == sq(r + 1));
            assert(sq(r + 2) > sq(r + 1)) by (nonlinear_arith)
                requires r >= 0;
            assert(is_floor_sqrt(n, r + 1));
        } else {
            assert(is_floor_sqrt(n, r));
        }
    }
}

/// At most one integer is the rounded-down square root of `n`.
pub proof fn lemma_floor_sqrt_unique(n: int, r: int)
    requires
        is_floor_sqrt(n, r),
    ensures
        r == floor_sqrt(n),
{
    assert(n >= 0) by (nonlinear_arith)
        requires r >= 0 && sq(r) <= n;
    lemma_floor_sqrt_exists(n);
    let r2 = floor_sqrt(n);
    if r < r2 {
        assert(sq(r + 1) <= sq(r2)) by (nonlinear_arith)
            requires 0 <= r + 1 <= r2;
        assert(false);
    }
    if r2 < r {
        assert(sq(r2 + 1) <= sq(r)) by (nonlinear_arith)
            requires 0 <= r2 + 1 <= r;
        assert(false);
    }
}

/// Square root of a 64-bit integer, rounded down, by bisection.
pub fn floor_sqrt_u64(n: u64) -> (r: u64)
    ensures
        r == floor_sqrt(n as int),
        is_floor_sqrt(n as int, r as int),
{
    let mut lo: u64 = 0;
    let mut hi: u64 = 0x1_0000_0000;
    assert(sq(hi as int) > n as int);
    while lo + 1 < hi
        invariant
            lo < hi <= 0x1_0000_0000u64,
            sq(lo as int) <= n as int,
            (n as int) < sq(hi as int),
        decreases hi - lo,
    {
        let mid: u64 = lo + (hi - lo) / 2;
        assert((mid as int) * (mid as int) <= 0x1_0000_0000_0000_0000) by (nonlinear_arith)
            requires 0 <= mid as int <= 0x1_0000_0000;
        if (mid as u128) * (mid as u128) <= (n as u128) {
            lo = mid;
        } else {
            hi = mid;
        }
    }
    proof {
        assert(is_floor_sqrt(n as int, lo as int));
        lemma_floor_sqrt_unique(n as int, lo as int);
    }
    lo
}

/// A scaled value rounded to the nearest whole unit, halves away from zero.
pub open spec fn round_units(v: int) -> int {
    if v >= 0 {
        (v + FP_HALF) / (FP_SCALE as int)
    } else {
        -(((-v) + FP_HALF) / (FP_SCALE as int))
    }
}

/// Rounds a scaled value to the nearest whole unit, halves away from zero.
pub fn round_units_i64(v: i64) -> (r: i64)
    requires
        -0x1000_0000_0000_0000 <= v <= 0x1000_0000_0000_0000,
    ensures
        r == round_units(v as int),
        (FP_SCALE as int) * r - FP_HALF <= v as int <= (FP_SCALE as int) * r + FP_HALF,
{
    if v >= 0 {
        (((v as u64) + (FP_HALF as u64)) / (FP_SCALE as u64)) as i64
    } else {
        let w: u64 = (-v) as u64;
        -((((w + (FP_HALF as u64)) / (FP_SCALE as u64))) as i64)
    }
}

} // verus!
