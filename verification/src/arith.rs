//! Integer helpers shared by the trading components.
//!
//! All quantities in this crate are fixed-point integers: amounts in
//! lamports, probabilities in parts per million, multipliers in thousandths.
//! These helpers give the few pieces of arithmetic that the components share.

use vstd::prelude::*;

verus! {

/// Floor of the square root of a non-negative value.
pub open spec fn spec_isqrt(x: int) -> int
    recommends
        x >= 0,
{
    choose|r: int| 0 <= r && #[trigger] (r * r) <= x && x < (r + 1) * (r + 1)
}

/// The floor of the square root is unique.
pub proof fn lemma_isqrt_unique(x: int, a: int, b: int)
    requires
        0 <= a,
        a * a <= x,
        x < (a + 1) * (a + 1),
        0 <= b,
        b * b <= x,
        x < (b + 1) * (b + 1),
    ensures
        a == b,
{
    if a < b {
        assert(b * b >= (a + 1) * (a + 1)) by (nonlinear_arith)
            requires 0 <= a && a + 1 <= b;
    } else if b < a {
        assert(a * a >= (b + 1) * (b + 1)) by (nonlinear_arith)
            requires 0 <= b && b + 1 <= a;
    }
}

/// Floor of the square root: the unique `r` with `r * r <= x < (r + 1) * (r + 1)`.
pub fn isqrt(x: u128) -> (r: u64)
    ensures
        (r as int) * (r as int) <= x as int,
        (x as int) < ((r as int) + 1) * ((r as int) + 1),
        r == spec_isqrt(x as int),
{
    proof {
        assert(((u64::MAX as int) + 1) * ((u64::MAX as int) + 1) > u128::MAX as int)
            by (nonlinear_arith);
    }
    let mut lo: u64 = 0;
    let mut hi: u64 = u64::MAX;
    while lo < hi
        invariant
            lo <= hi,
            (lo as int) * (lo as int) <= x as int,
            (x as int) < ((hi as int) + 1) * ((hi as int) + 1),
        decreases hi - lo,
    {
        let mid: u64 = lo + (hi - lo) / 2 + 1;
        proof {
            assert((mid as int) * (mid as int) <= (u64::MAX as int) * (u64::MAX as int))
                by (nonlinear_arith)
                requires 0 <= mid <= u64::MAX;
            assert((u64::MAX as int) * (u64::MAX as int) <= u128::MAX as int)
                by (nonlinear_arith);
        }
        let sq: u128 = (mid as u128) * (mid as u128);
        if sq <= x {
            lo = mid;
        } else {
            hi = mid - 1;
        }
    }
    proof {
        let w = lo as int;
        assert(0 <= w && w * w <= x as int && (x as int) < (w + 1) * (w + 1));
        assert(exists|r: int|
            0 <= r && #[trigger] (r * r) <= x as int && (x as int) < (r + 1) * (r + 1));
        let c = spec_isqrt(x as int);
        assert(0 <= c && c * c <= x as int && (x as int) < (c + 1) * (c + 1));
        lemma_isqrt_unique(x as int, w, c);
    }
    lo
}

/// Rounding to the nearest multiple of `step`, halves rounded up.
pub open spec fn spec_round_to_step(x: int, step: int) -> int
    recommends
        step >= 1,
{
    ((x + step / 2) / step) * step
}

/// Rounds `x` to the nearest multiple of `step`, halves rounded up.
pub fn round_to_step(x: u64, step: u64) -> (r: u64)
    requires
        step >= 1,
        x + step / 2 <= u64::MAX,
    ensures
        r == spec_round_to_step(x as int, step as int),
        r % step == 0,
        x <= r + step / 2,
        r <= x + step / 2,
{
    let half: u64 = step / 2;
    let q: u64 = (x + half) / step;
    proof {
        let xi = x as int;
        let si = step as int;
        let hi = si / 2;
        assert((xi + hi) / si * si <= xi + hi && xi + hi < (xi + hi) / si * si + si)
            by (nonlinear_arith)
            requires si >= 1 && xi >= 0 && hi >= 0;
        assert(q * si <= u64::MAX) by (nonlinear_arith)
            requires q == (xi + hi) / si && si >= 1 && xi + hi <= u64::MAX && xi >= 0 && hi >= 0;
        assert((q * si) % si == 0) by (nonlinear_arith)
            requires si >= 1 && q >= 0;
    }
    q * step
}

/// The full-width product of two 64-bit values.
pub fn mul_wide(a: u64, b: u64) -> (r: u128)
    ensures
        r == (a as int) * (b as int),
{
    proof {
        assert((a as int) * (b as int) <= (u64::MAX as int) * (u64::MAX as int))
            by (nonlinear_arith)
            requires 0 <= a <= u64::MAX && 0 <= b <= u64::MAX;
        assert((u64::MAX as int) * (u64::MAX as int) <= u128::MAX as int) by (nonlinear_arith);
    }
    (a as u128) * (b as u128)
}

} // verus!
