//! Fixed-point sample values.
//!
//! A sample is a signed integer counted in millionths of full scale, so that
//! `FULL_SCALE` stands for the largest amplitude an encoder accepts and
//! `-FULL_SCALE` for the smallest. Levels and gains use the same unit.
use vstd::prelude::*;

verus! {

/// The amplitude that stands for one whole unit.
pub const FULL_SCALE: i32 = 1_000_000;

/// `x` limited to the closed range from `lo` to `hi`.
pub open spec fn clamp_int(x: int, lo: int, hi: int) -> int {
    if x < lo {
        lo
    } else if x > hi {
        hi
    } else {
        x
    }
}

/// `x` limited to the valid sample range.
pub open spec fn clamp_sample(x: int) -> int {
    clamp_int(x, -(FULL_SCALE as int), FULL_SCALE as int)
}

/// Limits a wide intermediate value to the valid sample range.
pub fn clamp_to_sample(x: i64) -> (r: i32)
    ensures
        r as int == clamp_sample(x as int),
        -FULL_SCALE <= r <= FULL_SCALE,
{
    if x < -(FULL_SCALE as i64) {
        -FULL_SCALE
    } else if x > FULL_SCALE as i64 {
        FULL_SCALE
    } else {
        x as i32
    }
}

/// The quotient of `a` by a positive `d`, rounded toward zero.
pub open spec fn trunc_div(a: int, d: int) -> int {
    if a >= 0 {
        a / d
    } else {
        -((-a) / d)
    }
}

/// Divides by a positive number, rounding toward zero.
pub fn div_toward_zero(a: i64, d: i64) -> (q: i64)
    requires
        d > 0,
        a > i64::MIN,
    ensures
        q as int == trunc_div(a as int, d as int),
        a >= 0 ==> 0 <= q <= a,
        a < 0 ==> a <= q <= 0,
{
    if a >= 0 {
        let q: i64 = a / d;
        assert(0 <= a as int / d as int <= a) by (nonlinear_arith)
            requires
                a >= 0,
                d > 0,
        ;
        q
    } else {
        let m: i64 = -a;
        let q: i64 = m / d;
        assert(0 <= m as int / d as int <= m) by (nonlinear_arith)
            requires
                m >= 0,
                d > 0,
        ;
        -q
    }
}

/// The integer square root: the largest `r` with `r * r <= n`.
pub open spec fn isqrt(n: nat) -> nat
    decreases n,
{
    if n == 0 {
        0
    } else {
        let r = isqrt((n - 1) as nat);
        if (r + 1) * (r + 1) <= n {
            r + 1
        } else {
            r
        }
    }
}

/// `isqrt(n)` squared does not exceed `n`, and the next square does.
pub proof fn lemma_isqrt_bounds(n: nat)
    ensures
        isqrt(n) * isqrt(n) <= n,
        n < (isqrt(n) + 1) * (isqrt(n) + 1),
    decreases n,
{
    if n == 0 {
        assert(isqrt(n) == 0);
        assert(isqrt(n) * isqrt(n) == 0) by (nonlinear_arith)
            requires
                isqrt(n) == 0,
        ;
        assert((isqrt(n) + 1) * (isqrt(n) + 1) == 1) by (nonlinear_arith)
            requires
                isqrt(n) == 0,
        ;
    } else {
        lemma_isqrt_bounds((n - 1) as nat);
        let r = isqrt((n - 1) as nat);
        let q = isqrt(n);
        if (r + 1) * (r + 1) <= n {
            assert(q == r + 1);
            assert(q * q == (r + 1) * (r + 1) && (q + 1) * (q + 1) > (r + 1) * (r + 1))
                by (nonlinear_arith)
                requires
                    q == r + 1,
            ;
        } else {
            assert(q == r);
            assert(q * q == r * r && (q + 1) * (q + 1) == (r + 1) * (r + 1))
                by (nonlinear_arith)
                requires
                    q == r,
            ;
        }
    }
}

/// Only one number has its square at or below `n` and the next square above it.
pub proof fn lemma_isqrt_unique(n: nat, r: nat)
    requires
        r * r <= n,
        n < (r + 1) * (r + 1),
    ensures
        r == isqrt(n),
{
    lemma_isqrt_bounds(n);
    let q = isqrt(n);
    if r < q {
        assert((r + 1) * (r + 1) <= q * q) by (nonlinear_arith)
            requires
                r + 1 <= q,
        ;
    } else if q < r {
        assert((q + 1) * (q + 1) <= r * r) by (nonlinear_arith)
            requires
                q + 1 <= r,
        ;
    }
}

/// Computes the integer square root by bisection.
pub fn int_sqrt(n: u64) -> (r: u64)
    ensures
        r as nat == isqrt(n as nat),
        r < 0x1_0000_0000,
{
    let mut lo: u64 = 0;
    let mut hi: u64 = 0x1_0000_0000;
    assert(n < hi * hi) by (nonlinear_arith)
        requires
            n <= u64::MAX,
            hi == 0x1_0000_0000,
    ;
    while hi - lo > 1
        invariant
            lo < hi <= 0x1_0000_0000,
            lo * lo <= n,
            n < hi * hi,
        decreases hi - lo,
    {
        let mid: u64 = lo + (hi - lo) / 2;
        assert(mid * mid < 0x1_0000_0000 * 0x1_0000_0000) by (nonlinear_arith)
            requires
                mid < 0x1_0000_0000,
        ;
        if mid * mid <= n {
            lo = mid;
        } else {
            hi = mid;
        }
    }
    proof {
        lemma_isqrt_unique(n as nat, lo as nat);
    }
    lo
}

} // verus!
