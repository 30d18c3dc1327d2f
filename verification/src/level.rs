//! The level meter: a loudness figure between silence and full scale.
use vstd::prelude::*;
use crate::fixed::{FULL_SCALE, isqrt, int_sqrt};

verus! {

/// How many times the root-mean-square amplitude is counted before it is
/// capped at full scale.
pub const SENSITIVITY: u64 = 5;

/// The square of one sample.
pub open spec fn square(x: i32) -> nat {
    (x as int * x as int) as nat
}

/// The sum of the squares of all samples.
pub open spec fn sum_squares(s: Seq<i32>) -> nat
    decreases s.len(),
{
    if s.len() == 0 {
        0
    } else {
        sum_squares(s.drop_last()) + square(s.last())
    }
}

/// The root-mean-square amplitude of a buffer, rounded down; zero for an empty one.
pub open spec fn rms(s: Seq<i32>) -> nat {
    if s.len() == 0 {
        0
    } else {
        isqrt(sum_squares(s) / s.len())
    }
}

/// The level of a buffer: its root-mean-square amplitude times the
/// sensitivity, capped at full scale.
pub open spec fn level_of(s: Seq<i32>) -> int {
    if SENSITIVITY * rms(s) > FULL_SCALE {
        FULL_SCALE as int
    } else {
        SENSITIVITY * rms(s)
    }
}

/// No square of a sample exceeds `2^62`, so a sum of `n` of them stays below `n * 2^62`.
pub proof fn lemma_sum_squares_bound(s: Seq<i32>)
    ensures
        sum_squares(s) <= s.len() * 0x4000_0000_0000_0000,
    decreases s.len(),
{
    if s.len() > 0 {
        lemma_sum_squares_bound(s.drop_last());
        let x = s.last();
        assert(x as int * x as int <= 0x4000_0000_0000_0000) by (nonlinear_arith)
            requires
                -0x8000_0000 <= x as int <= 0x7fff_ffff,
        ;
        assert(x as int * x as int >= 0) by (nonlinear_arith);
        assert(s.len() * 0x4000_0000_0000_0000 == (s.len() - 1) * 0x4000_0000_0000_0000
            + 0x4000_0000_0000_0000) by (nonlinear_arith);
    }
}

/// Every level lies between silence and full scale, and an empty buffer is silent.
pub proof fn lemma_level_range(s: Seq<i32>)
    ensures
        0 <= level_of(s) <= FULL_SCALE,
        s.len() == 0 ==> level_of(s) == 0,
{
}

/// Measures the level of a buffer of samples.
pub fn level(samples: &[i32]) -> (r: i32)
    ensures
        r as int == level_of(samples@),
        0 <= r <= FULL_SCALE,
        samples@.len() == 0 ==> r == 0,
{
    let n: usize = samples.len();
    if n == 0 {
        return 0;
    }
    let mut acc: u128 = 0;
    let mut i: usize = 0;
    while i < n
        invariant
            n == samples@.len(),
            i <= n,
            acc as nat == sum_squares(samples@.take(i as int)),
        decreases n - i,
    {
        let x: i128 = samples[i] as i128;
        proof {
            let t = samples@.take(i as int + 1);
            assert(t.drop_last() =~= samples@.take(i as int));
            assert(t.last() == samples@[i as int]);
            lemma_sum_squares_bound(t);
            assert(t.len() * 0x4000_0000_0000_0000 <= 0x1_0000_0000_0000_0000
                * 0x4000_0000_0000_0000) by (nonlinear_arith)
                requires
                    t.len() <= 0x1_0000_0000_0000_0000,
            ;
            assert(x * x >= 0 && x * x <= 0x4000_0000_0000_0000) by (nonlinear_arith)
                requires
                    -0x8000_0000 <= x <= 0x7fff_ffff,
            ;
        }
        let sq: i128 = x * x;
        acc = acc + sq as u128;
        i = i + 1;
    }
    proof {
        assert(samples@.take(n as int) =~= samples@);
        lemma_sum_squares_bound(samples@);
        assert(sum_squares(samples@) / (n as nat) <= 0x4000_0000_0000_0000) by (nonlinear_arith)
            requires
                sum_squares(samples@) <= n * 0x4000_0000_0000_0000,
                n > 0,
        ;
    }
    let mean: u64 = (acc / n as u128) as u64;
    let root: u64 = int_sqrt(mean);
    let scaled: u64 = SENSITIVITY * root;
    if scaled > FULL_SCALE as u64 {
        FULL_SCALE
    } else {
        scaled as i32
    }
}

} // verus!
