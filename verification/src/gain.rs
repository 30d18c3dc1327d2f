//! The gain stage: a linear multiplier with clipping to the valid sample range.
use vstd::prelude::*;
use crate::fixed::{FULL_SCALE, clamp_sample, clamp_to_sample, trunc_div, div_toward_zero};

verus! {

/// The gain that leaves every sample as it is.
pub const UNITY_GAIN: i32 = 1_000_000;

/// One sample after the gain stage: the product with the gain, in millionths,
/// rounded toward zero and clipped.
pub open spec fn gained(sample: i32, gain: i32) -> int {
    clamp_sample(trunc_div(sample as int * gain as int, UNITY_GAIN as int))
}

/// A buffer after the gain stage.
pub open spec fn apply_gain_spec(s: Seq<i32>, gain: i32) -> Seq<i32> {
    Seq::new(s.len(), |i: int| gained(s[i], gain) as i32)
}

/// Whatever the sample and the gain, the gained sample is a valid sample.
pub proof fn lemma_gained_in_range(sample: i32, gain: i32)
    ensures
        -FULL_SCALE <= gained(sample, gain) <= FULL_SCALE,
{
}

/// A product that reaches full scale or more is clipped to full scale, and one
/// at the negative full scale or below to its negative.
pub proof fn lemma_gain_clips(sample: i32, gain: i32)
    ensures
        sample as int * gain as int >= FULL_SCALE as int * UNITY_GAIN as int ==> gained(
            sample,
            gain,
        ) == FULL_SCALE,
        sample as int * gain as int <= -(FULL_SCALE as int * UNITY_GAIN as int) ==> gained(
            sample,
            gain,
        ) == -FULL_SCALE,
{
    let p = sample as int * gain as int;
    if p >= 1_000_000_000_000 {
        assert(p / 1_000_000 >= 1_000_000);
    }
    if p <= -1_000_000_000_000 {
        assert((-p) / 1_000_000 >= 1_000_000);
    }
}

/// Applies the gain to one sample.
pub fn gain_sample(sample: i32, gain: i32) -> (r: i32)
    ensures
        r as int == gained(sample, gain),
        -FULL_SCALE <= r <= FULL_SCALE,
{
    assert(-0x4000_0000_0000_0000 <= sample as int * gain as int <= 0x4000_0000_0000_0000)
        by (nonlinear_arith)
        requires
            -0x8000_0000 <= sample as int <= 0x7fff_ffff,
            -0x8000_0000 <= gain as int <= 0x7fff_ffff,
    ;
    let product: i64 = sample as i64 * gain as i64;
    clamp_to_sample(div_toward_zero(product, UNITY_GAIN as i64))
}

/// Multiplies every sample by `gain` and clips each result to the valid range.
pub fn apply_gain(samples: &[i32], gain: i32) -> (out: Vec<i32>)
    ensures
        out@ == apply_gain_spec(samples@, gain),
        forall|i: int| 0 <= i < out@.len() ==> -FULL_SCALE <= #[trigger] out@[i] <= FULL_SCALE,
{
    let n: usize = samples.len();
    let mut out: Vec<i32> = Vec::new();
    let mut i: usize = 0;
    while i < n
        invariant
            n == samples@.len(),
            i <= n,
            out@.len() == i,
            forall|j: int| 0 <= j < i ==> #[trigger] out@[j] as int == gained(samples@[j], gain),
        decreases n - i,
    {
        out.push(gain_sample(samples[i], gain));
        i = i + 1;
    }
    assert(out@ =~= apply_gain_spec(samples@, gain));
    out
}

} // verus!
