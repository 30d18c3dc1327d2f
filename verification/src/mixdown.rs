//! The mixdown: two mono buffers summed, scaled and clipped into one.
use vstd::prelude::*;
use crate::fixed::{FULL_SCALE, clamp_sample, clamp_to_sample, trunc_div, div_toward_zero};

verus! {

/// The numerator of the factor that scales a summed pair of samples.
pub const MIX_NUMERATOR: i64 = 7;

/// The denominator of the factor that scales a summed pair of samples.
pub const MIX_DENOMINATOR: i64 = 10;

/// The sample at index `i`, or silence where the buffer has none.
pub open spec fn sample_or_zero(s: Seq<i32>, i: int) -> int {
    if 0 <= i < s.len() {
        s[i] as int
    } else {
        0
    }
}

/// One mixed sample: the sum scaled by seven tenths, rounded toward zero and clipped.
pub open spec fn mixed_sample(a: int, b: int) -> int {
    clamp_sample(trunc_div((a + b) * MIX_NUMERATOR as int, MIX_DENOMINATOR as int))
}

/// The length of the longer of two buffers.
pub open spec fn longer_len(a: Seq<i32>, b: Seq<i32>) -> nat {
    if a.len() >= b.len() {
        a.len()
    } else {
        b.len()
    }
}

/// The mixdown of two buffers; the shorter one is continued with silence.
pub open spec fn mix_spec(a: Seq<i32>, b: Seq<i32>) -> Seq<i32> {
    Seq::new(
        longer_len(a, b),
        |i: int| mixed_sample(sample_or_zero(a, i), sample_or_zero(b, i)) as i32,
    )
}

/// Every mixed sample is a valid sample.
pub proof fn lemma_mixed_in_range(a: int, b: int)
    ensures
        -FULL_SCALE <= mixed_sample(a, b) <= FULL_SCALE,
{
}

/// The mixdown does not depend on the order of its two sources.
pub proof fn lemma_mix_commutes(a: Seq<i32>, b: Seq<i32>)
    ensures
        mix_spec(a, b) == mix_spec(b, a),
{
    assert forall|i: int| 0 <= i < longer_len(a, b) implies #[trigger] mix_spec(a, b)[i]
        == mix_spec(b, a)[i] by {
        assert(sample_or_zero(a, i) + sample_or_zero(b, i) == sample_or_zero(b, i)
            + sample_or_zero(a, i));
    }
    assert(mix_spec(a, b) =~= mix_spec(b, a));
}

/// The mixdown is empty exactly when both sources are.
pub proof fn lemma_mix_empty(a: Seq<i32>, b: Seq<i32>)
    ensures
        mix_spec(a, b).len() == 0 <==> (a.len() == 0 && b.len() == 0),
{
}

/// Mixes one pair of samples.
pub fn mix_pair(a: i32, b: i32) -> (r: i32)
    ensures
        r as int == mixed_sample(a as int, b as int),
        -FULL_SCALE <= r <= FULL_SCALE,
{
    let sum: i64 = a as i64 + b as i64;
    clamp_to_sample(div_toward_zero(sum * MIX_NUMERATOR, MIX_DENOMINATOR))
}

/// Combines the microphone and loopback buffers into one mono buffer as long
/// as the longer of the two.
pub fn mixdown(mic: &[i32], loopback: &[i32]) -> (out: Vec<i32>)
    ensures
        out@ == mix_spec(mic@, loopback@),
        out@.len() == longer_len(mic@, loopback@),
        forall|i: int| 0 <= i < out@.len() ==> -FULL_SCALE <= #[trigger] out@[i] <= FULL_SCALE,
{
    let n: usize = if mic.len() >= loopback.len() {
        mic.len()
    } else {
        loopback.len()
    };
    let mut out: Vec<i32> = Vec::new();
    let mut i: usize = 0;
    while i < n
        invariant
            n == longer_len(mic@, loopback@),
            i <= n,
            out@.len() == i,
            forall|j: int|
                0 <= j < i ==> #[trigger] out@[j] as int == mixed_sample(
                    sample_or_zero(mic@, j),
                    sample_or_zero(loopback@, j),
                ),
        decreases n - i,
    {
        let a: i32 = if i < mic.len() {
            mic[i]
        } else {
            0
        };
        let b: i32 = if i < loopback.len() {
            loopback[i]
        } else {
            0
        };
        out.push(mix_pair(a, b));
        i = i + 1;
    }
    assert(out@ =~= mix_spec(mic@, loopback@));
    out
}

} // verus!
