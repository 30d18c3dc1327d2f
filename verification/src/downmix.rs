//! The channel downmixer: interleaved frames averaged to one channel.
use vstd::prelude::*;
use crate::fixed::{trunc_div, div_toward_zero};

verus! {

/// The sum of the `k` samples that start at `start`.
pub open spec fn frame_sum(s: Seq<i32>, start: int, k: int) -> int
    decreases k,
{
    if k <= 0 {
        0
    } else {
        frame_sum(s, start, k - 1) + s[start + k - 1]
    }
}

/// The mean of frame `j` of a buffer with `k` channels, rounded toward zero.
pub open spec fn frame_mean(s: Seq<i32>, j: int, k: int) -> int {
    trunc_div(frame_sum(s, j * k, k), k)
}

/// The mono buffer: one mean for each whole frame; a trailing partial frame is dropped.
pub open spec fn to_mono_spec(s: Seq<i32>, k: int) -> Seq<i32> {
    Seq::new((s.len() as int / k) as nat, |j: int| frame_mean(s, j, k) as i32)
}

/// A sum of `k` samples lies within `k` times the range of one sample.
pub proof fn lemma_frame_sum_bound(s: Seq<i32>, start: int, k: int)
    requires
        0 <= start,
        0 <= k,
        start + k <= s.len(),
    ensures
        -0x8000_0000 * k <= frame_sum(s, start, k) <= 0x7fff_ffff * k,
    decreases k,
{
    if k > 0 {
        lemma_frame_sum_bound(s, start, k - 1);
    }
}

/// The mean of a whole frame is itself within the range of one sample.
pub proof fn lemma_frame_mean_bound(s: Seq<i32>, j: int, k: int)
    requires
        0 <= j,
        0 < k,
        (j + 1) * k <= s.len(),
    ensures
        -0x8000_0000 <= frame_mean(s, j, k) <= 0x7fff_ffff,
{
    assert(j * k >= 0 && j * k + k == (j + 1) * k) by (nonlinear_arith)
        requires
            0 <= j,
            0 < k,
    ;
    lemma_frame_sum_bound(s, j * k, k);
    let t = frame_sum(s, j * k, k);
    if t >= 0 {
        assert(t / k <= 0x7fff_ffff) by (nonlinear_arith)
            requires
                0 <= t <= 0x7fff_ffff * k,
                k > 0,
        ;
        assert(t / k >= 0) by (nonlinear_arith)
            requires
                0 <= t,
                k > 0,
        ;
    } else {
        assert((-t) / k <= 0x8000_0000) by (nonlinear_arith)
            requires
                0 <= -t <= 0x8000_0000 * k,
                k > 0,
        ;
        assert((-t) / k >= 0) by (nonlinear_arith)
            requires
                0 <= -t,
                k > 0,
        ;
    }
}

/// A buffer of `n` whole frames of `k` channels has `n` mono samples, each the
/// mean of its own frame.
pub proof fn lemma_to_mono_whole_frames(s: Seq<i32>, k: int, n: int)
    requires
        0 < k,
        0 <= n,
        s.len() == k * n,
    ensures
        to_mono_spec(s, k).len() == n,
        forall|j: int|
            0 <= j < n ==> #[trigger] to_mono_spec(s, k)[j] as int == frame_mean(s, j, k),
{
    assert((k * n) / k == n) by (nonlinear_arith)
        requires
            0 < k,
            0 <= n,
    ;
    assert forall|j: int| 0 <= j < n implies #[trigger] to_mono_spec(s, k)[j] as int == frame_mean(
        s,
        j,
        k,
    ) by {
        assert((j + 1) * k <= k * n) by (nonlinear_arith)
            requires
                j + 1 <= n,
                0 < k,
        ;
        lemma_frame_mean_bound(s, j, k);
    }
}

/// With one channel the mono buffer is the buffer itself.
pub proof fn lemma_to_mono_single_channel(s: Seq<i32>)
    ensures
        to_mono_spec(s, 1) == s,
{
    assert forall|j: int| 0 <= j < s.len() implies #[trigger] to_mono_spec(s, 1)[j] == s[j] by {
        assert(frame_sum(s, j, 1) == frame_sum(s, j, 0) + s[j]);
        assert(frame_sum(s, j, 0) == 0);
    }
    assert(to_mono_spec(s, 1) =~= s);
}

/// Averages each frame of `channel_count` interleaved samples into one sample.
pub fn to_mono(samples: &[i32], channel_count: u16) -> (out: Vec<i32>)
    requires
        channel_count > 0,
    ensures
        out@ == to_mono_spec(samples@, channel_count as int),
        out@.len() == samples@.len() / (channel_count as nat),
{
    let k: usize = channel_count as usize;
    let n: usize = samples.len();
    let frames: usize = n / k;
    let mut out: Vec<i32> = Vec::new();
    let mut j: usize = 0;
    while j < frames
        invariant
            k == channel_count,
            k > 0,
            n == samples@.len(),
            frames == samples@.len() / (k as nat),
            j <= frames,
            out@.len() == j,
            forall|m: int|
                0 <= m < j ==> #[trigger] out@[m] as int == frame_mean(samples@, m, k as int),
        decreases frames - j,
    {
        proof {
            assert((j + 1) * k <= samples@.len() && j * k >= 0 && j * k + k == (j + 1) * k)
                by (nonlinear_arith)
                requires
                    j + 1 <= frames,
                    frames == samples@.len() / (k as nat),
                    k > 0,
            ;
        }
        let start: usize = j * k;
        let mut sum: i64 = 0;
        let mut c: usize = 0;
        while c < k
            invariant
                c <= k,
                0 < k <= 0xffff,
                n == samples@.len(),
                start + k <= n,
                sum as int == frame_sum(samples@, start as int, c as int),
            decreases k - c,
        {
            proof {
                lemma_frame_sum_bound(samples@, start as int, c as int);
            }
            sum = sum + samples[start + c] as i64;
            c = c + 1;
        }
        proof {
            lemma_frame_sum_bound(samples@, start as int, k as int);
            lemma_frame_mean_bound(samples@, j as int, k as int);
        }
        let mean: i64 = div_toward_zero(sum, k as i64);
        out.push(mean as i32);
        j = j + 1;
    }
    assert(out@ =~= to_mono_spec(samples@, channel_count as int));
    out
}

} // verus!
