//! The rate converter: nearest-neighbour selection from one sample rate to another.
//!
//! Each output sample is a copy of one input sample; nothing is interpolated
//! or filtered, so the conversion is cheap but aliases.
use vstd::prelude::*;

verus! {

/// Why a buffer could not be converted.
#[derive(Debug, Clone, Copy, PartialEq, Eq, Structural)]
pub enum ResampleError {
    /// The rates differ and the source rate is zero.
    ZeroSourceRate,
    /// The converted buffer would have more samples than can be addressed.
    TooLong,
}

/// The length of the converted buffer: `len * target / source`, rounded to the
/// nearest whole number, halves upward.
pub open spec fn resampled_len(len: nat, source_rate: nat, target_rate: nat) -> nat {
    (2 * len * target_rate + source_rate) / (2 * source_rate)
}

/// The input index that output index `i` copies: `i * source / target`, rounded down.
pub open spec fn source_index(i: nat, source_rate: nat, target_rate: nat) -> nat {
    (i * source_rate) / target_rate
}

/// One converted sample: the selected input sample, or silence where the
/// selected index lies outside the input.
pub open spec fn resampled_at(s: Seq<i32>, i: int, source_rate: nat, target_rate: nat) -> i32 {
    let j = source_index(i as nat, source_rate, target_rate);
    if j < s.len() {
        s[j as int]
    } else {
        0
    }
}

/// The converted buffer; the input itself where the two rates are equal.
pub open spec fn resample_spec(s: Seq<i32>, source_rate: nat, target_rate: nat) -> Seq<i32> {
    if source_rate == target_rate {
        s
    } else {
        Seq::new(
            resampled_len(s.len(), source_rate, target_rate),
            |i: int| resampled_at(s, i, source_rate, target_rate),
        )
    }
}

/// What `resample` returns for each input.
pub open spec fn resample_result(s: Seq<i32>, source_rate: nat, target_rate: nat) -> Result<
    Seq<i32>,
    ResampleError,
> {
    if source_rate == target_rate {
        Ok(s)
    } else if source_rate == 0 {
        Err(ResampleError::ZeroSourceRate)
    } else if resampled_len(s.len(), source_rate, target_rate) > usize::MAX {
        Err(ResampleError::TooLong)
    } else {
        Ok(resample_spec(s, source_rate, target_rate))
    }
}

/// Converting between equal rates changes nothing.
pub proof fn lemma_resample_same_rate(s: Seq<i32>, rate: nat)
    ensures
        resample_spec(s, rate, rate) == s,
        resample_result(s, rate, rate) == Ok::<Seq<i32>, ResampleError>(s),
{
}

/// Between different rates the converted buffer has `resampled_len` samples,
/// and that length is the exact ratio rounded to the nearest whole number:
/// twice its distance from `len * target / source`, counted in units of
/// `1 / source`, is at most `source`.
pub proof fn lemma_resampled_len_rounds(s: Seq<i32>, source_rate: nat, target_rate: nat)
    requires
        source_rate > 0,
    ensures
        source_rate != target_rate ==> resample_spec(s, source_rate, target_rate).len()
            == resampled_len(s.len(), source_rate, target_rate),
        -(source_rate as int) <= 2 * (s.len() * target_rate - resampled_len(
            s.len(),
            source_rate,
            target_rate,
        ) * source_rate) < source_rate,
{
    let len = s.len();
    let a: int = (2 * len * target_rate + source_rate) as int;
    let d: int = (2 * source_rate) as int;
    let q: int = resampled_len(len, source_rate, target_rate) as int;
    assert(a == d * (a / d) + a % d && 0 <= a % d < d) by (nonlinear_arith)
        requires
            d > 0,
    ;
    assert(q == a / d);
    assert(d * q == 2 * (q * source_rate)) by (nonlinear_arith)
        requires
            d == 2 * source_rate,
    ;
    assert(2 * len * target_rate == 2 * (len * target_rate)) by (nonlinear_arith);
}

/// Converts a buffer recorded at `source_rate` to `target_rate`.
///
/// Equal rates hand the buffer back untouched. Otherwise each output sample
/// is the input sample nearest before its position.
pub fn resample(samples: Vec<i32>, source_rate: u32, target_rate: u32) -> (r: Result<
    Vec<i32>,
    ResampleError,
>)
    ensures
        match r {
            Ok(out) => resample_result(samples@, source_rate as nat, target_rate as nat) == Ok::<
                Seq<i32>,
                ResampleError,
            >(out@) && out@ == resample_spec(samples@, source_rate as nat, target_rate as nat),
            Err(e) => resample_result(samples@, source_rate as nat, target_rate as nat) == Err::<
                Seq<i32>,
                ResampleError,
            >(e),
        },
{
    if source_rate == target_rate {
        return Ok(samples);
    }
    if source_rate == 0 {
        return Err(ResampleError::ZeroSourceRate);
    }
    let len: usize = samples.len();
    let src: u128 = source_rate as u128;
    let dst: u128 = target_rate as u128;
    assert(2 * len * dst <= 2 * 0xffff_ffff_ffff_ffff * 0xffff_ffff) by (nonlinear_arith)
        requires
            len <= 0xffff_ffff_ffff_ffff,
            dst <= 0xffff_ffff,
    ;
    assert(2 * len * dst == 2 * (len as nat) * (target_rate as nat));
    let wide_len: u128 = (2 * (len as u128) * dst + src) / (2 * src);
    if wide_len > usize::MAX as u128 {
        return Err(ResampleError::TooLong);
    }
    let new_len: usize = wide_len as usize;
    assert(dst == 0 ==> new_len == 0) by {
        if dst == 0 {
            assert(2 * (len as u128) * dst == 0) by (nonlinear_arith)
                requires
                    dst == 0,
            ;
            assert((0 + src) / (2 * src) == 0) by (nonlinear_arith)
                requires
                    src > 0,
            ;
        }
    }
    let mut out: Vec<i32> = Vec::new();
    let mut i: usize = 0;
    while i < new_len
        invariant
            len == samples@.len(),
            src == source_rate,
            dst == target_rate,
            src > 0,
            i <= new_len,
            new_len > 0 ==> dst > 0,
            out@.len() == i,
            forall|m: int|
                0 <= m < i ==> #[trigger] out@[m] == resampled_at(
                    samples@,
                    m,
                    source_rate as nat,
                    target_rate as nat,
                ),
        decreases new_len - i,
    {
        assert(i * src <= 0xffff_ffff_ffff_ffff * 0xffff_ffff) by (nonlinear_arith)
            requires
                i <= 0xffff_ffff_ffff_ffff,
                src <= 0xffff_ffff,
        ;
        assert(i * src == (i as nat) * (source_rate as nat));
        let j: u128 = (i as u128 * src) / dst;
        let value: i32 = if j < len as u128 {
            samples[j as usize]
        } else {
            0
        };
        out.push(value);
        i = i + 1;
    }
    assert(out@ =~= resample_spec(samples@, source_rate as nat, target_rate as nat));
    Ok(out)
}

} // verus!
