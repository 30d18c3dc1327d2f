//! A finished mixdown, and its division into chunks for the encoder.
use vstd::prelude::*;
use crate::fixed::FULL_SCALE;

verus! {

/// The number of chunks of `rate` samples that `len` samples fill; the last may be short.
pub open spec fn chunk_count_of(len: nat, rate: nat) -> nat {
    ((len + rate - 1) / (rate as int)) as nat
}

/// Where chunk `index` starts.
pub open spec fn chunk_start(index: nat, rate: nat) -> nat {
    index * rate
}

/// Where chunk `index` ends: one chunk length on, or at the end of the samples.
pub open spec fn chunk_end(len: nat, index: nat, rate: nat) -> nat {
    if (index + 1) * rate <= len {
        (index + 1) * rate
    } else {
        len
    }
}

/// The samples of chunk `index`.
pub open spec fn chunk_of(samples: Seq<i32>, rate: nat, index: nat) -> Seq<i32> {
    samples.subrange(chunk_start(index, rate) as int, chunk_end(samples.len(), index, rate) as int)
}

/// The first `count` chunks, one after the other.
pub open spec fn joined_chunks(samples: Seq<i32>, rate: nat, count: nat) -> Seq<i32>
    decreases count,
{
    if count == 0 {
        Seq::empty()
    } else {
        joined_chunks(samples, rate, (count - 1) as nat) + chunk_of(
            samples,
            rate,
            (count - 1) as nat,
        )
    }
}

/// Every chunk below the count starts inside the samples, is not empty and
/// holds at most `rate` samples.
pub proof fn lemma_chunk_bounds(len: nat, rate: nat, index: nat)
    requires
        rate > 0,
        index < chunk_count_of(len, rate),
    ensures
        chunk_start(index, rate) < chunk_end(len, index, rate) <= len,
        chunk_end(len, index, rate) - chunk_start(index, rate) <= rate,
        index + 1 < chunk_count_of(len, rate) ==> chunk_end(len, index, rate) - chunk_start(
            index,
            rate,
        ) == rate,
        index + 1 == chunk_count_of(len, rate) ==> chunk_end(len, index, rate) == len,
{
    let count = chunk_count_of(len, rate);
    let a: int = len + rate - 1;
    let r: int = rate as int;
    assert(a == r * (a / r) + a % r && 0 <= a % r < r) by (nonlinear_arith)
        requires
            r > 0,
    ;
    assert(a / r >= 0) by (nonlinear_arith)
        requires
            a >= 0,
            r > 0,
    ;
    assert(count == a / r);
    assert((index + 1) * rate == index * rate + rate) by (nonlinear_arith);
    assert(index * rate >= 0) by (nonlinear_arith);
    assert(r * count >= r * (index + 1)) by (nonlinear_arith)
        requires
            count >= index + 1,
            r > 0,
    ;
    assert(r * (index + 1) == (index + 1) * rate) by (nonlinear_arith)
        requires
            r == rate,
    ;
    if index + 1 < count {
        assert(r * count >= r * (index + 2)) by (nonlinear_arith)
            requires
                count >= index + 2,
                r > 0,
        ;
        assert(r * (index + 2) == (index + 1) * rate + rate) by (nonlinear_arith)
            requires
                r == rate,
        ;
    }
    if index + 1 == count {
        assert(r * count == (index + 1) * rate) by (nonlinear_arith)
            requires
                count == index + 1,
                r == rate,
        ;
    }
}

/// The first `count` chunks make up the first `count * rate` samples.
pub proof fn lemma_joined_prefix(samples: Seq<i32>, rate: nat, count: nat)
    requires
        rate > 0,
        count <= chunk_count_of(samples.len(), rate),
    ensures
        count < chunk_count_of(samples.len(), rate) ==> joined_chunks(samples, rate, count)
            == samples.take((count * rate) as int),
        count == chunk_count_of(samples.len(), rate) ==> joined_chunks(samples, rate, count)
            == samples,
    decreases count,
{
    if count == 0 {
        assert(0 * rate == 0) by (nonlinear_arith);
        assert(samples.take(0) =~= Seq::<i32>::empty());
        if chunk_count_of(samples.len(), rate) == 0 {
            if samples.len() > 0 {
                let a: int = samples.len() + rate - 1;
                let r: int = rate as int;
                assert(a / r >= 1) by (nonlinear_arith)
                    requires
                        a >= r,
                        r > 0,
                ;
            }
            assert(samples =~= Seq::<i32>::empty());
        }
    } else {
        let prev = (count - 1) as nat;
        lemma_joined_prefix(samples, rate, prev);
        lemma_chunk_bounds(samples.len(), rate, prev);
        assert((prev + 1) * rate == prev * rate + rate) by (nonlinear_arith);
        let before = samples.take((prev * rate) as int);
        let piece = chunk_of(samples, rate, prev);
        if count < chunk_count_of(samples.len(), rate) {
            assert(before + piece =~= samples.take((count * rate) as int));
        } else {
            assert(before + piece =~= samples);
        }
    }
}

/// The chunks of a recording, joined in order, are the recording.
pub proof fn lemma_chunks_cover(samples: Seq<i32>, rate: nat)
    requires
        rate > 0,
    ensures
        joined_chunks(samples, rate, chunk_count_of(samples.len(), rate)) == samples,
{
    lemma_joined_prefix(samples, rate, chunk_count_of(samples.len(), rate));
}

/// One mono mixdown at a known sample rate, ready to be encoded.
pub struct Recording {
    samples: Vec<i32>,
    sample_rate: u32,
}

impl Recording {
    #[verifier::type_invariant]
    spec fn well_formed(self) -> bool {
        &&& self.samples@.len() > 0
        &&& self.sample_rate > 0
        &&& forall|i: int|
            0 <= i < self.samples@.len() ==> -FULL_SCALE <= #[trigger] self.samples@[i]
                <= FULL_SCALE
    }

    /// The mixed samples.
    pub closed spec fn samples_view(&self) -> Seq<i32> {
        self.samples@
    }

    /// The sample rate, in samples per second.
    pub closed spec fn rate_view(&self) -> u32 {
        self.sample_rate
    }

    /// The number of chunks.
    pub open spec fn chunk_count_view(&self) -> nat {
        chunk_count_of(self.samples_view().len(), self.rate_view() as nat)
    }

    /// Wraps a mixdown, if there is anything to encode: `None` for an empty
    /// mixdown or a rate of zero.
    pub(crate) fn from_mix(samples: Vec<i32>, sample_rate: u32) -> (r: Option<Self>)
        requires
            forall|i: int|
                0 <= i < samples@.len() ==> -FULL_SCALE <= #[trigger] samples@[i] <= FULL_SCALE,
        ensures
            r is Some <==> (samples@.len() > 0 && sample_rate > 0),
            r matches Some(rec) ==> rec.samples_view() == samples@ && rec.rate_view()
                == sample_rate,
    {
        if samples.len() == 0 || sample_rate == 0 {
            None
        } else {
            Some(Recording { samples, sample_rate })
        }
    }

    /// The mixed samples: never empty, each within full scale.
    pub fn samples(&self) -> (s: &Vec<i32>)
        ensures
            s@ == self.samples_view(),
            s@.len() > 0,
            forall|i: int| 0 <= i < s@.len() ==> -FULL_SCALE <= #[trigger] s@[i] <= FULL_SCALE,
    {
        proof {
            use_type_invariant(self);
        }
        &self.samples
    }

    /// The sample rate, never zero.
    pub fn sample_rate(&self) -> (rate: u32)
        ensures
            rate == self.rate_view(),
            rate > 0,
    {
        proof {
            use_type_invariant(self);
        }
        self.sample_rate
    }

    /// The number of chunks of one second each that the encoder is fed; at least one.
    pub fn chunk_count(&self) -> (count: usize)
        ensures
            count == self.chunk_count_view(),
            count > 0,
    {
        proof {
            use_type_invariant(self);
        }
        let len: usize = self.samples.len();
        let rate: usize = self.sample_rate as usize;
        let whole: usize = len / rate;
        let rest: usize = len % rate;
        proof {
            let a: int = len + rate - 1;
            let r: int = rate as int;
            assert(len == r * (len as int / r) + len as int % r) by (nonlinear_arith)
                requires
                    r > 0,
            ;
            assert(len == r * whole + rest);
            assert(r * (whole + 1) == r * whole + r) by (nonlinear_arith);
            assert(whole <= r * whole) by (nonlinear_arith)
                requires
                    r >= 1,
                    whole >= 0,
            ;
            if rest == 0 {
                assert(a / r == whole) by (nonlinear_arith)
                    requires
                        a == r * whole + (r - 1),
                        r > 0,
                ;
                assert(whole > 0) by (nonlinear_arith)
                    requires
                        len == r * whole,
                        len > 0,
                        r > 0,
                ;
            } else {
                assert(a / r == whole + 1) by (nonlinear_arith)
                    requires
                        a == r * (whole + 1) + (rest - 1),
                        0 <= rest - 1 < r,
                        r > 0,
                ;
            }
        }
        if rest == 0 {
            whole
        } else {
            whole + 1
        }
    }

    /// The bounds of chunk `index`, or `None` where there is no such chunk.
    pub fn chunk_bounds(&self, index: usize) -> (r: Option<(usize, usize)>)
        ensures
            r is Some <==> index < self.chunk_count_view(),
            r matches Some((start, end)) ==> start == chunk_start(
                index as nat,
                self.rate_view() as nat,
            ) && end == chunk_end(
                self.samples_view().len(),
                index as nat,
                self.rate_view() as nat,
            ) && start < end <= self.samples_view().len(),
    {
        proof {
            use_type_invariant(self);
        }
        if index >= self.chunk_count() {
            return None;
        }
        let len: usize = self.samples.len();
        let rate: usize = self.sample_rate as usize;
        proof {
            lemma_chunk_bounds(len as nat, rate as nat, index as nat);
        }
        let start: usize = index * rate;
        let end: usize = if len - start <= rate {
            len
        } else {
            start + rate
        };
        proof {
            assert((index + 1) * rate == index * rate + rate) by (nonlinear_arith);
        }
        Some((start, end))
    }

    /// The samples of chunk `index`, or `None` where there is no such chunk.
    pub fn chunk(&self, index: usize) -> (r: Option<Vec<i32>>)
        ensures
            r is Some <==> index < self.chunk_count_view(),
            r matches Some(c) ==> c@ == chunk_of(
                self.samples_view(),
                self.rate_view() as nat,
                index as nat,
            ) && 0 < c@.len() <= self.rate_view(),
    {
        match self.chunk_bounds(index) {
            None => None,
            Some((start, end)) => {
                proof {
                    use_type_invariant(self);
                    lemma_chunk_bounds(
                        self.samples@.len(),
                        self.sample_rate as nat,
                        index as nat,
                    );
                }
                let mut out: Vec<i32> = Vec::new();
                let mut i: usize = start;
                while i < end
                    invariant
                        start <= i <= end <= self.samples@.len(),
                        out@ == self.samples@.subrange(start as int, i as int),
                    decreases end - i,
                {
                    out.push(self.samples[i]);
                    i = i + 1;
                    assert(out@ =~= self.samples@.subrange(start as int, i as int));
                }
                Some(out)
            },
        }
    }
}

} // verus!
