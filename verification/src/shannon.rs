//! The Shannon entropy test: the information density of the stream in bits
//! per byte, at most 8.0, reached only by an exactly uniform histogram.

use vstd::prelude::*;

use crate::dec::{
    add_code, dec_add, dec_div, dec_from_u64, dec_lit, dec_log2, dec_mul, div_code, from_u64_code,
    lit_val, log2_code, mul_code, Dec,
};
use crate::hist::{counts_of, Histogram};

verus! {

/// The code of the entropy sum folded over the first `i` buckets: starting
/// from zero, each byte value that occurs adds `p * log2(1/p)` for its
/// probability `p = count / total`; absent values add nothing.
pub open spec fn shannon_fold(counts: Seq<u64>, total: int, i: int) -> int
    decreases i,
{
    if i <= 0 {
        lit_val("0.0"@)
    } else {
        let prev = shannon_fold(counts, total, i - 1);
        if counts[i - 1] > 0 {
            let p = div_code(from_u64_code(counts[i - 1]), total);
            add_code(prev, mul_code(p, log2_code(div_code(from_u64_code(1), p))))
        } else {
            prev
        }
    }
}

/// The code of the Shannon entropy of a 256-bucket count table with the given
/// total.
pub open spec fn shannon_code(counts: Seq<u64>, total: u64) -> int {
    shannon_fold(counts, from_u64_code(total), 256)
}

/// Computes the Shannon entropy of a stream's byte-value distribution.
pub struct ShannonCalculation {
    hist: Histogram,
}

impl View for ShannonCalculation {
    type V = Seq<u8>;

    closed spec fn view(&self) -> Seq<u8> {
        self.hist@
    }
}

impl ShannonCalculation {
    /// The histogram is an exact count of the bytes fed so far.
    pub closed spec fn wf(&self) -> bool {
        self.hist.wf()
    }

    /// Creates the blank state for the Shannon calculation.
    pub fn new() -> (r: ShannonCalculation)
        ensures
            r.wf(),
            r@ == Seq::<u8>::empty(),
    {
        ShannonCalculation { hist: Histogram::new() }
    }

    /// Applies a byte chunk to the Shannon state.
    pub fn update(&mut self, bytes: &[u8])
        requires
            old(self).wf(),
            old(self)@.len() + bytes@.len() <= u64::MAX,
        ensures
            final(self).wf(),
            final(self)@ == old(self)@ + bytes@,
    {
        self.hist.feed(bytes);
    }

    /// The entropy in bits per byte: the NaN sentinel for an empty stream,
    /// else `shannon_code` over the stream's exact counts. A bucket's
    /// probability is positive exactly when its count is. Pure: repeated
    /// calls agree.
    pub fn finalize(&self) -> (r: Dec)
        requires
            self.wf(),
        ensures
            r.spec_is_nan() <==> self@.len() == 0,
            self@.len() != 0 ==> r.model() == shannon_code(counts_of(self@), self@.len() as u64),
    {
        let total = self.hist.total();
        if total == 0 {
            return Dec::nan();
        }
        let counts = self.hist.buckets();
        let length = dec_from_u64(total);
        let one = dec_from_u64(1);
        let mut entropy = dec_lit("0.0");
        let mut i: usize = 0;
        while i < 256
            invariant
                i <= 256,
                counts@.len() == 256,
                counts@ == counts_of(self@),
                length@ == from_u64_code(total),
                one@ == from_u64_code(1),
                entropy@ == shannon_fold(counts@, length@, i as int),
            decreases 256 - i,
        {
            let count = counts[i];
            if count > 0 {
                let probability = dec_div(&dec_from_u64(count), &length);
                let p = dec_log2(&dec_div(&one, &probability));
                entropy = dec_add(&entropy, &dec_mul(&probability, &p));
            }
            i = i + 1;
        }
        Dec::num(entropy)
    }

    /// The number of bytes fed so far.
    pub fn samples(&self) -> (r: u64)
        requires
            self.wf(),
        ensures
            r == self@.len(),
    {
        self.hist.total()
    }

    /// Oneshot test for small data: `new`, one `update`, then `finalize`.
    pub fn test(data: &[u8]) -> (r: Dec)
        requires
            data@.len() <= u64::MAX,
        ensures
            r.spec_is_nan() <==> data@.len() == 0,
            data@.len() != 0 ==> r.model() == shannon_code(counts_of(data@), data@.len() as u64),
    {
        let mut this = Self::new();
        this.update(data);
        proof {
            assert(Seq::<u8>::empty() + data@ =~= data@);
        }
        this.finalize()
    }
}

impl Default for ShannonCalculation {
    /// The blank state, as `new` makes it.
    fn default() -> (r: Self)
        ensures
            r.wf(),
            r@ == Seq::<u8>::empty(),
    {
        Self::new()
    }
}

impl crate::EntropyTest for ShannonCalculation {
    open spec fn inv(&self) -> bool {
        self.wf()
    }

    open spec fn stream(&self) -> Seq<u8> {
        self@
    }

    open spec fn capacity() -> nat {
        u64::MAX as nat
    }

    /// The entropy is undefined only for the empty stream.
    open spec fn undefined_for(s: Seq<u8>) -> bool {
        s.len() == 0
    }

    open spec fn result_code(s: Seq<u8>) -> int {
        shannon_code(counts_of(s), s.len() as u64)
    }

    fn update(&mut self, bytes: &[u8]) {
        ShannonCalculation::update(self, bytes);
    }

    fn finalize(&self) -> (r: Dec) {
        ShannonCalculation::finalize(self)
    }
}

} // verus!
