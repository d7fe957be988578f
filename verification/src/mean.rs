//! The arithmetic-mean test: the average of all byte values fed, expected
//! near 127.5 for uniform random data.

use vstd::prelude::*;

use crate::dec::{
    add_code, dec_add, dec_div, dec_from_u64, dec_lit, dec_mul, div_code, from_u64_code, lit_val,
    mul_code, Dec,
};
use crate::hist::{counts_of, Histogram};

verus! {

/// The code of the weighted sum folded over the first `i` buckets: starting
/// from zero, each byte value `v` adds `v * count[v]`.
pub open spec fn mean_fold(counts: Seq<u64>, i: int) -> int
    decreases i,
{
    if i <= 0 {
        lit_val("0.0"@)
    } else {
        add_code(
            mean_fold(counts, i - 1),
            mul_code(from_u64_code((i - 1) as u64), from_u64_code(counts[i - 1])),
        )
    }
}

/// The code of the arithmetic mean of a 256-bucket count table with the given
/// total: the weighted sum divided by the total.
pub open spec fn mean_code(counts: Seq<u64>, total: u64) -> int {
    div_code(mean_fold(counts, 256), from_u64_code(total))
}

/// Computes the arithmetic mean of the byte values of a stream.
pub struct MeanCalculation {
    hist: Histogram,
}

impl View for MeanCalculation {
    type V = Seq<u8>;

    closed spec fn view(&self) -> Seq<u8> {
        self.hist@
    }
}

impl MeanCalculation {
    /// The histogram is an exact count of the bytes fed so far.
    pub closed spec fn wf(&self) -> bool {
        self.hist.wf()
    }

    /// Creates the blank state for the mean calculation.
    pub fn new() -> (r: MeanCalculation)
        ensures
            r.wf(),
            r@ == Seq::<u8>::empty(),
    {
        MeanCalculation { hist: Histogram::new() }
    }

    /// Applies a byte chunk to the mean state.
    pub fn update(&mut self, bytes: &[u8])
        requires
            old(self).wf(),
            old(self)@.len() + bytes@.len() <= u64::MAX,
        ensures
            final(self).wf(),
            final(self)@ == old(self)@ + bytes@,
    {
        self.hist.feed(bytes);
    }

    /// The mean of all byte values seen: the NaN sentinel for an empty
    /// stream, else `mean_code` over the stream's exact counts. Pure:
    /// repeated calls agree.
    pub fn finalize(&self) -> (r: Dec)
        requires
            self.wf(),
        ensures
            r.spec_is_nan() <==> self@.len() == 0,
            self@.len() != 0 ==> r.model() == mean_code(counts_of(self@), self@.len() as u64),
    {
        let total = self.hist.total();
        if total == 0 {
            return Dec::nan();
        }
        let counts = self.hist.buckets();
        let mut sum = dec_lit("0.0");
        let mut i: usize = 0;
        while i < 256
            invariant
                i <= 256,
                counts@.len() == 256,
                counts@ == counts_of(self@),
                sum@ == mean_fold(counts@, i as int),
            decreases 256 - i,
        {
            let index = dec_from_u64(i as u64);
            let bucket = dec_from_u64(counts[i]);
            sum = dec_add(&sum, &dec_mul(&index, &bucket));
            i = i + 1;
        }
        Dec::num(dec_div(&sum, &dec_from_u64(total)))
    }

    /// The number of bytes fed so far.
    pub fn samples(&self) -> (r: u64)
        requires
            self.wf(),
        ensures
            r == self@.len(),
    {
        self.hist.total()
    }

    /// Oneshot test for small data: `new`, one `update`, then `finalize`.
    pub fn test(data: &[u8]) -> (r: Dec)
        requires
            data@.len() <= u64::MAX,
        ensures
            r.spec_is_nan() <==> data@.len() == 0,
            data@.len() != 0 ==> r.model() == mean_code(counts_of(data@), data@.len() as u64),
    {
        let mut this = Self::new();
        this.update(data);
        proof {
            assert(Seq::<u8>::empty() + data@ =~= data@);
        }
        this.finalize()
    }
}

impl Default for MeanCalculation {
    /// The blank state, as `new` makes it.
    fn default() -> (r: Self)
        ensures
            r.wf(),
            r@ == Seq::<u8>::empty(),
    {
        Self::new()
    }
}

impl crate::EntropyTest for MeanCalculation {
    open spec fn inv(&self) -> bool {
        self.wf()
    }

    open spec fn stream(&self) -> Seq<u8> {
        self@
    }

    open spec fn capacity() -> nat {
        u64::MAX as nat
    }

    /// The mean is undefined only for the empty stream.
    open spec fn undefined_for(s: Seq<u8>) -> bool {
        s.len() == 0
    }

    open spec fn result_code(s: Seq<u8>) -> int {
        mean_code(counts_of(s), s.len() as u64)
    }

    fn update(&mut self, bytes: &[u8]) {
        MeanCalculation::update(self, bytes);
    }

    fn finalize(&self) -> (r: Dec) {
        MeanCalculation::finalize(self)
    }
}

} // verus!
