//! entest (entropy test) applies statistical randomness tests to byte
//! sequences: byte-value distribution (chi-square with its tail probability),
//! a Monte Carlo estimate of pi, the arithmetic mean, lag-1 serial
//! correlation, and Shannon entropy.
//!
//! Each test is an online calculator: it is created empty, fed byte chunks in
//! stream order, and finalized any number of times without further mutation.
//! Numeric results are fixed-precision decimals from the `fastnum2` crate.
//! Contracts speak of the byte stream each calculator has absorbed, of sample
//! counts, of exactly when a result is the NaN sentinel, and of each defined
//! result's payload: every backend operation's outcome carries a named code
//! (see [`dec`]), and each result is pinned to the exact composition of named
//! operations, over exact byte counts and sums, that its test prescribes.

use vstd::prelude::*;

pub mod chisqr;
pub mod dec;
pub mod entest;
pub mod hist;
pub mod mc;
pub mod mean;
pub mod sc;
pub mod shannon;

pub use chisqr::ChiSquareCalculation;
pub use dec::Dec;
pub use entest::{Entest, EntestResult};
pub use mc::MonteCarloCalculation;
pub use mean::MeanCalculation;
pub use sc::SerialCorrelationCoefficientCalculation;
pub use shannon::ShannonCalculation;

use crate::dec::{abs_code, dec_abs, dec_div, dec_sub, div_code, sub_code};

verus! {

/// Copies the values of `src` onto the front of `dst`, leaving the rest of
/// `dst` as it was. Returns how many values were copied, or an error when
/// `dst` is shorter than `src`, in which case `dst` is untouched.
pub fn copy_from_slice<T: Copy>(dst: &mut Vec<T>, src: &[T]) -> (r: Result<usize, ()>)
    ensures
        match r {
            Result::Ok(n) => {
                &&& n == src@.len()
                &&& old(dst)@.len() >= src@.len()
                &&& final(dst)@ == src@ + old(dst)@.skip(src@.len() as int)
            },
            Result::Err(()) => {
                &&& old(dst)@.len() < src@.len()
                &&& final(dst)@ == old(dst)@
            },
        },
{
    let src_len = src.len();
    let dst_len = dst.len();
    if dst_len < src_len {
        return Result::Err(());
    }

    let mut i: usize = 0;
    while i < src_len
        invariant
            i <= src_len,
            src_len == src@.len(),
            src@.len() <= dst@.len(),
            dst@.len() == old(dst)@.len(),
            forall|j: int| 0 <= j < i ==> dst@[j] == src@[j],
            forall|j: int| i <= j < dst@.len() ==> dst@[j] == old(dst)@[j],
        decreases src_len - i,
    {
        let v = src[i];
        dst.set(i, v);
        i = i + 1;
    }
    proof {
        assert(dst@ =~= src@ + old(dst)@.skip(src@.len() as int));
    }
    Result::Ok(i)
}

/// With `correct` as the expected value, the relative error of `actual`:
/// exactly `|actual - correct| / |correct|` in backend operations. The result
/// carries the NaN sentinel exactly when one of the operands does.
pub fn error_ratio(correct: Dec, actual: Dec) -> (r: Dec)
    ensures
        r.spec_is_nan() == (correct.spec_is_nan() || actual.spec_is_nan()),
        r.model() == div_code(
            abs_code(sub_code(actual.model(), correct.model())),
            abs_code(correct.model()),
        ),
{
    let val = dec_div(&dec_abs(&dec_sub(actual.val(), correct.val())), &dec_abs(correct.val()));
    Dec::make(correct.is_nan() || actual.is_nan(), val)
}

/// Tests the entropy of a provided byte stream: the one capability all five
/// calculators share. A calculator absorbs chunks in stream order and can be
/// read out at any time; its result depends on the absorbed stream alone, and
/// is the NaN sentinel exactly on the streams `undefined_for` describes.
pub trait EntropyTest: Sized {
    /// The calculator state's well-formedness.
    spec fn inv(&self) -> bool;

    /// The bytes absorbed so far.
    spec fn stream(&self) -> Seq<u8>;

    /// How many bytes the calculator can absorb in total.
    spec fn capacity() -> nat;

    /// The streams on which the calculator's result is undefined.
    spec fn undefined_for(s: Seq<u8>) -> bool;

    /// The composition of named backend operations that a defined result of
    /// this calculator equals, as a function of the absorbed stream.
    spec fn result_code(s: Seq<u8>) -> int;

    /// Provides a byte chunk of the stream under test.
    fn update(&mut self, bytes: &[u8])
        requires
            old(self).inv(),
            old(self).stream().len() + bytes@.len() <= Self::capacity(),
        ensures
            final(self).inv(),
            final(self).stream() == old(self).stream() + bytes@,
    ;

    /// Reads out the result of the entropy test.
    fn finalize(&self) -> (r: Dec)
        requires
            self.inv(),
        ensures
            r.spec_is_nan() <==> Self::undefined_for(self.stream()),
            !Self::undefined_for(self.stream()) ==> r.model() == Self::result_code(self.stream()),
    ;
}

} // verus!
