//! The test suite: one instance of each of the five calculators behind a
//! single feed/finalize pair, producing the aggregate result record.

use vstd::prelude::*;
use vstd::slice::slice_subrange;

use crate::chisqr::{chi_code, probability_code, ChiSquareCalculation};
use crate::dec::Dec;
use crate::hist::counts_of;
use crate::mc::{mc_code, MonteCarloCalculation};
use crate::mean::{mean_code, MeanCalculation};
use crate::sc::{all_same, sc_code, SerialCorrelationCoefficientCalculation, SC_MAX_TOTAL};
use crate::shannon::{shannon_code, ShannonCalculation};

verus! {

/// The results of all test methods over one byte stream. Each decimal field
/// is the NaN sentinel exactly when the stream makes it undefined.
#[derive(Clone, Copy)]
#[non_exhaustive]
pub struct EntestResult {
    /// Samples of input: the length of the byte stream.
    pub samples: u64,
    /// The chi-square statistic.
    pub chi: Dec,
    /// The tail probability of the chi-square statistic.
    pub chi_prob: Dec,
    /// The Monte Carlo pi estimate.
    pub mc: Dec,
    /// The arithmetic mean of the byte values.
    pub mean: Dec,
    /// The serial correlation coefficient.
    pub sc: Dec,
    /// The Shannon entropy in bits per byte.
    pub shannon: Dec,
}

impl EntestResult {
    /// Total samples of input, that is the length of the byte stream.
    pub fn samples(&self) -> (r: u64)
        ensures
            r == self.samples,
    {
        self.samples
    }

    /// Result of the chi-square calculation.
    pub fn chi(&self) -> (r: &Dec)
        ensures
            *r == self.chi,
    {
        &self.chi
    }

    /// The tail probability of the chi-square statistic.
    pub fn chi_prob(&self) -> (r: &Dec)
        ensures
            *r == self.chi_prob,
    {
        &self.chi_prob
    }

    /// Result of the Monte Carlo calculation.
    pub fn mc(&self) -> (r: &Dec)
        ensures
            *r == self.mc,
    {
        &self.mc
    }

    /// Result of the mean calculation.
    pub fn mean(&self) -> (r: &Dec)
        ensures
            *r == self.mean,
    {
        &self.mean
    }

    /// Result of the serial correlation calculation.
    pub fn sc(&self) -> (r: &Dec)
        ensures
            *r == self.sc,
    {
        &self.sc
    }

    /// Result of the Shannon entropy calculation.
    pub fn shannon(&self) -> (r: &Dec)
        ensures
            *r == self.shannon,
    {
        &self.shannon
    }
}

/// What `finalize` promises of a result record read from the stream `s`. The
/// sample count is the stream's length; each field is the NaN sentinel
/// exactly when `s` makes it undefined -- the statistic, its probability, the
/// mean and the entropy for an empty stream, the pi estimate for fewer bytes
/// than one coordinate pair, the correlation for an empty or constant stream
/// -- and each defined field's payload is its calculator's exact composition
/// of named backend operations over the stream, with the tail probability
/// taken of the statistic at the fixed 127 degrees of freedom. The record is
/// a function of `s` alone: two records matching the same stream agree on
/// every observable here.
pub open spec fn result_matches(s: Seq<u8>, r: EntestResult) -> bool {
    &&& r.samples == s.len()
    &&& (r.chi.spec_is_nan() <==> s.len() == 0)
    &&& (r.chi_prob.spec_is_nan() <==> s.len() == 0)
    &&& (r.mc.spec_is_nan() <==> s.len() < 6)
    &&& (r.mean.spec_is_nan() <==> s.len() == 0)
    &&& (r.sc.spec_is_nan() <==> (s.len() == 0 || all_same(s)))
    &&& (r.shannon.spec_is_nan() <==> s.len() == 0)
    &&& (s.len() != 0 ==> r.chi.model() == chi_code(counts_of(s), s.len() as u64))
    &&& (s.len() != 0 ==> r.chi_prob.model() == probability_code(r.chi.model(), 127))
    &&& (s.len() >= 6 ==> r.mc.model() == mc_code(s))
    &&& (s.len() != 0 ==> r.mean.model() == mean_code(counts_of(s), s.len() as u64))
    &&& (!(s.len() == 0 || all_same(s)) ==> r.sc.model() == sc_code(s))
    &&& (s.len() != 0 ==> r.shannon.model() == shannon_code(counts_of(s), s.len() as u64))
}

/// Two result records read over the same byte stream agree on every
/// observable the contracts pin down: the sample count, the definedness of
/// each field, and the composition of backend operations behind each defined
/// payload. Since `finalize` mutates nothing, this is its idempotence; and
/// since `update`'s contract makes the absorbed stream the concatenation of
/// the chunks fed, it is also the records' invariance under how a stream is
/// cut into chunks.
pub proof fn lemma_observables_agree(s: Seq<u8>, r1: EntestResult, r2: EntestResult)
    requires
        result_matches(s, r1),
        result_matches(s, r2),
    ensures
        r1.samples == r2.samples,
        r1.chi.spec_is_nan() == r2.chi.spec_is_nan(),
        r1.chi_prob.spec_is_nan() == r2.chi_prob.spec_is_nan(),
        r1.mc.spec_is_nan() == r2.mc.spec_is_nan(),
        r1.mean.spec_is_nan() == r2.mean.spec_is_nan(),
        r1.sc.spec_is_nan() == r2.sc.spec_is_nan(),
        r1.shannon.spec_is_nan() == r2.shannon.spec_is_nan(),
        !r1.chi.spec_is_nan() ==> r1.chi.model() == r2.chi.model(),
        !r1.chi_prob.spec_is_nan() ==> r1.chi_prob.model() == r2.chi_prob.model(),
        !r1.mc.spec_is_nan() ==> r1.mc.model() == r2.mc.model(),
        !r1.mean.spec_is_nan() ==> r1.mean.model() == r2.mean.model(),
        !r1.sc.spec_is_nan() ==> r1.sc.model() == r2.sc.model(),
        !r1.shannon.spec_is_nan() ==> r1.shannon.model() == r2.shannon.model(),
{
}

/// Runs all five entropy tests over one byte stream. Every calculator owns an
/// independent state fed identically, so finalize needs no mutation and the
/// calculators share nothing.
pub struct Entest {
    /// State of the chi-square calculation.
    pub chi: ChiSquareCalculation,
    /// State of the Monte Carlo calculation.
    pub mc: MonteCarloCalculation,
    /// State of the mean calculation.
    pub mean: MeanCalculation,
    /// State of the serial correlation calculation.
    pub sc: SerialCorrelationCoefficientCalculation,
    /// State of the Shannon entropy calculation.
    pub shannon: ShannonCalculation,
}

impl View for Entest {
    type V = Seq<u8>;

    closed spec fn view(&self) -> Seq<u8> {
        self.chi@
    }
}

impl Default for Entest {
    /// The blank state, as `new` makes it.
    fn default() -> (r: Self)
        ensures
            r.wf(),
            r@ == Seq::<u8>::empty(),
    {
        Self::new()
    }
}

impl Entest {
    /// All five calculators are well formed and have absorbed the same stream.
    pub closed spec fn wf(&self) -> bool {
        &&& self.chi.wf()
        &&& self.mc.wf()
        &&& self.mean.wf()
        &&& self.sc.wf()
        &&& self.shannon.wf()
        &&& self.mc@ == self.chi@
        &&& self.mean@ == self.chi@
        &&& self.sc@ == self.chi@
        &&& self.shannon@ == self.chi@
    }

    /// Creates the blank state for the whole suite.
    pub fn new() -> (r: Entest)
        ensures
            r.wf(),
            r@ == Seq::<u8>::empty(),
    {
        Entest {
            chi: ChiSquareCalculation::new(),
            mc: MonteCarloCalculation::new(),
            mean: MeanCalculation::new(),
            sc: SerialCorrelationCoefficientCalculation::new(),
            shannon: ShannonCalculation::new(),
        }
    }

    /// Forwards one byte chunk, in order, to every calculator. The length
    /// bound keeps the serial correlation sums within `u64`; the results are
    /// therefore invariant under how a stream is cut into chunks: only the
    /// concatenation `old(self)@ + bytes@` matters.
    pub fn update(&mut self, bytes: &[u8])
        requires
            old(self).wf(),
            old(self)@.len() + bytes@.len() <= SC_MAX_TOTAL,
        ensures
            final(self).wf(),
            final(self)@ == old(self)@ + bytes@,
    {
        self.chi.update(bytes);
        self.mc.update(bytes);
        self.mean.update(bytes);
        self.sc.update(bytes);
        self.shannon.update(bytes);
    }

    /// Reads out every test result. Pure in the accumulated state: it mutates
    /// nothing, so repeated calls with no feed in between agree, and each
    /// field is defined or the NaN sentinel exactly as its stream demands:
    /// chi, its probability, mean and entropy need a non-empty stream, the
    /// Monte Carlo estimate needs at least one complete 6-byte group, and the
    /// correlation needs a non-constant stream.
    pub fn finalize(&self) -> (r: EntestResult)
        requires
            self.wf(),
        ensures
            result_matches(self@, r),
    {
        let (chi, chi_prob) = self.chi.finalize_probability();
        EntestResult {
            samples: self.chi.samples(),
            chi,
            chi_prob,
            mc: self.mc.finalize(),
            mean: self.mean.finalize(),
            sc: self.sc.finalize(),
            shannon: self.shannon.finalize(),
        }
    }

    /// Oneshot test for small data: `new`, one `update`, then `finalize`.
    pub fn test(bytes: &[u8]) -> (r: EntestResult)
        requires
            bytes@.len() <= SC_MAX_TOTAL,
        ensures
            result_matches(bytes@, r),
    {
        let mut this = Self::new();
        this.update(bytes);
        proof {
            assert(Seq::<u8>::empty() + bytes@ =~= bytes@);
        }
        this.finalize()
    }
}

/// Chunk boundaries carry no meaning. `update` ensures that a feed only
/// appends the chunk to the absorbed stream, and this concatenation does not
/// depend on where a stream was cut; `finalize`'s contract speaks of the
/// absorbed stream alone. So every observable that the contracts pin down --
/// the sample count and the definedness of each field -- is the same however
/// a byte sequence is split into feeds.
pub proof fn lemma_chunk_invariance(s: Seq<u8>, a: Seq<u8>, b: Seq<u8>)
    ensures
        (s + a) + b == s + (a + b),
{
    assert((s + a) + b =~= s + (a + b));
}

/// The buffer cap of [`Entest::test_rng_stack`]: 256 KiB.
const BUF_SIZE_MAX: usize = 1024 * 256;

/// A zero-filled byte buffer of the given length.
fn zero_vec(n: usize) -> (r: Vec<u8>)
    ensures
        r@.len() == n,
{
    let mut v: Vec<u8> = Vec::new();
    let mut i: usize = 0;
    while i < n
        invariant
            i <= n,
            v@.len() == i,
        decreases n - i,
    {
        v.push(0);
        i = i + 1;
    }
    v
}

/// Relies on rand_core's `RngCore::fill_bytes`: fills the first `n` bytes of
/// `buf` with generator output, whatever it may be; the length is unchanged.
#[verifier::external_body]
fn fill_prefix<R: rand_core::RngCore>(rng: &mut R, buf: &mut Vec<u8>, n: usize)
    requires
        n <= old(buf)@.len(),
    ensures
        final(buf)@.len() == old(buf)@.len(),
{
    rng.fill_bytes(&mut buf[..n]);
}

impl Entest {
    /// Tests the provided generator, feeding `size` generated bytes through
    /// the suite in chunks of at most `buf`'s length. What the generator
    /// emits is unknown, so beyond the sample count the contract promises
    /// only what holds of every stream of that length.
    pub fn test_rng<R: rand_core::RngCore>(rng: &mut R, size: usize, buf: &mut Vec<u8>) -> (r:
        EntestResult)
        requires
            size as int <= SC_MAX_TOTAL as int,
            size == 0 || old(buf)@.len() > 0,
        ensures
            final(buf)@.len() == old(buf)@.len(),
            size == 0 ==> final(buf)@ == old(buf)@,
            r.samples == size,
            r.chi.spec_is_nan() <==> size == 0,
            r.chi_prob.spec_is_nan() <==> size == 0,
            r.mc.spec_is_nan() <==> size < 6,
            r.mean.spec_is_nan() <==> size == 0,
            r.shannon.spec_is_nan() <==> size == 0,
            size == 0 ==> r.sc.spec_is_nan(),
    {
        let mut this = Entest::new();
        if size == 0 {
            return this.finalize();
        }

        let mut chunk_size = buf.len();
        let mut remaining = size;
        while remaining > 0
            invariant
                this.wf(),
                this@.len() == size - remaining,
                remaining <= size,
                size as int <= SC_MAX_TOTAL as int,
                1 <= chunk_size,
                chunk_size <= buf@.len(),
                buf@.len() == old(buf)@.len(),
            decreases remaining,
        {
            if remaining < chunk_size {
                chunk_size = remaining;
            }

            fill_prefix(rng, buf, chunk_size);
            let chunk = slice_subrange(buf.as_slice(), 0, chunk_size);
            this.update(chunk);
            remaining = remaining - chunk_size;
        }

        this.finalize()
    }

    /// Tests the provided generator with a buffer allocated from the heap,
    /// sized from `size`.
    pub fn test_rng_heap<R: rand_core::RngCore>(rng: &mut R, size: usize) -> (r: EntestResult)
        requires
            size as int <= SC_MAX_TOTAL as int,
        ensures
            r.samples == size,
            r.chi.spec_is_nan() <==> size == 0,
            r.chi_prob.spec_is_nan() <==> size == 0,
            r.mc.spec_is_nan() <==> size < 6,
            r.mean.spec_is_nan() <==> size == 0,
            r.shannon.spec_is_nan() <==> size == 0,
            size == 0 ==> r.sc.spec_is_nan(),
    {
        if size == 0 {
            let this = Entest::new();
            return this.finalize();
        }

        let mut chunk_size = size / 10;
        if chunk_size < 1024 || chunk_size < size {
            chunk_size = size;
        }

        let mut buf = zero_vec(chunk_size);
        Self::test_rng(rng, size, &mut buf)
    }

    /// Tests the provided generator with a buffer of compile-time size,
    /// capped at 256 KiB to bound the allocation. A zero buffer size is only
    /// allowed together with a zero test size.
    pub fn test_rng_stack<const BUF_SIZE: usize, R: rand_core::RngCore>(rng: &mut R, size: usize)
        -> (r: EntestResult)
        requires
            size as int <= SC_MAX_TOTAL as int,
            size == 0 || BUF_SIZE > 0,
        ensures
            r.samples == size,
            r.chi.spec_is_nan() <==> size == 0,
            r.chi_prob.spec_is_nan() <==> size == 0,
            r.mc.spec_is_nan() <==> size < 6,
            r.mean.spec_is_nan() <==> size == 0,
            r.shannon.spec_is_nan() <==> size == 0,
            size == 0 ==> r.sc.spec_is_nan(),
    {
        if size == 0 {
            let this = Entest::new();
            return this.finalize();
        }

        if BUF_SIZE > BUF_SIZE_MAX {
            let mut buf = zero_vec(BUF_SIZE_MAX);
            Self::test_rng(rng, size, &mut buf)
        } else {
            let mut buf = zero_vec(BUF_SIZE);
            Self::test_rng(rng, size, &mut buf)
        }
    }
}

} // verus!
