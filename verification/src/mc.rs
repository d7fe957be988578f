//! The Monte Carlo pi test: consecutive 6-byte groups form 24-bit `(x, y)`
//! coordinates; the fraction of points falling inside the quarter-circle
//! inscribed in the coordinate square estimates pi / 4.

use vstd::prelude::*;

use crate::dec::{dec_div, dec_from_u64, dec_lit, dec_mul, div_code, from_u64_code, lit_val, mul_code, Dec};

verus! {

/// The squared radius of the coordinate space: `((256^3) - 1)^2`.
pub const IN_CIRCLE_DISTANCE: u64 = 281474943156225;

/// The x coordinate of group `g`: bytes `6g .. 6g+3` read big-endian.
pub open spec fn mc_x(s: Seq<u8>, g: int) -> int {
    (s[6 * g] as int) * 65536 + (s[6 * g + 1] as int) * 256 + (s[6 * g + 2] as int)
}

/// The y coordinate of group `g`: bytes `6g+3 .. 6g+6` read big-endian.
pub open spec fn mc_y(s: Seq<u8>, g: int) -> int {
    (s[6 * g + 3] as int) * 65536 + (s[6 * g + 4] as int) * 256 + (s[6 * g + 5] as int)
}

/// Whether group `g`'s point lies inside the reference radius.
pub open spec fn mc_inside(s: Seq<u8>, g: int) -> bool {
    mc_x(s, g) * mc_x(s, g) + mc_y(s, g) * mc_y(s, g) < IN_CIRCLE_DISTANCE
}

/// How many of the first `g` complete 6-byte groups of `s` lie inside the
/// reference radius.
pub open spec fn mc_hits_upto(s: Seq<u8>, g: int) -> nat
    decreases g,
{
    if g <= 0 {
        0
    } else {
        mc_hits_upto(s, g - 1) + if mc_inside(s, g - 1) {
            1nat
        } else {
            0nat
        }
    }
}

/// The hit count over the first `g` groups only reads the first `6g` bytes.
pub proof fn lemma_mc_hits_upto_prefix(s1: Seq<u8>, s2: Seq<u8>, g: int)
    requires
        0 <= g,
        6 * g <= s1.len(),
        6 * g <= s2.len(),
        forall|i: int| 0 <= i < 6 * g ==> s1[i] == s2[i],
    ensures
        mc_hits_upto(s1, g) == mc_hits_upto(s2, g),
    decreases g,
{
    if g > 0 {
        lemma_mc_hits_upto_prefix(s1, s2, g - 1);
        assert(mc_x(s1, g - 1) == mc_x(s2, g - 1));
        assert(mc_y(s1, g - 1) == mc_y(s2, g - 1));
    }
}

/// The code of the pi estimate of a stream with at least one complete group:
/// four times the hit count over the group count, both exact.
pub open spec fn mc_code(s: Seq<u8>) -> int {
    let groups = s.len() as int / 6;
    mul_code(
        lit_val("4.0"@),
        div_code(
            from_u64_code(mc_hits_upto(s, groups) as u64),
            from_u64_code(groups as u64),
        ),
    )
}

/// At most `g` of the first `g` groups can hit.
pub proof fn lemma_mc_hits_upto_le(s: Seq<u8>, g: int)
    requires
        0 <= g,
    ensures
        mc_hits_upto(s, g) <= g,
    decreases g,
{
    if g > 0 {
        lemma_mc_hits_upto_le(s, g - 1);
    }
}

/// Estimates pi from the fraction of 6-byte coordinate groups inside a
/// quarter-circle. The invariant ties the rolling buffer, the group count and
/// the hit count exactly to the ghost stream of all bytes fed.
pub struct MonteCarloCalculation {
    /// Bytes of the current, not yet complete coordinate group.
    monte: Vec<u8>,
    /// Insertion cursor into `monte`.
    accumulator: usize,
    /// Completed coordinate groups.
    tries: u64,
    /// Groups that fell inside the reference radius.
    in_count: u64,
    stream: Ghost<Seq<u8>>,
}

impl View for MonteCarloCalculation {
    type V = Seq<u8>;

    closed spec fn view(&self) -> Seq<u8> {
        self.stream@
    }
}

impl MonteCarloCalculation {
    /// `tries` counts the complete groups, `in_count` the hits among them,
    /// and `monte` holds the trailing partial group of the stream.
    pub closed spec fn wf(&self) -> bool {
        &&& self.monte@.len() == 6
        &&& self.accumulator < 6
        &&& self.stream@.len() == 6 * self.tries + self.accumulator
        &&& self.stream@.len() <= u64::MAX
        &&& self.in_count == mc_hits_upto(self.stream@, self.tries as int)
        &&& forall|j: int|
            0 <= j < self.accumulator ==> self.monte@[j] == self.stream@[6 * self.tries + j]
    }

    /// Creates the blank state for the Monte Carlo calculation.
    pub fn new() -> (r: MonteCarloCalculation)
        ensures
            r.wf(),
            r@ == Seq::<u8>::empty(),
    {
        let mut monte: Vec<u8> = Vec::new();
        let mut i: usize = 0;
        while i < 6
            invariant
                i <= 6,
                monte@.len() == i,
            decreases 6 - i,
        {
            monte.push(0);
            i = i + 1;
        }
        MonteCarloCalculation { monte, accumulator: 0, tries: 0, in_count: 0, stream: Ghost(Seq::empty()) }
    }

    /// Applies a byte chunk to the Monte Carlo state.
    pub fn update(&mut self, bytes: &[u8])
        requires
            old(self).wf(),
            old(self)@.len() + bytes@.len() <= u64::MAX,
        ensures
            final(self).wf(),
            final(self)@ == old(self)@ + bytes@,
    {
        let ghost start = self.stream@;
        let mut i: usize = 0;
        while i < bytes.len()
            invariant
                i <= bytes@.len(),
                self.wf(),
                self.stream@ == start + bytes@.take(i as int),
                start.len() + bytes@.len() <= u64::MAX,
            decreases bytes@.len() - i,
        {
            let b = bytes[i];
            let ghost pre = self.stream@;
            let ghost t = self.tries as int;
            self.monte.set(self.accumulator, b);
            self.stream = Ghost(pre.push(b));
            self.accumulator = self.accumulator + 1;
            proof {
                assert(start + bytes@.take(i as int + 1) =~= pre.push(b));
                assert forall|j: int|
                    0 <= j < self.accumulator implies self.monte@[j] == self.stream@[6 * t + j] by {
                }
            }
            if self.accumulator >= 6 {
                self.accumulator = 0;
                proof {
                    lemma_mc_hits_upto_le(self.stream@, t + 1);
                    lemma_mc_hits_upto_prefix(pre, self.stream@, t);
                }
                self.tries = self.tries + 1;

                let x: u64 = (self.monte[0] as u64) * 65536 + (self.monte[1] as u64) * 256
                    + (self.monte[2] as u64);
                let y: u64 = (self.monte[3] as u64) * 65536 + (self.monte[4] as u64) * 256
                    + (self.monte[5] as u64);
                proof {
                    assert(x == mc_x(self.stream@, t));
                    assert(y == mc_y(self.stream@, t));
                    assert(x * x <= 16777215 * 16777215 && y * y <= 16777215 * 16777215)
                        by (nonlinear_arith)
                        requires x <= 16777215 && y <= 16777215,
                    ;
                }
                if x * x + y * y < IN_CIRCLE_DISTANCE {
                    self.in_count = self.in_count + 1;
                }
            } else {
                proof {
                    lemma_mc_hits_upto_prefix(pre, self.stream@, t);
                }
            }
            i = i + 1;
        }
        proof {
            assert(start + bytes@.take(bytes@.len() as int) =~= start + bytes@);
        }
    }

    /// Four times the fraction of coordinate pairs inside the quarter-circle
    /// (`mc_code` over the stream's exact hit and group counts), or the NaN
    /// sentinel when no 6-byte group was completed, that is when fewer than
    /// 6 bytes were fed. Pure: repeated calls agree.
    pub fn finalize(&self) -> (r: Dec)
        requires
            self.wf(),
        ensures
            r.spec_is_nan() <==> self@.len() < 6,
            self@.len() >= 6 ==> r.model() == mc_code(self@),
    {
        if self.tries == 0 {
            return Dec::nan();
        }
        proof {
            vstd::arithmetic::div_mod::lemma_fundamental_div_mod_converse(
                self.stream@.len() as int,
                6,
                self.tries as int,
                self.accumulator as int,
            );
            lemma_mc_hits_upto_le(self.stream@, self.tries as int);
        }
        let in_count = dec_from_u64(self.in_count);
        let tries = dec_from_u64(self.tries);
        Dec::num(dec_mul(&dec_lit("4.0"), &dec_div(&in_count, &tries)))
    }

    /// Oneshot test for small data: `new`, one `update`, then `finalize`.
    pub fn test(data: &[u8]) -> (r: Dec)
        requires
            data@.len() <= u64::MAX,
        ensures
            r.spec_is_nan() <==> data@.len() < 6,
            data@.len() >= 6 ==> r.model() == mc_code(data@),
    {
        let mut this = Self::new();
        this.update(data);
        proof {
            assert(Seq::<u8>::empty() + data@ =~= data@);
        }
        this.finalize()
    }
}

impl Default for MonteCarloCalculation {
    /// The blank state, as `new` makes it.
    fn default() -> (r: Self)
        ensures
            r.wf(),
            r@ == Seq::<u8>::empty(),
    {
        Self::new()
    }
}

impl crate::EntropyTest for MonteCarloCalculation {
    open spec fn inv(&self) -> bool {
        self.wf()
    }

    open spec fn stream(&self) -> Seq<u8> {
        self@
    }

    open spec fn capacity() -> nat {
        u64::MAX as nat
    }

    /// The estimate is undefined until one 6-byte group is complete.
    open spec fn undefined_for(s: Seq<u8>) -> bool {
        s.len() < 6
    }

    open spec fn result_code(s: Seq<u8>) -> int {
        mc_code(s)
    }

    fn update(&mut self, bytes: &[u8]) {
        MonteCarloCalculation::update(self, bytes);
    }

    fn finalize(&self) -> (r: Dec) {
        MonteCarloCalculation::finalize(self)
    }
}

} // verus!
