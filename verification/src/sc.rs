//! The lag-1 serial correlation test: three running sums over successive byte
//! pairs, closed circularly at finalize time, measure how much each byte
//! depends on the one before it.

use vstd::prelude::*;

use crate::dec::{
    add_code, dec_add, dec_div, dec_eq, dec_from_u64, dec_lit, dec_mul, dec_powi, dec_sub,
    div_code, eq_code, from_u64_code, lit_val, mul_code, powi_code, sub_code, Dec,
};

verus! {

/// The most bytes the serial correlation sums can absorb without the `u64`
/// running sums overflowing: each byte adds at most `255 * 255` to a sum.
pub const SC_MAX_TOTAL: u64 = u64::MAX / 65025;

/// Whether every byte of `s` equals its first byte (holds for the empty and
/// the one-byte stream).
pub open spec fn all_same(s: Seq<u8>) -> bool {
    forall|i: int| 1 <= i < s.len() ==> #[trigger] s[i] == s[0]
}

/// The sum of all bytes after the first.
pub open spec fn sc_t2(s: Seq<u8>) -> int
    decreases s.len(),
{
    if s.len() <= 1 {
        0
    } else {
        sc_t2(s.drop_last()) + s.last()
    }
}

/// The sum of the squares of all bytes after the first.
pub open spec fn sc_t3(s: Seq<u8>) -> int
    decreases s.len(),
{
    if s.len() <= 1 {
        0
    } else {
        sc_t3(s.drop_last()) + (s.last() as int) * (s.last() as int)
    }
}

/// The sum of the products of adjacent bytes, starting with the second pair:
/// the first byte seeds the bookkeeping with a zero `last` value, so the very
/// first pair contributes nothing.
pub open spec fn sc_t1(s: Seq<u8>) -> int
    decreases s.len(),
{
    if s.len() <= 2 {
        0
    } else {
        sc_t1(s.drop_last()) + (s[s.len() - 2] as int) * (s.last() as int)
    }
}

/// The `last` bookkeeping byte: zero until a second byte has been processed.
pub open spec fn sc_last(s: Seq<u8>) -> u8 {
    if s.len() >= 2 {
        s[s.len() - 1]
    } else {
        0
    }
}

/// The code of the serial correlation coefficient of a non-empty,
/// non-constant stream: the circle is closed by adding `last * first` into
/// the pair sum, and the quotient `(n*t1 - t2^2) / (n*t3 - t2^2)` is taken
/// unless the denominator compares equal to zero, in which case that
/// denominator is returned as computed, without a substitute.
pub open spec fn sc_code(s: Seq<u8>) -> int {
    let total = from_u64_code(s.len() as u64);
    let t1 = add_code(
        mul_code(from_u64_code(sc_last(s) as u64), from_u64_code(s[0] as u64)),
        from_u64_code(sc_t1(s) as u64),
    );
    let t2 = powi_code(from_u64_code(sc_t2(s) as u64), 2);
    let den = sub_code(mul_code(total, from_u64_code(sc_t3(s) as u64)), t2);
    if eq_code(den, lit_val("0.0"@)) {
        den
    } else {
        div_code(sub_code(mul_code(total, t1), t2), den)
    }
}

/// How one appended byte moves the three sums.
pub proof fn lemma_sc_push(s: Seq<u8>, b: u8)
    ensures
        sc_t2(s.push(b)) == if s.len() == 0 {
            0int
        } else {
            sc_t2(s) + b
        },
        sc_t3(s.push(b)) == if s.len() == 0 {
            0int
        } else {
            sc_t3(s) + (b as int) * (b as int)
        },
        sc_t1(s.push(b)) == if s.len() <= 1 {
            0int
        } else {
            sc_t1(s) + (s.last() as int) * (b as int)
        },
{
    assert(s.push(b).drop_last() =~= s);
    assert(s.push(b).last() == b);
}

/// How one appended byte preserves or breaks stream constancy.
pub proof fn lemma_all_same_push(s: Seq<u8>, b: u8)
    ensures
        all_same(s.push(b)) <==> (all_same(s) && (s.len() == 0 || b == s[0])),
{
    let sp = s.push(b);
    if all_same(s) && (s.len() == 0 || b == s[0]) {
        assert forall|i: int| 1 <= i < sp.len() implies #[trigger] sp[i] == sp[0] by {
            if i < s.len() {
                assert(sp[i] == s[i]);
            } else {
                assert(sp[i] == b);
            }
        }
    }
    if all_same(sp) && s.len() > 0 {
        assert forall|i: int| 1 <= i < s.len() implies #[trigger] s[i] == s[0] by {
            assert(sp[i] == sp[0]);
        }
        assert(sp[s.len() as int] == sp[0]);
    }
}

/// The three sums stay within `65025` (that is `255 * 255`) per byte.
pub proof fn lemma_sc_sums_bounds(s: Seq<u8>)
    ensures
        0 <= sc_t1(s) <= 65025 * s.len(),
        0 <= sc_t2(s) <= 255 * s.len(),
        0 <= sc_t3(s) <= 65025 * s.len(),
    decreases s.len(),
{
    if s.len() > 0 {
        lemma_sc_sums_bounds(s.drop_last());
        if s.len() > 2 {
            let a = s[s.len() - 2] as int;
            let b = s.last() as int;
            assert(a * b <= 65025) by (nonlinear_arith)
                requires 0 <= a <= 255 && 0 <= b <= 255,
            ;
            assert(0 <= a * b) by (nonlinear_arith)
                requires 0 <= a && 0 <= b,
            ;
        }
        if s.len() > 1 {
            let b = s.last() as int;
            assert(b * b <= 65025) by (nonlinear_arith)
                requires 0 <= b <= 255,
            ;
        }
    }
}

/// Computes the lag-1 serial correlation coefficient of the stream, with the
/// wraparound pair from the last byte back to the first closing the circle.
pub struct SerialCorrelationCoefficientCalculation {
    /// Whether all bytes seen so far are identical.
    all_equals: bool,
    /// Whether no byte has been seen yet.
    first: bool,
    /// Sum of products of adjacent bytes.
    t1: u64,
    /// Sum of bytes.
    t2: u64,
    /// Sum of squared bytes.
    t3: u64,
    /// The byte before the next one, zero until two bytes were processed.
    last: u8,
    /// The first byte of the stream.
    u0: u8,
    /// Total bytes processed.
    total: u64,
    stream: Ghost<Seq<u8>>,
}

impl View for SerialCorrelationCoefficientCalculation {
    type V = Seq<u8>;

    closed spec fn view(&self) -> Seq<u8> {
        self.stream@
    }
}

impl SerialCorrelationCoefficientCalculation {
    /// Every field equals its defining function of the ghost stream.
    pub closed spec fn wf(&self) -> bool {
        &&& self.first == (self.stream@.len() == 0)
        &&& self.total == self.stream@.len()
        &&& self.stream@.len() <= SC_MAX_TOTAL
        &&& self.stream@.len() > 0 ==> self.u0 == self.stream@[0]
        &&& self.last == sc_last(self.stream@)
        &&& self.all_equals == all_same(self.stream@)
        &&& self.t1 == sc_t1(self.stream@)
        &&& self.t2 == sc_t2(self.stream@)
        &&& self.t3 == sc_t3(self.stream@)
    }

    /// Creates the blank state for the serial correlation calculation.
    pub fn new() -> (r: SerialCorrelationCoefficientCalculation)
        ensures
            r.wf(),
            r@ == Seq::<u8>::empty(),
    {
        SerialCorrelationCoefficientCalculation {
            all_equals: true,
            first: true,
            t1: 0,
            t2: 0,
            t3: 0,
            last: 0,
            u0: 0,
            total: 0,
            stream: Ghost(Seq::empty()),
        }
    }

    /// Applies a byte chunk to the serial correlation state. The length bound
    /// keeps the running sums within `u64`.
    pub fn update(&mut self, bytes: &[u8])
        requires
            old(self).wf(),
            old(self)@.len() + bytes@.len() <= SC_MAX_TOTAL,
        ensures
            final(self).wf(),
            final(self)@ == old(self)@ + bytes@,
    {
        let bytes_len = bytes.len();
        if bytes_len == 0 {
            proof {
                assert(self.stream@ + bytes@ =~= self.stream@);
            }
            return;
        }

        let ghost start = self.stream@;
        let mut i: usize = 0;
        if self.first {
            let b0 = bytes[0];
            self.first = false;
            self.last = 0;
            self.u0 = b0;
            self.total = 1;
            self.stream = Ghost(start.push(b0));
            i = 1;
            proof {
                lemma_sc_push(start, b0);
                lemma_all_same_push(start, b0);
                assert(start + bytes@.take(1) =~= start.push(b0));
            }
        }

        while i < bytes_len
            invariant
                i <= bytes_len,
                bytes_len == bytes@.len(),
                self.wf(),
                self.stream@.len() >= 1,
                self.stream@ == start + bytes@.take(i as int),
                start.len() + bytes@.len() <= SC_MAX_TOTAL,
            decreases bytes_len - i,
        {
            let b = bytes[i];
            let ghost pre = self.stream@;
            proof {
                lemma_sc_sums_bounds(pre);
                lemma_sc_push(pre, b);
                lemma_all_same_push(pre, b);
                let lb = self.last as int;
                let bb = b as int;
                assert(lb * bb <= 65025 && 0 <= lb * bb) by (nonlinear_arith)
                    requires 0 <= lb <= 255 && 0 <= bb <= 255,
                ;
                assert(bb * bb <= 65025) by (nonlinear_arith)
                    requires 0 <= bb <= 255,
                ;
            }
            if self.all_equals && self.u0 != b {
                self.all_equals = false;
            }
            let un: u64 = b as u64;
            self.t1 = self.t1 + (self.last as u64) * un;
            self.t2 = self.t2 + un;
            self.t3 = self.t3 + un * un;
            self.last = b;
            self.total = self.total + 1;
            self.stream = Ghost(pre.push(b));
            proof {
                assert(start + bytes@.take(i as int + 1) =~= pre.push(b));
            }
            i = i + 1;
        }
        proof {
            assert(start + bytes@.take(bytes@.len() as int) =~= start + bytes@);
        }
    }

    /// Whether all bytes seen so far are equal.
    pub fn all_equals(&self) -> (r: bool)
        requires
            self.wf(),
        ensures
            r == all_same(self@),
    {
        self.all_equals
    }

    /// The serial correlation coefficient (`sc_code` over the stream's exact
    /// sums), or the NaN sentinel exactly for an empty or constant stream.
    /// When the closed-circle denominator comes out as zero the value is left
    /// as computed, without a substitute. Pure: repeated calls agree.
    pub fn finalize(&self) -> (r: Dec)
        requires
            self.wf(),
        ensures
            r.spec_is_nan() <==> (self@.len() == 0 || all_same(self@)),
            !(self@.len() == 0 || all_same(self@)) ==> r.model() == sc_code(self@),
    {
        if self.total == 0 || self.all_equals {
            return Dec::nan();
        }

        let total = dec_from_u64(self.total);
        let u0 = dec_from_u64(self.u0 as u64);
        let t1 = dec_add(&dec_mul(&dec_from_u64(self.last as u64), &u0), &dec_from_u64(self.t1));
        let t2 = dec_powi(&dec_from_u64(self.t2), 2);
        let scc = dec_sub(&dec_mul(&total, &dec_from_u64(self.t3)), &t2);

        if dec_eq(&scc, &dec_lit("0.0")) {
            Dec::num(scc)
        } else {
            Dec::num(dec_div(&dec_sub(&dec_mul(&total, &t1), &t2), &scc))
        }
    }

    /// Oneshot test for small data: `new`, one `update`, then `finalize`.
    pub fn test(data: &[u8]) -> (r: Dec)
        requires
            data@.len() <= SC_MAX_TOTAL,
        ensures
            r.spec_is_nan() <==> (data@.len() == 0 || all_same(data@)),
            !(data@.len() == 0 || all_same(data@)) ==> r.model() == sc_code(data@),
    {
        let mut this = Self::new();
        this.update(data);
        proof {
            assert(Seq::<u8>::empty() + data@ =~= data@);
        }
        this.finalize()
    }
}

impl Default for SerialCorrelationCoefficientCalculation {
    /// The blank state, as `new` makes it.
    fn default() -> (r: Self)
        ensures
            r.wf(),
            r@ == Seq::<u8>::empty(),
    {
        Self::new()
    }
}

impl crate::EntropyTest for SerialCorrelationCoefficientCalculation {
    open spec fn inv(&self) -> bool {
        self.wf()
    }

    open spec fn stream(&self) -> Seq<u8> {
        self@
    }

    open spec fn capacity() -> nat {
        SC_MAX_TOTAL as nat
    }

    /// The correlation is undefined for empty and for constant streams.
    open spec fn undefined_for(s: Seq<u8>) -> bool {
        s.len() == 0 || all_same(s)
    }

    open spec fn result_code(s: Seq<u8>) -> int {
        sc_code(s)
    }

    fn update(&mut self, bytes: &[u8]) {
        SerialCorrelationCoefficientCalculation::update(self, bytes);
    }

    fn finalize(&self) -> (r: Dec) {
        SerialCorrelationCoefficientCalculation::finalize(self)
    }
}

} // verus!
