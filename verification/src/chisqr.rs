//! The chi-square test: Pearson's goodness-of-fit statistic of the byte-value
//! histogram against a uniform distribution, and its tail probability by the
//! Hill & Pike series (Algorithm 299, CACM 1967), with the normal-tail
//! rational approximation it rests on.
//!
//! Every function's contract pins its result to the exact composition of
//! named backend operations over the exactly-counted histogram, through the
//! spec functions below; the decimal values those compositions denote are the
//! backend's.

use vstd::prelude::*;

use crate::dec::{
    abs_code, add_code, dec_abs, dec_add, dec_div, dec_eq, dec_exp, dec_from_u64, dec_ge, dec_gt,
    dec_le, dec_lit, dec_ln, dec_lt, dec_mul, dec_neg, dec_sqrt, dec_sub, div_code, eq_code,
    exp_code, from_u64_code, ge_code, gt_code, le_code, lit_val, ln_code, lt_code, mul_code,
    neg_code, sqrt_code, sub_code, Dec, Num,
};
use crate::hist::{counts_of, Histogram};

verus! {

/// The code of zero, as this module writes it.
pub open spec fn zero_v() -> int {
    lit_val("0.0"@)
}

/// The code of one.
pub open spec fn one_v() -> int {
    lit_val("1.0"@)
}

/// The code of two.
pub open spec fn two_v() -> int {
    lit_val("2.0"@)
}

/// The code of one half.
pub open spec fn half_one_v() -> int {
    lit_val("0.5"@)
}

/// The code of the clamp threshold of the exponential helper: `e^x` is taken
/// as zero below `-20`, and the series switches to its logarithmic branch
/// above `20`.
pub open spec fn max_x_v() -> int {
    lit_val("20.0"@)
}

/// The code of half the saturation bound of the normal-tail approximation,
/// written as `6.0 / 2`.
pub open spec fn half_max_z_v() -> int {
    div_code(lit_val("6.0"@), two_v())
}

/// The code of `ln(sqrt(pi))`, a fixed constant of the Hill & Pike series.
pub open spec fn log_sqrt_pi_v() -> int {
    lit_val(
        "0.57236494292470008707171367567652935582364740645765578575681153573606888494239"@,
    )
}

/// The code of `1/sqrt(pi)`, a fixed constant of the Hill & Pike series.
pub open spec fn i_sqrt_pi_v() -> int {
    lit_val(
        "0.56418958354775628694807945156077258584405062932899885684408572171064246844150"@,
    )
}

fn half_one() -> (r: Num)
    ensures
        r@ == half_one_v(),
{
    dec_lit("0.5")
}

fn max_x() -> (r: Num)
    ensures
        r@ == max_x_v(),
{
    dec_lit("20.0")
}

fn half_max_z() -> (r: Num)
    ensures
        r@ == half_max_z_v(),
{
    dec_div(&dec_lit("6.0"), &dec_lit("2.0"))
}

fn log_sqrt_pi() -> (r: Num)
    ensures
        r@ == log_sqrt_pi_v(),
{
    dec_lit("0.57236494292470008707171367567652935582364740645765578575681153573606888494239")
}

fn i_sqrt_pi() -> (r: Num)
    ensures
        r@ == i_sqrt_pi_v(),
{
    dec_lit("0.56418958354775628694807945156077258584405062932899885684408572171064246844150")
}

/// The code of the chi-square statistic folded over the first `i` buckets:
/// starting from zero, each bucket `v` adds `(count[v] - exp)^2 / exp`.
pub open spec fn chi_fold(counts: Seq<u64>, exp: int, i: int) -> int
    decreases i,
{
    if i <= 0 {
        zero_v()
    } else {
        let b = from_u64_code(counts[i - 1]);
        let d = sub_code(b, exp);
        add_code(chi_fold(counts, exp, i - 1), div_code(mul_code(d, d), exp))
    }
}

/// The code of the chi-square statistic of a 256-bucket count table with the
/// given total: the full fold with `exp = total / 256`.
pub open spec fn chi_code(counts: Seq<u64>, total: u64) -> int {
    chi_fold(counts, div_code(from_u64_code(total), lit_val("256.0"@)), 256)
}

/// Computes the chi-square statistic over full occurrence counts. `buckets`
/// holds one count per byte value; `total_buckets` is the number of samples.
/// The result is the NaN sentinel exactly for zero samples; otherwise it is
/// the Pearson fold `chi_code` over the counts.
pub fn chi_statistic(buckets: &Vec<u64>, total_buckets: u64) -> (r: Dec)
    requires
        buckets@.len() == 256,
    ensures
        r.spec_is_nan() <==> total_buckets == 0,
        total_buckets != 0 ==> r.model() == chi_code(buckets@, total_buckets),
{
    if total_buckets == 0 {
        return Dec::nan();
    }
    let total = dec_from_u64(total_buckets);
    let mut chi_sq = dec_lit("0.0");
    let exp = dec_div(&total, &dec_lit("256.0"));
    let mut i: usize = 0;
    while i < 256
        invariant
            i <= 256,
            buckets@.len() == 256,
            exp@ == div_code(from_u64_code(total_buckets), lit_val("256.0"@)),
            chi_sq@ == chi_fold(buckets@, exp@, i as int),
        decreases 256 - i,
    {
        let b = dec_from_u64(buckets[i]);
        let a = dec_sub(&b, &exp);
        chi_sq = dec_add(&chi_sq, &dec_div(&dec_mul(&a, &a), &exp));
        i = i + 1;
    }
    Dec::num(chi_sq)
}

/// One step of the large-statistic branch of the Hill & Pike series, run `k`
/// more times from the given state: `e` gains `ln(z)`, `s` gains the clamped
/// exponential of `ln(a)*z - a - e`, and `z` steps by one.
pub open spec fn prob_large(s: int, e: int, z: int, c: int, a: int, k: nat) -> int
    decreases k,
{
    if k == 0 {
        s
    } else {
        let e2 = add_code(e, ln_code(z));
        let s2 = add_code(s, ex_code(sub_code(sub_code(mul_code(c, z), a), e2)));
        prob_large(s2, e2, add_code(z, one_v()), c, a, (k - 1) as nat)
    }
}

/// One step of the small-statistic branch of the Hill & Pike series, run `k`
/// more times from the given state: `e` is scaled by `a/z`, `c` gains `e`,
/// and `z` steps by one; the result is the final `c`.
pub open spec fn prob_small(c: int, e: int, z: int, a: int, k: nat) -> int
    decreases k,
{
    if k == 0 {
        c
    } else {
        let e2 = mul_code(e, div_code(a, z));
        prob_small(add_code(c, e2), e2, add_code(z, one_v()), a, (k - 1) as nat)
    }
}

/// The code of the full tail probability for a non-sentinel statistic: one
/// for a statistic at or below zero; else, with `a = chi/2` and the baseline
/// `s = 2 * poz(-sqrt(chi))`, the branch on `a > 20` runs `df` steps of the
/// logarithmic series, or of the ratio series refined by `c * e^(-a) + s`.
pub open spec fn probability_code(chi: int, df: usize) -> int {
    if le_code(chi, zero_v()) {
        one_v()
    } else {
        let a = mul_code(half_one_v(), chi);
        let s = mul_code(two_v(), poz_code(neg_code(sqrt_code(chi))));
        if gt_code(a, max_x_v()) {
            prob_large(s, log_sqrt_pi_v(), half_one_v(), ln_code(a), a, df as nat)
        } else {
            let c = prob_small(
                zero_v(),
                div_code(i_sqrt_pi_v(), sqrt_code(a)),
                half_one_v(),
                a,
                df as nat,
            );
            add_code(mul_code(c, ex_code(neg_code(a))), s)
        }
    }
}

/// The probability that a true-random sample would produce a chi-square value
/// at least as extreme as `chi_sq`, for `df` degrees of freedom, by the
/// Hill & Pike series: exactly `probability_code` of the statistic. A NaN
/// statistic is returned as it came. The approximation is not clamped to
/// `[0, 1]`.
pub fn probability_chi_sq(chi_sq: Dec, df: usize) -> (r: Dec)
    ensures
        r.spec_is_nan() == chi_sq.spec_is_nan(),
        chi_sq.spec_is_nan() ==> r == chi_sq,
        !chi_sq.spec_is_nan() ==> r.model() == probability_code(chi_sq.model(), df),
{
    if chi_sq.is_nan() {
        return chi_sq;
    }
    if dec_le(chi_sq.val(), &dec_lit("0.0")) {
        return Dec::num(dec_lit("1.0"));
    }

    let a = dec_mul(&half_one(), chi_sq.val());
    let mut s = dec_mul(&dec_lit("2.0"), poz(Dec::num(dec_neg(&dec_sqrt(chi_sq.val())))).val());

    // The series runs z over 0.5, 1.5, ... while z <= df; both z and df are
    // exact decimals, so that is one step per k in 0..df.
    let one = dec_lit("1.0");
    let mut z = half_one();

    if dec_gt(&a, &max_x()) {
        let mut e = log_sqrt_pi();
        let c = dec_ln(&a);
        let ghost target = prob_large(s@, e@, z@, c@, a@, df as nat);
        let mut k: usize = 0;
        while k < df
            invariant
                k <= df,
                one@ == one_v(),
                prob_large(s@, e@, z@, c@, a@, (df - k) as nat) == target,
            decreases df - k,
        {
            proof {
                assert(prob_large(s@, e@, z@, c@, a@, (df - k) as nat) == prob_large(
                    add_code(s@, ex_code(sub_code(sub_code(mul_code(c@, z@), a@), add_code(e@, ln_code(z@))))),
                    add_code(e@, ln_code(z@)),
                    add_code(z@, one_v()),
                    c@,
                    a@,
                    (df - k - 1) as nat,
                ));
            }
            e = dec_add(&e, &dec_ln(&z));
            let arg = dec_sub(&dec_sub(&dec_mul(&c, &z), &a), &e);
            s = dec_add(&s, ex(Dec::num(arg)).val());
            z = dec_add(&z, &one);
            k = k + 1;
        }
        Dec::num(s)
    } else {
        let mut e = dec_div(&i_sqrt_pi(), &dec_sqrt(&a));
        let mut c = dec_lit("0.0");
        let ghost target = prob_small(c@, e@, z@, a@, df as nat);
        let mut k: usize = 0;
        while k < df
            invariant
                k <= df,
                one@ == one_v(),
                prob_small(c@, e@, z@, a@, (df - k) as nat) == target,
            decreases df - k,
        {
            proof {
                assert(prob_small(c@, e@, z@, a@, (df - k) as nat) == prob_small(
                    add_code(c@, mul_code(e@, div_code(a@, z@))),
                    mul_code(e@, div_code(a@, z@)),
                    add_code(z@, one_v()),
                    a@,
                    (df - k - 1) as nat,
                ));
            }
            e = dec_mul(&e, &dec_div(&a, &z));
            c = dec_add(&c, &e);
            z = dec_add(&z, &one);
            k = k + 1;
        }
        let y = ex(Dec::num(dec_neg(&a)));
        Dec::num(dec_add(&dec_mul(&c, y.val()), &s))
    }
}

/// The code of the clamped exponential: zero below `-20`, else the backend's
/// exponential.
pub open spec fn ex_code(x: int) -> int {
    if lt_code(x, neg_code(max_x_v())) {
        zero_v()
    } else {
        exp_code(x)
    }
}

/// The exponential, clamped to zero below `-20` to avoid underflow artifacts:
/// exactly `ex_code` of the input, sentinel flag passed through.
pub fn ex(x: Dec) -> (r: Dec)
    ensures
        r.spec_is_nan() == x.spec_is_nan(),
        r.model() == ex_code(x.model()),
{
    if dec_lt(x.val(), &dec_neg(&max_x())) {
        Dec::make(x.is_nan(), dec_lit("0.0"))
    } else {
        Dec::make(x.is_nan(), dec_exp(x.val()))
    }
}

/// The code of the near-zero polynomial of the normal-tail approximation: a
/// 9-coefficient fold in `w = y^2`, scaled by `y` and doubled.
pub open spec fn poz_low(y: int) -> int {
    let w = mul_code(y, y);
    let t = lit_val("0.000124818987"@);
    let t = sub_code(mul_code(t, w), lit_val("0.001075204047"@));
    let t = add_code(mul_code(t, w), lit_val("0.005198775019"@));
    let t = sub_code(mul_code(t, w), lit_val("0.019198292004"@));
    let t = add_code(mul_code(t, w), lit_val("0.059054035642"@));
    let t = sub_code(mul_code(t, w), lit_val("0.151968751364"@));
    let t = add_code(mul_code(t, w), lit_val("0.319152932694"@));
    let t = sub_code(mul_code(t, w), lit_val("0.531923007300"@));
    let t = add_code(mul_code(t, w), lit_val("0.797884560593"@));
    mul_code(mul_code(t, y), two_v())
}

/// The code of the middle polynomial of the normal-tail approximation: a
/// 15-coefficient fold in `y` (the halved z-score shifted by two).
pub open spec fn poz_mid(y: int) -> int {
    let t = lit_val("-0.000045255659"@);
    let t = add_code(mul_code(t, y), lit_val("0.000152529290"@));
    let t = sub_code(mul_code(t, y), lit_val("0.000019538132"@));
    let t = sub_code(mul_code(t, y), lit_val("0.000676904986"@));
    let t = add_code(mul_code(t, y), lit_val("0.001390604284"@));
    let t = sub_code(mul_code(t, y), lit_val("0.000794620820"@));
    let t = sub_code(mul_code(t, y), lit_val("0.002034254874"@));
    let t = add_code(mul_code(t, y), lit_val("0.006549791214"@));
    let t = sub_code(mul_code(t, y), lit_val("0.010557625006"@));
    let t = add_code(mul_code(t, y), lit_val("0.011630447319"@));
    let t = sub_code(mul_code(t, y), lit_val("0.009279453341"@));
    let t = add_code(mul_code(t, y), lit_val("0.005353579108"@));
    let t = sub_code(mul_code(t, y), lit_val("0.002141268741"@));
    let t = add_code(mul_code(t, y), lit_val("0.000535310849"@));
    add_code(mul_code(t, y), lit_val("0.999936657524"@))
}

/// The code of the normal-tail approximation: the midpoint path for a zero
/// z-score; otherwise, with `y = |z|/2`, saturation at one for `y >= 3`, the
/// near-zero polynomial for `y < 1`, the middle polynomial in `y - 2` else;
/// the sign of `z` selects which half of the distribution comes back.
pub open spec fn poz_code(z: int) -> int {
    let x = if eq_code(z, zero_v()) {
        zero_v()
    } else {
        let y = mul_code(half_one_v(), abs_code(z));
        if ge_code(y, half_max_z_v()) {
            one_v()
        } else if lt_code(y, one_v()) {
            poz_low(y)
        } else {
            poz_mid(sub_code(y, two_v()))
        }
    };
    if gt_code(z, zero_v()) {
        mul_code(add_code(x, one_v()), half_one_v())
    } else {
        mul_code(sub_code(one_v(), x), half_one_v())
    }
}

/// The standard normal tail approximation ("poz"): maps a z-score to a value
/// in `[0, 1]` by a pair of fixed rational polynomials, saturating for
/// `|z| >= 6`; exactly `poz_code` of the input, sentinel flag passed through.
/// The coefficients are classical constants, reproduced digit for digit.
pub fn poz(z: Dec) -> (r: Dec)
    ensures
        r.spec_is_nan() == z.spec_is_nan(),
        r.model() == poz_code(z.model()),
{
    let x: Num;
    if dec_eq(z.val(), &dec_lit("0.0")) {
        x = dec_lit("0.0");
    } else {
        let mut y = dec_mul(&half_one(), &dec_abs(z.val()));
        if dec_ge(&y, &half_max_z()) {
            x = dec_lit("1.0");
        } else if dec_lt(&y, &dec_lit("1.0")) {
            let w = dec_mul(&y, &y);
            let mut t = dec_lit("0.000124818987");
            t = dec_sub(&dec_mul(&t, &w), &dec_lit("0.001075204047"));
            t = dec_add(&dec_mul(&t, &w), &dec_lit("0.005198775019"));
            t = dec_sub(&dec_mul(&t, &w), &dec_lit("0.019198292004"));
            t = dec_add(&dec_mul(&t, &w), &dec_lit("0.059054035642"));
            t = dec_sub(&dec_mul(&t, &w), &dec_lit("0.151968751364"));
            t = dec_add(&dec_mul(&t, &w), &dec_lit("0.319152932694"));
            t = dec_sub(&dec_mul(&t, &w), &dec_lit("0.531923007300"));
            t = dec_add(&dec_mul(&t, &w), &dec_lit("0.797884560593"));
            x = dec_mul(&dec_mul(&t, &y), &dec_lit("2.0"));
        } else {
            y = dec_sub(&y, &dec_lit("2.0"));
            let mut t = dec_lit("-0.000045255659");
            t = dec_add(&dec_mul(&t, &y), &dec_lit("0.000152529290"));
            t = dec_sub(&dec_mul(&t, &y), &dec_lit("0.000019538132"));
            t = dec_sub(&dec_mul(&t, &y), &dec_lit("0.000676904986"));
            t = dec_add(&dec_mul(&t, &y), &dec_lit("0.001390604284"));
            t = dec_sub(&dec_mul(&t, &y), &dec_lit("0.000794620820"));
            t = dec_sub(&dec_mul(&t, &y), &dec_lit("0.002034254874"));
            t = dec_add(&dec_mul(&t, &y), &dec_lit("0.006549791214"));
            t = dec_sub(&dec_mul(&t, &y), &dec_lit("0.010557625006"));
            t = dec_add(&dec_mul(&t, &y), &dec_lit("0.011630447319"));
            t = dec_sub(&dec_mul(&t, &y), &dec_lit("0.009279453341"));
            t = dec_add(&dec_mul(&t, &y), &dec_lit("0.005353579108"));
            t = dec_sub(&dec_mul(&t, &y), &dec_lit("0.002141268741"));
            t = dec_add(&dec_mul(&t, &y), &dec_lit("0.000535310849"));
            t = dec_add(&dec_mul(&t, &y), &dec_lit("0.999936657524"));
            x = t;
        }
    }
    if dec_gt(z.val(), &dec_lit("0.0")) {
        Dec::make(z.is_nan(), dec_mul(&dec_add(&x, &dec_lit("1.0")), &half_one()))
    } else {
        Dec::make(z.is_nan(), dec_mul(&dec_sub(&dec_lit("1.0"), &x), &half_one()))
    }
}

/// Computes the chi-square probability of a random dataset this extreme.
pub struct ChiSquareCalculation {
    hist: Histogram,
}

impl View for ChiSquareCalculation {
    type V = Seq<u8>;

    closed spec fn view(&self) -> Seq<u8> {
        self.hist@
    }
}

impl ChiSquareCalculation {
    /// The histogram is an exact count of the bytes fed so far.
    pub closed spec fn wf(&self) -> bool {
        self.hist.wf()
    }

    /// Creates the blank state for the chi-square calculation.
    pub fn new() -> (r: ChiSquareCalculation)
        ensures
            r.wf(),
            r@ == Seq::<u8>::empty(),
    {
        ChiSquareCalculation { hist: Histogram::new() }
    }

    /// Applies a byte chunk to the chi-square state.
    pub fn update(&mut self, bytes: &[u8])
        requires
            old(self).wf(),
            old(self)@.len() + bytes@.len() <= u64::MAX,
        ensures
            final(self).wf(),
            final(self)@ == old(self)@ + bytes@,
    {
        self.hist.feed(bytes);
    }

    /// The chi-square statistic of the stream seen so far: the NaN sentinel
    /// for an empty stream, else `chi_code` over the stream's exact counts.
    /// Pure: repeated calls agree.
    pub fn finalize(&self) -> (r: Dec)
        requires
            self.wf(),
        ensures
            r.spec_is_nan() <==> self@.len() == 0,
            self@.len() != 0 ==> r.model() == chi_code(counts_of(self@), self@.len() as u64),
    {
        chi_statistic(self.hist.buckets(), self.hist.total())
    }

    /// Returns the statistic together with its tail probability for the fixed
    /// 127 degrees of freedom this tool uses: the second component is exactly
    /// `probability_code` of the first.
    pub fn finalize_probability(&self) -> (r: (Dec, Dec))
        requires
            self.wf(),
        ensures
            r.0.spec_is_nan() <==> self@.len() == 0,
            r.1.spec_is_nan() <==> self@.len() == 0,
            self@.len() != 0 ==> r.0.model() == chi_code(counts_of(self@), self@.len() as u64),
            self@.len() != 0 ==> r.1.model() == probability_code(r.0.model(), 127),
    {
        let f = self.finalize();
        let p = probability_chi_sq(f, 127);
        (f, p)
    }

    /// The number of bytes fed so far.
    pub fn samples(&self) -> (r: u64)
        requires
            self.wf(),
        ensures
            r == self@.len(),
    {
        self.hist.total()
    }

    /// Oneshot test for small data: `new`, one `update`, then
    /// `finalize_probability`.
    pub fn test(data: &[u8]) -> (r: (Dec, Dec))
        requires
            data@.len() <= u64::MAX,
        ensures
            r.0.spec_is_nan() <==> data@.len() == 0,
            r.1.spec_is_nan() <==> data@.len() == 0,
            data@.len() != 0 ==> r.0.model() == chi_code(counts_of(data@), data@.len() as u64),
            data@.len() != 0 ==> r.1.model() == probability_code(r.0.model(), 127),
    {
        let mut this = Self::new();
        this.update(data);
        proof {
            assert(Seq::<u8>::empty() + data@ =~= data@);
        }
        this.finalize_probability()
    }
}

impl Default for ChiSquareCalculation {
    /// The blank state, as `new` makes it.
    fn default() -> (r: Self)
        ensures
            r.wf(),
            r@ == Seq::<u8>::empty(),
    {
        Self::new()
    }
}

impl crate::EntropyTest for ChiSquareCalculation {
    open spec fn inv(&self) -> bool {
        self.wf()
    }

    open spec fn stream(&self) -> Seq<u8> {
        self@
    }

    open spec fn capacity() -> nat {
        u64::MAX as nat
    }

    /// The statistic is undefined only for the empty stream.
    open spec fn undefined_for(s: Seq<u8>) -> bool {
        s.len() == 0
    }

    open spec fn result_code(s: Seq<u8>) -> int {
        chi_code(counts_of(s), s.len() as u64)
    }

    fn update(&mut self, bytes: &[u8]) {
        ChiSquareCalculation::update(self, bytes);
    }

    fn finalize(&self) -> (r: Dec) {
        ChiSquareCalculation::finalize(self)
    }
}

} // verus!
