//! The numeric backend: `fastnum2` fixed-precision decimal values, the ghost
//! model that lets contracts speak about them, and the `Dec` result type that
//! pairs a payload with the NaN sentinel flag.
//!
//! Every decimal operation is performed by `fastnum2`. Its operations are
//! pure functions of their operands (each helper below re-contextualises its
//! operands with all signal traps disabled, so the context is fixed and no
//! operation can panic; exceptional outcomes are carried inside the value as
//! an infinity or a quiet NaN payload). Their results are therefore *named*:
//! an uninterpreted code stands for each operation's result, every payload
//! carries the ghost code of its value, and each trusted helper's contract
//! says that the result's code is that operation's name applied to the
//! operands' codes. Contracts can then pin a computed payload to the exact
//! composition of backend operations that produces it, while claiming nothing
//! about what any code is on given values: the pinned decimal constants of
//! the test suite remain test material.
//!
//! The library decides on its own, from verified integer state, when a result
//! is undefined; that decision is the `nan` flag of [`Dec`].

use vstd::prelude::*;

verus! {

/// Declares fastnum2's generic decimal number type, so that values of it can
/// be held and passed around; Verus sees nothing of its inside.
#[verifier::external_type_specification]
#[verifier::external_body]
pub struct ExDecimal<const N: usize>(fastnum2::decimal::Decimal<N>);

/// The code of the decimal that `Decimal::from_u64` returns for `n`.
pub uninterp spec fn from_u64_code(n: u64) -> int;

/// The code of the decimal that `Decimal::from_str` returns, or `None` where
/// it returns a parse error.
pub uninterp spec fn parse_code(s: Seq<char>) -> Option<int>;

/// The code of the decimal that `Decimal::add` returns for the given codes.
pub uninterp spec fn add_code(a: int, b: int) -> int;

/// The code of the decimal that `Decimal::sub` returns for the given codes.
pub uninterp spec fn sub_code(a: int, b: int) -> int;

/// The code of the decimal that `Decimal::mul` returns for the given codes.
pub uninterp spec fn mul_code(a: int, b: int) -> int;

/// The code of the decimal that `Decimal::div` returns for the given codes.
pub uninterp spec fn div_code(a: int, b: int) -> int;

/// The code of the decimal that `Decimal::powi` returns.
pub uninterp spec fn powi_code(a: int, n: i32) -> int;

/// The code of the decimal that `Decimal::neg` returns.
pub uninterp spec fn neg_code(a: int) -> int;

/// The code of the decimal that `Decimal::abs` returns.
pub uninterp spec fn abs_code(a: int) -> int;

/// The code of the decimal that `Decimal::sqrt` returns.
pub uninterp spec fn sqrt_code(a: int) -> int;

/// The code of the decimal that `Decimal::ln` returns.
pub uninterp spec fn ln_code(a: int) -> int;

/// The code of the decimal that `Decimal::exp` returns.
pub uninterp spec fn exp_code(a: int) -> int;

/// The code of the decimal that `Decimal::log2` returns.
pub uninterp spec fn log2_code(a: int) -> int;

/// What `Decimal::le` returns for the given codes.
pub uninterp spec fn le_code(a: int, b: int) -> bool;

/// What `Decimal::lt` returns for the given codes.
pub uninterp spec fn lt_code(a: int, b: int) -> bool;

/// What `Decimal::gt` returns for the given codes.
pub uninterp spec fn gt_code(a: int, b: int) -> bool;

/// What `Decimal::ge` returns for the given codes.
pub uninterp spec fn ge_code(a: int, b: int) -> bool;

/// What `Decimal::eq` returns for the given codes.
pub uninterp spec fn eq_code(a: int, b: int) -> bool;

/// The code of the decimal a literal stands for. Every literal written by
/// this crate parses; an unparsable one would yield the integer zero.
pub open spec fn lit_val(s: Seq<char>) -> int {
    match parse_code(s) {
        Option::Some(m) => m,
        Option::None => from_u64_code(0),
    }
}

/// A ghost code about which nothing is stated, for payloads whose code a
/// trusted helper leaves open (the NaN sentinel, caller-supplied payloads):
/// each helper's contract, not this value, is what a caller learns.
fn unspecified_code() -> Ghost<int> {
    Ghost(vstd::pervasive::arbitrary())
}

/// A backend decimal payload together with the ghost code of its value.
/// Values of this type are only created by the trusted helpers of this
/// module, which keep the code in step with the payload.
#[derive(Clone, Copy)]
pub(crate) struct Num {
    raw: fastnum2::D256,
    model: Ghost<int>,
}

impl View for Num {
    type V = int;

    closed spec fn view(&self) -> int {
        self.model@
    }
}

/// A statistic's value: a 256-bit decimal payload plus a flag marking the
/// results that are undefined for the bytes seen so far (an empty stream, a
/// constant stream, fewer bytes than one Monte Carlo coordinate pair needs).
#[derive(Clone, Copy)]
pub struct Dec {
    nan: bool,
    val: Num,
}

impl Dec {
    /// Whether this value is the undefined-result sentinel.
    pub closed spec fn spec_is_nan(&self) -> bool {
        self.nan
    }

    /// The code of this value's payload.
    pub closed spec fn model(&self) -> int {
        self.val@
    }

    /// Returns true exactly when this value is the undefined-result sentinel.
    #[verifier::when_used_as_spec(spec_is_nan)]
    pub fn is_nan(&self) -> (r: bool)
        ensures
            r == self.spec_is_nan(),
    {
        self.nan
    }

    /// The decimal payload. For a sentinel value this is fastnum2's own NaN.
    pub fn raw(&self) -> &fastnum2::D256 {
        &self.val.raw
    }

    /// The payload with its code, for further arithmetic.
    pub(crate) fn val(&self) -> (r: &Num)
        ensures
            r@ == self.model(),
    {
        &self.val
    }

    /// The undefined-result sentinel. Its payload carries no stated code.
    pub fn nan() -> (r: Dec)
        ensures
            r.spec_is_nan(),
    {
        Dec { nan: true, val: dec_nan_raw() }
    }

    /// A defined result holding the given payload.
    pub(crate) fn num(val: Num) -> (r: Dec)
        ensures
            !r.spec_is_nan(),
            r.model() == val@,
    {
        Dec { nan: false, val }
    }

    /// A result whose definedness is decided by the caller.
    pub(crate) fn make(nan: bool, val: Num) -> (r: Dec)
        ensures
            r.spec_is_nan() == nan,
            r.model() == val@,
    {
        Dec { nan, val }
    }

    /// A defined decimal with the exact value of the given integer.
    pub fn from_u64(n: u64) -> (r: Dec)
        ensures
            !r.spec_is_nan(),
            r.model() == from_u64_code(n),
    {
        Dec { nan: false, val: dec_from_u64(n) }
    }

    /// A defined result holding a caller-supplied backend payload. Nothing is
    /// known of such a payload, so it carries no stated code.
    #[verifier::external_body]
    pub fn from_raw(raw: fastnum2::D256) -> (r: Dec)
        ensures
            !r.spec_is_nan(),
    {
        Dec { nan: false, val: Num { raw, model: unspecified_code() } }
    }
}

/// The payload of a literal such as `"0.5"`: its code is `lit_val` of the
/// literal, the integer zero standing in for an unparsable one.
pub(crate) fn dec_lit(s: &str) -> (r: Num)
    ensures
        r@ == lit_val(s@),
{
    match dec_parse(s) {
        Option::Some(v) => v,
        Option::None => dec_from_u64(0),
    }
}

/// Relies on fastnum2's `Decimal::from_str`, which returns a `Result` and
/// never panics; the context handed to it has all signal traps disabled.
#[verifier::external_body]
pub(crate) fn dec_parse(s: &str) -> (r: Option<Num>)
    ensures
        (match r {
            Option::Some(v) => parse_code(s@) == Option::Some(v@),
            Option::None => parse_code(s@) == Option::<int>::None,
        }),
{
    let ctx = fastnum2::decimal::Context::default().without_traps();
    match fastnum2::D256::from_str(s, ctx) {
        Ok(raw) => Option::Some(Num { raw, model: unspecified_code() }),
        Err(_) => Option::None,
    }
}

/// Relies on fastnum2's `Decimal::from_u64` (an exact conversion, raising no
/// signals) and `with_ctx`, which here only disables the signal traps.
#[verifier::external_body]
pub(crate) fn dec_from_u64(n: u64) -> (r: Num)
    ensures
        r@ == from_u64_code(n),
{
    let ctx = fastnum2::decimal::Context::default().without_traps();
    Num { raw: fastnum2::D256::from_u64(n).with_ctx(ctx), model: unspecified_code() }
}

/// Relies on fastnum2's `Decimal::NAN` constant (a quiet NaN) and `with_ctx`,
/// which here only disables the signal traps. The payload's code is left
/// unstated: nothing is promised of arithmetic over this value.
#[verifier::external_body]
pub(crate) fn dec_nan_raw() -> Num {
    let ctx = fastnum2::decimal::Context::default().without_traps();
    Num { raw: fastnum2::D256::NAN.with_ctx(ctx), model: unspecified_code() }
}

/// Relies on fastnum2's `Decimal::add`, a pure function of its operands once
/// both are re-contextualised trap-free; so no panic, and the result's code
/// is `add_code` of the operands' codes.
#[verifier::external_body]
pub(crate) fn dec_add(a: &Num, b: &Num) -> (r: Num)
    ensures
        r@ == add_code(a@, b@),
{
    let ctx = fastnum2::decimal::Context::default().without_traps();
    Num { raw: a.raw.with_ctx(ctx).add(b.raw.with_ctx(ctx)), model: unspecified_code() }
}

/// Relies on fastnum2's `Decimal::sub`, as `dec_add` relies on `add`.
#[verifier::external_body]
pub(crate) fn dec_sub(a: &Num, b: &Num) -> (r: Num)
    ensures
        r@ == sub_code(a@, b@),
{
    let ctx = fastnum2::decimal::Context::default().without_traps();
    Num { raw: a.raw.with_ctx(ctx).sub(b.raw.with_ctx(ctx)), model: unspecified_code() }
}

/// Relies on fastnum2's `Decimal::mul`, as `dec_add` relies on `add`.
#[verifier::external_body]
pub(crate) fn dec_mul(a: &Num, b: &Num) -> (r: Num)
    ensures
        r@ == mul_code(a@, b@),
{
    let ctx = fastnum2::decimal::Context::default().without_traps();
    Num { raw: a.raw.with_ctx(ctx).mul(b.raw.with_ctx(ctx)), model: unspecified_code() }
}

/// Relies on fastnum2's `Decimal::div`; with traps disabled a zero divisor
/// yields an infinity or NaN payload instead of panicking.
#[verifier::external_body]
pub(crate) fn dec_div(a: &Num, b: &Num) -> (r: Num)
    ensures
        r@ == div_code(a@, b@),
{
    let ctx = fastnum2::decimal::Context::default().without_traps();
    Num { raw: a.raw.with_ctx(ctx).div(b.raw.with_ctx(ctx)), model: unspecified_code() }
}

/// Relies on fastnum2's `Decimal::powi`; with traps disabled it cannot panic.
#[verifier::external_body]
pub(crate) fn dec_powi(a: &Num, n: i32) -> (r: Num)
    ensures
        r@ == powi_code(a@, n),
{
    let ctx = fastnum2::decimal::Context::default().without_traps();
    Num { raw: a.raw.with_ctx(ctx).powi(n), model: unspecified_code() }
}

/// Relies on fastnum2's `Decimal::neg` (a sign flip, raising no signals).
#[verifier::external_body]
pub(crate) fn dec_neg(a: &Num) -> (r: Num)
    ensures
        r@ == neg_code(a@),
{
    let ctx = fastnum2::decimal::Context::default().without_traps();
    Num { raw: a.raw.with_ctx(ctx).neg(), model: unspecified_code() }
}

/// Relies on fastnum2's `Decimal::abs` (a sign reset, raising no signals).
#[verifier::external_body]
pub(crate) fn dec_abs(a: &Num) -> (r: Num)
    ensures
        r@ == abs_code(a@),
{
    let ctx = fastnum2::decimal::Context::default().without_traps();
    Num { raw: a.raw.with_ctx(ctx).abs(), model: unspecified_code() }
}

/// Relies on fastnum2's `Decimal::sqrt`; with traps disabled a negative
/// operand yields a quiet NaN payload instead of panicking.
#[verifier::external_body]
pub(crate) fn dec_sqrt(a: &Num) -> (r: Num)
    ensures
        r@ == sqrt_code(a@),
{
    let ctx = fastnum2::decimal::Context::default().without_traps();
    Num { raw: a.raw.with_ctx(ctx).sqrt(), model: unspecified_code() }
}

/// Relies on fastnum2's `Decimal::ln`; with traps disabled a non-positive
/// operand yields a quiet NaN or infinity payload instead of panicking.
#[verifier::external_body]
pub(crate) fn dec_ln(a: &Num) -> (r: Num)
    ensures
        r@ == ln_code(a@),
{
    let ctx = fastnum2::decimal::Context::default().without_traps();
    Num { raw: a.raw.with_ctx(ctx).ln(), model: unspecified_code() }
}

/// Relies on fastnum2's `Decimal::exp`; with traps disabled an overflowing
/// operand yields an infinity payload instead of panicking.
#[verifier::external_body]
pub(crate) fn dec_exp(a: &Num) -> (r: Num)
    ensures
        r@ == exp_code(a@),
{
    let ctx = fastnum2::decimal::Context::default().without_traps();
    Num { raw: a.raw.with_ctx(ctx).exp(), model: unspecified_code() }
}

/// Relies on fastnum2's `Decimal::log2`; with traps disabled a non-positive
/// operand yields a quiet NaN or infinity payload instead of panicking.
#[verifier::external_body]
pub(crate) fn dec_log2(a: &Num) -> (r: Num)
    ensures
        r@ == log2_code(a@),
{
    let ctx = fastnum2::decimal::Context::default().without_traps();
    Num { raw: a.raw.with_ctx(ctx).log2(), model: unspecified_code() }
}

/// Relies on fastnum2's `Decimal::le` comparison, a pure, signal-free
/// function of its operands, total over NaN payloads.
#[verifier::external_body]
pub(crate) fn dec_le(a: &Num, b: &Num) -> (r: bool)
    ensures
        r == le_code(a@, b@),
{
    a.raw.le(&b.raw)
}

/// Relies on fastnum2's `Decimal::lt` comparison, as `dec_le` on `le`.
#[verifier::external_body]
pub(crate) fn dec_lt(a: &Num, b: &Num) -> (r: bool)
    ensures
        r == lt_code(a@, b@),
{
    a.raw.lt(&b.raw)
}

/// Relies on fastnum2's `Decimal::gt` comparison, as `dec_le` on `le`.
#[verifier::external_body]
pub(crate) fn dec_gt(a: &Num, b: &Num) -> (r: bool)
    ensures
        r == gt_code(a@, b@),
{
    a.raw.gt(&b.raw)
}

/// Relies on fastnum2's `Decimal::ge` comparison, as `dec_le` on `le`.
#[verifier::external_body]
pub(crate) fn dec_ge(a: &Num, b: &Num) -> (r: bool)
    ensures
        r == ge_code(a@, b@),
{
    a.raw.ge(&b.raw)
}

/// Relies on fastnum2's `Decimal::eq` comparison, as `dec_le` on `le`; a NaN
/// payload is equal to nothing.
#[verifier::external_body]
pub(crate) fn dec_eq(a: &Num, b: &Num) -> (r: bool)
    ensures
        r == eq_code(a@, b@),
{
    a.raw.eq(&b.raw)
}

} // verus!
