//! Conversion of execution weight into a fee balance.
use crate::weight::Weight;
use vstd::arithmetic::div_mod::{
    lemma_div_multiples_vanish_fancy, lemma_div_is_ordered, lemma_fundamental_div_mod,
    lemma_hoist_over_denominator, lemma_mod_multiples_vanish,
};
use vstd::arithmetic::power::{lemma_pow1, pow};
use vstd::prelude::*;

verus! {

/// Balance of an account.
pub type Balance = u128;

/// The base number of indivisible units of a balance.
pub const UNIT: Balance = 1_000_000_000_000;

pub const MILLI_UNIT: Balance = 1_000_000_000;

pub const MICRO_UNIT: Balance = 1_000_000;

/// Reference time of one nanosecond of execution.
pub const WEIGHT_REF_TIME_PER_NANOS: u64 = 1_000;

/// Reference time of the smallest non-zero extrinsic: 125 microseconds.
pub const EXTRINSIC_BASE_REF_TIME: u64 = 125_000_000;

/// Denominator of a per-billion fraction.
pub const PER_BILLION: u128 = 1_000_000_000;

/// Weight charged for any extrinsic before its own cost.
pub fn extrinsic_base_weight() -> (r: Weight)
    ensures
        r.ref_time == EXTRINSIC_BASE_REF_TIME,
        r.proof_size == 0,
{
    Weight { ref_time: EXTRINSIC_BASE_REF_TIME, proof_size: 0 }
}

/// One term `(coeff_integer + coeff_frac / 10^9) * x^degree` of a fee polynomial.
#[derive(Clone, Copy, Debug, PartialEq, Eq, Structural)]
pub struct FeeCoefficient {
    /// Integral part of the coefficient.
    pub coeff_integer: Balance,
    /// Fractional part of the coefficient, in parts per billion.
    pub coeff_frac: u32,
    /// Whether the term is subtracted rather than added.
    pub negative: bool,
    /// Exponent of the term.
    pub degree: u8,
}

pub open spec fn sat_u128(v: int) -> u128 {
    if v > u128::MAX { u128::MAX } else if v < 0 { 0 } else { v as u128 }
}

/// `x^d`, saturating at `u128::MAX`.
pub open spec fn sat_pow(x: u128, d: u8) -> u128 {
    sat_u128(pow(x as int, d as nat))
}

/// A per-billion fraction times `x`, rounded to the nearest integer, ties down.
/// Parts above one billion count as one billion.
pub open spec fn perbill_mul(parts: u32, x: u128) -> int {
    let k = if parts > PER_BILLION { PER_BILLION as int } else { parts as int };
    let d = PER_BILLION as int;
    let m = (x % PER_BILLION) * k;
    (x / PER_BILLION) * k + m / d + (if m % d > d / 2 { 1int } else { 0int })
}

/// One term folded into the running value `acc`, every step saturating.
pub open spec fn term_eval(c: FeeCoefficient, acc: u128, x: u128) -> u128 {
    let power = sat_pow(x, c.degree);
    let frac = sat_u128(perbill_mul(c.coeff_frac, power));
    let integer = sat_u128(c.coeff_integer * power);
    if c.negative {
        sat_u128(sat_u128(acc - frac) - integer)
    } else {
        sat_u128(sat_u128(acc + frac) + integer)
    }
}

/// The terms folded in order from zero.
pub open spec fn poly_eval(cs: Seq<FeeCoefficient>, x: u128) -> u128
    decreases cs.len(),
{
    if cs.len() == 0 {
        0
    } else {
        term_eval(cs.last(), poly_eval(cs.drop_last(), x), x)
    }
}

/// `p` of the coefficient `p / q`: a tenth of a milli-unit.
pub open spec fn fee_numerator() -> int {
    MILLI_UNIT as int / 10
}

/// `q` of the coefficient `p / q`: a hundred base extrinsics.
pub open spec fn fee_denominator() -> int {
    100 * EXTRINSIC_BASE_REF_TIME
}

/// The single degree-one term of this runtime's fee.
pub open spec fn runtime_coefficient() -> FeeCoefficient {
    FeeCoefficient {
        coeff_integer: (fee_numerator() / fee_denominator()) as u128,
        coeff_frac: ((fee_numerator() % fee_denominator()) * PER_BILLION / fee_denominator()) as u32,
        negative: false,
        degree: 1,
    }
}

/// Fee charged for `ref_time` units of reference time.
pub open spec fn fee_of(ref_time: u64) -> u128 {
    poly_eval(seq![runtime_coefficient()], ref_time as u128)
}

/// Relies on sp_arithmetic's `Perbill::from_rational`, which rounds `p / q` down to
/// parts per billion when `q > 0` and `p <= q`.
#[verifier::external_body]
fn perbill_from_rational(p: u128, q: u128) -> (r: u32)
    requires
        q > 0,
        p <= q,
    ensures
        r == (p as int) * (PER_BILLION as int) / (q as int),
{
    sp_arithmetic::Perbill::from_rational(p, q).deconstruct()
}

/// Relies on sp_weights' `FeePolynomial::eval`: each term is evaluated with
/// `WeightToFeeCoefficient::saturating_eval` (a saturating power, `Perbill * power`
/// rounded to nearest, a saturating product) and folded in order from zero.
#[verifier::external_body]
fn eval_polynomial(coeffs: &Vec<FeeCoefficient>, x: u64) -> (r: u128)
    ensures
        r == poly_eval(coeffs@, x as u128),
{
    let terms: sp_weights::WeightToFeeCoefficients<u128> = coeffs
        .iter()
        .map(|c| sp_weights::WeightToFeeCoefficient {
            coeff_integer: c.coeff_integer,
            coeff_frac: sp_arithmetic::Perbill::from_parts(c.coeff_frac),
            negative: c.negative,
            degree: c.degree,
        })
        .collect();
    sp_weights::FeePolynomial::from(terms).eval(x)
}

/// Maps computational weight to a fee.
pub struct WeightToFee;

impl WeightToFee {
    /// The fee polynomial: one term of degree one whose coefficient is `p / q`, split
    /// into an integral part and a per-billion remainder.
    pub fn polynomial() -> (r: Vec<FeeCoefficient>)
        ensures
            r@ == seq![runtime_coefficient()],
    {
        let p: u128 = MILLI_UNIT / 10;
        let q: u128 = 100 * (extrinsic_base_weight().ref_time() as u128);
        let frac = perbill_from_rational(p % q, q);
        let c = FeeCoefficient { coeff_integer: p / q, coeff_frac: frac, negative: false, degree: 1 };
        let r = vec![c];
        assert(r@ =~= seq![runtime_coefficient()]);
        r
    }

    /// Fee for `weight`; only its reference time counts.
    pub fn weight_to_fee(weight: &Weight) -> (r: Balance)
        ensures
            r == fee_of(weight.ref_time),
    {
        let poly = Self::polynomial();
        eval_polynomial(&poly, weight.ref_time())
    }
}

/// Rounding to nearest with ties down, written as one division.
proof fn lemma_round_half_down(m: int)
    requires
        m >= 0,
    ensures
        m / 1_000_000_000 + (if m % 1_000_000_000 > 500_000_000 { 1int } else { 0int })
            == (m + 499_999_999) / 1_000_000_000,
{
    let d: int = 1_000_000_000;
    lemma_fundamental_div_mod(m, d);
    let q = m / d;
    let s = m % d;
    assert(0 <= s < d);
    assert(m + 499_999_999 == d * q + (s + 499_999_999));
    if s > 500_000_000 {
        assert(d * q + (s + 499_999_999) == d * (q + 1) + (s - 500_000_001));
        lemma_div_multiples_vanish_fancy(q + 1, s - 500_000_001, d);
    } else {
        lemma_div_multiples_vanish_fancy(q, s + 499_999_999, d);
    }
}

/// The runtime's fee is `ref_time * 0.008`, rounded to nearest with ties down.
pub proof fn lemma_fee_closed_form(ref_time: u64)
    ensures
        fee_of(ref_time) == (ref_time * 8_000_000 + 499_999_999) / 1_000_000_000,
{
    let x = ref_time as u128;
    let d: int = 1_000_000_000;
    let c = runtime_coefficient();
    assert(fee_numerator() == 100_000_000);
    assert(fee_denominator() == 12_500_000_000);
    assert(c.coeff_integer == 0);
    assert(100_000_000int * 1_000_000_000 == 12_500_000_000int * 8_000_000);
    assert(c.coeff_frac == 8_000_000);
    lemma_pow1(x as int);
    assert(sat_pow(x, 1) == x);
    let cs = seq![c];
    assert(cs.drop_last() =~= Seq::<FeeCoefficient>::empty());
    assert(cs.last() == c);
    let k: int = 8_000_000;
    let a = (x as int) / d;
    let r = (x as int) % d;
    let m = r * k;
    assert(0 <= r < d) by {
        lemma_fundamental_div_mod(x as int, d);
    }
    assert(0 <= m <= d * k) by (nonlinear_arith)
        requires
            0 <= r < d,
            k == 8_000_000,
            m == r * k,
    ;
    lemma_round_half_down(m);
    assert(a >= 0) by {
        lemma_div_is_ordered(0, x as int, d);
    }
    lemma_hoist_over_denominator(m + 499_999_999, a * k, d as nat);
    lemma_fundamental_div_mod(x as int, d);
    assert(m + 499_999_999 + (a * k) * d == (x as int) * k + 499_999_999) by (nonlinear_arith)
        requires
            x as int == d * a + r,
            m == r * k,
    ;
    let pm = perbill_mul(8_000_000, x);
    assert(pm == a * k + (m + 499_999_999) / d);
    assert(pm == ((x as int) * k + 499_999_999) / d);
    assert(0 <= pm <= x) by {
        lemma_div_is_ordered(0, (x as int) * k + 499_999_999, d);
        assert((x as int) * k + 499_999_999 <= (x as int) * d + d - 1) by (nonlinear_arith)
            requires
                x >= 0,
                k == 8_000_000,
                d == 1_000_000_000,
        ;
        lemma_div_is_ordered((x as int) * k + 499_999_999, (x as int) * d + d - 1, d);
        lemma_div_multiples_vanish_fancy(x as int, d - 1, d);
    }
    assert(poly_eval(cs.drop_last(), x) == 0);
    assert(poly_eval(cs, x) == term_eval(c, 0, x));
    assert(sat_u128(pm) == pm);
    assert(sat_u128(c.coeff_integer * sat_pow(x, c.degree)) == 0);
    assert(term_eval(c, 0, x) == pm);
}

/// The fee is non-decreasing in the reference time, and zero weight costs nothing.
pub proof fn lemma_fee_monotonic(a: u64, b: u64)
    requires
        a <= b,
    ensures
        fee_of(a) <= fee_of(b),
        fee_of(0) == 0,
{
    lemma_fee_closed_form(a);
    lemma_fee_closed_form(b);
    lemma_fee_closed_form(0);
    assert((a as int) * 8_000_000 <= (b as int) * 8_000_000) by (nonlinear_arith)
        requires
            a <= b,
    ;
    lemma_div_is_ordered(
        (a as int) * 8_000_000 + 499_999_999,
        (b as int) * 8_000_000 + 499_999_999,
        1_000_000_000,
    );
}

} // verus!
