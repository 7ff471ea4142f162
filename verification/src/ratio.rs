//! Exact non-negative rational arithmetic.
//!
//! The stream statistics (display rate, decode rate, header rate, bitrate,
//! per-frame compression ratios) are ratios of integer quantities; they are
//! kept exact here instead of being approximated in floating point.
//! Products that could exceed the `u64` range saturate at `u64::MAX`, and
//! every operation states that saturation exactly.

use vstd::prelude::*;

verus! {

use vstd::arithmetic::mul::lemma_mul_upper_bound;

/// Clamp an unbounded mathematical integer to the `u64` range from above.
pub open spec fn clamp64(v: int) -> int {
    if v > u64::MAX { u64::MAX as int } else { v }
}

/// Round `a / b` up to the next integer (for positive `b`).
pub open spec fn ceil_div(a: int, b: int) -> int {
    (a + b - 1) / b
}

/// A non-negative rational number `num / den`.
#[derive(Clone, Copy, Debug, PartialEq, Eq, Structural)]
pub struct Ratio {
    pub num: u64,
    pub den: u64,
}

/// `a <= b` over the mathematical rationals, by cross multiplication.
pub open spec fn ratio_le(a: Ratio, b: Ratio) -> bool {
    a.num * b.den <= b.num * a.den
}

/// The larger of two rationals; `b` is preferred on ties.
pub open spec fn spec_ratio_max(a: Ratio, b: Ratio) -> Ratio {
    if ratio_le(a, b) {
        b
    } else {
        a
    }
}

/// `ratio_le` is reflexive.
pub proof fn lemma_ratio_le_refl(a: Ratio)
    ensures
        ratio_le(a, a),
{
}

/// `ratio_le` is total: any two rationals are comparable.
pub proof fn lemma_ratio_le_total(a: Ratio, b: Ratio)
    ensures
        ratio_le(a, b) || ratio_le(b, a),
{
}

/// `ratio_le` is transitive over well-formed rationals.
pub proof fn lemma_ratio_le_trans(a: Ratio, b: Ratio, c: Ratio)
    requires
        a.wf(),
        b.wf(),
        c.wf(),
        ratio_le(a, b),
        ratio_le(b, c),
    ensures
        ratio_le(a, c),
{
    assert(a.num * b.den <= b.num * a.den && b.num * c.den <= c.num * b.den && a.den >= 1
        && b.den >= 1 && c.den >= 1 ==> a.num * c.den <= c.num * a.den) by (nonlinear_arith);
}

proof fn lemma_u64_product_fits_u128(a: u64, b: u64)
    ensures
        a * b <= u64::MAX * u64::MAX,
        a * b <= u128::MAX,
{
    lemma_mul_upper_bound(a as int, u64::MAX as int, b as int, u64::MAX as int);
    assert((u64::MAX as int) * (u64::MAX as int) <= u128::MAX) by (nonlinear_arith);
}

impl Ratio {
    /// A denominator of zero never arises: every rate is a count divided by
    /// a positive duration or scale.
    pub open spec fn wf(self) -> bool {
        self.den >= 1
    }

    pub fn new(num: u64, den: u64) -> (r: Ratio)
        requires
            den >= 1,
        ensures
            r == (Ratio { num, den }),
            r.wf(),
    {
        Ratio { num, den }
    }

    pub fn zero() -> (r: Ratio)
        ensures
            r == (Ratio { num: 0u64, den: 1u64 }),
            r.wf(),
            forall|o: Ratio| o.wf() ==> ratio_le(r, o),
    {
        let r = Ratio { num: 0, den: 1 };
        proof {
            assert forall|o: Ratio| o.wf() implies ratio_le(r, o) by {
                assert(0 * o.den == 0);
                lemma_mul_upper_bound(0, o.num as int, 1, 1);
            }
        }
        r
    }

    /// Exact comparison by cross multiplication in 128-bit arithmetic.
    pub fn le(&self, other: &Ratio) -> (r: bool)
        ensures
            r == ratio_le(*self, *other),
    {
        proof {
            lemma_u64_product_fits_u128(self.num, other.den);
            lemma_u64_product_fits_u128(other.num, self.den);
        }
        (self.num as u128) * (other.den as u128) <= (other.num as u128) * (self.den as u128)
    }

    /// The larger of the two rationals (`other` on ties).
    pub fn max(self, other: Ratio) -> (r: Ratio)
        ensures
            r == spec_ratio_max(self, other),
    {
        if self.le(&other) {
            other
        } else {
            self
        }
    }
}

/// `a * b`, saturating at `u64::MAX`.
pub fn mul_clamp(a: u64, b: u64) -> (r: u64)
    ensures
        r == clamp64(a * b),
{
    proof {
        lemma_u64_product_fits_u128(a, b);
    }
    let wide = (a as u128) * (b as u128);
    if wide > u64::MAX as u128 {
        u64::MAX
    } else {
        wide as u64
    }
}

/// `a + b`, saturating at `u64::MAX`.
pub fn add_clamp(a: u64, b: u64) -> (r: u64)
    ensures
        r == clamp64(a + b),
{
    if a > u64::MAX - b {
        u64::MAX
    } else {
        a + b
    }
}

/// `ceil(num * factor / den)`, saturating at `u64::MAX`.
///
/// This turns a per-unit rational rate into an absolute integer quantity,
/// rounding up as the selection comparisons expect.
pub fn ceil_mul_div_clamp(num: u64, factor: u64, den: u64) -> (r: u64)
    requires
        den >= 1,
    ensures
        r == clamp64(ceil_div(num * factor, den as int)),
{
    proof {
        lemma_u64_product_fits_u128(num, factor);
        assert(u64::MAX * u64::MAX + u64::MAX <= u128::MAX) by (nonlinear_arith);
        lemma_mul_upper_bound(num as int, u64::MAX as int, factor as int, u64::MAX as int);
    }
    let wide = (num as u128) * (factor as u128);
    let q = (wide + (den as u128) - 1) / (den as u128);
    if q > u64::MAX as u128 {
        u64::MAX
    } else {
        q as u64
    }
}

} // verus!
