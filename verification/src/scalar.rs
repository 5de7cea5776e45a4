//! Decimal fixed-point numbers with nine fractional digits.
//!
//! A [`Scalar`] stores a signed count of billionths. Every operation is
//! total: results beyond the representable range saturate at the limit of
//! the same sign, and quotients and products round toward zero, so that
//! negating an operand negates the result exactly.

use crate::isqrt::{floor_sqrt, isqrt_u128, lemma_square_strictly_monotone};
use vstd::arithmetic::div_mod::{
    lemma_div_is_ordered, lemma_div_is_ordered_by_denominator, lemma_div_pos_is_pos,
};
use vstd::arithmetic::mul::lemma_mul_upper_bound;
use vstd::prelude::*;

verus! {

/// Raw units in one whole.
pub const SCALE: i64 = 1_000_000_000;

/// The largest magnitude a scalar can hold, in raw units.
pub open spec fn limit() -> int {
    0x7fff_ffff_ffff_ffff
}

/// `x` brought into the symmetric range `[-limit(), limit()]`.
pub open spec fn clamp(x: int) -> int {
    if x > limit() {
        limit()
    } else if x < -limit() {
        -limit()
    } else {
        x
    }
}

/// The absolute value of `x`.
pub open spec fn magnitude(x: int) -> int {
    if x < 0 {
        -x
    } else {
        x
    }
}

/// The quotient of `a` by `b` rounded toward zero, for `b != 0`.
pub open spec fn trunc_div(a: int, b: int) -> int {
    if (a < 0) != (b < 0) {
        -(magnitude(a) / magnitude(b))
    } else {
        magnitude(a) / magnitude(b)
    }
}

/// Saturating sum.
pub open spec fn fx_add(a: int, b: int) -> int {
    clamp(a + b)
}

/// Saturating difference.
pub open spec fn fx_sub(a: int, b: int) -> int {
    clamp(a - b)
}

/// Saturating negation.
pub open spec fn fx_neg(a: int) -> int {
    clamp(-a)
}

/// Saturating product of two fixed-point numbers, rounded toward zero.
pub open spec fn fx_mul(a: int, b: int) -> int {
    clamp(trunc_div(a * b, SCALE as int))
}

/// Saturating quotient of two fixed-point numbers, rounded toward zero.
/// Dividing by zero saturates in the direction of the dividend.
pub open spec fn fx_div(a: int, b: int) -> int {
    if b == 0 {
        if a > 0 {
            limit()
        } else if a < 0 {
            -limit()
        } else {
            0
        }
    } else {
        clamp(trunc_div(a * SCALE, b))
    }
}

/// Square root of a fixed-point number, rounded down; zero for arguments
/// that are not positive.
pub open spec fn fx_sqrt(a: int) -> int {
    if a <= 0 {
        0
    } else {
        floor_sqrt(a * SCALE)
    }
}

/// The absolute value of a fixed-point number.
pub open spec fn fx_abs(a: int) -> int {
    clamp(magnitude(a))
}

/// A fixed-point number: `raw` billionths.
#[derive(Clone, Copy, Debug, PartialEq, Eq)]
pub struct Scalar {
    raw: i64,
}

impl View for Scalar {
    type V = int;

    closed spec fn view(&self) -> int {
        self.raw as int
    }
}

/// A quotient of non-negative numbers is pinned by bracketing the dividend
/// between two multiples of the divisor.
pub proof fn lemma_quotient_is(a: int, b: int, q: int)
    by (nonlinear_arith)
    requires
        0 < b,
        0 <= q,
        q * b <= a < (q + 1) * b,
    ensures
        a / b == q,
        trunc_div(a, b) == q,
{
}

/// The sign rule and the magnitude of a product.
pub proof fn lemma_product_sign(a: int, b: int)
    by (nonlinear_arith)
    ensures
        magnitude(a * b) == magnitude(a) * magnitude(b),
        (a * b < 0) <==> (a != 0 && b != 0 && ((a < 0) != (b < 0))),
        (-a) * b == -(a * b),
        a * (-b) == -(a * b),
{
}

/// Rounding toward zero commutes with negating the dividend or the divisor.
pub proof fn lemma_trunc_div_odd(a: int, b: int)
    requires
        b != 0,
    ensures
        trunc_div(-a, b) == -trunc_div(a, b),
        trunc_div(a, -b) == -trunc_div(a, b),
{
    assert(magnitude(-a) == magnitude(a));
    assert(magnitude(-b) == magnitude(b));
    if a == 0 {
        assert(0int / magnitude(b) == 0) by (nonlinear_arith)
            requires
                magnitude(b) > 0,
        ;
    }
}

/// The product is odd in each factor.
pub proof fn lemma_fx_mul_odd(a: int, b: int)
    ensures
        fx_mul(-a, b) == -fx_mul(a, b),
        fx_mul(a, -b) == -fx_mul(a, b),
{
    lemma_product_sign(a, b);
    lemma_trunc_div_odd(a * b, SCALE as int);
}

/// The quotient is odd in the dividend and, for a divisor other than zero,
/// in the divisor.
pub proof fn lemma_fx_div_odd(a: int, b: int)
    ensures
        fx_div(-a, b) == -fx_div(a, b),
        b != 0 ==> fx_div(a, -b) == -fx_div(a, b),
{
    if b != 0 {
        lemma_trunc_div_odd(a * SCALE, b);
        assert((-a) * SCALE == -(a * SCALE));
    }
}

/// `x` cut off at the limit.
pub open spec fn capped(x: int) -> int {
    if x > limit() {
        limit()
    } else {
        x
    }
}

/// The size of a product is the rounded product of the sizes, cut off at
/// the limit.
pub proof fn lemma_fx_mul_magnitude(a: int, b: int)
    ensures
        magnitude(fx_mul(a, b)) == capped((magnitude(a) * magnitude(b)) / (SCALE as int)),
        0 <= (magnitude(a) * magnitude(b)) / (SCALE as int),
{
    lemma_product_sign(a, b);
    lemma_div_pos_is_pos(magnitude(a) * magnitude(b), SCALE as int);
}

/// The size of a quotient is the rounded quotient of the sizes, cut off at
/// the limit.
pub proof fn lemma_fx_div_magnitude(a: int, b: int)
    requires
        b != 0,
    ensures
        magnitude(fx_div(a, b)) == capped((magnitude(a) * SCALE) / magnitude(b)),
        0 <= (magnitude(a) * SCALE) / magnitude(b),
{
    assert(magnitude(a * SCALE) == magnitude(a) * SCALE);
    lemma_div_pos_is_pos(magnitude(a) * SCALE, magnitude(b));
}

/// Among numbers that are not negative, a product grows with its factors.
pub proof fn lemma_fx_mul_monotone(a: int, b: int, c: int, d: int)
    requires
        0 <= a <= c,
        0 <= b <= d,
    ensures
        0 <= fx_mul(a, b) <= fx_mul(c, d),
{
    lemma_mul_upper_bound(a, c, b, d);
    assert(0 <= a * b) by (nonlinear_arith)
        requires
            0 <= a,
            0 <= b,
    ;
    lemma_div_is_ordered(a * b, c * d, SCALE as int);
    lemma_div_pos_is_pos(a * b, SCALE as int);
}

/// Among numbers that are not negative, a quotient grows with its dividend
/// and falls with its divisor.
pub proof fn lemma_fx_div_monotone(a: int, b: int, c: int, d: int)
    requires
        0 <= a <= c,
        0 <= d <= b,
    ensures
        0 <= fx_div(a, b) <= fx_div(c, d),
{
    if b > 0 {
        lemma_div_pos_is_pos(a * SCALE, b);
        if d > 0 {
            lemma_div_is_ordered(a * SCALE, c * SCALE, b);
            lemma_div_is_ordered_by_denominator(c * SCALE, d, b);
        } else if c == 0 {
            assert(0int / b == 0) by (nonlinear_arith)
                requires
                    b > 0,
            ;
        }
    }
}

impl Scalar {
    #[verifier::type_invariant]
    spec fn symmetric(self) -> bool {
        self.raw > i64::MIN
    }

    fn from_wide(x: i128) -> (r: Scalar)
        ensures
            r@ == clamp(x as int),
    {
        if x > i64::MAX as i128 {
            Scalar { raw: i64::MAX }
        } else if x < -(i64::MAX as i128) {
            Scalar { raw: -i64::MAX }
        } else {
            Scalar { raw: x as i64 }
        }
    }

    fn from_magnitude(m: u128, negative: bool) -> (r: Scalar)
        ensures
            r@ == clamp(if negative { -(m as int) } else { m as int }),
    {
        let capped: i64 = if m > i64::MAX as u128 {
            i64::MAX
        } else {
            m as i64
        };
        if negative {
            Scalar { raw: -capped }
        } else {
            Scalar { raw: capped }
        }
    }

    fn magnitude_of(self) -> (m: u128)
        ensures
            m as int == magnitude(self@),
            m <= limit(),
    {
        proof {
            use_type_invariant(&self);
        }
        if self.raw < 0 {
            (-self.raw) as u128
        } else {
            self.raw as u128
        }
    }

    /// The scalar of `raw` billionths; the one value outside the symmetric
    /// range is taken to the negative limit.
    pub fn from_raw(raw: i64) -> (r: Scalar)
        ensures
            r@ == clamp(raw as int),
    {
        if raw == i64::MIN {
            Scalar { raw: -i64::MAX }
        } else {
            Scalar { raw }
        }
    }

    /// The number of billionths held.
    pub fn raw(self) -> (r: i64)
        ensures
            r as int == self@,
            -limit() <= r <= limit(),
    {
        proof {
            use_type_invariant(&self);
        }
        self.raw
    }

    /// Zero.
    pub fn zero() -> (r: Scalar)
        ensures
            r@ == 0,
    {
        Scalar { raw: 0 }
    }

    /// One.
    pub fn one() -> (r: Scalar)
        ensures
            r@ == SCALE,
    {
        Scalar { raw: SCALE }
    }

    /// The whole number `n`, saturated.
    pub fn from_int(n: i64) -> (r: Scalar)
        ensures
            r@ == clamp(n * SCALE),
    {
        Scalar::from_wide((n as i128) * 1_000_000_000)
    }

    /// `n` thousandths, saturated.
    pub fn from_milli(n: i64) -> (r: Scalar)
        ensures
            r@ == clamp(n * 1_000_000),
    {
        Scalar::from_wide((n as i128) * 1_000_000)
    }

    /// Saturating sum.
    pub fn add(self, rhs: Scalar) -> (r: Scalar)
        ensures
            r@ == fx_add(self@, rhs@),
    {
        Scalar::from_wide(self.raw as i128 + rhs.raw as i128)
    }

    /// Saturating difference.
    pub fn sub(self, rhs: Scalar) -> (r: Scalar)
        ensures
            r@ == fx_sub(self@, rhs@),
    {
        Scalar::from_wide(self.raw as i128 - rhs.raw as i128)
    }

    /// Negation.
    pub fn neg(self) -> (r: Scalar)
        ensures
            r@ == fx_neg(self@),
            r@ == -self@,
    {
        proof {
            use_type_invariant(&self);
        }
        Scalar { raw: -self.raw }
    }

    /// Absolute value.
    pub fn abs(self) -> (r: Scalar)
        ensures
            r@ == fx_abs(self@),
            r@ == magnitude(self@),
    {
        proof {
            use_type_invariant(&self);
        }
        if self.raw < 0 {
            Scalar { raw: -self.raw }
        } else {
            self
        }
    }

    /// Saturating product, rounded toward zero.
    pub fn mul(self, rhs: Scalar) -> (r: Scalar)
        ensures
            r@ == fx_mul(self@, rhs@),
    {
        let ma: u128 = self.magnitude_of();
        let mb: u128 = rhs.magnitude_of();
        proof {
            lemma_product_sign(self@, rhs@);
            assert(ma * mb <= limit() * limit()) by (nonlinear_arith)
                requires
                    0 <= ma <= limit(),
                    0 <= mb <= limit(),
            ;
        }
        let q: u128 = (ma * mb) / (SCALE as u128);
        let negative: bool = (self.raw < 0) != (rhs.raw < 0);
        Scalar::from_magnitude(q, negative)
    }

    /// Saturating quotient, rounded toward zero; a zero divisor saturates
    /// in the direction of the dividend.
    pub fn div(self, rhs: Scalar) -> (r: Scalar)
        ensures
            r@ == fx_div(self@, rhs@),
    {
        if rhs.raw == 0 {
            if self.raw > 0 {
                Scalar { raw: i64::MAX }
            } else if self.raw < 0 {
                Scalar { raw: -i64::MAX }
            } else {
                Scalar { raw: 0 }
            }
        } else {
            let ma: u128 = self.magnitude_of();
            let mb: u128 = rhs.magnitude_of();
            assert(ma * SCALE <= limit() * 1_000_000_000) by (nonlinear_arith)
                requires
                    0 <= ma <= limit(),
                    SCALE == 1_000_000_000,
            ;
            let q: u128 = (ma * (SCALE as u128)) / mb;
            let negative: bool = (self.raw < 0) != (rhs.raw < 0);
            Scalar::from_magnitude(q, negative)
        }
    }

    /// Square root, rounded down; zero for arguments that are not positive.
    pub fn sqrt(self) -> (r: Scalar)
        ensures
            r@ == fx_sqrt(self@),
    {
        if self.raw <= 0 {
            Scalar { raw: 0 }
        } else {
            let n: u128 = (self.raw as u128) * (SCALE as u128);
            let root: u64 = isqrt_u128(n);
            proof {
                if root as int > limit() {
                    lemma_square_strictly_monotone(limit(), root as int);
                    assert(limit() * limit() > n) by (nonlinear_arith)
                        requires
                            n <= limit() * 1_000_000_000,
                    ;
                }
            }
            Scalar { raw: root as i64 }
        }
    }
}

} // verus!
