//! Deterministic saturating arithmetic over exact non-negative rationals.
//!
//! Every layer above works through this one; none of them may use floating
//! point. All operations are pure and total except explicit division by
//! zero, which is reported as an error.

use vstd::prelude::*;

verus! {

/// Errors of the fixed-point layer.
#[derive(Clone, Copy, Debug, PartialEq, Eq, Structural)]
pub enum MathError {
    /// The denominator handed to `Fraction::divide` was zero.
    DivisionByZero,
}

/// An exact non-negative rational `num / den` with a positive denominator.
#[derive(Clone, Copy, Debug, PartialEq, Eq, Structural)]
pub struct Fraction {
    pub num: u64,
    pub den: u64,
}

impl Fraction {
    /// Well-formed: the denominator is positive.
    pub open spec fn wf(self) -> bool {
        self.den > 0
    }

    /// `amount` scaled by `num / den`, rounded toward zero, without any
    /// clamping.
    pub open spec fn spec_scaled(self, amount: int) -> int {
        (self.num * amount) / (self.den as int)
    }

    /// `amount` scaled by `num / den`, rounded toward zero and clamped to
    /// the representable range of the balance type.
    pub open spec fn spec_saturating_scaled(self, amount: int) -> int {
        if self.spec_scaled(amount) > u64::MAX {
            u64::MAX as int
        } else {
            self.spec_scaled(amount)
        }
    }

    /// Forms the rational `numerator / denominator`, rejecting a zero
    /// denominator.
    pub fn divide(numerator: u64, denominator: u64) -> (r: Result<Fraction, MathError>)
        ensures
            denominator == 0 ==> r == Err::<Fraction, MathError>(MathError::DivisionByZero),
            denominator > 0 ==> r == Ok::<Fraction, MathError>(
                Fraction { num: numerator, den: denominator },
            ),
    {
        if denominator == 0 {
            Err(MathError::DivisionByZero)
        } else {
            Ok(Fraction { num: numerator, den: denominator })
        }
    }

    /// Subtracts the integer `k` from the fraction, clamping at zero
    /// instead of underflowing.
    pub fn saturating_sub_int(self, k: u64) -> (r: Fraction)
        requires
            self.wf(),
        ensures
            r.wf(),
            r.den == self.den,
            r.num == if self.num >= k * self.den {
                self.num - k * self.den
            } else {
                0
            },
    {
        proof {
            lemma_u64_mul_fits_u128(k as int, self.den as int);
        }
        let scaled: u128 = (k as u128) * (self.den as u128);
        let n: u128 = self.num as u128;
        if n >= scaled {
            Fraction { num: (n - scaled) as u64, den: self.den }
        } else {
            Fraction { num: 0, den: self.den }
        }
    }

    /// Returns `amount` scaled by the fraction, rounded toward zero and
    /// clamped to the balance type's maximum instead of overflowing.
    pub fn saturating_fraction_of(self, amount: u64) -> (r: u64)
        requires
            self.wf(),
        ensures
            r == self.spec_saturating_scaled(amount as int),
    {
        proof {
            lemma_u64_mul_fits_u128(self.num as int, amount as int);
        }
        let scaled: u128 = (self.num as u128) * (amount as u128);
        let quotient: u128 = scaled / (self.den as u128);
        if quotient > (u64::MAX as u128) {
            u64::MAX
        } else {
            quotient as u64
        }
    }
}

/// The product of two values of the balance type fits the double-width
/// type used for intermediate results.
pub proof fn lemma_u64_mul_fits_u128(a: int, b: int)
    requires
        0 <= a <= u64::MAX,
        0 <= b <= u64::MAX,
    ensures
        0 <= a * b <= u128::MAX,
{
    assert(a * b <= u64::MAX * u64::MAX) by (nonlinear_arith)
        requires
            0 <= a <= u64::MAX,
            0 <= b <= u64::MAX,
    ;
    assert(a * b >= 0) by (nonlinear_arith)
        requires
            0 <= a,
            0 <= b,
    ;
}

} // verus!
