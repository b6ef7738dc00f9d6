//! Supply-delta calculation.
//!
//! From a classification and the currency's current total issuance the
//! calculator derives the signed amount to mint (positive) or burn
//! (negative). The relative deviation from the peg is the non-negative
//! rational `high / low - 1` with `high = max(price, base_unit)` and
//! `low = min(price, base_unit)`; the magnitude of the delta is that
//! fraction of the issuance, rounded toward zero and saturating at the
//! balance type's maximum instead of overflowing.

use vstd::arithmetic::div_mod::{lemma_div_by_self, lemma_div_is_ordered, lemma_div_pos_is_pos};
use vstd::arithmetic::mul::lemma_mul_nonnegative;
use vstd::prelude::*;

use crate::classify::{spec_classify, Classification};
use crate::fixed::Fraction;

verus! {

/// Magnitude of the supply change for a deviation `high / low - 1` applied
/// to `issuance`: `((high - low) * issuance) / low`, rounded toward zero
/// and clamped to the balance type's maximum.
pub open spec fn spec_delta_magnitude(high: int, low: int, issuance: int) -> int {
    let exact = ((high - low) * issuance) / low;
    if exact > u64::MAX {
        u64::MAX as int
    } else {
        exact
    }
}

/// What `compute_delta` returns: zero when there is nothing to do, the
/// signed saturated magnitude otherwise.
pub open spec fn spec_compute_delta(c: Classification, issuance: u64) -> int {
    match c {
        Classification::AbovePeg { price, base_unit } => spec_delta_magnitude(
            price as int,
            base_unit as int,
            issuance as int,
        ),
        Classification::BelowPeg { price, base_unit } => -spec_delta_magnitude(
            base_unit as int,
            price as int,
            issuance as int,
        ),
        Classification::AtPeg => 0,
        Classification::InvalidPrice => 0,
    }
}

/// Computes the signed supply change for one currency in one adjustment.
///
/// `AtPeg` and `InvalidPrice` yield zero: no delta is derived from them
/// and no downstream mutation follows. A saturated magnitude is a valid
/// (if imprecise) output, never an error.
pub fn compute_delta(c: Classification, total_issuance: u64) -> (delta: i128)
    requires
        c.wf(),
    ensures
        delta == spec_compute_delta(c, total_issuance),
        -(u64::MAX as int) <= delta <= u64::MAX as int,
{
    match c {
        Classification::AbovePeg { price, base_unit } => {
            deviation_of(price, base_unit, total_issuance) as i128
        },
        Classification::BelowPeg { price, base_unit } => {
            -(deviation_of(base_unit, price, total_issuance) as i128)
        },
        Classification::AtPeg => 0i128,
        Classification::InvalidPrice => 0i128,
    }
}

/// Saturated magnitude of the deviation `high / low - 1` applied to
/// `issuance`, computed through the fixed-point layer.
fn deviation_of(high: u64, low: u64, issuance: u64) -> (m: u64)
    requires
        0 < low < high,
    ensures
        m == spec_delta_magnitude(high as int, low as int, issuance as int),
{
    let ratio = match Fraction::divide(high, low) {
        Ok(f) => f,
        Err(_) => {
            proof {
                assert(false);
            }
            Fraction { num: 0, den: 1 }
        },
    };
    let deviation = ratio.saturating_sub_int(1);
    assert(deviation.num == high - low);
    deviation.saturating_fraction_of(issuance)
}

/// The delta's sign follows the side of the peg: a price above the base
/// unit never contracts supply and a price below it never expands supply;
/// the delta is strictly positive (respectively negative) as soon as the
/// deviation times the issuance reaches one whole unit of the lower side.
pub proof fn lemma_delta_sign(price: u64, base_unit: u64, issuance: u64)
    requires
        0 < base_unit,
        0 < price,
    ensures
        price > base_unit ==> spec_compute_delta(spec_classify(price, base_unit), issuance) >= 0,
        price < base_unit ==> spec_compute_delta(spec_classify(price, base_unit), issuance) <= 0,
        price > base_unit && (price - base_unit) * issuance >= base_unit
            ==> spec_compute_delta(spec_classify(price, base_unit), issuance) > 0,
        price < base_unit && (base_unit - price) * issuance >= price
            ==> spec_compute_delta(spec_classify(price, base_unit), issuance) < 0,
{
    if price > base_unit {
        lemma_magnitude_sign(price as int, base_unit as int, issuance as int);
    }
    if price < base_unit {
        lemma_magnitude_sign(base_unit as int, price as int, issuance as int);
    }
}

/// The saturated magnitude is non-negative, and positive exactly when the
/// unscaled product reaches the divisor.
proof fn lemma_magnitude_sign(high: int, low: int, issuance: int)
    requires
        0 < low < high,
        0 <= issuance,
    ensures
        spec_delta_magnitude(high, low, issuance) >= 0,
        (high - low) * issuance >= low ==> spec_delta_magnitude(high, low, issuance) > 0,
{
    lemma_mul_nonnegative(high - low, issuance);
    lemma_div_pos_is_pos((high - low) * issuance, low);
    if (high - low) * issuance >= low {
        lemma_div_is_ordered(low, (high - low) * issuance, low);
        lemma_div_by_self(low);
    }
}

} // verus!
