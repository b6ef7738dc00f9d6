//! Tests of the fixed-point layer and the distribution policy.

use serp_tes::distribute::{distribute, Direction, DistributionRatios};
use serp_tes::fixed::{Fraction, MathError};

fn quarter_quarter() -> DistributionRatios {
    DistributionRatios {
        stabilization: Fraction { num: 1, den: 4 },
        market_maker: Fraction { num: 1, den: 4 },
    }
}

#[test]
fn divide_rejects_zero_denominator() {
    assert_eq!(Fraction::divide(5, 0), Err(MathError::DivisionByZero));
}

#[test]
fn divide_forms_the_rational() {
    assert_eq!(Fraction::divide(1100, 1000), Ok(Fraction { num: 1100, den: 1000 }));
}

#[test]
fn sub_int_is_exact_above_zero() {
    let f = Fraction { num: 1100, den: 1000 };
    assert_eq!(f.saturating_sub_int(1), Fraction { num: 100, den: 1000 });
}

#[test]
fn sub_int_clamps_at_zero() {
    let f = Fraction { num: 900, den: 1000 };
    assert_eq!(f.saturating_sub_int(1), Fraction { num: 0, den: 1000 });
}

#[test]
fn fraction_of_rounds_toward_zero() {
    let f = Fraction { num: 1, den: 3 };
    assert_eq!(f.saturating_fraction_of(10), 3);
}

#[test]
fn fraction_of_saturates_at_max() {
    let f = Fraction { num: u64::MAX, den: 1 };
    assert_eq!(f.saturating_fraction_of(2), u64::MAX);
}

#[test]
fn fraction_of_zero_amount_is_zero() {
    let f = Fraction { num: 7, den: 2 };
    assert_eq!(f.saturating_fraction_of(0), 0);
}

#[test]
fn ratios_with_zero_denominator_are_invalid() {
    let r = DistributionRatios {
        stabilization: Fraction { num: 1, den: 0 },
        market_maker: Fraction { num: 1, den: 4 },
    };
    assert!(!r.is_valid());
}

#[test]
fn ratios_summing_over_one_are_invalid() {
    let r = DistributionRatios {
        stabilization: Fraction { num: 3, den: 4 },
        market_maker: Fraction { num: 1, den: 3 },
    };
    assert!(!r.is_valid());
}

#[test]
fn ratios_summing_to_one_are_valid() {
    let r = DistributionRatios {
        stabilization: Fraction { num: 1, den: 2 },
        market_maker: Fraction { num: 1, den: 2 },
    };
    assert!(r.is_valid());
}

#[test]
fn mint_splits_by_the_ratios() {
    let plan = distribute(4000, quarter_quarter(), 0);
    assert_eq!(plan.direction, Direction::Mint);
    assert_eq!(plan.stabilization_amount, 1000);
    assert_eq!(plan.market_maker_amount, 1000);
    assert_eq!(plan.unallocated_amount, 2000);
}

#[test]
fn mint_remainder_stays_unallocated() {
    let thirds = DistributionRatios {
        stabilization: Fraction { num: 1, den: 3 },
        market_maker: Fraction { num: 1, den: 3 },
    };
    let plan = distribute(10, thirds, 0);
    assert_eq!(plan.direction, Direction::Mint);
    assert_eq!(plan.stabilization_amount, 3);
    assert_eq!(plan.market_maker_amount, 3);
    assert_eq!(plan.unallocated_amount, 4);
    let total = plan.stabilization_amount + plan.market_maker_amount + plan.unallocated_amount;
    assert_eq!(total, 10);
}

#[test]
fn burn_draws_from_market_maker_first() {
    let plan = distribute(-40_000, quarter_quarter(), 1_000_000);
    assert_eq!(plan.direction, Direction::Burn);
    assert_eq!(plan.market_maker_amount, 40_000);
    assert_eq!(plan.stabilization_amount, 0);
    assert_eq!(plan.unallocated_amount, 0);
}

#[test]
fn burn_shortfall_falls_to_stabilization() {
    let plan = distribute(-40_000, quarter_quarter(), 10_000);
    assert_eq!(plan.direction, Direction::Burn);
    assert_eq!(plan.market_maker_amount, 10_000);
    assert_eq!(plan.stabilization_amount, 30_000);
    assert_eq!(plan.unallocated_amount, 0);
    let total = plan.stabilization_amount + plan.market_maker_amount + plan.unallocated_amount;
    assert_eq!(total, 40_000);
}

#[test]
fn zero_delta_plans_nothing() {
    let plan = distribute(0, quarter_quarter(), 500);
    assert_eq!(plan.direction, Direction::Hold);
    assert_eq!(plan.stabilization_amount, 0);
    assert_eq!(plan.market_maker_amount, 0);
    assert_eq!(plan.unallocated_amount, 0);
}

#[test]
fn distribution_conserves_the_magnitude() {
    let ratios = DistributionRatios {
        stabilization: Fraction { num: 2, den: 7 },
        market_maker: Fraction { num: 3, den: 11 },
    };
    for delta in [1i128, 2, 76, 77, 1000, u64::MAX as i128] {
        let plan = distribute(delta, ratios, 0);
        let total = plan.stabilization_amount as u128 + plan.market_maker_amount as u128
            + plan.unallocated_amount as u128;
        assert_eq!(total, delta as u128);
    }
}
