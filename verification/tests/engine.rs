//! Tests of the classifier, the delta calculator, the configuration
//! checks, and the tick scheduler.

use serp_tes::classify::{classify, Classification};
use serp_tes::config::{ConfigError, EngineConfig, TrackedCurrency};
use serp_tes::delta::compute_delta;
use serp_tes::distribute::DistributionRatios;
use serp_tes::fixed::Fraction;
use serp_tes::scheduler::{
    adjust_currency, is_adjustment_tick, run_tick, CurrencyOutcome, Observation, TickResult,
};

fn half_quarter() -> DistributionRatios {
    DistributionRatios {
        stabilization: Fraction { num: 1, den: 2 },
        market_maker: Fraction { num: 1, den: 4 },
    }
}

fn two_currency_config() -> EngineConfig {
    EngineConfig {
        adjustment_frequency: 10,
        currencies: vec![
            TrackedCurrency { id: 1, base_unit: 1000 },
            TrackedCurrency { id: 2, base_unit: 500 },
        ],
        ratios: half_quarter(),
        stabilization_account: 77,
        market_maker_account: 88,
    }
}

fn observation(currency_id: u64, price: u64, total_issuance: u64) -> Observation {
    Observation { currency_id, price, total_issuance, market_maker_reserved: u64::MAX }
}

#[test]
fn zero_price_is_invalid() {
    assert_eq!(classify(0, 1000), Classification::InvalidPrice);
}

#[test]
fn price_at_base_unit_is_at_peg() {
    assert_eq!(classify(1000, 1000), Classification::AtPeg);
}

#[test]
fn price_above_base_unit_expands() {
    assert_eq!(classify(1100, 1000), Classification::AbovePeg { price: 1100, base_unit: 1000 });
}

#[test]
fn price_below_base_unit_contracts() {
    assert_eq!(classify(900, 1000), Classification::BelowPeg { price: 900, base_unit: 1000 });
}

#[test]
fn delta_at_peg_is_zero() {
    assert_eq!(compute_delta(Classification::AtPeg, 1_000_000), 0);
}

#[test]
fn delta_for_invalid_price_is_zero() {
    assert_eq!(compute_delta(Classification::InvalidPrice, 1_000_000), 0);
}

#[test]
fn tenth_above_peg_mints_a_tenth() {
    let c = classify(1100, 1000);
    assert_eq!(compute_delta(c, 1_000_000), 100_000);
}

#[test]
fn tenth_below_peg_burns_rounded_toward_zero() {
    let c = classify(900, 1000);
    assert_eq!(compute_delta(c, 1_000_000), -111_111);
}

#[test]
fn delta_on_zero_issuance_is_zero() {
    let c = classify(1100, 1000);
    assert_eq!(compute_delta(c, 0), 0);
}

#[test]
fn tiny_deviation_rounds_to_zero() {
    let c = classify(1001, 1000);
    assert_eq!(compute_delta(c, 5), 0);
}

#[test]
fn full_deviation_saturates_at_max() {
    let c = classify(2000, 1000);
    assert_eq!(compute_delta(c, u64::MAX), u64::MAX as i128);
}

#[test]
fn valid_config_passes_validation() {
    assert_eq!(two_currency_config().validate(), Ok(()));
}

#[test]
fn zero_frequency_is_rejected() {
    let mut config = two_currency_config();
    config.adjustment_frequency = 0;
    assert_eq!(config.validate(), Err(ConfigError::ZeroAdjustmentFrequency));
}

#[test]
fn zero_ratio_denominator_is_rejected() {
    let mut config = two_currency_config();
    config.ratios.market_maker = Fraction { num: 0, den: 0 };
    assert_eq!(config.validate(), Err(ConfigError::ZeroRatioDenominator));
}

#[test]
fn ratio_sum_over_one_is_rejected() {
    let mut config = two_currency_config();
    config.ratios.market_maker = Fraction { num: 2, den: 3 };
    assert_eq!(config.validate(), Err(ConfigError::RatioSumExceedsOne));
}

#[test]
fn zero_base_unit_is_rejected() {
    let mut config = two_currency_config();
    config.currencies.push(TrackedCurrency { id: 3, base_unit: 0 });
    assert_eq!(config.validate(), Err(ConfigError::ZeroBaseUnit));
}

#[test]
fn off_cadence_tick_stays_idle() {
    assert!(!is_adjustment_tick(7, 10));
    let config = two_currency_config();
    let observations = vec![observation(1, 1100, 1_000_000)];
    assert_eq!(run_tick(&config, 7, &observations), TickResult::Idle);
}

#[test]
fn cadence_tick_adjusts_every_currency() {
    let config = two_currency_config();
    let observations = vec![observation(1, 1100, 1_000_000), observation(2, 250, 1_000_000)];
    let result = run_tick(&config, 20, &observations);
    match result {
        TickResult::Adjusting { outcomes } => {
            assert_eq!(outcomes.len(), 2);
            match outcomes[0] {
                CurrencyOutcome::Expanded { currency_id, plan } => {
                    assert_eq!(currency_id, 1);
                    assert_eq!(
                        plan.stabilization_amount + plan.market_maker_amount
                            + plan.unallocated_amount,
                        100_000,
                    );
                },
                ref other => panic!("expected an expansion, got {:?}", other),
            }
            assert!(matches!(outcomes[1], CurrencyOutcome::Contracted { currency_id: 2, .. }));
        },
        TickResult::Idle => panic!("expected an adjusting tick"),
    }
}

#[test]
fn zero_price_skips_only_that_currency() {
    let config = two_currency_config();
    let observations = vec![observation(1, 0, 1_000_000), observation(2, 550, 1_000_000)];
    let result = run_tick(&config, 10, &observations);
    match result {
        TickResult::Adjusting { outcomes } => {
            assert_eq!(outcomes.len(), 2);
            assert_eq!(outcomes[0], CurrencyOutcome::Skipped { currency_id: 1 });
            assert!(matches!(outcomes[1], CurrencyOutcome::Expanded { currency_id: 2, .. }));
        },
        TickResult::Idle => panic!("expected an adjusting tick"),
    }
}

#[test]
fn missing_observation_skips_the_currency() {
    let config = two_currency_config();
    let observations = vec![observation(2, 500, 1_000_000)];
    let outcome = adjust_currency(config.currencies[0], config.ratios, &observations);
    assert_eq!(outcome, CurrencyOutcome::Skipped { currency_id: 1 });
}

#[test]
fn at_peg_plans_no_mutation() {
    let config = two_currency_config();
    let observations = vec![observation(1, 1000, 1_000_000)];
    let outcome = adjust_currency(config.currencies[0], config.ratios, &observations);
    assert_eq!(outcome, CurrencyOutcome::NoAdjustment { currency_id: 1 });
}

#[test]
fn identical_inputs_give_identical_outcomes() {
    let config = two_currency_config();
    let observations = vec![observation(1, 1100, 1_000_000), observation(2, 450, 2_000_000)];
    let first = run_tick(&config, 0, &observations);
    let second = run_tick(&config, 0, &observations);
    assert_eq!(first, second);
}

#[test]
fn first_observation_for_a_currency_wins() {
    let config = two_currency_config();
    let observations = vec![observation(1, 1000, 1_000_000), observation(1, 1100, 1_000_000)];
    let outcome = adjust_currency(config.currencies[0], config.ratios, &observations);
    assert_eq!(outcome, CurrencyOutcome::NoAdjustment { currency_id: 1 });
}
