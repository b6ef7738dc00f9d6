//! Properties that hold across the whole pipeline, stated once and proved
//! from the contracts of the individual components.

use vstd::arithmetic::div_mod::lemma_div_multiples_vanish;
use vstd::prelude::*;

use crate::classify::{spec_classify, Classification};
use crate::config::TrackedCurrency;
use crate::delta::spec_compute_delta;
use crate::distribute::DistributionRatios;
use crate::scheduler::{
    spec_currency_outcome, spec_find_observation, spec_outcomes, CurrencyOutcome, Observation,
};

verus! {

/// A price exactly at the peg is an explicit no-op: the computed delta is
/// zero and the currency's outcome plans no ledger mutation.
pub proof fn lemma_at_peg_plans_no_mutation(
    currency: TrackedCurrency,
    ratios: DistributionRatios,
    observations: Seq<Observation>,
    obs: Observation,
)
    requires
        currency.base_unit > 0,
        spec_find_observation(observations, currency.id) == Some(obs),
        obs.price == currency.base_unit,
    ensures
        spec_classify(obs.price, currency.base_unit) == Classification::AtPeg,
        spec_compute_delta(spec_classify(obs.price, currency.base_unit), obs.total_issuance) == 0,
        spec_currency_outcome(currency, ratios, observations) == (CurrencyOutcome::NoAdjustment {
            currency_id: currency.id,
        }),
{
}

/// A zero price is classified invalid and the currency is skipped for the
/// tick. The outcome is the same constant whatever issuance figure the
/// ledger reports, so no arithmetic is performed on it.
pub proof fn lemma_zero_price_skips_currency(
    currency: TrackedCurrency,
    ratios: DistributionRatios,
    observations: Seq<Observation>,
    obs: Observation,
)
    requires
        currency.base_unit > 0,
        spec_find_observation(observations, currency.id) == Some(obs),
        obs.price == 0,
    ensures
        spec_classify(obs.price, currency.base_unit) == Classification::InvalidPrice,
        spec_currency_outcome(currency, ratios, observations) == (CurrencyOutcome::Skipped {
            currency_id: currency.id,
        }),
{
}

/// Determinism: the planned outcomes are a function of the configuration
/// and the observations alone, so independently executing replicas handed
/// identical inputs — and any two runs over an unchanged ledger — plan
/// bit-identical adjustments.
pub proof fn lemma_pipeline_deterministic(
    currencies: Seq<TrackedCurrency>,
    ratios: DistributionRatios,
    first: Seq<Observation>,
    second: Seq<Observation>,
)
    requires
        first == second,
    ensures
        spec_outcomes(currencies, ratios, first) == spec_outcomes(currencies, ratios, second),
{
}

/// Saturation at the extreme: a price at twice the peg over a full
/// issuance yields exactly the balance type's maximum as the delta — the
/// saturated ceiling, never a wrap into the negative.
pub proof fn lemma_full_deviation_saturates(price: u64, base_unit: u64)
    requires
        0 < base_unit,
        price == 2 * base_unit,
    ensures
        spec_compute_delta(spec_classify(price, base_unit), u64::MAX) == u64::MAX,
{
    lemma_div_multiples_vanish(u64::MAX as int, base_unit as int);
}

} // verus!
