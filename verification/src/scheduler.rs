//! Adjustment scheduler.
//!
//! On every tick the scheduler either stays idle (the tick is not a
//! multiple of the adjustment frequency) or runs the full pipeline —
//! classify, compute the delta, plan the distribution — once per tracked
//! currency over the observations the caller fetched beforehand. A bad
//! observation for one currency is recorded and skipped; it never aborts
//! the adjustment of the others. The scheduler only plans ledger
//! mutations; realizing them is the caller's duty.

use vstd::prelude::*;

use crate::classify::{classify, spec_classify};
use crate::config::{EngineConfig, TrackedCurrency};
use crate::delta::{compute_delta, spec_compute_delta};
use crate::distribute::{distribute, spec_distribute, DistributionPlan, DistributionRatios};

verus! {

/// One currency's market data for one tick, fetched by the caller from
/// the price oracle and the ledger.
#[derive(Clone, Copy, Debug, PartialEq, Eq, Structural)]
pub struct Observation {
    /// The currency the values belong to.
    pub currency_id: u64,
    /// Observed market price; zero is never a valid observation.
    pub price: u64,
    /// The ledger's current total issuance of the currency.
    pub total_issuance: u64,
    /// Reserved balance of the market-maker account in this currency,
    /// the preferred source of a contraction.
    pub market_maker_reserved: u64,
}

/// The individually observable outcome of one currency in one adjustment
/// cycle.
#[derive(Clone, Copy, Debug, PartialEq, Eq, Structural)]
pub enum CurrencyOutcome {
    /// The price observation was zero or missing; the currency was
    /// skipped for this tick and no arithmetic touched its issuance.
    Skipped { currency_id: u64 },
    /// The delta was zero — the price sat at the peg, or the deviation
    /// rounded to nothing — so no mutation is planned.
    NoAdjustment { currency_id: u64 },
    /// Supply expands: the planned amounts are minted.
    Expanded { currency_id: u64, plan: DistributionPlan },
    /// Supply contracts: the planned amounts are burned.
    Contracted { currency_id: u64, plan: DistributionPlan },
}

/// What one tick of the engine produced.
#[derive(Clone, Debug, PartialEq)]
pub enum TickResult {
    /// The tick was not an adjustment tick; nothing was computed.
    Idle,
    /// The tick adjusted: one outcome per tracked currency, in
    /// configuration order.
    Adjusting { outcomes: Vec<CurrencyOutcome> },
}

/// The first observation carrying the given currency, if any, searched
/// from position `start`.
pub open spec fn spec_find_observation_from(
    observations: Seq<Observation>,
    currency_id: u64,
    start: int,
) -> Option<Observation>
    decreases observations.len() - start when 0 <= start <= observations.len()
{
    if start >= observations.len() {
        None
    } else if observations[start].currency_id == currency_id {
        Some(observations[start])
    } else {
        spec_find_observation_from(observations, currency_id, start + 1)
    }
}

/// The first observation carrying the given currency, if any.
pub open spec fn spec_find_observation(
    observations: Seq<Observation>,
    currency_id: u64,
) -> Option<Observation> {
    spec_find_observation_from(observations, currency_id, 0)
}

/// What `adjust_currency` returns: the outcome of the full pipeline for
/// one tracked currency over the given observations.
pub open spec fn spec_currency_outcome(
    currency: TrackedCurrency,
    ratios: DistributionRatios,
    observations: Seq<Observation>,
) -> CurrencyOutcome {
    match spec_find_observation(observations, currency.id) {
        None => CurrencyOutcome::Skipped { currency_id: currency.id },
        Some(obs) => {
            if obs.price == 0 {
                CurrencyOutcome::Skipped { currency_id: currency.id }
            } else {
                let delta = spec_compute_delta(
                    spec_classify(obs.price, currency.base_unit),
                    obs.total_issuance,
                );
                if delta == 0 {
                    CurrencyOutcome::NoAdjustment { currency_id: currency.id }
                } else if delta > 0 {
                    CurrencyOutcome::Expanded {
                        currency_id: currency.id,
                        plan: spec_distribute(delta, ratios, obs.market_maker_reserved),
                    }
                } else {
                    CurrencyOutcome::Contracted {
                        currency_id: currency.id,
                        plan: spec_distribute(delta, ratios, obs.market_maker_reserved),
                    }
                }
            }
        },
    }
}

/// The outcomes of one adjusting tick, one per tracked currency, in
/// configuration order.
pub open spec fn spec_outcomes(
    currencies: Seq<TrackedCurrency>,
    ratios: DistributionRatios,
    observations: Seq<Observation>,
) -> Seq<CurrencyOutcome> {
    Seq::new(currencies.len(), |i: int| spec_currency_outcome(currencies[i], ratios, observations))
}

/// Whether this tick is an adjustment tick.
pub open spec fn spec_is_adjustment_tick(tick: u64, frequency: u64) -> bool {
    tick % frequency == 0
}

/// Decides from the tick counter and the configured frequency whether the
/// engine adjusts on this tick.
pub fn is_adjustment_tick(tick: u64, frequency: u64) -> (r: bool)
    requires
        frequency > 0,
    ensures
        r == spec_is_adjustment_tick(tick, frequency),
{
    tick % frequency == 0
}

/// Finds the first observation for the given currency.
fn find_observation(observations: &Vec<Observation>, currency_id: u64) -> (r: Option<Observation>)
    ensures
        r == spec_find_observation(observations@, currency_id),
{
    let mut i: usize = 0;
    while i < observations.len()
        invariant
            0 <= i <= observations@.len(),
            spec_find_observation(observations@, currency_id) == spec_find_observation_from(
                observations@,
                currency_id,
                i as int,
            ),
        decreases observations@.len() - i,
    {
        if observations[i].currency_id == currency_id {
            return Some(observations[i]);
        }
        i = i + 1;
    }
    None
}

/// Runs the pipeline — classify, compute the delta, plan the distribution
/// — for one tracked currency. A zero or missing price skips the currency
/// without touching its issuance figure.
pub fn adjust_currency(
    currency: TrackedCurrency,
    ratios: DistributionRatios,
    observations: &Vec<Observation>,
) -> (outcome: CurrencyOutcome)
    requires
        currency.base_unit > 0,
        ratios.wf(),
    ensures
        outcome == spec_currency_outcome(currency, ratios, observations@),
{
    match find_observation(observations, currency.id) {
        None => CurrencyOutcome::Skipped { currency_id: currency.id },
        Some(obs) => {
            if obs.price == 0 {
                CurrencyOutcome::Skipped { currency_id: currency.id }
            } else {
                let classification = classify(obs.price, currency.base_unit);
                let delta = compute_delta(classification, obs.total_issuance);
                if delta == 0 {
                    CurrencyOutcome::NoAdjustment { currency_id: currency.id }
                } else {
                    let plan = distribute(delta, ratios, obs.market_maker_reserved);
                    if delta > 0 {
                        CurrencyOutcome::Expanded { currency_id: currency.id, plan }
                    } else {
                        CurrencyOutcome::Contracted { currency_id: currency.id, plan }
                    }
                }
            }
        },
    }
}

/// Runs one tick of the engine over already-fetched observations.
///
/// A tick that is not a multiple of the adjustment frequency stays idle
/// and computes nothing. An adjustment tick processes every tracked
/// currency in configuration order and returns to idle afterward,
/// whatever each currency's individual outcome was.
pub fn run_tick(config: &EngineConfig, tick: u64, observations: &Vec<Observation>) -> (r:
    TickResult)
    requires
        config.wf(),
    ensures
        !spec_is_adjustment_tick(tick, config.adjustment_frequency) ==> r is Idle,
        spec_is_adjustment_tick(tick, config.adjustment_frequency) ==> (r matches
            TickResult::Adjusting { outcomes } && outcomes@ == spec_outcomes(
            config.currencies@,
            config.ratios,
            observations@,
        )),
{
    if !is_adjustment_tick(tick, config.adjustment_frequency) {
        return TickResult::Idle;
    }
    let mut outcomes: Vec<CurrencyOutcome> = Vec::new();
    let mut i: usize = 0;
    while i < config.currencies.len()
        invariant
            0 <= i <= config.currencies@.len(),
            config.wf(),
            outcomes@.len() == i,
            forall|j: int|
                0 <= j < i ==> outcomes@[j] == spec_currency_outcome(
                    config.currencies@[j],
                    config.ratios,
                    observations@,
                ),
        decreases config.currencies@.len() - i,
    {
        let outcome = adjust_currency(config.currencies[i], config.ratios, observations);
        outcomes.push(outcome);
        i = i + 1;
    }
    proof {
        assert(outcomes@ =~= spec_outcomes(config.currencies@, config.ratios, observations@));
    }
    TickResult::Adjusting { outcomes }
}

} // verus!
