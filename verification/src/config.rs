//! Engine configuration.
//!
//! All adjustment parameters are set once, validated eagerly before any
//! tick is processed, and read-only afterward. An invalid configuration
//! must prevent the engine from running at all, never surface mid-cycle.

use vstd::prelude::*;

use crate::distribute::DistributionRatios;

verus! {

/// A currency the engine watches, with the peg it must hold.
#[derive(Clone, Copy, Debug, PartialEq, Eq, Structural)]
pub struct TrackedCurrency {
    /// Opaque identifier of the currency.
    pub id: u64,
    /// The price that means "at peg"; positive for every tracked currency.
    pub base_unit: u64,
}

/// Why a configuration was rejected at startup.
#[derive(Clone, Copy, Debug, PartialEq, Eq, Structural)]
pub enum ConfigError {
    /// The adjustment frequency is zero: no tick could ever adjust.
    ZeroAdjustmentFrequency,
    /// A distribution ratio has a zero denominator.
    ZeroRatioDenominator,
    /// The two distribution ratios sum to more than one.
    RatioSumExceedsOne,
    /// A tracked currency's base unit is zero.
    ZeroBaseUnit,
}

/// The whole read-only configuration surface of the engine.
pub struct EngineConfig {
    /// Ticks between adjustments.
    pub adjustment_frequency: u64,
    /// The currencies the engine adjusts, each with its peg.
    pub currencies: Vec<TrackedCurrency>,
    /// The configured split of every adjustment.
    pub ratios: DistributionRatios,
    /// Account that absorbs or funds the stabilization share.
    pub stabilization_account: u64,
    /// Account that absorbs or funds the market-maker share.
    pub market_maker_account: u64,
}

impl EngineConfig {
    /// Well-formed: the frequency is positive, the ratios are well-formed,
    /// and every tracked currency has a positive base unit.
    pub open spec fn wf(self) -> bool {
        &&& self.adjustment_frequency > 0
        &&& self.ratios.wf()
        &&& forall|i: int|
            0 <= i < self.currencies@.len() ==> (#[trigger] self.currencies@[i]).base_unit > 0
    }

    /// Validates the configuration eagerly, reporting the first fault in
    /// the order frequency, ratio denominators, ratio sum, base units.
    pub fn validate(&self) -> (r: Result<(), ConfigError>)
        ensures
            r is Ok <==> self.wf(),
            self.adjustment_frequency == 0 ==> r == Err::<(), ConfigError>(
                ConfigError::ZeroAdjustmentFrequency,
            ),
            self.adjustment_frequency > 0 && (self.ratios.stabilization.den == 0
                || self.ratios.market_maker.den == 0) ==> r == Err::<(), ConfigError>(
                ConfigError::ZeroRatioDenominator,
            ),
            self.adjustment_frequency > 0 && self.ratios.stabilization.wf()
                && self.ratios.market_maker.wf() && !self.ratios.sum_within_one() ==> r == Err::<
                (),
                ConfigError,
            >(ConfigError::RatioSumExceedsOne),
            self.adjustment_frequency > 0 && self.ratios.wf() && !self.wf() ==> r == Err::<
                (),
                ConfigError,
            >(ConfigError::ZeroBaseUnit),
    {
        if self.adjustment_frequency == 0 {
            return Err(ConfigError::ZeroAdjustmentFrequency);
        }
        if self.ratios.stabilization.den == 0 || self.ratios.market_maker.den == 0 {
            return Err(ConfigError::ZeroRatioDenominator);
        }
        if !self.ratios.is_valid() {
            return Err(ConfigError::RatioSumExceedsOne);
        }
        let mut i: usize = 0;
        while i < self.currencies.len()
            invariant
                0 <= i <= self.currencies@.len(),
                self.adjustment_frequency > 0,
                self.ratios.wf(),
                forall|j: int|
                    0 <= j < i ==> (#[trigger] self.currencies@[j]).base_unit > 0,
            decreases self.currencies@.len() - i,
        {
            if self.currencies[i].base_unit == 0 {
                return Err(ConfigError::ZeroBaseUnit);
            }
            i = i + 1;
        }
        Ok(())
    }
}

} // verus!
