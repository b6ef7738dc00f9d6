//! Price-deviation classification.
//!
//! A currency's observed market price is held against its peg (the base
//! unit). The four cases are exhaustive and mutually exclusive for every
//! non-negative price, and a zero price is rejected before any arithmetic
//! can touch it.

use vstd::prelude::*;

verus! {

/// The relation of an observed price to the peg.
///
/// The two deviating variants carry the price and the base unit they were
/// classified from, so the supply-delta layer works on exactly the values
/// that the classifier inspected.
#[derive(Clone, Copy, Debug, PartialEq, Eq, Structural)]
pub enum Classification {
    /// The price equals the base unit: an explicit no-op.
    AtPeg,
    /// The price is above the peg: supply must expand to dilute it.
    AbovePeg { price: u64, base_unit: u64 },
    /// The price is below the peg: supply must contract to raise it.
    BelowPeg { price: u64, base_unit: u64 },
    /// A zero price is never a valid market observation.
    InvalidPrice,
}

impl Classification {
    /// Well-formed: the carried values are positive and ordered as the
    /// variant claims.
    pub open spec fn wf(self) -> bool {
        match self {
            Classification::AtPeg => true,
            Classification::AbovePeg { price, base_unit } => 0 < base_unit < price,
            Classification::BelowPeg { price, base_unit } => 0 < price < base_unit,
            Classification::InvalidPrice => true,
        }
    }
}

/// What `classify` returns for every price and positive base unit.
pub open spec fn spec_classify(price: u64, base_unit: u64) -> Classification {
    if price == 0 {
        Classification::InvalidPrice
    } else if price == base_unit {
        Classification::AtPeg
    } else if price > base_unit {
        Classification::AbovePeg { price, base_unit }
    } else {
        Classification::BelowPeg { price, base_unit }
    }
}

/// Classifies an observed market price against the peg.
pub fn classify(price: u64, base_unit: u64) -> (c: Classification)
    requires
        base_unit > 0,
    ensures
        c == spec_classify(price, base_unit),
        c.wf(),
        c is InvalidPrice <==> price == 0,
        c is AtPeg <==> price == base_unit,
        c is AbovePeg <==> price > base_unit,
        c is BelowPeg <==> 0 < price < base_unit,
{
    if price == 0 {
        Classification::InvalidPrice
    } else if price == base_unit {
        Classification::AtPeg
    } else if price > base_unit {
        Classification::AbovePeg { price, base_unit }
    } else {
        Classification::BelowPeg { price, base_unit }
    }
}

} // verus!
