//! Distribution policy.
//!
//! A computed supply delta is split between the stabilization-fund account
//! and the market-maker account. An expansion is divided by the two
//! configured ratios, with any rounding remainder left unallocated; a
//! contraction is withdrawn preferentially from the market-maker account's
//! reserved balance, any shortfall falling to the stabilization account.
//! The component only plans the mutation; the caller realizes it against
//! the ledger.

use vstd::arithmetic::div_mod::{
    lemma_div_is_ordered, lemma_div_multiples_vanish, lemma_div_pos_is_pos,
    lemma_fundamental_div_mod,
};
use vstd::arithmetic::mul::{lemma_mul_inequality, lemma_mul_nonnegative};
use vstd::prelude::*;

use crate::fixed::{lemma_u64_mul_fits_u128, Fraction};

verus! {

/// The two configured shares of every adjustment. Both must be
/// non-negative (which the representation forces) and sum to at most one.
#[derive(Clone, Copy, Debug, PartialEq, Eq, Structural)]
pub struct DistributionRatios {
    pub stabilization: Fraction,
    pub market_maker: Fraction,
}

impl DistributionRatios {
    /// The two fractions sum to at most one:
    /// `ns/ds + nm/dm <= 1`, cross-multiplied to stay in integers.
    pub open spec fn sum_within_one(self) -> bool {
        self.stabilization.num * self.market_maker.den + self.market_maker.num
            * self.stabilization.den <= self.stabilization.den * self.market_maker.den
    }

    /// Well-formed: both fractions have positive denominators and their
    /// sum does not exceed one.
    pub open spec fn wf(self) -> bool {
        self.stabilization.wf() && self.market_maker.wf() && self.sum_within_one()
    }

    /// Checks the well-formedness of the configured ratios.
    pub fn is_valid(&self) -> (r: bool)
        ensures
            r == self.wf(),
    {
        if self.stabilization.den == 0 || self.market_maker.den == 0 {
            return false;
        }
        proof {
            lemma_u64_mul_fits_u128(self.stabilization.num as int, self.market_maker.den as int);
            lemma_u64_mul_fits_u128(self.market_maker.num as int, self.stabilization.den as int);
            lemma_u64_mul_fits_u128(self.stabilization.den as int, self.market_maker.den as int);
        }
        let cross_stab: u128 = (self.stabilization.num as u128) * (self.market_maker.den as u128);
        let cross_mm: u128 = (self.market_maker.num as u128) * (self.stabilization.den as u128);
        let whole: u128 = (self.stabilization.den as u128) * (self.market_maker.den as u128);
        match cross_stab.checked_add(cross_mm) {
            Some(sum) => sum <= whole,
            None => false,
        }
    }
}

/// Where an adjustment moves supply.
#[derive(Clone, Copy, Debug, PartialEq, Eq, Structural)]
pub enum Direction {
    /// Expansion: the amounts are minted to the two accounts.
    Mint,
    /// Contraction: the amounts are burned from the two accounts.
    Burn,
    /// A zero delta: nothing is moved and no ledger call is made.
    Hold,
}

/// The planned split of one adjustment. The three amounts always sum to
/// the magnitude of the delta they were derived from.
#[derive(Clone, Copy, Debug, PartialEq, Eq, Structural)]
pub struct DistributionPlan {
    pub direction: Direction,
    pub stabilization_amount: u64,
    pub market_maker_amount: u64,
    pub unallocated_amount: u64,
}

impl DistributionPlan {
    /// Everything the plan allocates, including the unallocated remainder.
    pub open spec fn spec_total(self) -> int {
        self.stabilization_amount + self.market_maker_amount + self.unallocated_amount
    }
}

/// What `distribute` returns for a delta whose magnitude fits the balance
/// type, given well-formed ratios.
pub open spec fn spec_distribute(
    delta: int,
    ratios: DistributionRatios,
    market_maker_reserved: u64,
) -> DistributionPlan {
    if delta > 0 {
        let stab = ratios.stabilization.spec_scaled(delta);
        let mm = ratios.market_maker.spec_scaled(delta);
        DistributionPlan {
            direction: Direction::Mint,
            stabilization_amount: stab as u64,
            market_maker_amount: mm as u64,
            unallocated_amount: (delta - stab - mm) as u64,
        }
    } else if delta < 0 {
        let magnitude = -delta;
        let mm = if magnitude <= market_maker_reserved {
            magnitude
        } else {
            market_maker_reserved as int
        };
        DistributionPlan {
            direction: Direction::Burn,
            stabilization_amount: (magnitude - mm) as u64,
            market_maker_amount: mm as u64,
            unallocated_amount: 0,
        }
    } else {
        DistributionPlan {
            direction: Direction::Hold,
            stabilization_amount: 0,
            market_maker_amount: 0,
            unallocated_amount: 0,
        }
    }
}

/// Splits a supply delta between the two protocol accounts.
///
/// For an expansion each account receives its configured fraction of the
/// delta, rounded toward zero, and the remainder stays unallocated; for a
/// contraction the market-maker account funds as much of the magnitude as
/// its reserved balance allows and the stabilization account funds the
/// shortfall; a zero delta plans nothing.
pub fn distribute(delta: i128, ratios: DistributionRatios, market_maker_reserved: u64) -> (plan:
    DistributionPlan)
    requires
        ratios.wf(),
        -(u64::MAX as int) <= delta <= u64::MAX as int,
    ensures
        plan == spec_distribute(delta as int, ratios, market_maker_reserved),
        plan.spec_total() == if delta >= 0 {
            delta as int
        } else {
            -(delta as int)
        },
        plan.direction == (if delta > 0 {
            Direction::Mint
        } else if delta < 0 {
            Direction::Burn
        } else {
            Direction::Hold
        }),
{
    if delta > 0 {
        let magnitude: u64 = delta as u64;
        proof {
            lemma_each_ratio_within_one(ratios);
            lemma_share_bounds(ratios.stabilization, magnitude as int);
            lemma_share_bounds(ratios.market_maker, magnitude as int);
            lemma_shares_fit(ratios, magnitude as int);
        }
        let stab: u64 = ratios.stabilization.saturating_fraction_of(magnitude);
        let mm: u64 = ratios.market_maker.saturating_fraction_of(magnitude);
        DistributionPlan {
            direction: Direction::Mint,
            stabilization_amount: stab,
            market_maker_amount: mm,
            unallocated_amount: magnitude - stab - mm,
        }
    } else if delta < 0 {
        let magnitude: u64 = (-delta) as u64;
        let mm: u64 = if magnitude <= market_maker_reserved {
            magnitude
        } else {
            market_maker_reserved
        };
        DistributionPlan {
            direction: Direction::Burn,
            stabilization_amount: magnitude - mm,
            market_maker_amount: mm,
            unallocated_amount: 0,
        }
    } else {
        DistributionPlan {
            direction: Direction::Hold,
            stabilization_amount: 0,
            market_maker_amount: 0,
            unallocated_amount: 0,
        }
    }
}

/// The distribution conserves the delta: the three planned amounts are
/// non-negative and sum exactly to the delta's magnitude, whichever side
/// of the peg the adjustment serves.
pub proof fn lemma_distribution_conserves(
    delta: int,
    ratios: DistributionRatios,
    market_maker_reserved: u64,
)
    requires
        ratios.wf(),
        -(u64::MAX as int) <= delta <= u64::MAX as int,
    ensures
        spec_distribute(delta, ratios, market_maker_reserved).spec_total() == if delta >= 0 {
            delta
        } else {
            -delta
        },
        spec_distribute(delta, ratios, market_maker_reserved).stabilization_amount >= 0,
        spec_distribute(delta, ratios, market_maker_reserved).market_maker_amount >= 0,
        spec_distribute(delta, ratios, market_maker_reserved).unallocated_amount >= 0,
{
    if delta > 0 {
        lemma_each_ratio_within_one(ratios);
        lemma_share_bounds(ratios.stabilization, delta);
        lemma_share_bounds(ratios.market_maker, delta);
        lemma_shares_fit(ratios, delta);
    }
}

/// A well-formed ratio pair scales any amount to a share between zero and
/// the amount itself, so no share ever saturates.
proof fn lemma_share_bounds(f: Fraction, amount: int)
    requires
        f.wf(),
        f.num <= f.den,
        0 <= amount <= u64::MAX,
    ensures
        0 <= f.spec_scaled(amount) <= amount,
        f.spec_saturating_scaled(amount) == f.spec_scaled(amount),
{
    lemma_mul_nonnegative(f.num as int, amount);
    lemma_div_pos_is_pos(f.num * amount, f.den as int);
    lemma_mul_inequality(f.num as int, f.den as int, amount);
    lemma_div_is_ordered(f.num * amount, f.den * amount, f.den as int);
    lemma_div_multiples_vanish(amount, f.den as int);
}

/// Neither configured fraction exceeds one on its own.
proof fn lemma_each_ratio_within_one(ratios: DistributionRatios)
    requires
        ratios.wf(),
    ensures
        ratios.stabilization.num <= ratios.stabilization.den,
        ratios.market_maker.num <= ratios.market_maker.den,
{
    lemma_ratio_pair_bounds(
        ratios.stabilization.num as int,
        ratios.stabilization.den as int,
        ratios.market_maker.num as int,
        ratios.market_maker.den as int,
    );
}

/// Two non-negative fractions that sum to at most one are each at most
/// one.
proof fn lemma_ratio_pair_bounds(ns: int, ds: int, nm: int, dm: int)
    by (nonlinear_arith)
    requires
        ds > 0,
        dm > 0,
        ns >= 0,
        nm >= 0,
        ns * dm + nm * ds <= ds * dm,
    ensures
        ns <= ds,
        nm <= dm,
{
}

/// The two rounded shares of an amount never exceed the amount when the
/// ratios sum to at most one.
proof fn lemma_shares_fit(ratios: DistributionRatios, amount: int)
    requires
        ratios.wf(),
        0 <= amount,
    ensures
        ratios.stabilization.spec_scaled(amount) + ratios.market_maker.spec_scaled(amount)
            <= amount,
{
    let ns = ratios.stabilization.num as int;
    let ds = ratios.stabilization.den as int;
    let nm = ratios.market_maker.num as int;
    let dm = ratios.market_maker.den as int;
    lemma_fundamental_div_mod(ns * amount, ds);
    lemma_fundamental_div_mod(nm * amount, dm);
    lemma_shares_fit_core(
        ns,
        ds,
        nm,
        dm,
        amount,
        (ns * amount) / ds,
        (nm * amount) / dm,
        (ns * amount) % ds,
        (nm * amount) % dm,
    );
}

/// Core of `lemma_shares_fit`, with the two divisions replaced by their
/// quotient-and-remainder decompositions.
proof fn lemma_shares_fit_core(
    ns: int,
    ds: int,
    nm: int,
    dm: int,
    amount: int,
    qs: int,
    qm: int,
    rs: int,
    rm: int,
)
    by (nonlinear_arith)
    requires
        ds > 0,
        dm > 0,
        amount >= 0,
        ns * dm + nm * ds <= ds * dm,
        ns * amount == ds * qs + rs,
        0 <= rs,
        nm * amount == dm * qm + rm,
        0 <= rm,
    ensures
        qs + qm <= amount,
{
    assert((qs + qm) * (ds * dm) == (ns * amount - rs) * dm + (nm * amount - rm) * ds);
    assert((ns * amount) * dm + (nm * amount) * ds == amount * (ns * dm + nm * ds));
    assert(amount * (ns * dm + nm * ds) <= amount * (ds * dm));
}

} // verus!
