//! Supply-elasticity engine for a multi-currency algorithmic stablecoin.
//!
//! Once per adjustment interval the engine decides, for each tracked
//! currency, whether circulating supply must expand or contract to push the
//! market price back toward its peg, computes the exact magnitude of the
//! change with saturating fixed-point arithmetic, and splits the resulting
//! mint or burn between a stabilization-fund account and a market-maker
//! account. Every computation is pure and deterministic: the caller fetches
//! prices and issuance figures, hands them in as plain values, and receives
//! a plan of ledger mutations to carry out.

pub mod classify;
pub mod config;
pub mod delta;
pub mod distribute;
pub mod fixed;
pub mod laws;
pub mod scheduler;
