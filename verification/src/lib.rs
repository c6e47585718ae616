//! Reward-pool accounting engine for a liquidity-mining program.
//!
//! The crate keeps, for one reward pool and for every account in it, a pair
//! of continuously accumulating integrals of stake over time, and derives
//! from them each staker's proportional share of a reward budget.  All of
//! the accounting is verified; the host that persists the state, moves the
//! tokens and supplies the clock lives outside.

pub mod account;
pub mod contract;
pub mod correlation;
pub mod errors;
pub mod laws;
pub mod msg;
pub mod total;
pub mod volume;
