//! The error taxonomy of the accounting engine.
//!
//! Every failure aborts the whole transaction: the caller that holds the
//! stored state commits nothing when a handler returns one of these.

use vstd::prelude::*;

verus! {

/// Why a transaction or a query was rejected.
#[derive(Clone, Copy, Debug, PartialEq, Eq, Structural)]
pub enum RewardsError {
    /// The given moment precedes a stored timestamp.  Fatal to the call:
    /// the caller's clock or the stored state is inconsistent.
    TimeTravel,
    /// The user asked to retrieve more than they have staked.
    InsufficientStake { staked: u128, requested: u128 },
    /// A pool-wide counter is smaller than what the books demand of it
    /// (`needed`): the accounting is corrupt, not the input.
    InternalInconsistency { needed: u128, available: u128 },
    /// The user must wait out the remaining bonding period before claiming.
    StillBonding { remaining: u64 },
    /// The pool has no reward budget to distribute.
    PoolEmpty,
    /// The user's computed reward is zero.
    NothingToClaim,
    /// An account query names an address but carries no viewing credential.
    MissingViewingCredential,
    /// A 256-bit volume accumulator or a 128-bit token counter would have
    /// been exceeded.
    Overflow,
    /// An admin-only transaction came from a stranger.
    Unauthorized,
    /// A token link or viewing credential that the operation needs has not
    /// been configured.
    MissingConfig,
}

} // verus!
