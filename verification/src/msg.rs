//! The transaction and query interface, and the outbound actions.
//!
//! A handler never moves tokens itself: it returns `Action`s, and the host
//! turns each into the corresponding token-contract message after the new
//! deltas are durably staged.  Either all of a transaction's writes and
//! actions take effect, or none do.

use vstd::prelude::*;

use crate::volume::{Amount, Duration, Moment};

verus! {

/// An allowance one address grants another on a token: an amount and an
/// optional expiration moment.
#[derive(Clone, Debug, PartialEq, Eq, Structural)]
pub struct Allowance {
    pub amount: u128,
    pub expiration: Option<u64>,
}

/// An outbound token-contract message that the host dispatches after the
/// transaction's state is committed.
#[derive(Clone, Debug, PartialEq, Eq)]
pub enum Action {
    /// On the staked token: move `amount` from the sender into the
    /// contract.
    TransferFromUser { amount: Amount },
    /// On the staked token: return `amount` to the sender.
    TransferToUser { amount: Amount },
    /// On the reward token: pay `amount` out to the sender.
    TransferReward { amount: Amount },
    /// On `token`: set the viewing credential used for balance queries.
    SetViewingKey { token: String, key: String },
    /// On `token`: grant `recipient` the given allowance.
    IncreaseAllowance { token: String, recipient: String, allowance: Allowance },
}

/// The transactions the pool accepts.
#[derive(Clone, Debug, PartialEq, Eq)]
pub enum RewardsHandle {
    /// Stake `amount` more.
    Lock { amount: Amount },
    /// Withdraw `amount`.
    Retrieve { amount: Amount },
    /// Claim the accumulated reward.
    Claim {},
    /// Admin only: update part of the configuration.
    Configure(RewardsConfig),
    /// Admin only: close the pool for the given reason, irreversibly.
    Close { message: String },
    /// Admin only: grant a recipient maximal allowance on an arbitrary
    /// token held by the contract.
    Drain { snip20: String, recipient: Option<String>, key: String },
}

/// The queries the pool answers.
#[derive(Clone, Debug, PartialEq, Eq)]
pub enum RewardsQuery {
    /// Pool totals at a given moment and, given an address and a viewing
    /// credential, one account's standing.
    Status { at: Moment, address: Option<String>, key: Option<String> },
}

/// A configuration update: every field given is stored, every field left
/// out keeps its stored value.
#[derive(Clone, Debug, PartialEq, Eq)]
pub struct RewardsConfig {
    pub lp_token: Option<String>,
    pub reward_token: Option<String>,
    pub reward_vk: Option<String>,
    pub bonding: Option<Duration>,
}

/// Why a simulated claim against a pool would not pay out.
#[derive(Clone, Copy, Debug, PartialEq, Eq, Structural)]
pub enum ClaimError {
    /// The pool has no reward budget.
    PoolEmpty,
    /// The account has nothing staked.
    AccountZeroLocked,
    /// The account's computed reward is zero.
    AccountZeroReward,
    /// The account must wait `time_to_wait` more before claiming.
    EarlyClaim { time_to_wait: u64 },
}

/// The outcome of simulating a claim against one pool.
#[derive(Clone, Debug, PartialEq, Eq)]
pub struct ClaimResult {
    pub lp_token_addr: String,
    pub reward_amount: Amount,
    pub success: bool,
    pub error: Option<ClaimError>,
}

impl ClaimResult {
    /// A claim that would pay `reward_amount`.
    pub fn success(lp_token_addr: String, reward_amount: Amount) -> (r: ClaimResult)
        ensures
            r.lp_token_addr == lp_token_addr,
            r.reward_amount == reward_amount,
            r.success == true,
            r.error is None,
    {
        ClaimResult { lp_token_addr, reward_amount, success: true, error: None }
    }

    /// A claim that would be rejected for the given reason.
    pub fn error(lp_token_addr: String, error: ClaimError) -> (r: ClaimResult)
        ensures
            r.lp_token_addr == lp_token_addr,
            r.reward_amount == 0,
            r.success == false,
            r.error == Some(error),
    {
        ClaimResult { lp_token_addr, reward_amount: 0, success: false, error: Some(error) }
    }
}

/// What of an earned total is still owed after `claimed` was already paid:
/// `max(0, earned - claimed)`.  Earned can legitimately fall below the
/// claimed watermark when other stakers' volume outgrows this account's;
/// the difference then floors at zero and never underflows.
pub fn claimable(earned: Amount, claimed: Amount) -> (r: Amount)
    ensures
        r == if earned >= claimed {
            earned - claimed
        } else {
            0
        },
{
    earned.saturating_sub(claimed)
}

} // verus!
