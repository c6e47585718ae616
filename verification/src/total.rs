//! Pool-wide accounting.
//!
//! A pool persists a handful of deltas (`PoolState`); every transaction and
//! query first projects them forward to the current moment (`Totals::get`),
//! works on the projection, and commits new deltas back.  The projection is
//! the single reading of time in a transaction: volume grows by
//! `staked * elapsed`, and a closed pool's clock stops at the closing
//! moment.

use vstd::prelude::*;

use crate::errors::RewardsError;
use crate::volume::{
    accumulate, pow2_256, vol_limbs, Amount, Duration, Moment, Volume,
};

verus! {

/// When and why a pool was closed.
pub type CloseSeal = (Moment, String);

/// The stored pool-wide deltas.
#[derive(Clone, Debug, PartialEq, Eq)]
pub struct PoolState {
    /// Volume accumulated up to `updated`.
    pub volume: Volume,
    /// Moment of the last commit.
    pub updated: Moment,
    /// Total amount currently staked by all users.
    pub staked: Amount,
    /// Total amount ever paid out.
    pub distributed: Amount,
    /// The bonding duration accounts are reset to.
    pub bonding: Duration,
    /// Once set, never cleared: every later transaction becomes a forced
    /// exit and time-based accrual stops.
    pub closed: Option<CloseSeal>,
}

/// The moment up to which time-based accrual runs for a reading at `now`:
/// a closed pool's clock stops at the closing moment.
pub open spec fn accrual_stop(closed: Option<CloseSeal>, now: Moment) -> int {
    match closed {
        Some(seal) => if seal.0 < now {
            seal.0 as int
        } else {
            now as int
        },
        None => now as int,
    }
}

impl PoolState {
    /// The state of a pool that nobody has touched.
    pub fn new() -> (r: PoolState)
        ensures
            r == PoolState::initial(),
    {
        PoolState {
            volume: Volume::zero(),
            updated: 0,
            staked: 0,
            distributed: 0,
            bonding: 0,
            closed: None,
        }
    }

    /// The all-zero, open pool.
    pub open spec fn initial() -> PoolState {
        PoolState {
            volume: Volume { hi: 0, lo: 0 },
            updated: 0,
            staked: 0,
            distributed: 0,
            bonding: 0,
            closed: None,
        }
    }

    /// Accrual time between the last commit and a reading at `now`.
    pub open spec fn elapsed_at(&self, now: Moment) -> int {
        if accrual_stop(self.closed, now) >= self.updated {
            accrual_stop(self.closed, now) - self.updated
        } else {
            0
        }
    }

    /// The pool volume a reading at `now` observes.
    pub open spec fn volume_at(&self, now: Moment) -> int {
        self.volume@ + self.staked * self.elapsed_at(now)
    }
}

/// The pool projection: what the stored deltas, the clock and the reward
/// balance say about the pool as a whole at one moment.
#[derive(Clone, Debug, PartialEq, Eq)]
pub struct Totals {
    /// The moment the projection holds for.
    pub now: Moment,
    /// Moment of the last commit of the stored deltas.
    pub updated: Moment,
    /// Volume accumulated up to `now`.
    pub volume: Volume,
    /// Total amount currently staked by all users.
    pub staked: Amount,
    /// Amount currently available for distribution.
    pub budget: Amount,
    /// Total amount ever paid out.
    pub distributed: Amount,
    /// `distributed + budget`, for external reporting.
    pub unlocked: Amount,
    /// The bonding duration accounts are reset to.
    pub bonding: Duration,
    /// When and why the pool was closed, if it was.
    pub closed: Option<CloseSeal>,
}

/// The distributable budget: the reward-token balance the contract holds,
/// minus the staked principal where reward and staked token are the same
/// ("single-sided staking").
pub open spec fn spec_budget(p: PoolState, balance: Amount, single_sided: bool) -> int {
    if single_sided {
        balance - p.staked
    } else {
        balance as int
    }
}

/// Whether a projection of `p` at `now` with this balance succeeds.
pub open spec fn totals_ok(p: PoolState, now: Moment, balance: Amount, single_sided: bool) -> bool {
    &&& now >= p.updated
    &&& p.volume_at(now) < pow2_256()
    &&& spec_budget(p, balance, single_sided) >= 0
    &&& p.distributed + spec_budget(p, balance, single_sided) <= u128::MAX
}

/// The error a failing projection reports.
pub open spec fn totals_err(p: PoolState, now: Moment, balance: Amount, single_sided: bool) -> RewardsError {
    if now < p.updated {
        RewardsError::TimeTravel
    } else if p.volume_at(now) >= pow2_256() {
        RewardsError::Overflow
    } else if spec_budget(p, balance, single_sided) < 0 {
        RewardsError::InternalInconsistency { needed: p.staked, available: balance }
    } else {
        RewardsError::Overflow
    }
}

/// The projection a successful reading returns.
pub open spec fn spec_totals(p: PoolState, now: Moment, balance: Amount, single_sided: bool) -> Totals {
    Totals {
        now,
        updated: p.updated,
        volume: vol_limbs(p.volume_at(now)),
        staked: p.staked,
        budget: spec_budget(p, balance, single_sided) as u128,
        distributed: p.distributed,
        unlocked: (p.distributed + spec_budget(p, balance, single_sided)) as u128,
        bonding: p.bonding,
        closed: p.closed,
    }
}

/// What a transaction handler needs to know of a projection it was handed:
/// that it came out of `p`, whatever the balance was.
pub open spec fn totals_current(t: Totals, p: PoolState) -> bool {
    &&& t.now >= p.updated
    &&& t.updated == p.updated
    &&& t.volume@ == p.volume_at(t.now)
    &&& p.volume_at(t.now) < pow2_256()
    &&& t.staked == p.staked
    &&& t.distributed == p.distributed
    &&& t.bonding == p.bonding
    &&& t.closed == p.closed
}

/// Copy a closing seal; written out because the reason is a `String`.
pub(crate) fn clone_seal(c: &Option<CloseSeal>) -> (r: Option<CloseSeal>)
    ensures
        r == *c,
{
    match c {
        Some(seal) => Some((seal.0, seal.1.clone())),
        None => None,
    }
}

impl Totals {
    /// A field-for-field copy; written out because the closing reason is a
    /// `String`.
    pub fn duplicate(&self) -> (r: Totals)
        ensures
            r == *self,
    {
        Totals {
            now: self.now,
            updated: self.updated,
            volume: self.volume,
            staked: self.staked,
            budget: self.budget,
            distributed: self.distributed,
            unlocked: self.unlocked,
            bonding: self.bonding,
            closed: clone_seal(&self.closed),
        }
    }

    /// Project the stored pool deltas to `now`.
    ///
    /// `balance` is the contract's current balance in the reward token, as
    /// the host read it; `single_sided` says whether the reward token and
    /// the staked token are one, in which case the staked principal is not
    /// part of the budget.  Fails with `TimeTravel` where `now` precedes
    /// the stored timestamp, with `Overflow` where a 256-bit or 128-bit
    /// counter would be exceeded, and with `InternalInconsistency` where a
    /// single-sided pool's balance does not even cover its principal.
    pub fn get(pool: &PoolState, now: Moment, balance: Amount, single_sided: bool) -> (r: Result<
        Totals,
        RewardsError,
    >)
        ensures
            match r {
                Ok(t) => totals_ok(*pool, now, balance, single_sided) && t == spec_totals(
                    *pool,
                    now,
                    balance,
                    single_sided,
                ) && totals_current(t, *pool),
                Err(e) => !totals_ok(*pool, now, balance, single_sided) && e == totals_err(
                    *pool,
                    now,
                    balance,
                    single_sided,
                ),
            },
    {
        if now < pool.updated {
            return Err(RewardsError::TimeTravel);
        }
        let stop: u64 = match &pool.closed {
            Some(seal) => if seal.0 < now {
                seal.0
            } else {
                now
            },
            None => now,
        };
        let elapsed: u64 = if stop >= pool.updated {
            stop - pool.updated
        } else {
            0
        };
        let volume = match accumulate(pool.volume, elapsed, pool.staked) {
            Ok(v) => v,
            Err(e) => {
                return Err(e);
            },
        };
        let budget: u128 = if single_sided {
            match balance.checked_sub(pool.staked) {
                Some(b) => b,
                None => {
                    return Err(
                        RewardsError::InternalInconsistency {
                            needed: pool.staked,
                            available: balance,
                        },
                    );
                },
            }
        } else {
            balance
        };
        let unlocked: u128 = match pool.distributed.checked_add(budget) {
            Some(u) => u,
            None => {
                return Err(RewardsError::Overflow);
            },
        };
        proof {
            crate::volume::lemma_vol_limbs(volume);
        }
        Ok(
            Totals {
                now,
                updated: pool.updated,
                volume,
                staked: pool.staked,
                budget,
                distributed: pool.distributed,
                unlocked,
                bonding: pool.bonding,
                closed: clone_seal(&pool.closed),
            },
        )
    }
}

} // verus!
