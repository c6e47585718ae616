//! Per-account accounting and the transaction handlers.
//!
//! An `AccountState` is what persists for one (user, pool) pair; an
//! `Account` is its projection at one moment, derived against a fresh pool
//! projection (`Totals`).  The handlers — deposit, withdraw, claim, and the
//! forced exit of a closed pool — work on the projection and commit new
//! deltas into the stored pool and account records, atomically: on any
//! error both records are exactly what they were.

use vstd::prelude::*;

use crate::errors::RewardsError;
use crate::msg::Action;
use crate::total::{accrual_stop, totals_current, PoolState, Totals};
use crate::volume::{
    accumulate, pow2_128, pow2_256, vol_limbs, vol_mul_div, Amount, Duration, Moment, Ratio,
    Volume,
};

verus! {

/// The stored per-account deltas.
#[derive(Clone, Copy, Debug, PartialEq, Eq, Structural)]
pub struct AccountState {
    /// The pool volume at the moment this account's current contribution
    /// started being tracked: the baseline of its reward share.
    pub entry: Volume,
    /// Amount currently staked by this account.
    pub staked: Amount,
    /// Volume contributed by this account since `entry`, accumulated up to
    /// `updated`.
    pub volume: Volume,
    /// Moment of the last commit for this account.
    pub updated: Moment,
    /// Remaining wait before this account may claim, as of `updated`.
    pub bonding: Duration,
}

/// Rewards earned: the budget pro-rated by the account's share of the pool
/// volume accumulated past its entry baseline, floored, in the low 128
/// bits.  A zero denominator means nobody has accumulated any history past
/// the baseline yet, and earns nothing.
pub open spec fn earned_of(budget: Amount, account_volume: int, share_denom: int) -> int {
    if share_denom == 0 {
        0
    } else {
        ((budget * account_volume) / share_denom) % pow2_128()
    }
}

impl AccountState {
    /// Accrual time between this account's last commit and the reading.
    pub open spec fn elapsed_at(&self, t: Totals) -> int {
        if accrual_stop(t.closed, t.now) >= self.updated {
            accrual_stop(t.closed, t.now) - self.updated
        } else {
            0
        }
    }

    /// The account volume the reading observes.
    pub open spec fn volume_at(&self, t: Totals) -> int {
        self.volume@ + self.staked * self.elapsed_at(t)
    }

    /// The remaining bonding wait: it counts down only while something is
    /// staked, and saturates at zero.
    pub open spec fn bonding_at(&self, t: Totals) -> int {
        if self.staked == 0 {
            self.bonding as int
        } else if self.bonding >= self.elapsed_at(t) {
            self.bonding - self.elapsed_at(t)
        } else {
            0
        }
    }

    /// The denominator of the reward share: pool volume accumulated since
    /// this account's entry baseline.
    pub open spec fn share_denom(&self, t: Totals) -> int {
        t.volume@ - self.entry@
    }

    /// The record for an address that has never touched this pool: all
    /// zero, baselined at the current pool volume.
    pub fn fresh(total: &Totals) -> (r: AccountState)
        ensures
            r == reset_state(*total, 0),
    {
        AccountState {
            entry: total.volume,
            staked: 0,
            volume: Volume { hi: 0, lo: 0 },
            updated: total.now,
            bonding: total.bonding,
        }
    }
}

/// Whether projecting `s` against `t` succeeds.
pub open spec fn account_ok(t: Totals, s: AccountState) -> bool {
    &&& t.now >= s.updated
    &&& s.entry@ <= t.volume@
    &&& s.volume_at(t) < pow2_256()
    &&& (s.share_denom(t) == 0 || (t.budget * s.volume_at(t)) / s.share_denom(t) < pow2_256())
}

/// The error a failing projection reports.
pub open spec fn account_err(t: Totals, s: AccountState) -> RewardsError {
    if t.now < s.updated || s.entry@ > t.volume@ {
        RewardsError::TimeTravel
    } else {
        RewardsError::Overflow
    }
}

/// The projection a successful reading returns.
pub open spec fn spec_account(t: Totals, s: AccountState) -> Account {
    Account {
        total: t,
        updated: s.updated,
        entry: s.entry,
        staked: s.staked,
        pool_share: (s.staked, t.staked),
        volume: vol_limbs(s.volume_at(t)),
        reward_share: (vol_limbs(s.volume_at(t)), vol_limbs(s.share_denom(t))),
        earned: earned_of(t.budget, s.volume_at(t), s.share_denom(t)) as u128,
        bonding: s.bonding_at(t) as u64,
    }
}

/// The account record after its baseline is reset: entry moves up to the
/// pool's current volume, own volume restarts at zero, the bonding wait
/// restarts at the pool-wide default.
pub open spec fn reset_state(t: Totals, staked: Amount) -> AccountState {
    AccountState {
        entry: t.volume,
        staked,
        volume: Volume { hi: 0, lo: 0 },
        updated: t.now,
        bonding: t.bonding,
    }
}

/// The account record after a plain commit: the projected volume and
/// bonding become the new deltas, the baseline stays.
pub open spec fn carried_state(a: Account, s0: AccountState, staked: Amount) -> AccountState {
    AccountState {
        entry: s0.entry,
        staked,
        volume: a.volume,
        updated: a.total.now,
        bonding: a.bonding,
    }
}

/// The pool record after a commit at projection `a.total`.
pub open spec fn pool_committed(t: Totals, staked: Amount, distributed: Amount, p0: PoolState) -> PoolState {
    PoolState {
        volume: t.volume,
        updated: t.now,
        staked,
        distributed,
        bonding: p0.bonding,
        closed: p0.closed,
    }
}

/// What a successful deposit of `amount` leaves behind.
pub open spec fn lock_post(
    a: Account,
    p0: PoolState,
    s0: AccountState,
    p: PoolState,
    s: AccountState,
    msgs: Seq<Action>,
    amount: Amount,
) -> bool {
    &&& s == (if s0.staked == 0 {
        reset_state(a.total, (s0.staked + amount) as u128)
    } else {
        carried_state(a, s0, (s0.staked + amount) as u128)
    })
    &&& p == pool_committed(a.total, (p0.staked + amount) as u128, p0.distributed, p0)
    &&& msgs == seq![(Action::TransferFromUser { amount })]
}

/// Whether a deposit of `amount` fits the 128-bit stake counters.
pub open spec fn lock_ok(p0: PoolState, s0: AccountState, amount: Amount) -> bool {
    s0.staked + amount <= u128::MAX && p0.staked + amount <= u128::MAX
}

/// Whether a withdrawal's bookkeeping fits: only the automatic claim that
/// closes out an emptied account can overflow, on the distributed counter.
pub open spec fn retrieve_ok(a: Account, p0: PoolState, s0: AccountState, amount: Amount) -> bool {
    s0.staked == amount && a.bonding == 0 ==> p0.distributed + a.earned <= u128::MAX
}

/// What a successful withdrawal of `amount` leaves behind.
///
/// The stake counters fall by `amount` on both sides.  An account that
/// empties out is reset; if its bonding wait is already over, any earned
/// reward is claimed and paid out in the same transaction.
pub open spec fn retrieve_post(
    a: Account,
    p0: PoolState,
    s0: AccountState,
    p: PoolState,
    s: AccountState,
    msgs: Seq<Action>,
    amount: Amount,
) -> bool {
    let ns = (s0.staked - amount) as u128;
    let np = (p0.staked - amount) as u128;
    if ns == 0 {
        &&& s == reset_state(a.total, 0)
        &&& if a.bonding == 0 {
            &&& p == pool_committed(a.total, np, (p0.distributed + a.earned) as u128, p0)
            &&& msgs == (if a.earned > 0 {
                seq![(Action::TransferToUser { amount }), (Action::TransferReward { amount: a.earned })]
            } else {
                seq![(Action::TransferToUser { amount })]
            })
        } else {
            &&& p == pool_committed(a.total, np, p0.distributed, p0)
            &&& msgs == seq![(Action::TransferToUser { amount })]
        }
    } else {
        &&& s == carried_state(a, s0, ns)
        &&& p == pool_committed(a.total, np, p0.distributed, p0)
        &&& msgs == seq![(Action::TransferToUser { amount })]
    }
}

/// Whether the forced exit of a closed pool succeeds.
pub open spec fn exit_ok(a: Account, p0: PoolState, s0: AccountState) -> bool {
    p0.staked >= s0.staked && retrieve_ok(a, p0, s0, s0.staked)
}

/// The error a failing forced exit reports.
pub open spec fn exit_err(a: Account, p0: PoolState, s0: AccountState) -> RewardsError {
    if p0.staked < s0.staked {
        RewardsError::InternalInconsistency { needed: s0.staked, available: p0.staked }
    } else {
        RewardsError::Overflow
    }
}

/// A forced exit is the withdrawal of the whole stake.
pub open spec fn exit_post(
    a: Account,
    p0: PoolState,
    s0: AccountState,
    p: PoolState,
    s: AccountState,
    msgs: Seq<Action>,
) -> bool {
    retrieve_post(a, p0, s0, p, s, msgs, s0.staked)
}

/// Whether a claim at projection `a` succeeds against pool record `p0`.
pub open spec fn claim_ok(a: Account, p0: PoolState) -> bool {
    &&& a.bonding == 0
    &&& a.total.budget > 0
    &&& a.earned > 0
    &&& p0.distributed + a.earned <= u128::MAX
}

/// The claim-rejection reason, checked in this order.
pub open spec fn claim_err(a: Account, p0: PoolState) -> RewardsError {
    if a.bonding > 0 {
        RewardsError::StillBonding { remaining: a.bonding }
    } else if a.total.budget == 0 {
        RewardsError::PoolEmpty
    } else if a.earned == 0 {
        RewardsError::NothingToClaim
    } else {
        RewardsError::Overflow
    }
}

/// What a successful claim leaves behind: the account's baseline and
/// bonding restart, its stake stays, the pool records the payout.
pub open spec fn claim_post(
    a: Account,
    p0: PoolState,
    s0: AccountState,
    p: PoolState,
    s: AccountState,
    msgs: Seq<Action>,
) -> bool {
    &&& s == reset_state(a.total, s0.staked)
    &&& p == pool_committed(a.total, p0.staked, (p0.distributed + a.earned) as u128, p0)
    &&& msgs == seq![(Action::TransferReward { amount: a.earned })]
}

/// The account projection: one account's standing at `total.now`, derived
/// against the pool projection it carries.
#[derive(Debug)]
pub struct Account {
    /// The pool projection this standing was derived against.
    pub total: Totals,
    /// Moment of the account's last commit.
    pub updated: Moment,
    /// The reward-share baseline.
    pub entry: Volume,
    /// Amount currently staked.
    pub staked: Amount,
    /// The momentary share: (account staked, pool staked).
    pub pool_share: Ratio,
    /// Volume contributed since `entry`, accumulated up to `total.now`.
    pub volume: Volume,
    /// The reward share: (account volume, pool volume since `entry`).
    pub reward_share: (Volume, Volume),
    /// Budget pro-rated by the reward share.
    pub earned: Amount,
    /// Remaining wait before this account may claim.
    pub bonding: Duration,
}

impl Account {
    /// Project the stored account deltas against the pool projection.
    ///
    /// Fails with `TimeTravel` where the projection moment precedes the
    /// account's stored timestamp, or where the stored baseline lies above
    /// the pool volume — either way the books or the clock are wrong.
    /// Fails with `Overflow` where a 256-bit accumulator would be
    /// exceeded.
    pub fn get(total: Totals, stored: &AccountState) -> (r: Result<Account, RewardsError>)
        ensures
            match r {
                Ok(a) => account_ok(total, *stored) && a == spec_account(total, *stored),
                Err(e) => !account_ok(total, *stored) && e == account_err(total, *stored),
            },
    {
        if total.now < stored.updated {
            return Err(RewardsError::TimeTravel);
        }
        if !stored.entry.le(&total.volume) {
            return Err(RewardsError::TimeTravel);
        }
        let stop: u64 = match &total.closed {
            Some(seal) => if seal.0 < total.now {
                seal.0
            } else {
                total.now
            },
            None => total.now,
        };
        let elapsed: u64 = if stop >= stored.updated {
            stop - stored.updated
        } else {
            0
        };
        let volume = match accumulate(stored.volume, elapsed, stored.staked) {
            Ok(v) => v,
            Err(e) => {
                return Err(e);
            },
        };
        let share_denom = match total.volume.checked_sub(stored.entry) {
            Some(d) => d,
            None => {
                proof {
                    assert(false);
                }
                return Err(RewardsError::TimeTravel);
            },
        };
        let earned: u128 = if share_denom.is_zero() {
            0
        } else {
            match vol_mul_div(&Volume::from_amount(total.budget), &volume, &share_denom) {
                Some(q) => q.low_u128(),
                None => {
                    return Err(RewardsError::Overflow);
                },
            }
        };
        let bonding: u64 = if stored.staked == 0 {
            stored.bonding
        } else {
            stored.bonding.saturating_sub(elapsed)
        };
        proof {
            crate::volume::lemma_vol_limbs(volume);
            crate::volume::lemma_vol_limbs(share_denom);
        }
        Ok(
            Account {
                updated: stored.updated,
                entry: stored.entry,
                staked: stored.staked,
                pool_share: (stored.staked, total.staked),
                volume,
                reward_share: (volume, share_denom),
                earned,
                bonding,
                total,
            },
        )
    }

    /// Restart the stored baseline at the current pool volume.
    fn reset(&self, acct: &mut AccountState)
        ensures
            *final(acct) == reset_state(self.total, old(acct).staked),
    {
        acct.entry = self.total.volume;
        acct.bonding = self.total.bonding;
        acct.volume = Volume { hi: 0, lo: 0 };
        acct.updated = self.total.now;
    }

    /// Commit the elapsed accumulation on both sides: the projected pool
    /// volume and, for a non-empty account, the projected account volume
    /// and bonding, become the new stored deltas.  An empty account is
    /// reset instead, so that a later return starts from a clean baseline.
    fn commit_elapsed(&self, pool: &mut PoolState, acct: &mut AccountState)
        ensures
            *final(acct) == (if self.staked == 0 {
                reset_state(self.total, old(acct).staked)
            } else {
                carried_state(*self, *old(acct), old(acct).staked)
            }),
            *final(pool) == pool_committed(self.total, old(pool).staked, old(pool).distributed, *old(pool)),
    {
        if self.staked == 0 {
            self.reset(acct);
        } else {
            acct.bonding = self.bonding;
            acct.volume = self.volume;
            acct.updated = self.total.now;
        }
        pool.volume = self.total.volume;
        pool.updated = self.total.now;
    }

    /// Raise the stake on both sides by `amount` and attach the inbound
    /// transfer.
    fn increment_stake(self, pool: &mut PoolState, acct: &mut AccountState, amount: Amount) -> (r:
        Result<Vec<Action>, RewardsError>)
        requires
            totals_current(self.total, *old(pool)),
            account_ok(self.total, *old(acct)),
            self == spec_account(self.total, *old(acct)),
        ensures
            match r {
                Ok(msgs) => lock_ok(*old(pool), *old(acct), amount) && lock_post(
                    self,
                    *old(pool),
                    *old(acct),
                    *final(pool),
                    *final(acct),
                    msgs@,
                    amount,
                ),
                Err(e) => {
                    &&& !lock_ok(*old(pool), *old(acct), amount)
                    &&& e == RewardsError::Overflow
                    &&& *final(pool) == *old(pool)
                    &&& *final(acct) == *old(acct)
                },
            },
    {
        let new_acct_staked = match acct.staked.checked_add(amount) {
            Some(v) => v,
            None => {
                return Err(RewardsError::Overflow);
            },
        };
        let new_pool_staked = match pool.staked.checked_add(amount) {
            Some(v) => v,
            None => {
                return Err(RewardsError::Overflow);
            },
        };
        self.commit_elapsed(pool, acct);
        acct.staked = new_acct_staked;
        pool.staked = new_pool_staked;
        let mut msgs: Vec<Action> = Vec::new();
        msgs.push(Action::TransferFromUser { amount });
        proof {
            assert(msgs@ =~= seq![(Action::TransferFromUser { amount })]);
        }
        Ok(msgs)
    }

    /// Lower the stake on both sides by `amount` and attach the outbound
    /// transfer; close out the account if it empties.
    fn decrement_stake(self, pool: &mut PoolState, acct: &mut AccountState, amount: Amount) -> (r:
        Result<Vec<Action>, RewardsError>)
        requires
            totals_current(self.total, *old(pool)),
            account_ok(self.total, *old(acct)),
            self == spec_account(self.total, *old(acct)),
            amount <= old(acct).staked,
            amount <= old(pool).staked,
        ensures
            match r {
                Ok(msgs) => retrieve_ok(self, *old(pool), *old(acct), amount) && retrieve_post(
                    self,
                    *old(pool),
                    *old(acct),
                    *final(pool),
                    *final(acct),
                    msgs@,
                    amount,
                ),
                Err(e) => {
                    &&& !retrieve_ok(self, *old(pool), *old(acct), amount)
                    &&& e == RewardsError::Overflow
                    &&& *final(pool) == *old(pool)
                    &&& *final(acct) == *old(acct)
                },
            },
    {
        let new_acct_staked: u128 = acct.staked - amount;
        let new_pool_staked: u128 = pool.staked - amount;
        if new_acct_staked == 0 && self.bonding == 0 {
            let new_distributed = match pool.distributed.checked_add(self.earned) {
                Some(d) => d,
                None => {
                    return Err(RewardsError::Overflow);
                },
            };
            self.commit_elapsed(pool, acct);
            self.reset(acct);
            acct.staked = new_acct_staked;
            pool.staked = new_pool_staked;
            pool.distributed = new_distributed;
            let mut msgs: Vec<Action> = Vec::new();
            msgs.push(Action::TransferToUser { amount });
            if self.earned > 0 {
                msgs.push(Action::TransferReward { amount: self.earned });
                proof {
                    assert(msgs@ =~= seq![
                        (Action::TransferToUser { amount }),
                        (Action::TransferReward { amount: self.earned }),
                    ]);
                }
            } else {
                proof {
                    assert(msgs@ =~= seq![(Action::TransferToUser { amount })]);
                }
            }
            Ok(msgs)
        } else {
            self.commit_elapsed(pool, acct);
            if new_acct_staked == 0 {
                self.reset(acct);
            }
            acct.staked = new_acct_staked;
            pool.staked = new_pool_staked;
            let mut msgs: Vec<Action> = Vec::new();
            msgs.push(Action::TransferToUser { amount });
            proof {
                assert(msgs@ =~= seq![(Action::TransferToUser { amount })]);
            }
            Ok(msgs)
        }
    }

    /// The only move a closed pool allows: return the whole stake, closing
    /// the account out exactly as a full withdrawal would.
    fn force_exit(self, pool: &mut PoolState, acct: &mut AccountState) -> (r: Result<
        Vec<Action>,
        RewardsError,
    >)
        requires
            totals_current(self.total, *old(pool)),
            account_ok(self.total, *old(acct)),
            self == spec_account(self.total, *old(acct)),
        ensures
            match r {
                Ok(msgs) => exit_ok(self, *old(pool), *old(acct)) && exit_post(
                    self,
                    *old(pool),
                    *old(acct),
                    *final(pool),
                    *final(acct),
                    msgs@,
                ),
                Err(e) => {
                    &&& !exit_ok(self, *old(pool), *old(acct))
                    &&& e == exit_err(self, *old(pool), *old(acct))
                    &&& *final(pool) == *old(pool)
                    &&& *final(acct) == *old(acct)
                },
            },
    {
        if pool.staked < acct.staked {
            return Err(
                RewardsError::InternalInconsistency {
                    needed: acct.staked,
                    available: pool.staked,
                },
            );
        }
        let whole_stake = acct.staked;
        self.decrement_stake(pool, acct, whole_stake)
    }

    /// Handle a Lock transaction: stake `amount` more.
    ///
    /// On an open pool this commits the elapsed accumulation, raises both
    /// stake counters by `amount` and attaches the inbound transfer.  On a
    /// closed pool the deposit intent is ignored and the transaction turns
    /// into the forced exit of the existing stake.
    pub fn deposit(self, pool: &mut PoolState, acct: &mut AccountState, amount: Amount) -> (r:
        Result<Vec<Action>, RewardsError>)
        requires
            totals_current(self.total, *old(pool)),
            account_ok(self.total, *old(acct)),
            self == spec_account(self.total, *old(acct)),
        ensures
            match r {
                Ok(msgs) => if self.total.closed is Some {
                    exit_ok(self, *old(pool), *old(acct)) && exit_post(
                        self,
                        *old(pool),
                        *old(acct),
                        *final(pool),
                        *final(acct),
                        msgs@,
                    )
                } else {
                    lock_ok(*old(pool), *old(acct), amount) && lock_post(
                        self,
                        *old(pool),
                        *old(acct),
                        *final(pool),
                        *final(acct),
                        msgs@,
                        amount,
                    )
                },
                Err(e) => {
                    &&& *final(pool) == *old(pool)
                    &&& *final(acct) == *old(acct)
                    &&& if self.total.closed is Some {
                        !exit_ok(self, *old(pool), *old(acct)) && e == exit_err(
                            self,
                            *old(pool),
                            *old(acct),
                        )
                    } else {
                        !lock_ok(*old(pool), *old(acct), amount) && e == RewardsError::Overflow
                    }
                },
            },
    {
        if pool.closed.is_some() {
            self.force_exit(pool, acct)
        } else {
            self.increment_stake(pool, acct, amount)
        }
    }

    /// Handle a Retrieve transaction: withdraw `amount`.
    ///
    /// Fails with `InsufficientStake` where the account holds less than
    /// `amount`, and with `InternalInconsistency` where the pool-wide
    /// counter does — the latter cannot happen while the books balance.
    /// On a closed pool the request turns into the forced exit of the
    /// whole stake, whatever `amount` was asked.
    pub fn withdraw(self, pool: &mut PoolState, acct: &mut AccountState, amount: Amount) -> (r:
        Result<Vec<Action>, RewardsError>)
        requires
            totals_current(self.total, *old(pool)),
            account_ok(self.total, *old(acct)),
            self == spec_account(self.total, *old(acct)),
        ensures
            match r {
                Ok(msgs) => if self.total.closed is Some {
                    exit_ok(self, *old(pool), *old(acct)) && exit_post(
                        self,
                        *old(pool),
                        *old(acct),
                        *final(pool),
                        *final(acct),
                        msgs@,
                    )
                } else {
                    &&& amount <= old(acct).staked
                    &&& amount <= old(pool).staked
                    &&& retrieve_ok(self, *old(pool), *old(acct), amount)
                    &&& retrieve_post(
                        self,
                        *old(pool),
                        *old(acct),
                        *final(pool),
                        *final(acct),
                        msgs@,
                        amount,
                    )
                },
                Err(e) => {
                    &&& *final(pool) == *old(pool)
                    &&& *final(acct) == *old(acct)
                    &&& if self.total.closed is Some {
                        !exit_ok(self, *old(pool), *old(acct)) && e == exit_err(
                            self,
                            *old(pool),
                            *old(acct),
                        )
                    } else if amount > old(acct).staked {
                        e == (RewardsError::InsufficientStake {
                            staked: old(acct).staked,
                            requested: amount,
                        })
                    } else if amount > old(pool).staked {
                        e == (RewardsError::InternalInconsistency {
                            needed: amount,
                            available: old(pool).staked,
                        })
                    } else {
                        !retrieve_ok(self, *old(pool), *old(acct), amount) && e
                            == RewardsError::Overflow
                    }
                },
            },
    {
        if pool.closed.is_some() {
            self.force_exit(pool, acct)
        } else if acct.staked < amount {
            Err(RewardsError::InsufficientStake { staked: acct.staked, requested: amount })
        } else if pool.staked < amount {
            Err(RewardsError::InternalInconsistency { needed: amount, available: pool.staked })
        } else {
            self.decrement_stake(pool, acct, amount)
        }
    }

    /// Handle a Claim transaction.
    ///
    /// Rejected, in this order and before any state change, where the
    /// bonding wait is not over (`StillBonding`), the pool has no budget
    /// (`PoolEmpty`), or nothing was earned (`NothingToClaim`).  Otherwise
    /// the earned amount is paid out, the pool's distributed counter
    /// grows by it, and the account's baseline and bonding restart while
    /// its stake stays put.  On a closed pool the claim turns into the
    /// forced exit of the whole stake.
    pub fn claim(self, pool: &mut PoolState, acct: &mut AccountState) -> (r: Result<
        Vec<Action>,
        RewardsError,
    >)
        requires
            totals_current(self.total, *old(pool)),
            account_ok(self.total, *old(acct)),
            self == spec_account(self.total, *old(acct)),
        ensures
            match r {
                Ok(msgs) => if self.total.closed is Some {
                    exit_ok(self, *old(pool), *old(acct)) && exit_post(
                        self,
                        *old(pool),
                        *old(acct),
                        *final(pool),
                        *final(acct),
                        msgs@,
                    )
                } else {
                    claim_ok(self, *old(pool)) && claim_post(
                        self,
                        *old(pool),
                        *old(acct),
                        *final(pool),
                        *final(acct),
                        msgs@,
                    )
                },
                Err(e) => {
                    &&& *final(pool) == *old(pool)
                    &&& *final(acct) == *old(acct)
                    &&& if self.total.closed is Some {
                        !exit_ok(self, *old(pool), *old(acct)) && e == exit_err(
                            self,
                            *old(pool),
                            *old(acct),
                        )
                    } else {
                        !claim_ok(self, *old(pool)) && e == claim_err(self, *old(pool))
                    }
                },
            },
    {
        if pool.closed.is_some() {
            return self.force_exit(pool, acct);
        }
        if self.bonding > 0 {
            return Err(RewardsError::StillBonding { remaining: self.bonding });
        }
        if self.total.budget == 0 {
            return Err(RewardsError::PoolEmpty);
        }
        if self.earned == 0 {
            return Err(RewardsError::NothingToClaim);
        }
        let new_distributed = match pool.distributed.checked_add(self.earned) {
            Some(d) => d,
            None => {
                return Err(RewardsError::Overflow);
            },
        };
        self.commit_elapsed(pool, acct);
        self.reset(acct);
        pool.distributed = new_distributed;
        let mut msgs: Vec<Action> = Vec::new();
        msgs.push(Action::TransferReward { amount: self.earned });
        proof {
            assert(msgs@ =~= seq![(Action::TransferReward { amount: self.earned })]);
        }
        Ok(msgs)
    }
}

} // verus!
