//! The contract surface: configuration, dispatch, and the status query.
//!
//! `Rewards` is everything the contract stores apart from the per-account
//! records: the token links, the viewing credential for budget queries,
//! and the pool deltas.  The host owns the clock, the account records, the
//! admin check, the viewing-key check and the token balance; it hands them
//! in as plain values and carries the returned `Action`s out.

use vstd::prelude::*;

use crate::account::{
    account_err, account_ok, claim_err, claim_ok, claim_post, exit_err, exit_ok, exit_post,
    lock_ok, lock_post, reset_state, retrieve_ok, retrieve_post, spec_account, Account,
    AccountState,
};
use crate::errors::RewardsError;
use crate::msg::{Action, Allowance, RewardsConfig, RewardsHandle, RewardsQuery};
use crate::total::{spec_totals, totals_err, totals_ok, PoolState, Totals};
use crate::volume::{Amount, Moment, DAY};

verus! {

/// What the execution environment says about the transaction being
/// handled: the block time, the sender's address, and whether the host's
/// admin check passed for that sender.
#[derive(Debug)]
pub struct Env {
    pub now: Moment,
    pub sender: String,
    pub sender_is_admin: bool,
}

/// The contract state, apart from the per-account records.
#[derive(Debug)]
pub struct Rewards {
    /// The staked (liquidity) token.
    pub lp_token: Option<String>,
    /// The token rewards are paid in.
    pub reward_token: Option<String>,
    /// The viewing credential under which the host queries the contract's
    /// reward-token balance.
    pub reward_vk: Option<String>,
    /// The pool-wide deltas.
    pub pool: PoolState,
}

/// Answers of the status query.
#[derive(Debug)]
pub enum RewardsResponse {
    /// Pool totals at a moment and, where asked for, one account's
    /// standing at the same moment.
    Status { time: Moment, total: Totals, account: Option<Account> },
}

/// Reward and staked token are one: the staked principal must then be kept
/// out of the distributable budget.
pub open spec fn spec_single_sided(c: Rewards) -> bool {
    match (c.lp_token, c.reward_token) {
        (Some(l), Some(r)) => l@ == r@,
        _ => false,
    }
}

/// The configuration a user transaction or a status query needs.
pub open spec fn config_ready(c: Rewards) -> bool {
    c.lp_token is Some && c.reward_token is Some && c.reward_vk is Some
}

/// The token links and credential are untouched.
pub open spec fn tokens_unchanged(c0: Rewards, c1: Rewards) -> bool {
    &&& c1.lp_token == c0.lp_token
    &&& c1.reward_token == c0.reward_token
    &&& c1.reward_vk == c0.reward_vk
}

/// Both projections a user transaction starts from succeed.
pub open spec fn user_tx_readable(c: Rewards, s: AccountState, now: Moment, balance: Amount) -> bool {
    &&& totals_ok(c.pool, now, balance, spec_single_sided(c))
    &&& account_ok(spec_totals(c.pool, now, balance, spec_single_sided(c)), s)
}

/// The error a failing projection reports, pool first.
pub open spec fn user_tx_err(c: Rewards, s: AccountState, now: Moment, balance: Amount) -> RewardsError {
    if !totals_ok(c.pool, now, balance, spec_single_sided(c)) {
        totals_err(c.pool, now, balance, spec_single_sided(c))
    } else {
        account_err(spec_totals(c.pool, now, balance, spec_single_sided(c)), s)
    }
}

/// The account projection a user transaction works on.
pub open spec fn user_projection(c: Rewards, s: AccountState, now: Moment, balance: Amount) -> Account {
    spec_account(spec_totals(c.pool, now, balance, spec_single_sided(c)), s)
}

/// Whether a Lock transaction goes through.
pub open spec fn lock_ok_at(c: Rewards, s: AccountState, now: Moment, balance: Amount, amount: Amount) -> bool {
    &&& config_ready(c)
    &&& user_tx_readable(c, s, now, balance)
    &&& (if c.pool.closed is Some {
        exit_ok(user_projection(c, s, now, balance), c.pool, s)
    } else {
        lock_ok(c.pool, s, amount)
    })
}

/// The error a failing Lock reports.
pub open spec fn lock_err_at(c: Rewards, s: AccountState, now: Moment, balance: Amount) -> RewardsError {
    if !config_ready(c) {
        RewardsError::MissingConfig
    } else if !user_tx_readable(c, s, now, balance) {
        user_tx_err(c, s, now, balance)
    } else if c.pool.closed is Some {
        exit_err(user_projection(c, s, now, balance), c.pool, s)
    } else {
        RewardsError::Overflow
    }
}

/// What a successful Lock leaves behind.
pub open spec fn lock_outcome(
    c0: Rewards,
    s0: AccountState,
    now: Moment,
    balance: Amount,
    amount: Amount,
    c1: Rewards,
    s1: AccountState,
    msgs: Seq<Action>,
) -> bool {
    let a = user_projection(c0, s0, now, balance);
    &&& tokens_unchanged(c0, c1)
    &&& (if c0.pool.closed is Some {
        exit_post(a, c0.pool, s0, c1.pool, s1, msgs)
    } else {
        lock_post(a, c0.pool, s0, c1.pool, s1, msgs, amount)
    })
}

/// Whether a Retrieve transaction goes through.
pub open spec fn retrieve_ok_at(c: Rewards, s: AccountState, now: Moment, balance: Amount, amount: Amount) -> bool {
    &&& config_ready(c)
    &&& user_tx_readable(c, s, now, balance)
    &&& (if c.pool.closed is Some {
        exit_ok(user_projection(c, s, now, balance), c.pool, s)
    } else {
        &&& amount <= s.staked
        &&& amount <= c.pool.staked
        &&& retrieve_ok(user_projection(c, s, now, balance), c.pool, s, amount)
    })
}

/// The error a failing Retrieve reports.
pub open spec fn retrieve_err_at(c: Rewards, s: AccountState, now: Moment, balance: Amount, amount: Amount) -> RewardsError {
    if !config_ready(c) {
        RewardsError::MissingConfig
    } else if !user_tx_readable(c, s, now, balance) {
        user_tx_err(c, s, now, balance)
    } else if c.pool.closed is Some {
        exit_err(user_projection(c, s, now, balance), c.pool, s)
    } else if amount > s.staked {
        RewardsError::InsufficientStake { staked: s.staked, requested: amount }
    } else if amount > c.pool.staked {
        RewardsError::InternalInconsistency { needed: amount, available: c.pool.staked }
    } else {
        RewardsError::Overflow
    }
}

/// What a successful Retrieve leaves behind.
pub open spec fn retrieve_outcome(
    c0: Rewards,
    s0: AccountState,
    now: Moment,
    balance: Amount,
    amount: Amount,
    c1: Rewards,
    s1: AccountState,
    msgs: Seq<Action>,
) -> bool {
    let a = user_projection(c0, s0, now, balance);
    &&& tokens_unchanged(c0, c1)
    &&& (if c0.pool.closed is Some {
        exit_post(a, c0.pool, s0, c1.pool, s1, msgs)
    } else {
        retrieve_post(a, c0.pool, s0, c1.pool, s1, msgs, amount)
    })
}

/// Whether a Claim transaction goes through.
pub open spec fn claim_ok_at(c: Rewards, s: AccountState, now: Moment, balance: Amount) -> bool {
    &&& config_ready(c)
    &&& user_tx_readable(c, s, now, balance)
    &&& (if c.pool.closed is Some {
        exit_ok(user_projection(c, s, now, balance), c.pool, s)
    } else {
        claim_ok(user_projection(c, s, now, balance), c.pool)
    })
}

/// The error a failing Claim reports.
pub open spec fn claim_err_at(c: Rewards, s: AccountState, now: Moment, balance: Amount) -> RewardsError {
    if !config_ready(c) {
        RewardsError::MissingConfig
    } else if !user_tx_readable(c, s, now, balance) {
        user_tx_err(c, s, now, balance)
    } else if c.pool.closed is Some {
        exit_err(user_projection(c, s, now, balance), c.pool, s)
    } else {
        claim_err(user_projection(c, s, now, balance), c.pool)
    }
}

/// What a successful Claim leaves behind.
pub open spec fn claim_outcome(
    c0: Rewards,
    s0: AccountState,
    now: Moment,
    balance: Amount,
    c1: Rewards,
    s1: AccountState,
    msgs: Seq<Action>,
) -> bool {
    let a = user_projection(c0, s0, now, balance);
    &&& tokens_unchanged(c0, c1)
    &&& (if c0.pool.closed is Some {
        exit_post(a, c0.pool, s0, c1.pool, s1, msgs)
    } else {
        claim_post(a, c0.pool, s0, c1.pool, s1, msgs)
    })
}

/// A configuration commit is rejected only where it would store a viewing
/// credential with no reward token, new or old, to set it on.
pub open spec fn commit_ok(cfg: RewardsConfig, c0: Rewards) -> bool {
    cfg.reward_vk is Some ==> (cfg.reward_token is Some || c0.reward_token is Some)
}

/// The message a commit dispatches: a new credential is set on the reward
/// token, new where one is given, stored otherwise.
pub open spec fn commit_msgs(cfg: RewardsConfig, c0: Rewards) -> Seq<Action> {
    match cfg.reward_vk {
        Some(vk) => match (if cfg.reward_token is Some {
            cfg.reward_token
        } else {
            c0.reward_token
        }) {
            Some(tok) => seq![(Action::SetViewingKey { token: tok, key: vk })],
            None => Seq::empty(),
        },
        None => Seq::empty(),
    }
}

/// What a successful commit leaves behind: every field given is stored,
/// every field left out keeps its stored value, and nothing else moves.
pub open spec fn commit_post(cfg: RewardsConfig, c0: Rewards, c1: Rewards, msgs: Seq<Action>) -> bool {
    &&& c1.lp_token == (if cfg.lp_token is Some {
        cfg.lp_token
    } else {
        c0.lp_token
    })
    &&& c1.reward_token == (if cfg.reward_token is Some {
        cfg.reward_token
    } else {
        c0.reward_token
    })
    &&& c1.reward_vk == (if cfg.reward_vk is Some {
        cfg.reward_vk
    } else {
        c0.reward_vk
    })
    &&& c1.pool.bonding == (match cfg.bonding {
        Some(b) => b,
        None => c0.pool.bonding,
    })
    &&& c1.pool.volume == c0.pool.volume
    &&& c1.pool.updated == c0.pool.updated
    &&& c1.pool.staked == c0.pool.staked
    &&& c1.pool.distributed == c0.pool.distributed
    &&& c1.pool.closed == c0.pool.closed
    &&& msgs == commit_msgs(cfg, c0)
}

impl RewardsConfig {
    /// Store every field the update carries, and where it carries a
    /// viewing credential, dispatch it to the reward token so that future
    /// budget queries succeed.  Nothing is stored on failure.
    pub fn commit(&self, core: &mut Rewards) -> (r: Result<Vec<Action>, RewardsError>)
        ensures
            match r {
                Ok(msgs) => commit_ok(*self, *old(core)) && commit_post(
                    *self,
                    *old(core),
                    *final(core),
                    msgs@,
                ),
                Err(e) => {
                    &&& !commit_ok(*self, *old(core))
                    &&& e == RewardsError::MissingConfig
                    &&& *final(core) == *old(core)
                },
            },
    {
        if self.reward_vk.is_some() && self.reward_token.is_none() && core.reward_token.is_none() {
            return Err(RewardsError::MissingConfig);
        }
        match &self.lp_token {
            Some(lp) => {
                core.lp_token = Some(lp.clone());
            },
            None => {},
        }
        match &self.bonding {
            Some(b) => {
                core.pool.bonding = *b;
            },
            None => {},
        }
        match &self.reward_token {
            Some(t) => {
                core.reward_token = Some(t.clone());
            },
            None => {},
        }
        let mut msgs: Vec<Action> = Vec::new();
        match &self.reward_vk {
            Some(vk) => {
                core.reward_vk = Some(vk.clone());
                let token: String = match &self.reward_token {
                    Some(t) => t.clone(),
                    None => match &core.reward_token {
                        Some(t) => t.clone(),
                        None => {
                            proof {
                                assert(false);
                            }
                            String::new()
                        },
                    },
                };
                msgs.push(Action::SetViewingKey { token, key: vk.clone() });
                proof {
                    assert(msgs@ =~= commit_msgs(*self, *old(core)));
                }
            },
            None => {
                proof {
                    assert(msgs@ =~= commit_msgs(*self, *old(core)));
                }
            },
        }
        Ok(msgs)
    }
}

impl Rewards {
    /// The state of a contract before its initialization.
    pub fn new() -> (r: Rewards)
        ensures
            r.lp_token is None,
            r.reward_token is None,
            r.reward_vk is None,
            r.pool == PoolState::initial(),
    {
        Rewards { lp_token: None, reward_token: None, reward_vk: None, pool: PoolState::new() }
    }

    /// Whether the reward token and the staked token are configured as one.
    pub fn single_sided(&self) -> (r: bool)
        ensures
            r == spec_single_sided(*self),
    {
        match (&self.lp_token, &self.reward_token) {
            (Some(l), Some(t)) => l.eq(t),
            _ => false,
        }
    }

    /// Initialize the contract: a reward token must be given; the viewing
    /// credential defaults to the empty string and the bonding period to a
    /// day; the credential is dispatched to the reward token.
    pub fn init(&mut self, config: RewardsConfig) -> (r: Result<Vec<Action>, RewardsError>)
        ensures
            match r {
                Ok(msgs) => {
                    &&& config.reward_token is Some
                    &&& final(self).lp_token == (if config.lp_token is Some {
                        config.lp_token
                    } else {
                        old(self).lp_token
                    })
                    &&& final(self).reward_token == config.reward_token
                    &&& (match (final(self).reward_vk, config.reward_vk) {
                        (Some(v), Some(cv)) => v == cv,
                        (Some(v), None) => v@.len() == 0,
                        _ => false,
                    })
                    &&& final(self).pool.bonding == (match config.bonding {
                        Some(b) => b,
                        None => DAY,
                    })
                    &&& final(self).pool.volume == old(self).pool.volume
                    &&& final(self).pool.updated == old(self).pool.updated
                    &&& final(self).pool.staked == old(self).pool.staked
                    &&& final(self).pool.distributed == old(self).pool.distributed
                    &&& final(self).pool.closed == old(self).pool.closed
                    &&& msgs@.len() == 1
                    &&& (match (msgs@[0], config.reward_token) {
                        (Action::SetViewingKey { token, key }, Some(tok)) => {
                            &&& token == tok
                            &&& (match config.reward_vk {
                                Some(v) => key == v,
                                None => key@.len() == 0,
                            })
                        },
                        _ => false,
                    })
                },
                Err(e) => {
                    &&& e == RewardsError::MissingConfig
                    &&& config.reward_token is None
                    &&& *final(self) == *old(self)
                },
            },
    {
        let reward_token = match config.reward_token {
            Some(t) => t,
            None => {
                return Err(RewardsError::MissingConfig);
            },
        };
        let reward_vk = match config.reward_vk {
            Some(v) => v,
            None => String::new(),
        };
        let bonding = match config.bonding {
            Some(b) => b,
            None => DAY,
        };
        let full = RewardsConfig {
            lp_token: config.lp_token,
            reward_token: Some(reward_token),
            reward_vk: Some(reward_vk),
            bonding: Some(bonding),
        };
        match full.commit(self) {
            Ok(msgs) => Ok(msgs),
            Err(e) => {
                proof {
                    assert(false);
                }
                Err(e)
            },
        }
    }

    /// Dispatch one transaction.
    ///
    /// The host supplies the stored account record of the sender, the
    /// environment, and the contract's current reward-token balance; it
    /// commits the mutated records and performs the returned actions only
    /// on success.  Lock, Retrieve and Claim are open to everyone;
    /// Configure, Close and Drain only to the admin.
    pub fn handle(
        &mut self,
        acct: &mut AccountState,
        env: Env,
        msg: RewardsHandle,
        balance: Amount,
    ) -> (r: Result<Vec<Action>, RewardsError>)
        ensures
            match msg {
                RewardsHandle::Lock { amount } => (match r {
                    Ok(msgs) => lock_ok_at(*old(self), *old(acct), env.now, balance, amount)
                        && lock_outcome(
                        *old(self),
                        *old(acct),
                        env.now,
                        balance,
                        amount,
                        *final(self),
                        *final(acct),
                        msgs@,
                    ),
                    Err(e) => {
                        &&& !lock_ok_at(*old(self), *old(acct), env.now, balance, amount)
                        &&& e == lock_err_at(*old(self), *old(acct), env.now, balance)
                        &&& *final(self) == *old(self)
                        &&& *final(acct) == *old(acct)
                    },
                }),
                RewardsHandle::Retrieve { amount } => (match r {
                    Ok(msgs) => retrieve_ok_at(*old(self), *old(acct), env.now, balance, amount)
                        && retrieve_outcome(
                        *old(self),
                        *old(acct),
                        env.now,
                        balance,
                        amount,
                        *final(self),
                        *final(acct),
                        msgs@,
                    ),
                    Err(e) => {
                        &&& !retrieve_ok_at(*old(self), *old(acct), env.now, balance, amount)
                        &&& e == retrieve_err_at(*old(self), *old(acct), env.now, balance, amount)
                        &&& *final(self) == *old(self)
                        &&& *final(acct) == *old(acct)
                    },
                }),
                RewardsHandle::Claim {  } => (match r {
                    Ok(msgs) => claim_ok_at(*old(self), *old(acct), env.now, balance)
                        && claim_outcome(
                        *old(self),
                        *old(acct),
                        env.now,
                        balance,
                        *final(self),
                        *final(acct),
                        msgs@,
                    ),
                    Err(e) => {
                        &&& !claim_ok_at(*old(self), *old(acct), env.now, balance)
                        &&& e == claim_err_at(*old(self), *old(acct), env.now, balance)
                        &&& *final(self) == *old(self)
                        &&& *final(acct) == *old(acct)
                    },
                }),
                RewardsHandle::Configure(config) => (match r {
                    Ok(msgs) => {
                        &&& env.sender_is_admin
                        &&& commit_ok(config, *old(self))
                        &&& commit_post(config, *old(self), *final(self), msgs@)
                        &&& *final(acct) == *old(acct)
                    },
                    Err(e) => {
                        &&& *final(self) == *old(self)
                        &&& *final(acct) == *old(acct)
                        &&& if !env.sender_is_admin {
                            e == RewardsError::Unauthorized
                        } else {
                            !commit_ok(config, *old(self)) && e == RewardsError::MissingConfig
                        }
                    },
                }),
                RewardsHandle::Close { message } => (match r {
                    Ok(msgs) => {
                        &&& env.sender_is_admin
                        &&& final(self).pool.closed == Some((env.now, message))
                        &&& final(self).pool.volume == old(self).pool.volume
                        &&& final(self).pool.updated == old(self).pool.updated
                        &&& final(self).pool.staked == old(self).pool.staked
                        &&& final(self).pool.distributed == old(self).pool.distributed
                        &&& final(self).pool.bonding == old(self).pool.bonding
                        &&& tokens_unchanged(*old(self), *final(self))
                        &&& *final(acct) == *old(acct)
                        &&& msgs@.len() == 0
                    },
                    Err(e) => {
                        &&& !env.sender_is_admin
                        &&& e == RewardsError::Unauthorized
                        &&& *final(self) == *old(self)
                        &&& *final(acct) == *old(acct)
                    },
                }),
                RewardsHandle::Drain { snip20, recipient, key } => (match r {
                    Ok(msgs) => {
                        &&& env.sender_is_admin
                        &&& env.now + DAY * 10000 <= u64::MAX
                        &&& final(self).pool == old(self).pool
                        &&& final(self).lp_token == old(self).lp_token
                        &&& final(self).reward_token == old(self).reward_token
                        &&& final(self).reward_vk == (if (match old(self).reward_token {
                            Some(t) => t@ == snip20@,
                            None => false,
                        }) {
                            Some(key)
                        } else {
                            old(self).reward_vk
                        })
                        &&& *final(acct) == *old(acct)
                        &&& msgs@.len() == 2
                        &&& (match msgs@[0] {
                            Action::IncreaseAllowance { token, recipient: to, allowance } => {
                                &&& token == snip20
                                &&& to == (match recipient {
                                    Some(re) => re,
                                    None => env.sender,
                                })
                                &&& allowance.amount == u128::MAX
                                &&& allowance.expiration == Some((env.now + DAY * 10000) as u64)
                            },
                            _ => false,
                        })
                        &&& (match msgs@[1] {
                            Action::SetViewingKey { token, key: k } => token == snip20 && k == key,
                            _ => false,
                        })
                    },
                    Err(e) => {
                        &&& *final(self) == *old(self)
                        &&& *final(acct) == *old(acct)
                        &&& if !env.sender_is_admin {
                            e == RewardsError::Unauthorized
                        } else {
                            e == RewardsError::Overflow && env.now + DAY * 10000 > u64::MAX
                        }
                    },
                }),
            },
    {
        match msg {
            RewardsHandle::Lock { amount } => {
                if self.lp_token.is_none() || self.reward_token.is_none()
                    || self.reward_vk.is_none() {
                    return Err(RewardsError::MissingConfig);
                }
                let single_sided = self.single_sided();
                let total = match Totals::get(&self.pool, env.now, balance, single_sided) {
                    Ok(t) => t,
                    Err(e) => {
                        return Err(e);
                    },
                };
                let account = match Account::get(total, acct) {
                    Ok(a) => a,
                    Err(e) => {
                        return Err(e);
                    },
                };
                account.deposit(&mut self.pool, acct, amount)
            },
            RewardsHandle::Retrieve { amount } => {
                if self.lp_token.is_none() || self.reward_token.is_none()
                    || self.reward_vk.is_none() {
                    return Err(RewardsError::MissingConfig);
                }
                let single_sided = self.single_sided();
                let total = match Totals::get(&self.pool, env.now, balance, single_sided) {
                    Ok(t) => t,
                    Err(e) => {
                        return Err(e);
                    },
                };
                let account = match Account::get(total, acct) {
                    Ok(a) => a,
                    Err(e) => {
                        return Err(e);
                    },
                };
                account.withdraw(&mut self.pool, acct, amount)
            },
            RewardsHandle::Claim {  } => {
                if self.lp_token.is_none() || self.reward_token.is_none()
                    || self.reward_vk.is_none() {
                    return Err(RewardsError::MissingConfig);
                }
                let single_sided = self.single_sided();
                let total = match Totals::get(&self.pool, env.now, balance, single_sided) {
                    Ok(t) => t,
                    Err(e) => {
                        return Err(e);
                    },
                };
                let account = match Account::get(total, acct) {
                    Ok(a) => a,
                    Err(e) => {
                        return Err(e);
                    },
                };
                account.claim(&mut self.pool, acct)
            },
            RewardsHandle::Configure(config) => {
                if !env.sender_is_admin {
                    return Err(RewardsError::Unauthorized);
                }
                config.commit(self)
            },
            RewardsHandle::Close { message } => {
                if !env.sender_is_admin {
                    return Err(RewardsError::Unauthorized);
                }
                self.pool.closed = Some((env.now, message));
                Ok(Vec::new())
            },
            RewardsHandle::Drain { snip20, recipient, key } => {
                if !env.sender_is_admin {
                    return Err(RewardsError::Unauthorized);
                }
                let expiration: u64 = match env.now.checked_add(DAY * 10000) {
                    Some(e) => e,
                    None => {
                        return Err(RewardsError::Overflow);
                    },
                };
                let is_reward_token: bool = match &self.reward_token {
                    Some(t) => t.eq(&snip20),
                    None => false,
                };
                if is_reward_token {
                    self.reward_vk = Some(key.clone());
                }
                let to: String = match recipient {
                    Some(re) => re,
                    None => env.sender,
                };
                let mut msgs: Vec<Action> = Vec::new();
                msgs.push(
                    Action::IncreaseAllowance {
                        token: snip20.clone(),
                        recipient: to,
                        allowance: Allowance { amount: u128::MAX, expiration: Some(expiration) },
                    },
                );
                msgs.push(Action::SetViewingKey { token: snip20, key });
                Ok(msgs)
            },
        }
    }

    /// Answer one query.  The host passes the stored record for the
    /// address asked about, if any, having already checked the viewing
    /// credential against that address.
    pub fn query(&self, msg: RewardsQuery, stored: Option<&AccountState>, balance: Amount) -> (r:
        Result<RewardsResponse, RewardsError>)
        ensures
            match msg {
                RewardsQuery::Status { at, address, key } => status_contract(
                    *self,
                    (match stored {
                        Some(s) => Some(*s),
                        None => None,
                    }),
                    at,
                    address,
                    key,
                    balance,
                    r,
                ),
            },
    {
        match msg {
            RewardsQuery::Status { at, address, key } => RewardsResponse::status(
                self,
                stored,
                at,
                address,
                key,
                balance,
            ),
        }
    }
}

/// The full contract of the status query, shared by `query` and `status`:
/// what it answers, and exactly when it fails instead.
pub open spec fn status_contract(
    core: Rewards,
    stored: Option<AccountState>,
    time: Moment,
    address: Option<String>,
    key: Option<String>,
    balance: Amount,
    r: Result<RewardsResponse, RewardsError>,
) -> bool {
    let single_sided = spec_single_sided(core);
    let t = spec_totals(core.pool, time, balance, single_sided);
    let s = (match stored {
        Some(s) => s,
        None => reset_state(t, 0),
    });
    match r {
        Ok(resp) => {
            &&& !(address is Some && key is None)
            &&& config_ready(core)
            &&& totals_ok(core.pool, time, balance, single_sided)
            &&& (match resp {
                RewardsResponse::Status { time: rt, total, account } => {
                    &&& rt == time
                    &&& total == t
                    &&& (match (address, account) {
                        (Some(_), Some(a)) => account_ok(t, s) && a == spec_account(t, s),
                        (None, None) => true,
                        _ => false,
                    })
                },
            })
        },
        Err(e) => {
            if address is Some && key is None {
                e == RewardsError::MissingViewingCredential
            } else if !config_ready(core) {
                e == RewardsError::MissingConfig
            } else if !totals_ok(core.pool, time, balance, single_sided) {
                e == totals_err(core.pool, time, balance, single_sided)
            } else {
                &&& address is Some
                &&& !account_ok(t, s)
                &&& e == account_err(t, s)
            }
        },
    }
}

impl RewardsResponse {
    /// Report the pool standing at `time` and, given an address and a
    /// viewing credential, the account standing of that address.  The host
    /// has already verified the credential; asking about an address
    /// without one is rejected here.
    pub fn status(
        core: &Rewards,
        stored: Option<&AccountState>,
        time: Moment,
        address: Option<String>,
        key: Option<String>,
        balance: Amount,
    ) -> (r: Result<RewardsResponse, RewardsError>)
        ensures
            status_contract(
                *core,
                (match stored {
                    Some(s) => Some(*s),
                    None => None,
                }),
                time,
                address,
                key,
                balance,
                r,
            ),
    {
        if address.is_some() && key.is_none() {
            return Err(RewardsError::MissingViewingCredential);
        }
        if core.lp_token.is_none() || core.reward_token.is_none() || core.reward_vk.is_none() {
            return Err(RewardsError::MissingConfig);
        }
        let single_sided = core.single_sided();
        let total = match Totals::get(&core.pool, time, balance, single_sided) {
            Ok(t) => t,
            Err(e) => {
                return Err(e);
            },
        };
        match address {
            Some(_) => {
                let record: AccountState = match stored {
                    Some(s) => *s,
                    None => AccountState::fresh(&total),
                };
                let duplicate = total.duplicate();
                let account = match Account::get(duplicate, &record) {
                    Ok(a) => a,
                    Err(e) => {
                        return Err(e);
                    },
                };
                Ok(RewardsResponse::Status { time, total, account: Some(account) })
            },
            None => Ok(RewardsResponse::Status { time, total, account: None }),
        }
    }
}

} // verus!
