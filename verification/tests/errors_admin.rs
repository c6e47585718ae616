use rewards_engine::account::AccountState;
use rewards_engine::contract::{Env, Rewards, RewardsResponse};
use rewards_engine::errors::RewardsError;
use rewards_engine::msg::{Action, RewardsConfig, RewardsHandle, RewardsQuery};
use rewards_engine::total::{PoolState, Totals};
use rewards_engine::volume::{Volume, DAY};

fn configured(lp: &str, rew: &str, bonding: u64) -> Rewards {
    let mut core = Rewards::new();
    core.init(RewardsConfig {
        lp_token: Some(lp.to_string()),
        reward_token: Some(rew.to_string()),
        reward_vk: Some("vk".to_string()),
        bonding: Some(bonding),
    })
    .unwrap();
    core
}

fn as_user(now: u64, sender: &str) -> Env {
    Env { now, sender: sender.to_string(), sender_is_admin: false }
}

fn as_admin(now: u64) -> Env {
    Env { now, sender: "admin".to_string(), sender_is_admin: true }
}

fn new_account(core: &Rewards, now: u64, balance: u128) -> AccountState {
    let t = Totals::get(&core.pool, now, balance, core.single_sided()).unwrap();
    AccountState::fresh(&t)
}

#[test]
fn init_applies_defaults_and_sets_viewing_key() {
    let mut core = Rewards::new();
    let msgs = core
        .init(RewardsConfig {
            lp_token: Some("lp".to_string()),
            reward_token: Some("rew".to_string()),
            reward_vk: None,
            bonding: None,
        })
        .unwrap();
    assert_eq!(core.pool.bonding, DAY);
    assert_eq!(core.reward_vk, Some("".to_string()));
    assert_eq!(core.reward_token, Some("rew".to_string()));
    assert_eq!(msgs, vec![Action::SetViewingKey { token: "rew".to_string(), key: "".to_string() }]);
}

#[test]
fn init_demands_a_reward_token() {
    let mut core = Rewards::new();
    let r = core.init(RewardsConfig {
        lp_token: Some("lp".to_string()),
        reward_token: None,
        reward_vk: None,
        bonding: None,
    });
    assert_eq!(r, Err(RewardsError::MissingConfig));
    assert_eq!(core.reward_token, None);
}

#[test]
fn unconfigured_pool_rejects_transactions() {
    let mut core = Rewards::new();
    let mut a = AccountState { entry: Volume { hi: 0, lo: 0 }, staked: 0, volume: Volume { hi: 0, lo: 0 }, updated: 0, bonding: 0 };
    let r = core.handle(&mut a, as_user(0, "a"), RewardsHandle::Lock { amount: 5 }, 0);
    assert_eq!(r, Err(RewardsError::MissingConfig));
}

#[test]
fn configure_updates_only_what_it_names() {
    let mut core = configured("lp", "rew", 0);
    let mut nobody = new_account(&core, 0, 0);
    let msgs = core
        .handle(
            &mut nobody,
            as_admin(0),
            RewardsHandle::Configure(RewardsConfig {
                lp_token: None,
                reward_token: None,
                reward_vk: Some("vk2".to_string()),
                bonding: Some(99),
            }),
            0,
        )
        .unwrap();
    assert_eq!(core.lp_token, Some("lp".to_string()));
    assert_eq!(core.reward_token, Some("rew".to_string()));
    assert_eq!(core.reward_vk, Some("vk2".to_string()));
    assert_eq!(core.pool.bonding, 99);
    assert_eq!(
        msgs,
        vec![Action::SetViewingKey { token: "rew".to_string(), key: "vk2".to_string() }]
    );
}

#[test]
fn configure_rejects_orphan_viewing_key() {
    let mut core = Rewards::new();
    let cfg = RewardsConfig {
        lp_token: None,
        reward_token: None,
        reward_vk: Some("vk".to_string()),
        bonding: None,
    };
    let r = cfg.commit(&mut core);
    assert_eq!(r, Err(RewardsError::MissingConfig));
    assert_eq!(core.reward_vk, None);
}

#[test]
fn admin_transactions_reject_strangers() {
    let mut core = configured("lp", "rew", 0);
    let mut a = new_account(&core, 0, 0);
    let close = core.handle(
        &mut a,
        as_user(0, "mallory"),
        RewardsHandle::Close { message: "nope".to_string() },
        0,
    );
    assert_eq!(close, Err(RewardsError::Unauthorized));
    assert_eq!(core.pool.closed, None);
    let drain = core.handle(
        &mut a,
        as_user(0, "mallory"),
        RewardsHandle::Drain { snip20: "rew".to_string(), recipient: None, key: "k".to_string() },
        0,
    );
    assert_eq!(drain, Err(RewardsError::Unauthorized));
}

#[test]
fn drain_grants_maximal_allowance() {
    let mut core = configured("lp", "rew", 0);
    let mut nobody = new_account(&core, 7, 0);
    let msgs = core
        .handle(
            &mut nobody,
            as_admin(7),
            RewardsHandle::Drain {
                snip20: "rew".to_string(),
                recipient: None,
                key: "newvk".to_string(),
            },
            0,
        )
        .unwrap();
    // draining the reward token itself also rotates the stored credential
    assert_eq!(core.reward_vk, Some("newvk".to_string()));
    assert_eq!(msgs.len(), 2);
    match &msgs[0] {
        Action::IncreaseAllowance { token, recipient, allowance } => {
            assert_eq!(token, "rew");
            assert_eq!(recipient, "admin");
            assert_eq!(allowance.amount, u128::MAX);
            assert_eq!(allowance.expiration, Some(7 + DAY * 10000));
        },
        other => panic!("expected an allowance grant, got {:?}", other),
    }
    assert_eq!(
        msgs[1],
        Action::SetViewingKey { token: "rew".to_string(), key: "newvk".to_string() }
    );
}

#[test]
fn drain_of_another_token_keeps_the_credential() {
    let mut core = configured("lp", "rew", 0);
    let mut nobody = new_account(&core, 0, 0);
    core.handle(
        &mut nobody,
        as_admin(0),
        RewardsHandle::Drain {
            snip20: "other".to_string(),
            recipient: Some("rescue".to_string()),
            key: "k2".to_string(),
        },
        0,
    )
    .unwrap();
    assert_eq!(core.reward_vk, Some("vk".to_string()));
}

#[test]
fn insufficient_stake_is_reported_verbatim() {
    let mut core = configured("lp", "rew", 0);
    let mut a = new_account(&core, 0, 0);
    core.handle(&mut a, as_user(0, "a"), RewardsHandle::Lock { amount: 100 }, 0).unwrap();
    let r = core.handle(&mut a, as_user(1, "a"), RewardsHandle::Retrieve { amount: 200 }, 0);
    assert_eq!(r, Err(RewardsError::InsufficientStake { staked: 100, requested: 200 }));
    assert_eq!(a.staked, 100);
}

#[test]
fn time_travel_is_fatal() {
    let mut core = configured("lp", "rew", 0);
    let mut a = new_account(&core, 100, 0);
    core.handle(&mut a, as_user(100, "a"), RewardsHandle::Lock { amount: 1 }, 0).unwrap();
    let r = core.handle(&mut a, as_user(50, "a"), RewardsHandle::Lock { amount: 1 }, 0);
    assert_eq!(r, Err(RewardsError::TimeTravel));
    let q = core.query(
        RewardsQuery::Status { at: 50, address: None, key: None },
        None,
        0,
    );
    assert_eq!(q.unwrap_err(), RewardsError::TimeTravel);
}

#[test]
fn empty_budget_rejects_claims() {
    let mut core = configured("lp", "rew", 0);
    let mut a = new_account(&core, 0, 0);
    core.handle(&mut a, as_user(0, "a"), RewardsHandle::Lock { amount: 100 }, 0).unwrap();
    let r = core.handle(&mut a, as_user(10, "a"), RewardsHandle::Claim {}, 0);
    assert_eq!(r, Err(RewardsError::PoolEmpty));
}

#[test]
fn account_query_needs_a_credential() {
    let core = configured("lp", "rew", 0);
    let r = core.query(
        RewardsQuery::Status { at: 0, address: Some("a".to_string()), key: None },
        None,
        0,
    );
    assert_eq!(r.unwrap_err(), RewardsError::MissingViewingCredential);
}

#[test]
fn status_without_address_reports_totals_only() {
    let core = configured("lp", "rew", 0);
    let resp = core
        .query(RewardsQuery::Status { at: 0, address: None, key: None }, None, 250)
        .unwrap();
    match resp {
        RewardsResponse::Status { time, total, account } => {
            assert_eq!(time, 0);
            assert_eq!(total.budget, 250);
            assert_eq!(total.unlocked, 250);
            assert!(account.is_none());
        },
    }
}

#[test]
fn status_of_a_stranger_is_all_zero() {
    let core = configured("lp", "rew", 30);
    let resp = core
        .query(
            RewardsQuery::Status {
                at: 5,
                address: Some("stranger".to_string()),
                key: Some("k".to_string()),
            },
            None,
            0,
        )
        .unwrap();
    match resp {
        RewardsResponse::Status { account, .. } => {
            let a = account.unwrap();
            assert_eq!(a.staked, 0);
            assert_eq!(a.earned, 0);
            assert_eq!(a.bonding, 30);
            assert!(a.volume.is_zero());
        },
    }
}

#[test]
fn single_sided_budget_excludes_principal() {
    let mut core = configured("tok", "tok", 0);
    let mut a = new_account(&core, 0, 1000);
    core.handle(&mut a, as_user(0, "a"), RewardsHandle::Lock { amount: 300 }, 1000).unwrap();
    let resp = core
        .query(RewardsQuery::Status { at: 1, address: None, key: None }, None, 1000)
        .unwrap();
    match resp {
        RewardsResponse::Status { total, .. } => {
            assert_eq!(total.budget, 700);
        },
    }
    // a balance below the staked principal means the books are corrupt
    let q = core.query(RewardsQuery::Status { at: 1, address: None, key: None }, None, 200);
    assert_eq!(q.unwrap_err(), RewardsError::InternalInconsistency { needed: 300, available: 200 });
}

#[test]
fn projection_overflow_is_reported() {
    let pool = PoolState {
        volume: Volume { hi: u128::MAX, lo: u128::MAX },
        updated: 0,
        staked: 1,
        distributed: 0,
        bonding: 0,
        closed: None,
    };
    let r = Totals::get(&pool, 1, 0, false);
    assert_eq!(r, Err(RewardsError::Overflow));
    // at the stored moment itself nothing has elapsed and nothing overflows
    assert!(Totals::get(&pool, 0, 0, false).is_ok());
}

#[test]
fn closed_pool_claim_and_retrieve_force_exit() {
    let mut core = configured("lp", "rew", 1000);
    let mut a = new_account(&core, 0, 0);
    core.handle(&mut a, as_user(0, "a"), RewardsHandle::Lock { amount: 40 }, 0).unwrap();
    let mut nobody = new_account(&core, 1, 0);
    core.handle(&mut nobody, as_admin(1), RewardsHandle::Close { message: "bye".to_string() }, 0)
        .unwrap();
    // the claim of a bonded user on a closed pool still returns the stake
    let msgs = core.handle(&mut a, as_user(2, "a"), RewardsHandle::Claim {}, 0).unwrap();
    assert_eq!(msgs, vec![Action::TransferToUser { amount: 40 }]);
    assert_eq!(a.staked, 0);
    // closing again replaces the seal but never clears it
    core.handle(&mut nobody, as_admin(9), RewardsHandle::Close { message: "still".to_string() }, 0)
        .unwrap();
    assert_eq!(core.pool.closed, Some((9, "still".to_string())));
}

#[test]
fn corrupt_books_are_not_silently_tolerated() {
    // an account record that claims more stake than the whole pool: the
    // withdrawal of the excess is a fatal inconsistency, not a user error
    let mut core = configured("lp", "rew", 0);
    core.pool.staked = 5;
    let mut a = new_account(&core, 0, 0);
    a.staked = 10;
    let r = core.handle(&mut a, as_user(0, "a"), RewardsHandle::Retrieve { amount: 7 }, 0);
    assert_eq!(r, Err(RewardsError::InternalInconsistency { needed: 7, available: 5 }));
    assert_eq!(core.pool.staked, 5);
    assert_eq!(a.staked, 10);
}
