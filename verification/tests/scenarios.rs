use rewards_engine::account::AccountState;
use rewards_engine::contract::{Env, Rewards, RewardsResponse};
use rewards_engine::errors::RewardsError;
use rewards_engine::msg::{Action, RewardsConfig, RewardsHandle, RewardsQuery};
use rewards_engine::total::Totals;
use rewards_engine::volume::Volume;

fn open_pool(bonding: u64) -> Rewards {
    let mut core = Rewards::new();
    core.init(RewardsConfig {
        lp_token: Some("lp".to_string()),
        reward_token: Some("rew".to_string()),
        reward_vk: Some("vk".to_string()),
        bonding: Some(bonding),
    })
    .unwrap();
    core
}

fn user(now: u64, sender: &str) -> Env {
    Env { now, sender: sender.to_string(), sender_is_admin: false }
}

fn admin(now: u64) -> Env {
    Env { now, sender: "admin".to_string(), sender_is_admin: true }
}

fn fresh(core: &Rewards, now: u64, balance: u128) -> AccountState {
    let t = Totals::get(&core.pool, now, balance, core.single_sided()).unwrap();
    AccountState::fresh(&t)
}

fn standing(core: &Rewards, acct: &AccountState, now: u64, balance: u128) -> (Totals, rewards_engine::account::Account) {
    let resp = core
        .query(
            RewardsQuery::Status {
                at: now,
                address: Some("someone".to_string()),
                key: Some("whatever".to_string()),
            },
            Some(acct),
            balance,
        )
        .unwrap();
    match resp {
        RewardsResponse::Status { total, account, .. } => (total, account.unwrap()),
    }
}

#[test]
fn should_deposit_rewards() {
    let mut core = open_pool(0);
    let mut user_b = fresh(&core, 0, 0);
    core.handle(&mut user_b, user(0, "user_b"), RewardsHandle::Lock { amount: 100 }, 0).unwrap();
    let (_, account) = standing(&core, &user_b, 0, 0);
    assert_eq!(100, account.staked);
}

#[test]
fn should_withdraw() {
    let mut core = open_pool(0);
    let mut user_b = fresh(&core, 0, 0);
    core.handle(&mut user_b, user(0, "user_b"), RewardsHandle::Lock { amount: 3800 }, 0).unwrap();
    core.handle(&mut user_b, user(0, "user_b"), RewardsHandle::Retrieve { amount: 200 }, 0)
        .unwrap();
    assert_eq!(user_b.staked, 3600);
    assert_eq!(core.pool.staked, 3600);
}

#[test]
fn scenario_single_staker_full_share() {
    // bonding 0; one user locks 3600 at T0; ten moments later the whole
    // budget of 1000 is theirs
    let mut core = open_pool(0);
    let mut a = fresh(&core, 100, 1000);
    let msgs = core
        .handle(&mut a, user(100, "a"), RewardsHandle::Lock { amount: 3600 }, 1000)
        .unwrap();
    assert_eq!(msgs, vec![Action::TransferFromUser { amount: 3600 }]);

    let (total0, acc0) = standing(&core, &a, 100, 1000);
    assert!(total0.volume.is_zero());
    assert!(acc0.volume.is_zero());

    let (total1, acc1) = standing(&core, &a, 110, 1000);
    assert_eq!(total1.volume, Volume { hi: 0, lo: 36000 });
    assert_eq!(acc1.volume, Volume { hi: 0, lo: 36000 });
    assert_eq!(acc1.reward_share, (Volume { hi: 0, lo: 36000 }, Volume { hi: 0, lo: 36000 }));
    assert_eq!(acc1.earned, 1000);
    assert_eq!(rewards_engine::msg::claimable(acc1.earned, 0), 1000);
}

#[test]
fn scenario_proportional_shares() {
    // two stakers, 100 and 300, from T0; ten moments later they hold a
    // quarter and three quarters of the pool volume
    let mut core = open_pool(0);
    let mut a = fresh(&core, 0, 1000);
    let mut b = fresh(&core, 0, 1000);
    core.handle(&mut a, user(0, "a"), RewardsHandle::Lock { amount: 100 }, 1000).unwrap();
    core.handle(&mut b, user(0, "b"), RewardsHandle::Lock { amount: 300 }, 1000).unwrap();

    let (total, acc_a) = standing(&core, &a, 10, 1000);
    assert_eq!(total.volume, Volume { hi: 0, lo: 4000 });
    assert_eq!(acc_a.volume, Volume { hi: 0, lo: 1000 });
    assert_eq!(acc_a.reward_share, (Volume { hi: 0, lo: 1000 }, Volume { hi: 0, lo: 4000 }));
    assert_eq!(acc_a.earned, 250);

    let (_, acc_b) = standing(&core, &b, 10, 1000);
    assert_eq!(acc_b.volume, Volume { hi: 0, lo: 3000 });
    assert_eq!(acc_b.earned, 750);
}

#[test]
fn scenario_close_forces_exit_and_freezes_time() {
    let mut core = open_pool(0);
    let mut a = fresh(&core, 0, 0);
    core.handle(&mut a, user(0, "a"), RewardsHandle::Lock { amount: 500 }, 0).unwrap();

    let mut nobody = fresh(&core, 50, 0);
    core.handle(
        &mut nobody,
        admin(50),
        RewardsHandle::Close { message: "emergency".to_string() },
        0,
    )
    .unwrap();
    assert_eq!(core.pool.closed, Some((50, "emergency".to_string())));

    // no further volume accrues past the closing moment
    let (total_60, _) = standing(&core, &a, 60, 0);
    let (total_1000, _) = standing(&core, &a, 1000, 0);
    assert_eq!(total_60.volume, Volume { hi: 0, lo: 25000 });
    assert_eq!(total_1000.volume, Volume { hi: 0, lo: 25000 });

    // a later Lock returns the full existing stake instead of depositing
    let msgs = core
        .handle(&mut a, user(70, "a"), RewardsHandle::Lock { amount: 123 }, 0)
        .unwrap();
    assert_eq!(msgs, vec![Action::TransferToUser { amount: 500 }]);
    assert_eq!(a.staked, 0);
    assert_eq!(core.pool.staked, 0);
}

#[test]
fn bonding_gate_blocks_then_allows() {
    let mut core = open_pool(50);
    let mut a = fresh(&core, 1000, 1000);
    core.handle(&mut a, user(1000, "a"), RewardsHandle::Lock { amount: 100 }, 1000).unwrap();
    assert_eq!(a.bonding, 50);

    // too early: rejected, and nothing changes
    let pool_before = core.pool.clone();
    let acct_before = a;
    let r = core.handle(&mut a, user(1010, "a"), RewardsHandle::Claim {}, 1000);
    assert_eq!(r, Err(RewardsError::StillBonding { remaining: 40 }));
    assert_eq!(core.pool, pool_before);
    assert_eq!(a, acct_before);

    // after exactly the bonding duration the claim goes through
    let msgs = core.handle(&mut a, user(1050, "a"), RewardsHandle::Claim {}, 1000).unwrap();
    assert_eq!(msgs, vec![Action::TransferReward { amount: 1000 }]);
    assert_eq!(core.pool.distributed, 1000);
    assert_eq!(a.staked, 100);
    assert_eq!(a.bonding, 50);
    assert!(a.volume.is_zero());
    assert_eq!(a.entry, Volume { hi: 0, lo: 5000 });
}

#[test]
fn zero_claim_rejected_without_state_change() {
    let mut core = open_pool(0);
    let mut a = fresh(&core, 0, 1000);
    core.handle(&mut a, user(0, "a"), RewardsHandle::Lock { amount: 100 }, 1000).unwrap();

    // no time has passed: nothing earned, and the books do not move
    let pool_before = core.pool.clone();
    let acct_before = a;
    let r = core.handle(&mut a, user(0, "a"), RewardsHandle::Claim {}, 1000);
    assert_eq!(r, Err(RewardsError::NothingToClaim));
    assert_eq!(core.pool, pool_before);
    assert_eq!(a, acct_before);
}

#[test]
fn conservation_across_users() {
    let mut core = open_pool(0);
    let mut a = fresh(&core, 0, 0);
    let mut b = fresh(&core, 0, 0);
    let mut c = fresh(&core, 0, 0);
    core.handle(&mut a, user(0, "a"), RewardsHandle::Lock { amount: 10 }, 0).unwrap();
    core.handle(&mut b, user(0, "b"), RewardsHandle::Lock { amount: 20 }, 0).unwrap();
    core.handle(&mut c, user(3, "c"), RewardsHandle::Lock { amount: 30 }, 0).unwrap();
    core.handle(&mut b, user(5, "b"), RewardsHandle::Retrieve { amount: 5 }, 0).unwrap();
    assert_eq!(a.staked, 10);
    assert_eq!(b.staked, 15);
    assert_eq!(c.staked, 30);
    assert_eq!(core.pool.staked, a.staked + b.staked + c.staked);
}

#[test]
fn withdraw_all_auto_claims_when_bonding_over() {
    let mut core = open_pool(0);
    let mut a = fresh(&core, 0, 1000);
    core.handle(&mut a, user(0, "a"), RewardsHandle::Lock { amount: 100 }, 1000).unwrap();
    let msgs = core
        .handle(&mut a, user(10, "a"), RewardsHandle::Retrieve { amount: 100 }, 1000)
        .unwrap();
    assert_eq!(
        msgs,
        vec![Action::TransferToUser { amount: 100 }, Action::TransferReward { amount: 1000 }]
    );
    assert_eq!(a.staked, 0);
    assert!(a.volume.is_zero());
    assert_eq!(core.pool.distributed, 1000);
}

#[test]
fn withdraw_all_resets_without_claim_while_bonding() {
    let mut core = open_pool(50);
    let mut a = fresh(&core, 0, 1000);
    core.handle(&mut a, user(0, "a"), RewardsHandle::Lock { amount: 100 }, 1000).unwrap();
    let msgs = core
        .handle(&mut a, user(10, "a"), RewardsHandle::Retrieve { amount: 100 }, 1000)
        .unwrap();
    assert_eq!(msgs, vec![Action::TransferToUser { amount: 100 }]);
    assert_eq!(a.staked, 0);
    assert_eq!(a.bonding, 50);
    assert_eq!(core.pool.distributed, 0);
    // the baseline restarted at the pool volume of the exit moment
    assert_eq!(a.entry, Volume { hi: 0, lo: 1000 });
}

#[test]
fn volume_never_decreases_across_reads() {
    let mut core = open_pool(0);
    let mut a = fresh(&core, 0, 0);
    core.handle(&mut a, user(0, "a"), RewardsHandle::Lock { amount: 7 }, 0).unwrap();
    let mut previous = Volume { hi: 0, lo: 0 };
    for at in [0u64, 1, 2, 10, 1000, u32::MAX as u64] {
        let (total, account) = standing(&core, &a, at, 0);
        assert!(previous.le(&total.volume));
        assert!(previous.le(&account.volume));
        previous = total.volume;
    }
}

#[test]
fn forced_exit_pays_pending_rewards() {
    // bonding is over and something was earned when the pool closes: the
    // exit returns the stake and settles the reward in one transaction
    let mut core = open_pool(0);
    let mut a = fresh(&core, 0, 1000);
    core.handle(&mut a, user(0, "a"), RewardsHandle::Lock { amount: 100 }, 1000).unwrap();
    let mut nobody = fresh(&core, 10, 1000);
    core.handle(&mut nobody, admin(10), RewardsHandle::Close { message: "done".to_string() }, 1000)
        .unwrap();
    let msgs = core
        .handle(&mut a, user(25, "a"), RewardsHandle::Retrieve { amount: 1 }, 1000)
        .unwrap();
    assert_eq!(
        msgs,
        vec![Action::TransferToUser { amount: 100 }, Action::TransferReward { amount: 1000 }]
    );
    assert_eq!(core.pool.distributed, 1000);
    assert_eq!(a.staked, 0);
}

#[test]
fn should_update_after_deposit() {
    let mut core = open_pool(0);
    let mut user_b = fresh(&core, 0, 0);
    core.handle(&mut user_b, user(0, "user_b"), RewardsHandle::Lock { amount: 3600 }, 0).unwrap();
    core.handle(&mut user_b, user(0, "user_b"), RewardsHandle::Lock { amount: 100 }, 0).unwrap();
    let (_, account) = standing(&core, &user_b, 0, 0);
    assert_eq!(account.staked, 3700);
    assert_eq!(core.pool.staked, 3700);
}
