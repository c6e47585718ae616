use rewards_engine::errors::RewardsError;
use rewards_engine::msg::{claimable, Allowance, ClaimError, ClaimResult};
use rewards_engine::volume::{accumulate, Volume};

#[test]
fn volume_zero_and_from_amount() {
    let z = Volume::zero();
    assert_eq!(z, Volume { hi: 0, lo: 0 });
    assert!(z.is_zero());
    let v = Volume::from_amount(36000);
    assert_eq!(v, Volume { hi: 0, lo: 36000 });
    assert!(!v.is_zero());
    assert_eq!(v.low_u128(), 36000);
}

#[test]
fn volume_add_carries_across_limbs() {
    let a = Volume { hi: 1, lo: 5 };
    let b = Volume { hi: 0, lo: u128::MAX };
    let sum = a.checked_add(b).unwrap();
    assert_eq!(sum, Volume { hi: 2, lo: 4 });
    let back = sum.checked_sub(b).unwrap();
    assert_eq!(back, a);
}

#[test]
fn volume_add_overflow_is_none() {
    let top = Volume { hi: u128::MAX, lo: u128::MAX };
    assert!(top.checked_add(Volume { hi: 0, lo: 1 }).is_none());
    assert!(top.checked_add(Volume { hi: 0, lo: 0 }).is_some());
}

#[test]
fn volume_sub_underflow_is_none() {
    let small = Volume { hi: 0, lo: 3 };
    let big = Volume { hi: 1, lo: 0 };
    assert!(small.checked_sub(big).is_none());
    let diff = big.checked_sub(small).unwrap();
    assert_eq!(diff, Volume { hi: 0, lo: u128::MAX - 2 });
}

#[test]
fn volume_le_orders_by_value() {
    let a = Volume { hi: 0, lo: u128::MAX };
    let b = Volume { hi: 1, lo: 0 };
    assert!(a.le(&b));
    assert!(!b.le(&a));
    assert!(a.le(&a));
}

#[test]
fn accumulate_multiplies_stake_by_time() {
    // 3600 staked over 10 moments on top of an existing total of 7
    let grown = accumulate(Volume::from_amount(7), 10, 3600).unwrap();
    assert_eq!(grown, Volume { hi: 0, lo: 36007 });
    // nothing staked: time alone accrues nothing
    let idle = accumulate(Volume::from_amount(7), 1000, 0).unwrap();
    assert_eq!(idle, Volume { hi: 0, lo: 7 });
    // the product itself crosses the limb boundary
    let wide = accumulate(Volume::zero(), u64::MAX, u128::MAX).unwrap();
    assert!(Volume { hi: 0, lo: u128::MAX }.le(&wide));
}

#[test]
fn accumulate_overflow_is_reported() {
    let near_top = Volume { hi: u128::MAX, lo: 0 };
    let r = accumulate(near_top, u64::MAX, u128::MAX);
    assert_eq!(r, Err(RewardsError::Overflow));
}

#[test]
fn claimable_floors_at_zero() {
    assert_eq!(claimable(10, 3), 7);
    assert_eq!(claimable(3, 10), 0);
    assert_eq!(claimable(5, 5), 0);
    assert_eq!(claimable(u128::MAX, 0), u128::MAX);
    assert_eq!(claimable(0, u128::MAX), 0);
}

#[test]
fn claim_result_constructors() {
    let ok = ClaimResult::success("lp".to_string(), 42);
    assert_eq!(ok.lp_token_addr, "lp");
    assert_eq!(ok.reward_amount, 42);
    assert!(ok.success);
    assert_eq!(ok.error, None);

    let bad = ClaimResult::error("lp".to_string(), ClaimError::EarlyClaim { time_to_wait: 9 });
    assert_eq!(bad.reward_amount, 0);
    assert!(!bad.success);
    assert_eq!(bad.error, Some(ClaimError::EarlyClaim { time_to_wait: 9 }));
}

#[test]
fn allowance_holds_amount_and_expiration() {
    let a = Allowance { amount: u128::MAX, expiration: Some(864000000) };
    assert_eq!(a.amount, u128::MAX);
    assert_eq!(a.expiration, Some(864000000));
    let b = Allowance { amount: 5, expiration: None };
    assert_ne!(a, b);
}
