//! The pool-wide laws of the accounting, proved once and for all.
//!
//! The transaction contracts in `account` pin down how each handler moves
//! the stored records; the proofs here lift those contracts to the
//! properties the whole pool lives by: conservation of stake, monotonic
//! volume, the bonding gate, and the finality of closure.

use vstd::arithmetic::div_mod::{
    lemma_div_by_multiple, lemma_div_is_ordered, lemma_div_pos_is_pos, lemma_small_mod,
};
use vstd::arithmetic::mul::{
    lemma_mul_inequality, lemma_mul_is_commutative, lemma_mul_nonnegative,
};
use vstd::prelude::*;

use crate::account::{
    account_ok, claim_post, earned_of, lock_ok, lock_post, reset_state, retrieve_post,
    spec_account, Account, AccountState,
};
use crate::total::{totals_current, PoolState, Totals};
use crate::volume::{lemma_vol_limbs_value, pow2_128, Amount, Moment};

verus! {

/// The stake all accounts of a pool hold together.
pub open spec fn sum_staked(accounts: Seq<AccountState>) -> int
    decreases accounts.len(),
{
    if accounts.len() == 0 {
        0
    } else {
        accounts[0].staked + sum_staked(accounts.subrange(1, accounts.len() as int))
    }
}

/// Replacing one account changes the sum by that account's change.
pub proof fn lemma_sum_staked_update(accounts: Seq<AccountState>, i: int, a1: AccountState)
    requires
        0 <= i < accounts.len(),
    ensures
        sum_staked(accounts.update(i, a1)) == sum_staked(accounts) + a1.staked
            - accounts[i].staked,
    decreases accounts.len(),
{
    let n = accounts.len() as int;
    let rest = accounts.subrange(1, n);
    if i == 0 {
        assert(accounts.update(0, a1).subrange(1, n) =~= rest);
    } else {
        lemma_sum_staked_update(rest, i - 1, a1);
        assert(accounts.update(i, a1).subrange(1, n) =~= rest.update(i - 1, a1));
    }
}

/// Conservation of stake: where the pool-wide counter equals the sum of
/// all account stakes, and a transition moves both by the same amount, the
/// equality holds of the new state too.  Together with the transaction
/// contracts — every handler moves `pool.staked` and the touched account's
/// `staked` by one and the same delta, and touches no other account — the
/// pool-wide counter equals the sum of the account stakes after any
/// sequence of transactions by any set of users.
pub proof fn lemma_stake_conservation(
    accounts: Seq<AccountState>,
    i: int,
    a1: AccountState,
    p0: PoolState,
    p1: PoolState,
)
    requires
        0 <= i < accounts.len(),
        p0.staked == sum_staked(accounts),
        p1.staked - p0.staked == a1.staked - accounts[i].staked,
    ensures
        p1.staked == sum_staked(accounts.update(i, a1)),
{
    lemma_sum_staked_update(accounts, i, a1);
}

/// A deposit keeps the books balanced.
pub proof fn lemma_lock_preserves_sum(
    a: Account,
    p0: PoolState,
    s0: AccountState,
    p1: PoolState,
    s1: AccountState,
    msgs: Seq<crate::msg::Action>,
    amount: Amount,
    accounts: Seq<AccountState>,
    i: int,
)
    requires
        lock_post(a, p0, s0, p1, s1, msgs, amount),
        crate::account::lock_ok(p0, s0, amount),
        0 <= i < accounts.len(),
        accounts[i] == s0,
        p0.staked == sum_staked(accounts),
    ensures
        p1.staked == sum_staked(accounts.update(i, s1)),
{
    lemma_stake_conservation(accounts, i, s1, p0, p1);
}

/// A withdrawal — the forced exit included — keeps the books balanced.
pub proof fn lemma_retrieve_preserves_sum(
    a: Account,
    p0: PoolState,
    s0: AccountState,
    p1: PoolState,
    s1: AccountState,
    msgs: Seq<crate::msg::Action>,
    amount: Amount,
    accounts: Seq<AccountState>,
    i: int,
)
    requires
        retrieve_post(a, p0, s0, p1, s1, msgs, amount),
        amount <= s0.staked,
        amount <= p0.staked,
        0 <= i < accounts.len(),
        accounts[i] == s0,
        p0.staked == sum_staked(accounts),
    ensures
        p1.staked == sum_staked(accounts.update(i, s1)),
{
    lemma_stake_conservation(accounts, i, s1, p0, p1);
}

/// A claim keeps the books balanced: it moves no stake at all.
pub proof fn lemma_claim_preserves_sum(
    a: Account,
    p0: PoolState,
    s0: AccountState,
    p1: PoolState,
    s1: AccountState,
    msgs: Seq<crate::msg::Action>,
    accounts: Seq<AccountState>,
    i: int,
)
    requires
        claim_post(a, p0, s0, p1, s1, msgs),
        0 <= i < accounts.len(),
        accounts[i] == s0,
        p0.staked == sum_staked(accounts),
    ensures
        p1.staked == sum_staked(accounts.update(i, s1)),
{
    lemma_stake_conservation(accounts, i, s1, p0, p1);
}

/// A reading never sees less pool volume than the stored accumulator.
pub proof fn lemma_pool_volume_grows(p: PoolState, t: Moment)
    ensures
        p.volume_at(t) >= p.volume@,
{
    lemma_mul_nonnegative(p.staked as int, p.elapsed_at(t));
}

/// Monotonic pool volume: readings at non-decreasing moments never see the
/// volume decrease.
pub proof fn lemma_pool_volume_monotonic(p: PoolState, t1: Moment, t2: Moment)
    requires
        t1 <= t2,
    ensures
        p.volume_at(t1) <= p.volume_at(t2),
{
    let e1 = p.elapsed_at(t1);
    let e2 = p.elapsed_at(t2);
    lemma_mul_inequality(e1, e2, p.staked as int);
    lemma_mul_is_commutative(e1, p.staked as int);
    lemma_mul_is_commutative(e2, p.staked as int);
}

/// Monotonic account volume: readings at non-decreasing moments of the
/// same pool never see the account's volume decrease.  (A commit that
/// resets the account — leaving, or claiming — restarts the accumulator at
/// zero by design; between resets it only grows.)
pub proof fn lemma_account_volume_monotonic(s: AccountState, t1: Totals, t2: Totals)
    requires
        t1.now <= t2.now,
        t1.closed == t2.closed,
    ensures
        s.volume_at(t1) <= s.volume_at(t2),
{
    let e1 = s.elapsed_at(t1);
    let e2 = s.elapsed_at(t2);
    lemma_mul_inequality(e1, e2, s.staked as int);
    lemma_mul_is_commutative(e1, s.staked as int);
    lemma_mul_is_commutative(e2, s.staked as int);
}

/// Committing a projection keeps pool volume monotonic across the commit:
/// what any later reading of the committed state sees is at least what the
/// committing transaction saw.
pub proof fn lemma_commit_keeps_volume(t: Totals, p0: PoolState, p1: PoolState, later: Moment)
    requires
        t.volume@ == p0.volume_at(t.now),
        p1.volume == t.volume,
    ensures
        p1.volume_at(later) >= p0.volume_at(t.now),
{
    lemma_pool_volume_grows(p1, later);
}

/// The bonding gate: while something is staked in an open pool, the
/// projected bonding wait is zero exactly from the moment the stored wait
/// has fully elapsed — before that a claim is rejected as still bonding,
/// after it only the budget and the earned amount decide.
pub proof fn lemma_bonding_gate(s: AccountState, t: Totals)
    requires
        s.staked > 0,
        t.closed is None,
        t.now >= s.updated,
    ensures
        spec_account(t, s).bonding == (if t.now - s.updated >= s.bonding {
            0
        } else {
            s.bonding - (t.now - s.updated)
        }),
        spec_account(t, s).bonding == 0 <==> t.now - s.updated >= s.bonding,
{
}

/// Closure freezes time: once a pool is closed, readings at or past the
/// closing moment all see one and the same volume — nothing accrues past
/// the seal.
pub proof fn lemma_closed_volume_frozen(p: PoolState, t1: Moment, t2: Moment)
    requires
        match p.closed {
            Some(seal) => t1 >= seal.0 && t2 >= seal.0,
            None => false,
        },
    ensures
        p.volume_at(t1) == p.volume_at(t2),
{
}

/// Closure is irreversible: no transaction outcome writes the closing
/// seal.  The one transition that does, Close, writes an irrevocable
/// `Some`; so a pool that is closed stays closed under every handler.
pub proof fn lemma_closure_irreversible(
    a: Account,
    p0: PoolState,
    s0: AccountState,
    p1: PoolState,
    s1: AccountState,
    msgs: Seq<crate::msg::Action>,
    amount: Amount,
)
    ensures
        lock_post(a, p0, s0, p1, s1, msgs, amount) ==> p1.closed == p0.closed,
        retrieve_post(a, p0, s0, p1, s1, msgs, amount) ==> p1.closed == p0.closed,
        claim_post(a, p0, s0, p1, s1, msgs) ==> p1.closed == p0.closed,
{
}

/// Earned rewards never exceed the budget, as long as the account's volume
/// does not exceed the share denominator — which conservation guarantees
/// for every reachable state.  The truncation to 128 bits in `earned_of`
/// is then vacuous, and the pro-rating is an exact floor.
pub proof fn lemma_earned_bounded(budget: Amount, account_volume: int, share_denom: int)
    requires
        0 <= account_volume <= share_denom,
    ensures
        earned_of(budget, account_volume, share_denom) == (if share_denom == 0 {
            0int
        } else {
            (budget * account_volume) / share_denom
        }),
        earned_of(budget, account_volume, share_denom) <= budget,
{
    if share_denom != 0 {
        let q = (budget * account_volume) / share_denom;
        lemma_mul_inequality(account_volume, share_denom, budget as int);
        lemma_mul_is_commutative(account_volume, budget as int);
        lemma_mul_is_commutative(share_denom, budget as int);
        lemma_div_is_ordered(budget * account_volume, budget * share_denom, share_denom);
        lemma_div_by_multiple(budget as int, share_denom);
        lemma_mul_is_commutative(budget as int, share_denom);
        lemma_div_pos_is_pos(budget * account_volume, share_denom);
        lemma_small_mod(q as nat, pow2_128() as nat);
    }
}

/// One account's contribution stays within the pool volume accumulated
/// past its baseline: at any moment both records have reached, the pool
/// side of the books has grown at least as much as the account side.
pub open spec fn contribution_within(s: AccountState, p: PoolState, now: Moment) -> bool {
    s.entry@ + s.volume@ + s.staked * (now - s.updated) <= p.volume@ + p.staked * (now
        - p.updated)
}

/// The share invariant: what holds of every stored account record against
/// the stored record of an open pool.  A record for an address that never
/// staked has it, and every transaction reestablishes it for the account
/// it touches; conservation keeps the stake bound true for all the others.
pub open spec fn share_invariant(s: AccountState, p: PoolState) -> bool {
    &&& s.staked <= p.staked
    &&& forall|now: Moment|
        now >= s.updated && now >= p.updated ==> #[trigger] contribution_within(s, p, now)
}

/// Under the share invariant, no reading of an open pool sees an account's
/// volume outgrow its share denominator.
pub proof fn lemma_share_bounded(s: AccountState, p: PoolState, t: Totals)
    requires
        share_invariant(s, p),
        p.closed is None,
        totals_current(t, p),
        t.now >= s.updated,
    ensures
        0 <= s.volume_at(t),
        s.volume_at(t) <= t.volume@ - s.entry@,
{
    assert(contribution_within(s, p, t.now));
    lemma_mul_nonnegative(s.staked as int, s.elapsed_at(t));
}

/// A record for an address that never staked anything satisfies the share
/// invariant: its baseline is the projected pool volume of its creation,
/// which the pool never falls back below.
pub proof fn lemma_fresh_share_invariant(t: Totals, p: PoolState)
    requires
        totals_current(t, p),
        p.closed is None,
    ensures
        share_invariant(reset_state(t, 0), p),
{
    let s = reset_state(t, 0);
    assert forall|now: Moment| now >= s.updated && now >= p.updated implies contribution_within(
        s,
        p,
        now,
    ) by {
        lemma_mul_inequality(t.now - p.updated, now - p.updated, p.staked as int);
        lemma_mul_is_commutative(t.now - p.updated, p.staked as int);
        lemma_mul_is_commutative(now - p.updated, p.staked as int);
    }
}

/// The committed records of one transaction satisfy the share invariant
/// again: the account was either reset to the committed pool volume as its
/// baseline, or carried forward with its projected volume, which the
/// invariant bounds.
proof fn lemma_invariant_after_commit(
    t: Totals,
    p0: PoolState,
    s0: AccountState,
    s1: AccountState,
    p1: PoolState,
)
    requires
        totals_current(t, p0),
        p0.closed is None,
        share_invariant(s0, p0),
        t.now >= s0.updated,
        s1.staked <= p1.staked,
        s1.updated == t.now,
        p1.updated == t.now,
        p1.volume@ == t.volume@,
        (s1.entry == t.volume && s1.volume@ == 0) || (s1.entry == s0.entry && s1.volume@
            == s0.volume_at(t)),
    ensures
        share_invariant(s1, p1),
{
    assert forall|now: Moment| now >= s1.updated && now >= p1.updated implies contribution_within(
        s1,
        p1,
        now,
    ) by {
        lemma_mul_inequality(s1.staked as int, p1.staked as int, now - t.now);
        if !(s1.entry == t.volume && s1.volume@ == 0) {
            lemma_share_bounded(s0, p0, t);
        }
    }
}

/// A deposit reestablishes the share invariant for the account it touches.
pub proof fn lemma_lock_keeps_share_invariant(
    a: Account,
    p0: PoolState,
    s0: AccountState,
    p1: PoolState,
    s1: AccountState,
    msgs: Seq<crate::msg::Action>,
    amount: Amount,
)
    requires
        share_invariant(s0, p0),
        p0.closed is None,
        totals_current(a.total, p0),
        account_ok(a.total, s0),
        a == spec_account(a.total, s0),
        lock_ok(p0, s0, amount),
        lock_post(a, p0, s0, p1, s1, msgs, amount),
    ensures
        share_invariant(s1, p1),
{
    lemma_mul_nonnegative(s0.staked as int, s0.elapsed_at(a.total));
    lemma_vol_limbs_value(s0.volume_at(a.total));
    lemma_invariant_after_commit(a.total, p0, s0, s1, p1);
}

/// A withdrawal — the forced exit included — reestablishes the share
/// invariant for the account it touches.
pub proof fn lemma_retrieve_keeps_share_invariant(
    a: Account,
    p0: PoolState,
    s0: AccountState,
    p1: PoolState,
    s1: AccountState,
    msgs: Seq<crate::msg::Action>,
    amount: Amount,
)
    requires
        share_invariant(s0, p0),
        p0.closed is None,
        totals_current(a.total, p0),
        account_ok(a.total, s0),
        a == spec_account(a.total, s0),
        amount <= s0.staked,
        amount <= p0.staked,
        retrieve_post(a, p0, s0, p1, s1, msgs, amount),
    ensures
        share_invariant(s1, p1),
{
    lemma_mul_nonnegative(s0.staked as int, s0.elapsed_at(a.total));
    lemma_vol_limbs_value(s0.volume_at(a.total));
    lemma_invariant_after_commit(a.total, p0, s0, s1, p1);
}

/// A claim reestablishes the share invariant for the account it touches.
pub proof fn lemma_claim_keeps_share_invariant(
    a: Account,
    p0: PoolState,
    s0: AccountState,
    p1: PoolState,
    s1: AccountState,
    msgs: Seq<crate::msg::Action>,
)
    requires
        share_invariant(s0, p0),
        p0.closed is None,
        totals_current(a.total, p0),
        account_ok(a.total, s0),
        a == spec_account(a.total, s0),
        claim_post(a, p0, s0, p1, s1, msgs),
    ensures
        share_invariant(s1, p1),
{
    lemma_invariant_after_commit(a.total, p0, s0, s1, p1);
}

/// No account of an open pool that keeps its books balanced is ever owed
/// more than the pool's budget.
pub proof fn lemma_earned_within_budget(s: AccountState, p: PoolState, t: Totals)
    requires
        share_invariant(s, p),
        p.closed is None,
        totals_current(t, p),
        account_ok(t, s),
    ensures
        spec_account(t, s).earned <= t.budget,
{
    lemma_share_bounded(s, p, t);
    lemma_earned_bounded(t.budget, s.volume_at(t), s.share_denom(t));
}

} // verus!
