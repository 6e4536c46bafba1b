//! The books of one asset: its pool beside the positions of all its stakers.
//!
//! The pool's total is the sum of what the stakers of the asset have staked.
//! Stakes, withdrawal requests and claims keep it so; a rescue or a deposit
//! changes the pool's total and no position, and is meant to.

use vstd::prelude::*;
use crate::accounts::{PerformAction, PerformWithdraw};
use crate::claim::claimed;
use crate::identity::Identity;
use crate::records::{PoolAction, StakePool};
use crate::staking::{request_error, staked, withdrawal_requested};

verus! {

/// Sum of what the first `upto` stakers have staked.
pub open spec fn staked_before(positions: Seq<PoolAction>, upto: int) -> int
    decreases upto,
{
    if upto <= 0 {
        0
    } else {
        staked_before(positions, upto - 1) + positions[upto - 1].token_amount
    }
}

/// Sum of what all stakers have staked.
pub open spec fn staked_total(positions: Seq<PoolAction>) -> int {
    staked_before(positions, positions.len() as int)
}

/// The pool's total is the sum of what its stakers have staked.
pub open spec fn balanced(pool: StakePool, positions: Seq<PoolAction>) -> bool {
    pool.token_amount == staked_total(positions)
}

/// What the first `upto` stakers have staked after the position of the
/// staker `who` has become `position`.
pub proof fn lemma_staked_before_update(
    positions: Seq<PoolAction>,
    who: int,
    position: PoolAction,
    upto: int,
)
    requires
        0 <= who < positions.len(),
        0 <= upto <= positions.len(),
    ensures
        staked_before(positions.update(who, position), upto) == staked_before(positions, upto) + (
        if who < upto {
            position.token_amount - positions[who].token_amount
        } else {
            0
        }),
    decreases upto,
{
    if upto > 0 {
        lemma_staked_before_update(positions, who, position, upto - 1);
    }
}

/// What the first `upto` stakers have staked does not depend on who comes
/// after them.
pub proof fn lemma_staked_before_push(positions: Seq<PoolAction>, position: PoolAction, upto: int)
    requires
        0 <= upto <= positions.len(),
    ensures
        staked_before(positions.push(position), upto) == staked_before(positions, upto),
    decreases upto,
{
    if upto > 0 {
        lemma_staked_before_push(positions, position, upto - 1);
    }
}

/// The books of an asset in which nobody has staked are balanced when the
/// pool is empty.
pub proof fn lemma_empty_books_are_balanced(pool: StakePool)
    requires
        pool.token_amount == 0,
    ensures
        balanced(pool, Seq::<PoolAction>::empty()),
{
}

/// The books stay balanced when a staker who has staked nothing yet joins.
pub proof fn lemma_joining_keeps_balance(
    pool: StakePool,
    positions: Seq<PoolAction>,
    newcomer: PoolAction,
)
    requires
        balanced(pool, positions),
        newcomer.token_amount == 0,
    ensures
        balanced(pool, positions.push(newcomer)),
{
    lemma_staked_before_push(positions, newcomer, positions.len() as int);
}

/// A stake keeps the books balanced: when the pool's total was the sum of
/// all positions before the staker `who` staked, it is so afterwards.
pub proof fn lemma_stake_keeps_balance(
    before: PerformAction,
    after: PerformAction,
    amount: u64,
    count: u8,
    now: i64,
    positions: Seq<PoolAction>,
    who: int,
)
    requires
        0 <= who < positions.len(),
        positions[who] == before.pool_action,
        balanced(before.current_staking_pool, positions),
        before.pool_action.token_amount + amount <= u64::MAX,
        before.current_staking_pool.token_amount + amount <= u64::MAX,
        staked(before, after, amount, count, now),
    ensures
        balanced(after.current_staking_pool, positions.update(who, after.pool_action)),
{
    lemma_staked_before_update(positions, who, after.pool_action, positions.len() as int);
}

/// A withdrawal request that is granted keeps the books balanced.
pub proof fn lemma_request_keeps_balance(
    before: PerformAction,
    after: PerformAction,
    amount: u64,
    token: Identity,
    count: u8,
    now: i64,
    positions: Seq<PoolAction>,
    who: int,
)
    requires
        0 <= who < positions.len(),
        positions[who] == before.pool_action,
        balanced(before.current_staking_pool, positions),
        request_error(before, amount, token, now) is None,
        withdrawal_requested(before, after, amount, count, now),
    ensures
        balanced(after.current_staking_pool, positions.update(who, after.pool_action)),
{
    lemma_staked_before_update(positions, who, after.pool_action, positions.len() as int);
}

/// A claim keeps the books balanced: it changes neither the pool's total nor
/// any position.
pub proof fn lemma_claim_keeps_balance(
    before: PerformWithdraw,
    after: PerformWithdraw,
    amount: u64,
    count: u8,
    now: i64,
    positions: Seq<PoolAction>,
)
    requires
        balanced(before.current_staking_pool, positions),
        claimed(before, after, amount, count, now),
    ensures
        balanced(after.current_staking_pool, positions),
{
}

} // verus!
