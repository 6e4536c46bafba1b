//! The records and verified identities that each operation works on.

use vstd::prelude::*;
use crate::identity::Identity;
use crate::locks::{locked_total, LockSlot, LockedPool, LOCK_CAPACITY};
use crate::records::{
    Config, Count, InterestRate, PoolAction, PoolActionEntry, StakePool, WithdrawRequest,
};

verus! {

/// What a stake or a withdrawal request works on: the records of one staker
/// in one asset, the asset's pool and its interest rate.
#[derive(Debug, PartialEq, Eq)]
pub struct PerformAction {
    /// The staker, whose identity has been verified.
    pub staker: Identity,
    /// The asset under management.
    pub token_mint: Identity,
    pub current_staking_pool: StakePool,
    pub pool_action: PoolAction,
    pub lock_pool_action: LockedPool,
    pub withdraw_pool_action: WithdrawRequest,
    /// The log entry kept under the sequence value of this operation.
    pub pool_entry: PoolActionEntry,
    pub pool_count: Count,
    pub token_interest: InterestRate,
}

/// What a claim works on.
#[derive(Clone, Copy, Debug, PartialEq, Eq)]
pub struct PerformWithdraw {
    /// The staker, whose identity has been verified.
    pub staker: Identity,
    /// The asset under management.
    pub token_mint: Identity,
    pub current_staking_pool: StakePool,
    pub withdraw_pool_action: WithdrawRequest,
    /// The log entry kept under the sequence value of this operation.
    pub pool_entry: PoolActionEntry,
    pub pool_count: Count,
}

/// What a change of the administrator works on.
#[derive(Clone, Copy, Debug, PartialEq, Eq)]
pub struct UpdateConfig {
    /// The caller, whose identity has been verified.
    pub owner: Identity,
    pub admin_config: Config,
}

/// What a change of an asset's interest rate works on.
#[derive(Clone, Copy, Debug, PartialEq, Eq)]
pub struct UpdateInterest {
    /// The caller, whose identity has been verified.
    pub admin: Identity,
    pub admin_config: Config,
    pub token_interest: InterestRate,
}

/// What a rescue works on.
#[derive(Clone, Copy, Debug, PartialEq, Eq)]
pub struct WithdrawToken {
    /// The caller, whose identity has been verified.
    pub owner: Identity,
    /// The asset under management.
    pub token_mint: Identity,
    pub admin_config: Config,
    pub current_staking_pool: StakePool,
}

/// What a deposit works on.
#[derive(Clone, Copy, Debug, PartialEq, Eq)]
pub struct DepositToken {
    /// The caller, whose identity has been verified.
    pub owner: Identity,
    /// The asset under management.
    pub token_mint: Identity,
    pub admin_config: Config,
    pub current_staking_pool: StakePool,
}

impl PerformAction {
    /// The records of the staker fit together: the schedule holds no more
    /// slots than its capacity, and the position covers what is locked in
    /// them.
    pub open spec fn sound(self) -> bool {
        &&& self.lock_pool_action@.len() <= LOCK_CAPACITY
        &&& locked_total(self.lock_pool_action@) <= self.pool_action.token_amount
    }

    /// The records of a staker who has not acted in the asset yet, beside
    /// the asset's pool and rate.
    pub fn new(
        staker: Identity,
        token_mint: Identity,
        current_staking_pool: StakePool,
        token_interest: InterestRate,
    ) -> (ctx: PerformAction)
        ensures
            ctx.staker == staker,
            ctx.token_mint == token_mint,
            ctx.current_staking_pool == current_staking_pool,
            ctx.token_interest == token_interest,
            ctx.pool_action == (PoolAction { token_amount: 0, start_time: 0, update_time: 0 }),
            ctx.lock_pool_action@ == Seq::<LockSlot>::empty(),
            ctx.withdraw_pool_action == (WithdrawRequest {
                requested_amount: 0,
                requested_time: 0,
            }),
            ctx.pool_entry.staker.is_unset(),
            ctx.pool_entry.token_amount == 0,
            !ctx.pool_entry.stake_action,
            ctx.pool_entry.time_stamp == 0,
            !ctx.pool_entry.confirmed,
            ctx.pool_count == (Count { count: 0 }),
            ctx.sound(),
    {
        PerformAction {
            staker,
            token_mint,
            current_staking_pool,
            pool_action: PoolAction::default(),
            lock_pool_action: LockedPool::new(),
            withdraw_pool_action: WithdrawRequest::default(),
            pool_entry: PoolActionEntry::default(),
            pool_count: Count::default(),
            token_interest,
        }
    }
}

impl Clone for PerformAction {
    fn clone(&self) -> (copy: PerformAction)
        ensures
            copy.staker == self.staker,
            copy.token_mint == self.token_mint,
            copy.current_staking_pool == self.current_staking_pool,
            copy.pool_action == self.pool_action,
            copy.lock_pool_action@ == self.lock_pool_action@,
            copy.withdraw_pool_action == self.withdraw_pool_action,
            copy.pool_entry == self.pool_entry,
            copy.pool_count == self.pool_count,
            copy.token_interest == self.token_interest,
    {
        PerformAction {
            staker: self.staker,
            token_mint: self.token_mint,
            current_staking_pool: self.current_staking_pool,
            pool_action: self.pool_action,
            lock_pool_action: self.lock_pool_action.clone(),
            withdraw_pool_action: self.withdraw_pool_action,
            pool_entry: self.pool_entry,
            pool_count: self.pool_count,
            token_interest: self.token_interest,
        }
    }
}

} // verus!
