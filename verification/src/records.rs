//! The records that the engine keeps: one value per key.

use vstd::prelude::*;
use crate::identity::Identity;

verus! {

/// The administrative identity. There is one such record. While the
/// identity is unset, anyone may set it.
#[derive(Clone, Copy, Debug, PartialEq, Eq)]
pub struct Config {
    pub admin: Identity,
}

/// The pool of one asset.
#[derive(Clone, Copy, Debug, PartialEq, Eq)]
pub struct StakePool {
    pub token_mint: Identity,
    /// Total staked in the pool.
    pub token_amount: u64,
}

/// The position of one staker in one asset.
#[derive(Clone, Copy, Debug, PartialEq, Eq)]
pub struct PoolAction {
    /// Amount that the staker has staked.
    pub token_amount: u64,
    /// Time of the staker's first action; zero before it.
    pub start_time: i64,
    /// Time of the staker's latest action.
    pub update_time: i64,
}

/// One entry of the action log. Entries are kept by staker, asset and a
/// sequence value that the caller chooses; an entry written under a
/// sequence value that has been used before takes the place of the earlier
/// one.
#[derive(Clone, Copy, Debug, PartialEq, Eq)]
pub struct PoolActionEntry {
    pub staker: Identity,
    pub token_amount: u64,
    /// `true` for a stake, `false` for a withdrawal request or a claim.
    pub stake_action: bool,
    pub time_stamp: i64,
    /// `true` for a stake and for a claim, `false` for a withdrawal request
    /// that is pending.
    pub confirmed: bool,
}

/// The withdrawal queue of one staker in one asset.
#[derive(Clone, Copy, Debug, PartialEq, Eq)]
pub struct WithdrawRequest {
    /// The balance that the staker can claim.
    pub requested_amount: u64,
    /// Time of the latest withdrawal request.
    pub requested_time: i64,
}

/// The annual interest rate of one asset, in percent.
#[derive(Clone, Copy, Debug, PartialEq, Eq)]
pub struct InterestRate {
    pub interest: u8,
}

/// The sequence value of the latest log entry of one staker in one asset.
#[derive(Clone, Copy, Debug, PartialEq, Eq)]
pub struct Count {
    pub count: u8,
}

impl Config {
    /// Whether `caller` may name the administrator: when none is set yet, or
    /// when `caller` is the administrator.
    pub open spec fn may_be_set_by(self, caller: Identity) -> bool {
        self.admin.is_unset() || caller == self.admin
    }
}

impl PoolAction {
    /// The position after an action at `now` that changes the staked amount
    /// by `change`. The first action fixes the start time; every action
    /// renews the update time.
    pub open spec fn moved(self, change: int, now: i64) -> PoolAction {
        PoolAction {
            token_amount: (self.token_amount + change) as u64,
            start_time: if self.start_time == 0 {
                now
            } else {
                self.start_time
            },
            update_time: now,
        }
    }
}

impl StakePool {
    /// The pool after its total has changed by `change`.
    pub open spec fn moved(self, change: int) -> StakePool {
        StakePool { token_mint: self.token_mint, token_amount: (self.token_amount + change) as u64 }
    }
}

impl Default for Config {
    fn default() -> (config: Config)
        ensures
            config.admin.is_unset(),
    {
        Config { admin: Identity::unset() }
    }
}

impl Default for StakePool {
    fn default() -> (pool: StakePool)
        ensures
            pool.token_mint.is_unset(),
            pool.token_amount == 0,
    {
        StakePool { token_mint: Identity::unset(), token_amount: 0 }
    }
}

impl Default for PoolAction {
    fn default() -> (position: PoolAction)
        ensures
            position == (PoolAction { token_amount: 0, start_time: 0, update_time: 0 }),
    {
        PoolAction { token_amount: 0, start_time: 0, update_time: 0 }
    }
}

impl Default for PoolActionEntry {
    fn default() -> (entry: PoolActionEntry)
        ensures
            entry.staker.is_unset(),
            entry.token_amount == 0,
            !entry.stake_action,
            entry.time_stamp == 0,
            !entry.confirmed,
    {
        PoolActionEntry {
            staker: Identity::unset(),
            token_amount: 0,
            stake_action: false,
            time_stamp: 0,
            confirmed: false,
        }
    }
}

impl Default for WithdrawRequest {
    fn default() -> (queue: WithdrawRequest)
        ensures
            queue == (WithdrawRequest { requested_amount: 0, requested_time: 0 }),
    {
        WithdrawRequest { requested_amount: 0, requested_time: 0 }
    }
}

impl Default for InterestRate {
    fn default() -> (rate: InterestRate)
        ensures
            rate == (InterestRate { interest: 0 }),
    {
        InterestRate { interest: 0 }
    }
}

impl Default for Count {
    fn default() -> (count: Count)
        ensures
            count == (Count { count: 0 }),
    {
        Count { count: 0 }
    }
}

} // verus!
