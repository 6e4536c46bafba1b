//! Staking accounting engine.
//!
//! The engine keeps, for each staker and asset, how much is staked, how the
//! stake is split into time-stamped lock slots, and what has been queued for
//! withdrawal; for each asset, the pool's total and the interest rate; and
//! one administrative identity. Every operation works on the records that it
//! is handed, changes them only when it succeeds, and returns the order for
//! the movement of value that it calls for. Reading the clock, finding the
//! records and moving the value are left to the caller.

pub mod accounts;
pub mod admin;
pub mod calendar;
pub mod claim;
pub mod error;
pub mod identity;
pub mod interest;
pub mod ledger;
pub mod locks;
pub mod records;
pub mod staking;
pub mod transfer;

pub use crate::accounts::{
    DepositToken, PerformAction, PerformWithdraw, UpdateConfig, UpdateInterest, WithdrawToken,
};
pub use crate::admin::{
    deposit_token, may_deposit, rescuse_token, update_admin_wallet, update_interest_rate,
};
pub use crate::calendar::{day_of_week, is_claim_allowed, is_request_allowed};
pub use crate::claim::{claim_withdraw, may_claim};
pub use crate::error::ErrorCode;
pub use crate::identity::Identity;
pub use crate::interest::accrued_interest;
pub use crate::locks::{LockSlot, LockedPool, LOCK_CAPACITY};
pub use crate::records::{
    Config, Count, InterestRate, PoolAction, PoolActionEntry, StakePool, WithdrawRequest,
};
pub use crate::staking::{
    may_perform, may_request, may_stake, perform_action, request_withdraw, stake,
};
pub use crate::transfer::{Authority, Custody, TransferOrder};
