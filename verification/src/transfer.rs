//! Orders for the movement of value that an operation calls for.

use vstd::prelude::*;
use crate::identity::Identity;

verus! {

/// A custodial account.
#[derive(Clone, Copy, Debug, PartialEq, Eq, Hash)]
pub enum Custody {
    /// The account that a participant holds in an asset.
    Holder(Identity),
    /// The account in which the pool of an asset keeps what is staked.
    Vault(Identity),
}

/// The capability under which value is moved.
#[derive(Clone, Copy, Debug, PartialEq, Eq, Hash)]
pub enum Authority {
    /// The verified signature of a participant.
    Signer(Identity),
    /// The authority that the pool derives from its asset. It needs no
    /// signature.
    Pool(Identity),
}

/// A movement of `amount` from one custodial account to another. The
/// operation that returns an order has already accounted for it; the order
/// is carried out by the caller, and the operation takes effect only if the
/// movement succeeds.
#[derive(Clone, Copy, Debug, PartialEq, Eq, Hash)]
pub struct TransferOrder {
    pub from: Custody,
    pub to: Custody,
    pub authority: Authority,
    pub amount: u64,
}

impl TransferOrder {
    /// The order that moves `amount` of `asset` from `holder` into the pool,
    /// signed by `holder`.
    pub open spec fn spec_into_pool(holder: Identity, asset: Identity, amount: u64) -> TransferOrder {
        TransferOrder {
            from: Custody::Holder(holder),
            to: Custody::Vault(asset),
            authority: Authority::Signer(holder),
            amount,
        }
    }

    /// The order that moves `amount` of `asset` out of the pool to `holder`,
    /// under the pool's own authority.
    pub open spec fn spec_out_of_pool(asset: Identity, holder: Identity, amount: u64) -> TransferOrder {
        TransferOrder {
            from: Custody::Vault(asset),
            to: Custody::Holder(holder),
            authority: Authority::Pool(asset),
            amount,
        }
    }

    /// Builds the order that moves `amount` of `asset` from `holder` into
    /// the pool.
    #[verifier::when_used_as_spec(spec_into_pool)]
    pub fn into_pool(holder: Identity, asset: Identity, amount: u64) -> (order: TransferOrder)
        ensures
            order == TransferOrder::into_pool(holder, asset, amount),
    {
        TransferOrder {
            from: Custody::Holder(holder),
            to: Custody::Vault(asset),
            authority: Authority::Signer(holder),
            amount,
        }
    }

    /// Builds the order that moves `amount` of `asset` out of the pool to
    /// `holder`.
    #[verifier::when_used_as_spec(spec_out_of_pool)]
    pub fn out_of_pool(asset: Identity, holder: Identity, amount: u64) -> (order: TransferOrder)
        ensures
            order == TransferOrder::out_of_pool(asset, holder, amount),
    {
        TransferOrder {
            from: Custody::Vault(asset),
            to: Custody::Holder(holder),
            authority: Authority::Pool(asset),
            amount,
        }
    }
}

} // verus!
