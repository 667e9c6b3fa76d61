//! Asset descriptors, asset-holding accounts, and the single transfer
//! operation that every movement of value goes through.
//!
//! An asset is either the native currency or one fungible token type. An
//! account is the library's picture of one party's holding of one asset: the
//! owning address, the asset the account is typed for, and its balance. The
//! host ledger keeps the real accounts; it hands their balances in as plain
//! values and applies the debit and credit a successful operation reports.

use vstd::prelude::*;

use crate::errors::EscrowError;

verus! {

/// Either the native currency, or a specific fungible-token type.
///
/// Two descriptors make a valid exchange pair exactly when they differ:
/// `Native` against `Native` is a degenerate swap, and `Token(t)` against
/// `Token(t)` is a same-asset swap; both are rejected at initiation.
#[derive(Clone, Copy, Debug, PartialEq, Eq, Structural)]
pub enum AssetDescriptor {
    Native,
    Token(u64),
}

/// One party's holding of one asset, as the engine sees it.
#[derive(Clone, Copy, Debug, PartialEq, Eq, Structural)]
pub struct Account {
    /// The address that owns the account.
    pub owner: u64,
    /// The asset the account is typed for.
    pub asset: AssetDescriptor,
    /// The spendable balance.
    pub balance: u64,
}

/// When `transfer(asset, from, to, amount)` goes through: both accounts are
/// typed for exactly the asset being moved, the source holds the amount, and
/// the destination's new balance still fits in 64 bits.
pub open spec fn transfer_ok(asset: AssetDescriptor, from: Account, to: Account, amount: u64) -> bool {
    &&& from.asset == asset
    &&& to.asset == asset
    &&& from.balance >= amount
    &&& to.balance + amount <= u64::MAX
}

/// The error a failing transfer reports: asset typing is checked first, then
/// the source balance, then overflow of the destination.
pub open spec fn transfer_err(asset: AssetDescriptor, from: Account, to: Account, amount: u64) -> EscrowError {
    if from.asset != asset || to.asset != asset {
        EscrowError::InvalidAssetType
    } else if from.balance < amount {
        EscrowError::InsufficientBalance
    } else {
        EscrowError::Overflow
    }
}

/// The account after `amount` left it.
pub open spec fn debited(a: Account, amount: u64) -> Account {
    Account { balance: (a.balance - amount) as u64, ..a }
}

/// The account after `amount` arrived in it.
pub open spec fn credited(a: Account, amount: u64) -> Account {
    Account { balance: (a.balance + amount) as u64, ..a }
}

/// Moves `amount` between two accounts whose preconditions have already been
/// checked. Callers that make several moves atomically check every
/// precondition first and only then apply the moves.
pub fn execute_transfer(from: &mut Account, to: &mut Account, amount: u64)
    requires
        old(from).balance >= amount,
        old(to).balance + amount <= u64::MAX,
    ensures
        *final(from) == debited(*old(from), amount),
        *final(to) == credited(*old(to), amount),
{
    from.balance = from.balance - amount;
    to.balance = to.balance + amount;
}

/// Moves `amount` units of `asset` from `from` to `to`.
///
/// Both kinds of asset go through this one dispatch point: the typing check
/// — each account must be typed for exactly the asset being moved — covers
/// the native case (both accounts hold native currency) and the token case
/// (both accounts hold exactly that token type) alike. The move is atomic:
/// on any error neither account changes.
pub fn transfer(asset: AssetDescriptor, from: &mut Account, to: &mut Account, amount: u64) -> (r: Result<(), EscrowError>)
    ensures
        r is Ok <==> transfer_ok(asset, *old(from), *old(to), amount),
        r is Ok ==> *final(from) == debited(*old(from), amount) && *final(to) == credited(*old(to), amount),
        r is Err ==> *final(from) == *old(from) && *final(to) == *old(to)
            && r->Err_0 == transfer_err(asset, *old(from), *old(to), amount),
{
    if from.asset != asset || to.asset != asset {
        return Err(EscrowError::InvalidAssetType);
    }
    if from.balance < amount {
        return Err(EscrowError::InsufficientBalance);
    }
    if to.balance > u64::MAX - amount {
        return Err(EscrowError::Overflow);
    }
    execute_transfer(from, to, amount);
    Ok(())
}

} // verus!
