//! The error taxonomy of the escrow engine.
//!
//! Every guard failure aborts the whole operation with one of these errors
//! and no partial mutation; nothing is retried inside the engine.

use vstd::prelude::*;

verus! {

/// The broad class an error belongs to: bad input, wrong signer, wrong
/// lifecycle state, expiry exceeded, balance trouble, or a mismatched asset.
#[derive(Clone, Copy, Debug, PartialEq, Eq, Structural)]
pub enum ErrorClass {
    Validation,
    Authorization,
    State,
    Temporal,
    Balance,
    AssetMismatch,
}

/// Everything a lifecycle operation can fail with.
#[derive(Clone, Copy, Debug, PartialEq, Eq, Structural)]
pub enum EscrowError {
    /// Bad input at initiation (empty or oversized id, zero amount,
    /// identical assets, buyer equal to seller, expiry not in the future),
    /// or an account handed to an operation that belongs to the wrong party.
    ValidationError,
    /// The invoking party is not the escrow's buyer.
    UnauthorizedBuyer,
    /// The invoking party is not the escrow's seller.
    UnauthorizedSeller,
    /// The operation is not defined for the escrow's current state.
    InvalidStateTransition,
    /// A time-gated operation was invoked at or after the expiry.
    EscrowExpired,
    /// The invoking party's side was already refunded.
    AlreadyRefunded,
    /// The source account does not hold the amount to move.
    InsufficientBalance,
    /// Crediting the destination would overflow its 64-bit balance.
    Overflow,
    /// An account is typed for a different asset than the one recorded.
    InvalidAssetType,
}

/// The class each error falls under.
pub open spec fn class_of(e: EscrowError) -> ErrorClass {
    match e {
        EscrowError::ValidationError => ErrorClass::Validation,
        EscrowError::UnauthorizedBuyer => ErrorClass::Authorization,
        EscrowError::UnauthorizedSeller => ErrorClass::Authorization,
        EscrowError::InvalidStateTransition => ErrorClass::State,
        EscrowError::EscrowExpired => ErrorClass::Temporal,
        EscrowError::AlreadyRefunded => ErrorClass::State,
        EscrowError::InsufficientBalance => ErrorClass::Balance,
        EscrowError::Overflow => ErrorClass::Balance,
        EscrowError::InvalidAssetType => ErrorClass::AssetMismatch,
    }
}

impl EscrowError {
    /// The class this error falls under.
    pub fn class(&self) -> (c: ErrorClass)
        ensures
            c == class_of(*self),
    {
        match self {
            EscrowError::ValidationError => ErrorClass::Validation,
            EscrowError::UnauthorizedBuyer => ErrorClass::Authorization,
            EscrowError::UnauthorizedSeller => ErrorClass::Authorization,
            EscrowError::InvalidStateTransition => ErrorClass::State,
            EscrowError::EscrowExpired => ErrorClass::Temporal,
            EscrowError::AlreadyRefunded => ErrorClass::State,
            EscrowError::InsufficientBalance => ErrorClass::Balance,
            EscrowError::Overflow => ErrorClass::Balance,
            EscrowError::InvalidAssetType => ErrorClass::AssetMismatch,
        }
    }
}

} // verus!
