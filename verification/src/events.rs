//! Domain events.
//!
//! Every successful lifecycle operation returns exactly one event carrying
//! the escrow's identity and the party or amount data of that transition.
//! The host emits it to whatever indexing or auditing channel it uses; the
//! engine only constructs it.

use vstd::prelude::*;

use crate::account::AssetDescriptor;

verus! {

/// A new escrow record exists, in state `Pending`.
#[derive(Clone, Copy, Debug, PartialEq, Eq, Structural)]
pub struct EscrowCreated {
    pub escrow: u64,
    pub buyer: u64,
    pub seller: u64,
}

/// The seller accepted the terms; the escrow is `Active`.
#[derive(Clone, Copy, Debug, PartialEq, Eq, Structural)]
pub struct EscrowAccepted {
    pub escrow: u64,
    pub seller: u64,
}

/// The buyer's deposit reached the vault; the escrow is `Funded`.
#[derive(Clone, Copy, Debug, PartialEq, Eq, Structural)]
pub struct EscrowFunded {
    pub escrow: u64,
    pub asset: AssetDescriptor,
    pub amount: u64,
}

/// The seller's asset reached the vault; the escrow is `AssetSent`.
#[derive(Clone, Copy, Debug, PartialEq, Eq, Structural)]
pub struct EscrowAssetSent {
    pub escrow: u64,
    pub seller: u64,
    pub amount: u64,
}

/// The buyer confirmed; both sides were paid out and the escrow is
/// `Released`.
#[derive(Clone, Copy, Debug, PartialEq, Eq, Structural)]
pub struct EscrowCompleted {
    pub escrow: u64,
    pub buyer: u64,
    pub seller: u64,
}

/// The buyer's deposit went back to the buyer.
#[derive(Clone, Copy, Debug, PartialEq, Eq, Structural)]
pub struct EscrowBuyerRefund {
    pub escrow: u64,
    pub buyer: u64,
    pub amount: u64,
}

/// The seller's asset went back to the seller.
#[derive(Clone, Copy, Debug, PartialEq, Eq, Structural)]
pub struct EscrowSellerRefund {
    pub escrow: u64,
    pub seller: u64,
    pub amount: u64,
}

/// The escrow reached `Closed` with nothing left in custody.
#[derive(Clone, Copy, Debug, PartialEq, Eq, Structural)]
pub struct EscrowClosed {
    pub escrow: u64,
    pub buyer: u64,
    pub seller: u64,
}

/// Any one of the events an operation on an existing escrow can return,
/// for hosts that dispatch operations through one entry point.
#[derive(Clone, Copy, Debug, PartialEq, Eq, Structural)]
pub enum EscrowEvent {
    Accepted(EscrowAccepted),
    Funded(EscrowFunded),
    AssetSent(EscrowAssetSent),
    Completed(EscrowCompleted),
    BuyerRefund(EscrowBuyerRefund),
    SellerRefund(EscrowSellerRefund),
    Closed(EscrowClosed),
}

} // verus!
