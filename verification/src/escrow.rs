//! The escrow record: the persistent entity holding terms, parties,
//! amounts, lifecycle state and refund flags, with its well-formedness
//! invariant.

use vstd::prelude::*;

use crate::account::AssetDescriptor;
use crate::addresses::{record_address_spec, vault_address_spec};

verus! {

/// The longest identifier an escrow may carry, in bytes.
pub const MAX_ID_LENGTH: usize = 32;

/// Where an escrow stands in its lifecycle.
///
/// `Released` and `Closed` are terminal: no operation moves an escrow out
/// of them. `Cancelled` is carried for hosts that record an out-of-band
/// cancellation; the engine itself resolves cancellations through the two
/// independent refund operations and never produces it.
#[derive(Clone, Copy, Debug, PartialEq, Eq, Structural)]
pub enum EscrowState {
    Pending,
    Active,
    Funded,
    AssetSent,
    Released,
    Cancelled,
    BuyerRefunded,
    SellerRefunded,
    Closed,
}

/// Whether a state admits no further transitions.
pub open spec fn is_terminal(s: EscrowState) -> bool {
    s is Released || s is Closed
}

/// One conditional exchange: the aggregate root the lifecycle operations
/// load, validate and mutate.
#[derive(Clone, Debug)]
pub struct Escrow {
    /// Opaque identifier, 1..=32 bytes, unique per (buyer, seller, id).
    pub escrow_id: Vec<u8>,
    /// The party that initiates, funds and confirms.
    pub buyer: u64,
    /// The counterparty that accepts and sends the receive asset.
    pub seller: u64,
    /// What the buyer deposits.
    pub deposit_asset: AssetDescriptor,
    /// How much of it, always positive.
    pub deposit_amount: u64,
    /// What the seller sends in exchange.
    pub receive_asset: AssetDescriptor,
    /// How much of it, always positive.
    pub receive_amount: u64,
    /// Where the escrow stands.
    pub state: EscrowState,
    /// Ledger time at initiation.
    pub created_at: i64,
    /// After this instant the forward operations fail; strictly later than
    /// `created_at`.
    pub expiry: i64,
    /// Set once the buyer's deposit went back to the buyer; never cleared.
    pub buyer_refund: bool,
    /// Set once the seller's asset went back to the seller; never cleared.
    pub seller_refund: bool,
    /// The record's own derived address.
    pub record_ref: u64,
    /// The custody vault's derived address; the vault spends only under the
    /// escrow's authority, never under a human key.
    pub vault_ref: u64,
}

impl Escrow {
    /// Well-formedness: holds of every record the engine creates and is
    /// preserved by every operation.
    pub open spec fn wf(self) -> bool {
        &&& 1 <= self.escrow_id@.len() <= MAX_ID_LENGTH
        &&& self.buyer != self.seller
        &&& self.deposit_amount > 0
        &&& self.receive_amount > 0
        &&& self.deposit_asset != self.receive_asset
        &&& self.created_at < self.expiry
        &&& self.buyer_refund ==> (self.state is BuyerRefunded || self.state is Closed)
        &&& self.seller_refund ==> (self.state is SellerRefunded || self.state is Closed)
        &&& self.state is BuyerRefunded ==> self.buyer_refund && !self.seller_refund
        &&& self.state is SellerRefunded ==> self.seller_refund && !self.buyer_refund
        &&& self.state is Released ==> !self.buyer_refund && !self.seller_refund
        &&& self.record_ref == record_address_spec(self.escrow_id@, self.buyer, self.seller)
        &&& self.vault_ref == vault_address_spec(self.record_ref)
    }
}

/// The terms of an escrow — everything but state and refund flags — are the
/// same in `post` as in `pre`. No lifecycle operation ever rewrites them.
pub open spec fn same_terms(pre: Escrow, post: Escrow) -> bool {
    &&& post.escrow_id@ == pre.escrow_id@
    &&& post.buyer == pre.buyer
    &&& post.seller == pre.seller
    &&& post.deposit_asset == pre.deposit_asset
    &&& post.deposit_amount == pre.deposit_amount
    &&& post.receive_asset == pre.receive_asset
    &&& post.receive_amount == pre.receive_amount
    &&& post.created_at == pre.created_at
    &&& post.expiry == pre.expiry
    &&& post.record_ref == pre.record_ref
    &&& post.vault_ref == pre.vault_ref
}

/// `post` is `pre` moved to `new_state`, terms and refund flags untouched.
pub open spec fn steps_to(pre: Escrow, post: Escrow, new_state: EscrowState) -> bool {
    &&& same_terms(pre, post)
    &&& post.state == new_state
    &&& post.buyer_refund == pre.buyer_refund
    &&& post.seller_refund == pre.seller_refund
}

} // verus!
