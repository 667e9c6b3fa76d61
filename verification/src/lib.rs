//! A conditional two-party asset-exchange engine.
//!
//! A buyer and a seller agree off-band to swap value — native currency or a
//! fungible token — under an escrow that guarantees that neither side can
//! walk away with both assets. The crate holds the escrow lifecycle state
//! machine, the custody-vault bookkeeping, the dual-asset transfer
//! abstraction, and the authorization, timing and balance rules, all with
//! verified contracts.
//!
//! The host ledger that actually executes value transfers, persists records
//! and keeps accounts sits outside. It hands this library plain values and
//! applies the balance mutations and events the library returns, and it
//! runs the operations against any one escrow record serially; operations
//! on distinct records are independent. Each operation is all-or-nothing:
//! it either reports its complete effect or fails with one error and
//! changes nothing.

pub mod account;
pub mod addresses;
pub mod errors;
pub mod escrow;
pub mod events;
pub mod laws;
pub mod lifecycle;
pub mod machine;
