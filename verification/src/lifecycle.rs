//! The lifecycle operations: the state machine's transitions.
//!
//! Each operation validates authorization, state, timing and the accounts it
//! was handed, then applies its transfers and its state change, or fails
//! with one error and no mutation at all. Beside every operation stands a
//! spec function saying exactly when it succeeds, what it changes, and which
//! error it fails with; the laws of the engine are proved from those.
//!
//! Policy choices the design leaves open are fixed here as follows: the two
//! refund operations are strictly party-only (no permissionless path after
//! expiry), and cancellation is resolved through the two independent
//! refunds; no single both-sides-at-once cancel operation exists.

use vstd::prelude::*;

use crate::account::{credited, debited, execute_transfer, transfer, transfer_err, transfer_ok, Account, AssetDescriptor};
use crate::addresses::{derive_record_address, derive_vault_address, record_address_spec, vault_address_spec};
use crate::errors::EscrowError;
use crate::escrow::{is_terminal, same_terms, steps_to, Escrow, EscrowState, MAX_ID_LENGTH};
use crate::events::{EscrowAccepted, EscrowAssetSent, EscrowBuyerRefund, EscrowClosed, EscrowCompleted, EscrowCreated, EscrowFunded, EscrowSellerRefund};

verus! {

// --- initiate ---------------------------------------------------------

/// When initiation succeeds: well-sized id, distinct parties, positive
/// amounts, distinct assets, and an expiry strictly in the future.
pub open spec fn initiate_ok(
    id: Seq<u8>,
    buyer: u64,
    seller: u64,
    deposit_asset: AssetDescriptor,
    deposit_amount: u64,
    receive_asset: AssetDescriptor,
    receive_amount: u64,
    now: i64,
    expiry: i64,
) -> bool {
    &&& 1 <= id.len() <= MAX_ID_LENGTH
    &&& buyer != seller
    &&& deposit_amount > 0
    &&& receive_amount > 0
    &&& deposit_asset != receive_asset
    &&& now < expiry
}

/// The record initiation builds: state `Pending`, both refund flags clear,
/// addresses derived from the identity triple.
pub open spec fn initiated(
    id: Seq<u8>,
    buyer: u64,
    seller: u64,
    deposit_asset: AssetDescriptor,
    deposit_amount: u64,
    receive_asset: AssetDescriptor,
    receive_amount: u64,
    now: i64,
    expiry: i64,
    e: Escrow,
) -> bool {
    &&& e.escrow_id@ == id
    &&& e.buyer == buyer
    &&& e.seller == seller
    &&& e.deposit_asset == deposit_asset
    &&& e.deposit_amount == deposit_amount
    &&& e.receive_asset == receive_asset
    &&& e.receive_amount == receive_amount
    &&& e.state is Pending
    &&& e.created_at == now
    &&& e.expiry == expiry
    &&& !e.buyer_refund
    &&& !e.seller_refund
    &&& e.record_ref == record_address_spec(id, buyer, seller)
    &&& e.vault_ref == vault_address_spec(e.record_ref)
}

/// Creates a new escrow in state `Pending`, or rejects the input.
///
/// The caller is the buyer. No value moves here: funding is its own step.
/// Every rejected input fails with `ValidationError` and no record exists.
pub fn initiate_escrow(
    id: Vec<u8>,
    buyer: u64,
    seller: u64,
    deposit_asset: AssetDescriptor,
    deposit_amount: u64,
    receive_asset: AssetDescriptor,
    receive_amount: u64,
    now: i64,
    expiry: i64,
) -> (r: Result<(Escrow, EscrowCreated), EscrowError>)
    ensures
        r is Ok <==> initiate_ok(id@, buyer, seller, deposit_asset, deposit_amount, receive_asset, receive_amount, now, expiry),
        r is Ok ==> {
            let (e, ev) = r->Ok_0;
            &&& initiated(id@, buyer, seller, deposit_asset, deposit_amount, receive_asset, receive_amount, now, expiry, e)
            &&& e.wf()
            &&& ev == (EscrowCreated { escrow: e.record_ref, buyer, seller })
        },
        r is Err ==> r->Err_0 == EscrowError::ValidationError,
{
    if id.len() < 1 || id.len() > MAX_ID_LENGTH {
        return Err(EscrowError::ValidationError);
    }
    if buyer == seller {
        return Err(EscrowError::ValidationError);
    }
    if deposit_amount == 0 || receive_amount == 0 {
        return Err(EscrowError::ValidationError);
    }
    if deposit_asset == receive_asset {
        return Err(EscrowError::ValidationError);
    }
    if now >= expiry {
        return Err(EscrowError::ValidationError);
    }
    let record_ref = derive_record_address(&id, buyer, seller);
    let vault_ref = derive_vault_address(record_ref);
    let e = Escrow {
        escrow_id: id,
        buyer,
        seller,
        deposit_asset,
        deposit_amount,
        receive_asset,
        receive_amount,
        state: EscrowState::Pending,
        created_at: now,
        expiry,
        buyer_refund: false,
        seller_refund: false,
        record_ref,
        vault_ref,
    };
    let ev = EscrowCreated { escrow: record_ref, buyer, seller };
    Ok((e, ev))
}

// --- accept -----------------------------------------------------------

/// When `accept` succeeds: the seller invokes it on a `Pending` escrow
/// before expiry.
pub open spec fn accept_ok(e: Escrow, actor: u64, now: i64) -> bool {
    &&& actor == e.seller
    &&& e.state is Pending
    &&& now < e.expiry
}

/// The error `accept` fails with: authorization, then state, then expiry.
pub open spec fn accept_err(e: Escrow, actor: u64, now: i64) -> EscrowError {
    if actor != e.seller {
        EscrowError::UnauthorizedSeller
    } else if !(e.state is Pending) {
        EscrowError::InvalidStateTransition
    } else {
        EscrowError::EscrowExpired
    }
}

/// The seller accepts the terms: `Pending` becomes `Active`.
pub fn accept(escrow: &mut Escrow, actor: u64, now: i64) -> (r: Result<EscrowAccepted, EscrowError>)
    ensures
        r is Ok <==> accept_ok(*old(escrow), actor, now),
        r is Ok ==> steps_to(*old(escrow), *final(escrow), EscrowState::Active)
            && r->Ok_0 == (EscrowAccepted { escrow: old(escrow).record_ref, seller: old(escrow).seller }),
        r is Err ==> *final(escrow) == *old(escrow)
            && r->Err_0 == accept_err(*old(escrow), actor, now),
{
    if actor != escrow.seller {
        return Err(EscrowError::UnauthorizedSeller);
    }
    if !matches!(escrow.state, EscrowState::Pending) {
        return Err(EscrowError::InvalidStateTransition);
    }
    if now >= escrow.expiry {
        return Err(EscrowError::EscrowExpired);
    }
    escrow.state = EscrowState::Active;
    Ok(EscrowAccepted { escrow: escrow.record_ref, seller: escrow.seller })
}

// --- fund -------------------------------------------------------------

/// When `fund` succeeds: the buyer invokes it on an `Active` escrow before
/// expiry, with the buyer's own deposit-asset account and the vault's, and
/// the deposit transfer itself goes through.
pub open spec fn fund_ok(e: Escrow, actor: u64, now: i64, from: Account, vault: Account) -> bool {
    &&& actor == e.buyer
    &&& e.state is Active
    &&& now < e.expiry
    &&& from.owner == e.buyer
    &&& vault.owner == e.vault_ref
    &&& transfer_ok(e.deposit_asset, from, vault, e.deposit_amount)
}

/// The error `fund` fails with: authorization, state, expiry, account
/// ownership, then whatever the transfer rejects.
pub open spec fn fund_err(e: Escrow, actor: u64, now: i64, from: Account, vault: Account) -> EscrowError {
    if actor != e.buyer {
        EscrowError::UnauthorizedBuyer
    } else if !(e.state is Active) {
        EscrowError::InvalidStateTransition
    } else if now >= e.expiry {
        EscrowError::EscrowExpired
    } else if from.owner != e.buyer || vault.owner != e.vault_ref {
        EscrowError::ValidationError
    } else {
        transfer_err(e.deposit_asset, from, vault, e.deposit_amount)
    }
}

/// The buyer moves the deposit into the vault: `Active` becomes `Funded`.
pub fn fund(escrow: &mut Escrow, actor: u64, now: i64, from: &mut Account, vault: &mut Account) -> (r: Result<EscrowFunded, EscrowError>)
    ensures
        r is Ok <==> fund_ok(*old(escrow), actor, now, *old(from), *old(vault)),
        r is Ok ==> steps_to(*old(escrow), *final(escrow), EscrowState::Funded)
            && *final(from) == debited(*old(from), old(escrow).deposit_amount)
            && *final(vault) == credited(*old(vault), old(escrow).deposit_amount)
            && r->Ok_0 == (EscrowFunded {
                escrow: old(escrow).record_ref,
                asset: old(escrow).deposit_asset,
                amount: old(escrow).deposit_amount,
            }),
        r is Err ==> *final(escrow) == *old(escrow) && *final(from) == *old(from)
            && *final(vault) == *old(vault)
            && r->Err_0 == fund_err(*old(escrow), actor, now, *old(from), *old(vault)),
{
    if actor != escrow.buyer {
        return Err(EscrowError::UnauthorizedBuyer);
    }
    if !matches!(escrow.state, EscrowState::Active) {
        return Err(EscrowError::InvalidStateTransition);
    }
    if now >= escrow.expiry {
        return Err(EscrowError::EscrowExpired);
    }
    if from.owner != escrow.buyer || vault.owner != escrow.vault_ref {
        return Err(EscrowError::ValidationError);
    }
    match transfer(escrow.deposit_asset, from, vault, escrow.deposit_amount) {
        Ok(()) => {}
        Err(err) => {
            return Err(err);
        }
    }
    escrow.state = EscrowState::Funded;
    Ok(EscrowFunded { escrow: escrow.record_ref, asset: escrow.deposit_asset, amount: escrow.deposit_amount })
}

// --- send_asset --------------------------------------------------------

/// When `send_asset` succeeds: the seller invokes it on a `Funded` escrow,
/// with the seller's receive-asset account and the vault's, and the
/// transfer goes through. The step is not gated by expiry.
pub open spec fn send_asset_ok(e: Escrow, actor: u64, from: Account, vault: Account) -> bool {
    &&& actor == e.seller
    &&& e.state is Funded
    &&& from.owner == e.seller
    &&& vault.owner == e.vault_ref
    &&& transfer_ok(e.receive_asset, from, vault, e.receive_amount)
}

/// The error `send_asset` fails with.
pub open spec fn send_asset_err(e: Escrow, actor: u64, from: Account, vault: Account) -> EscrowError {
    if actor != e.seller {
        EscrowError::UnauthorizedSeller
    } else if !(e.state is Funded) {
        EscrowError::InvalidStateTransition
    } else if from.owner != e.seller || vault.owner != e.vault_ref {
        EscrowError::ValidationError
    } else {
        transfer_err(e.receive_asset, from, vault, e.receive_amount)
    }
}

/// The seller moves the receive asset into the vault: `Funded` becomes
/// `AssetSent`.
pub fn send_asset(escrow: &mut Escrow, actor: u64, from: &mut Account, vault: &mut Account) -> (r: Result<EscrowAssetSent, EscrowError>)
    ensures
        r is Ok <==> send_asset_ok(*old(escrow), actor, *old(from), *old(vault)),
        r is Ok ==> steps_to(*old(escrow), *final(escrow), EscrowState::AssetSent)
            && *final(from) == debited(*old(from), old(escrow).receive_amount)
            && *final(vault) == credited(*old(vault), old(escrow).receive_amount)
            && r->Ok_0 == (EscrowAssetSent {
                escrow: old(escrow).record_ref,
                seller: old(escrow).seller,
                amount: old(escrow).receive_amount,
            }),
        r is Err ==> *final(escrow) == *old(escrow) && *final(from) == *old(from)
            && *final(vault) == *old(vault)
            && r->Err_0 == send_asset_err(*old(escrow), actor, *old(from), *old(vault)),
{
    if actor != escrow.seller {
        return Err(EscrowError::UnauthorizedSeller);
    }
    if !matches!(escrow.state, EscrowState::Funded) {
        return Err(EscrowError::InvalidStateTransition);
    }
    if from.owner != escrow.seller || vault.owner != escrow.vault_ref {
        return Err(EscrowError::ValidationError);
    }
    match transfer(escrow.receive_asset, from, vault, escrow.receive_amount) {
        Ok(()) => {}
        Err(err) => {
            return Err(err);
        }
    }
    escrow.state = EscrowState::AssetSent;
    Ok(EscrowAssetSent { escrow: escrow.record_ref, seller: escrow.seller, amount: escrow.receive_amount })
}

// --- confirm ----------------------------------------------------------

/// When `confirm` succeeds: the buyer invokes it on an `AssetSent` escrow
/// before expiry, with both vault accounts and both payout accounts, and
/// both payouts — the receive asset to the buyer and the deposit to the
/// seller — can go through.
pub open spec fn confirm_ok(
    e: Escrow,
    actor: u64,
    now: i64,
    vault_deposit: Account,
    vault_receive: Account,
    buyer_to: Account,
    seller_to: Account,
) -> bool {
    &&& actor == e.buyer
    &&& e.state is AssetSent
    &&& now < e.expiry
    &&& vault_deposit.owner == e.vault_ref
    &&& vault_receive.owner == e.vault_ref
    &&& buyer_to.owner == e.buyer
    &&& seller_to.owner == e.seller
    &&& transfer_ok(e.receive_asset, vault_receive, buyer_to, e.receive_amount)
    &&& transfer_ok(e.deposit_asset, vault_deposit, seller_to, e.deposit_amount)
}

/// The error `confirm` fails with: authorization, state, expiry, account
/// ownership, then the buyer-side payout's objection, then the
/// seller-side's.
pub open spec fn confirm_err(
    e: Escrow,
    actor: u64,
    now: i64,
    vault_deposit: Account,
    vault_receive: Account,
    buyer_to: Account,
    seller_to: Account,
) -> EscrowError {
    if actor != e.buyer {
        EscrowError::UnauthorizedBuyer
    } else if !(e.state is AssetSent) {
        EscrowError::InvalidStateTransition
    } else if now >= e.expiry {
        EscrowError::EscrowExpired
    } else if vault_deposit.owner != e.vault_ref || vault_receive.owner != e.vault_ref
        || buyer_to.owner != e.buyer || seller_to.owner != e.seller {
        EscrowError::ValidationError
    } else if !transfer_ok(e.receive_asset, vault_receive, buyer_to, e.receive_amount) {
        transfer_err(e.receive_asset, vault_receive, buyer_to, e.receive_amount)
    } else {
        transfer_err(e.deposit_asset, vault_deposit, seller_to, e.deposit_amount)
    }
}

/// The buyer confirms: both sides are paid out of the vault atomically and
/// `AssetSent` becomes `Released`. Every precondition of both payouts is
/// checked before either balance moves, so the operation changes either
/// all four accounts or none.
pub fn confirm(
    escrow: &mut Escrow,
    actor: u64,
    now: i64,
    vault_deposit: &mut Account,
    vault_receive: &mut Account,
    buyer_to: &mut Account,
    seller_to: &mut Account,
) -> (r: Result<EscrowCompleted, EscrowError>)
    ensures
        r is Ok <==> confirm_ok(*old(escrow), actor, now, *old(vault_deposit), *old(vault_receive), *old(buyer_to), *old(seller_to)),
        r is Ok ==> steps_to(*old(escrow), *final(escrow), EscrowState::Released)
            && *final(vault_receive) == debited(*old(vault_receive), old(escrow).receive_amount)
            && *final(buyer_to) == credited(*old(buyer_to), old(escrow).receive_amount)
            && *final(vault_deposit) == debited(*old(vault_deposit), old(escrow).deposit_amount)
            && *final(seller_to) == credited(*old(seller_to), old(escrow).deposit_amount)
            && r->Ok_0 == (EscrowCompleted {
                escrow: old(escrow).record_ref,
                buyer: old(escrow).buyer,
                seller: old(escrow).seller,
            }),
        r is Err ==> *final(escrow) == *old(escrow)
            && *final(vault_deposit) == *old(vault_deposit)
            && *final(vault_receive) == *old(vault_receive)
            && *final(buyer_to) == *old(buyer_to)
            && *final(seller_to) == *old(seller_to)
            && r->Err_0 == confirm_err(*old(escrow), actor, now, *old(vault_deposit), *old(vault_receive), *old(buyer_to), *old(seller_to)),
{
    if actor != escrow.buyer {
        return Err(EscrowError::UnauthorizedBuyer);
    }
    if !matches!(escrow.state, EscrowState::AssetSent) {
        return Err(EscrowError::InvalidStateTransition);
    }
    if now >= escrow.expiry {
        return Err(EscrowError::EscrowExpired);
    }
    if vault_deposit.owner != escrow.vault_ref || vault_receive.owner != escrow.vault_ref
        || buyer_to.owner != escrow.buyer || seller_to.owner != escrow.seller {
        return Err(EscrowError::ValidationError);
    }
    if vault_receive.asset != escrow.receive_asset || buyer_to.asset != escrow.receive_asset {
        return Err(EscrowError::InvalidAssetType);
    }
    if vault_receive.balance < escrow.receive_amount {
        return Err(EscrowError::InsufficientBalance);
    }
    if buyer_to.balance > u64::MAX - escrow.receive_amount {
        return Err(EscrowError::Overflow);
    }
    if vault_deposit.asset != escrow.deposit_asset || seller_to.asset != escrow.deposit_asset {
        return Err(EscrowError::InvalidAssetType);
    }
    if vault_deposit.balance < escrow.deposit_amount {
        return Err(EscrowError::InsufficientBalance);
    }
    if seller_to.balance > u64::MAX - escrow.deposit_amount {
        return Err(EscrowError::Overflow);
    }
    execute_transfer(vault_receive, buyer_to, escrow.receive_amount);
    execute_transfer(vault_deposit, seller_to, escrow.deposit_amount);
    escrow.state = EscrowState::Released;
    Ok(EscrowCompleted { escrow: escrow.record_ref, buyer: escrow.buyer, seller: escrow.seller })
}

// --- refunds ----------------------------------------------------------

/// The states from which the buyer may reclaim the deposit. From `Active`
/// the edge exists but nothing is in custody yet, so the transfer itself
/// rejects the attempt.
pub open spec fn buyer_refundable_state(s: EscrowState) -> bool {
    s is Active || s is Funded || s is AssetSent || s is SellerRefunded
}

/// The states from which the seller may reclaim the receive asset.
pub open spec fn seller_refundable_state(s: EscrowState) -> bool {
    s is Active || s is Funded || s is AssetSent || s is BuyerRefunded
}

/// When `refund_buyer` succeeds: the buyer invokes it, the deposit was not
/// refunded before, the state admits it, and the vault can pay the deposit
/// back. Refunds are not gated by expiry: a party can always reclaim its
/// own custodied funds.
pub open spec fn refund_buyer_ok(e: Escrow, actor: u64, vault_deposit: Account, buyer_to: Account) -> bool {
    &&& actor == e.buyer
    &&& !e.buyer_refund
    &&& buyer_refundable_state(e.state)
    &&& vault_deposit.owner == e.vault_ref
    &&& buyer_to.owner == e.buyer
    &&& transfer_ok(e.deposit_asset, vault_deposit, buyer_to, e.deposit_amount)
}

/// The error `refund_buyer` fails with: authorization, the idempotence
/// guard, state, account ownership, then the transfer's objection.
pub open spec fn refund_buyer_err(e: Escrow, actor: u64, vault_deposit: Account, buyer_to: Account) -> EscrowError {
    if actor != e.buyer {
        EscrowError::UnauthorizedBuyer
    } else if e.buyer_refund {
        EscrowError::AlreadyRefunded
    } else if !buyer_refundable_state(e.state) {
        EscrowError::InvalidStateTransition
    } else if vault_deposit.owner != e.vault_ref || buyer_to.owner != e.buyer {
        EscrowError::ValidationError
    } else {
        transfer_err(e.deposit_asset, vault_deposit, buyer_to, e.deposit_amount)
    }
}

/// The state after a successful `refund_buyer`: `Closed` once both sides
/// are made whole, else `BuyerRefunded`.
pub open spec fn refund_buyer_next_state(e: Escrow) -> EscrowState {
    if e.seller_refund {
        EscrowState::Closed
    } else {
        EscrowState::BuyerRefunded
    }
}

/// The buyer reclaims the deposit from the vault. The refund flag is set
/// exactly once; a second invocation fails with `AlreadyRefunded`.
pub fn refund_buyer(escrow: &mut Escrow, actor: u64, vault_deposit: &mut Account, buyer_to: &mut Account) -> (r: Result<EscrowBuyerRefund, EscrowError>)
    ensures
        r is Ok <==> refund_buyer_ok(*old(escrow), actor, *old(vault_deposit), *old(buyer_to)),
        r is Ok ==> same_terms(*old(escrow), *final(escrow))
            && final(escrow).state == refund_buyer_next_state(*old(escrow))
            && final(escrow).buyer_refund
            && final(escrow).seller_refund == old(escrow).seller_refund
            && *final(vault_deposit) == debited(*old(vault_deposit), old(escrow).deposit_amount)
            && *final(buyer_to) == credited(*old(buyer_to), old(escrow).deposit_amount)
            && r->Ok_0 == (EscrowBuyerRefund {
                escrow: old(escrow).record_ref,
                buyer: old(escrow).buyer,
                amount: old(escrow).deposit_amount,
            }),
        r is Err ==> *final(escrow) == *old(escrow)
            && *final(vault_deposit) == *old(vault_deposit)
            && *final(buyer_to) == *old(buyer_to)
            && r->Err_0 == refund_buyer_err(*old(escrow), actor, *old(vault_deposit), *old(buyer_to)),
{
    if actor != escrow.buyer {
        return Err(EscrowError::UnauthorizedBuyer);
    }
    if escrow.buyer_refund {
        return Err(EscrowError::AlreadyRefunded);
    }
    if !matches!(escrow.state, EscrowState::Active | EscrowState::Funded | EscrowState::AssetSent | EscrowState::SellerRefunded) {
        return Err(EscrowError::InvalidStateTransition);
    }
    if vault_deposit.owner != escrow.vault_ref || buyer_to.owner != escrow.buyer {
        return Err(EscrowError::ValidationError);
    }
    match transfer(escrow.deposit_asset, vault_deposit, buyer_to, escrow.deposit_amount) {
        Ok(()) => {}
        Err(err) => {
            return Err(err);
        }
    }
    escrow.buyer_refund = true;
    escrow.state = if escrow.seller_refund {
        EscrowState::Closed
    } else {
        EscrowState::BuyerRefunded
    };
    Ok(EscrowBuyerRefund { escrow: escrow.record_ref, buyer: escrow.buyer, amount: escrow.deposit_amount })
}

/// When `refund_seller` succeeds: the seller's mirror image of
/// `refund_buyer_ok`.
pub open spec fn refund_seller_ok(e: Escrow, actor: u64, vault_receive: Account, seller_to: Account) -> bool {
    &&& actor == e.seller
    &&& !e.seller_refund
    &&& seller_refundable_state(e.state)
    &&& vault_receive.owner == e.vault_ref
    &&& seller_to.owner == e.seller
    &&& transfer_ok(e.receive_asset, vault_receive, seller_to, e.receive_amount)
}

/// The error `refund_seller` fails with.
pub open spec fn refund_seller_err(e: Escrow, actor: u64, vault_receive: Account, seller_to: Account) -> EscrowError {
    if actor != e.seller {
        EscrowError::UnauthorizedSeller
    } else if e.seller_refund {
        EscrowError::AlreadyRefunded
    } else if !seller_refundable_state(e.state) {
        EscrowError::InvalidStateTransition
    } else if vault_receive.owner != e.vault_ref || seller_to.owner != e.seller {
        EscrowError::ValidationError
    } else {
        transfer_err(e.receive_asset, vault_receive, seller_to, e.receive_amount)
    }
}

/// The state after a successful `refund_seller`.
pub open spec fn refund_seller_next_state(e: Escrow) -> EscrowState {
    if e.buyer_refund {
        EscrowState::Closed
    } else {
        EscrowState::SellerRefunded
    }
}

/// The seller reclaims the receive asset from the vault. The refund flag is
/// set exactly once; a second invocation fails with `AlreadyRefunded`.
pub fn refund_seller(escrow: &mut Escrow, actor: u64, vault_receive: &mut Account, seller_to: &mut Account) -> (r: Result<EscrowSellerRefund, EscrowError>)
    ensures
        r is Ok <==> refund_seller_ok(*old(escrow), actor, *old(vault_receive), *old(seller_to)),
        r is Ok ==> same_terms(*old(escrow), *final(escrow))
            && final(escrow).state == refund_seller_next_state(*old(escrow))
            && final(escrow).seller_refund
            && final(escrow).buyer_refund == old(escrow).buyer_refund
            && *final(vault_receive) == debited(*old(vault_receive), old(escrow).receive_amount)
            && *final(seller_to) == credited(*old(seller_to), old(escrow).receive_amount)
            && r->Ok_0 == (EscrowSellerRefund {
                escrow: old(escrow).record_ref,
                seller: old(escrow).seller,
                amount: old(escrow).receive_amount,
            }),
        r is Err ==> *final(escrow) == *old(escrow)
            && *final(vault_receive) == *old(vault_receive)
            && *final(seller_to) == *old(seller_to)
            && r->Err_0 == refund_seller_err(*old(escrow), actor, *old(vault_receive), *old(seller_to)),
{
    if actor != escrow.seller {
        return Err(EscrowError::UnauthorizedSeller);
    }
    if escrow.seller_refund {
        return Err(EscrowError::AlreadyRefunded);
    }
    if !matches!(escrow.state, EscrowState::Active | EscrowState::Funded | EscrowState::AssetSent | EscrowState::BuyerRefunded) {
        return Err(EscrowError::InvalidStateTransition);
    }
    if vault_receive.owner != escrow.vault_ref || seller_to.owner != escrow.seller {
        return Err(EscrowError::ValidationError);
    }
    match transfer(escrow.receive_asset, vault_receive, seller_to, escrow.receive_amount) {
        Ok(()) => {}
        Err(err) => {
            return Err(err);
        }
    }
    escrow.seller_refund = true;
    escrow.state = if escrow.buyer_refund {
        EscrowState::Closed
    } else {
        EscrowState::SellerRefunded
    };
    Ok(EscrowSellerRefund { escrow: escrow.record_ref, seller: escrow.seller, amount: escrow.receive_amount })
}

// --- close ------------------------------------------------------------

/// When `close` succeeds: the buyer — the authority that created the record
/// — invokes it on a non-terminal escrow whose vault custodies nothing, as
/// the two vault accounts attest.
pub open spec fn close_ok(e: Escrow, actor: u64, vault_deposit: Account, vault_receive: Account) -> bool {
    &&& actor == e.buyer
    &&& !is_terminal(e.state)
    &&& vault_deposit.owner == e.vault_ref
    &&& vault_receive.owner == e.vault_ref
    &&& vault_deposit.asset == e.deposit_asset
    &&& vault_receive.asset == e.receive_asset
    &&& vault_deposit.balance == 0
    &&& vault_receive.balance == 0
}

/// The error `close` fails with: authorization, terminal state, account
/// ownership, account typing, then an outstanding custodied balance, which
/// is a state objection — the funds must be disbursed or refunded first.
pub open spec fn close_err(e: Escrow, actor: u64, vault_deposit: Account, vault_receive: Account) -> EscrowError {
    if actor != e.buyer {
        EscrowError::UnauthorizedBuyer
    } else if is_terminal(e.state) {
        EscrowError::InvalidStateTransition
    } else if vault_deposit.owner != e.vault_ref || vault_receive.owner != e.vault_ref {
        EscrowError::ValidationError
    } else if vault_deposit.asset != e.deposit_asset || vault_receive.asset != e.receive_asset {
        EscrowError::InvalidAssetType
    } else {
        EscrowError::InvalidStateTransition
    }
}

/// Terminal cleanup: with nothing custodied, the escrow becomes `Closed`
/// and the host may reclaim the record's storage. The vault accounts are
/// read, never changed.
pub fn close(escrow: &mut Escrow, actor: u64, vault_deposit: &Account, vault_receive: &Account) -> (r: Result<EscrowClosed, EscrowError>)
    ensures
        r is Ok <==> close_ok(*old(escrow), actor, *vault_deposit, *vault_receive),
        r is Ok ==> steps_to(*old(escrow), *final(escrow), EscrowState::Closed)
            && r->Ok_0 == (EscrowClosed {
                escrow: old(escrow).record_ref,
                buyer: old(escrow).buyer,
                seller: old(escrow).seller,
            }),
        r is Err ==> *final(escrow) == *old(escrow)
            && r->Err_0 == close_err(*old(escrow), actor, *vault_deposit, *vault_receive),
{
    if actor != escrow.buyer {
        return Err(EscrowError::UnauthorizedBuyer);
    }
    if matches!(escrow.state, EscrowState::Released | EscrowState::Closed) {
        return Err(EscrowError::InvalidStateTransition);
    }
    if vault_deposit.owner != escrow.vault_ref || vault_receive.owner != escrow.vault_ref {
        return Err(EscrowError::ValidationError);
    }
    if vault_deposit.asset != escrow.deposit_asset || vault_receive.asset != escrow.receive_asset {
        return Err(EscrowError::InvalidAssetType);
    }
    if vault_deposit.balance != 0 || vault_receive.balance != 0 {
        return Err(EscrowError::InvalidStateTransition);
    }
    escrow.state = EscrowState::Closed;
    Ok(EscrowClosed { escrow: escrow.record_ref, buyer: escrow.buyer, seller: escrow.seller })
}

} // verus!
