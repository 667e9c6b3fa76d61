//! The state machine seen as a whole: one escrow record together with the
//! six accounts an operation can touch, and a single step relation that
//! covers every lifecycle operation after initiation.
//!
//! The per-operation functions in `lifecycle` are the executable interface;
//! their contracts are written over the same `*_ok` conditions and the same
//! debit and credit effects this relation is built from. The laws in `laws`
//! quantify over a step and so hold of whichever operation a caller invokes.

use vstd::prelude::*;

use crate::account::{credited, debited, Account};
use crate::errors::EscrowError;
use crate::escrow::{same_terms, steps_to, Escrow, EscrowState};
use crate::events::{
    EscrowAccepted, EscrowAssetSent, EscrowBuyerRefund, EscrowClosed, EscrowCompleted,
    EscrowEvent, EscrowFunded, EscrowSellerRefund,
};
use crate::lifecycle::{
    accept, accept_err, accept_ok, close, close_err, close_ok, confirm, confirm_err,
    confirm_ok, fund, fund_err, fund_ok, refund_buyer, refund_buyer_err,
    refund_buyer_next_state, refund_buyer_ok, refund_seller, refund_seller_err,
    refund_seller_next_state, refund_seller_ok, send_asset, send_asset_err, send_asset_ok,
};

verus! {

/// The lifecycle operations that act on an existing escrow.
#[derive(Clone, Copy, Debug, PartialEq, Eq, Structural)]
pub enum Operation {
    Accept,
    Fund,
    SendAsset,
    Confirm,
    RefundBuyer,
    RefundSeller,
    Close,
}

/// Everything one escrow's operations can read or write: the record and the
/// six accounts — each party's holding of each asset, and the vault's two
/// custody accounts.
pub struct World {
    pub escrow: Escrow,
    /// The buyer's deposit-asset account.
    pub buyer_deposit: Account,
    /// The buyer's receive-asset account.
    pub buyer_receive: Account,
    /// The seller's deposit-asset account.
    pub seller_deposit: Account,
    /// The seller's receive-asset account.
    pub seller_receive: Account,
    /// The vault's custody account for the deposit asset.
    pub vault_deposit: Account,
    /// The vault's custody account for the receive asset.
    pub vault_receive: Account,
}

/// Whether `op`, invoked by `actor` at time `now`, succeeds on `w`.
pub open spec fn step_ok(w: World, op: Operation, actor: u64, now: i64) -> bool {
    match op {
        Operation::Accept => accept_ok(w.escrow, actor, now),
        Operation::Fund => fund_ok(w.escrow, actor, now, w.buyer_deposit, w.vault_deposit),
        Operation::SendAsset => send_asset_ok(w.escrow, actor, w.seller_receive, w.vault_receive),
        Operation::Confirm => confirm_ok(
            w.escrow, actor, now, w.vault_deposit, w.vault_receive, w.buyer_receive, w.seller_deposit,
        ),
        Operation::RefundBuyer => refund_buyer_ok(w.escrow, actor, w.vault_deposit, w.buyer_deposit),
        Operation::RefundSeller => refund_seller_ok(w.escrow, actor, w.vault_receive, w.seller_receive),
        Operation::Close => close_ok(w.escrow, actor, w.vault_deposit, w.vault_receive),
    }
}

/// The accounts of `post` that `op` does not move are those of `pre`.
pub open spec fn accounts_framed(pre: World, post: World, op: Operation) -> bool {
    &&& (match op {
        Operation::Fund => true,
        Operation::RefundBuyer => true,
        _ => post.buyer_deposit == pre.buyer_deposit,
    })
    &&& (match op {
        Operation::Confirm => true,
        _ => post.buyer_receive == pre.buyer_receive,
    })
    &&& (match op {
        Operation::Confirm => true,
        _ => post.seller_deposit == pre.seller_deposit,
    })
    &&& (match op {
        Operation::SendAsset => true,
        Operation::RefundSeller => true,
        _ => post.seller_receive == pre.seller_receive,
    })
    &&& (match op {
        Operation::Fund => true,
        Operation::Confirm => true,
        Operation::RefundBuyer => true,
        _ => post.vault_deposit == pre.vault_deposit,
    })
    &&& (match op {
        Operation::SendAsset => true,
        Operation::Confirm => true,
        Operation::RefundSeller => true,
        _ => post.vault_receive == pre.vault_receive,
    })
}

/// The full effect of a successful step: how a succeeding `op` takes `pre`
/// to `post`.
pub open spec fn step_rel(pre: World, post: World, op: Operation, actor: u64, now: i64) -> bool {
    &&& step_ok(pre, op, actor, now)
    &&& accounts_framed(pre, post, op)
    &&& (match op {
        Operation::Accept => steps_to(pre.escrow, post.escrow, EscrowState::Active),
        Operation::Fund => {
            &&& steps_to(pre.escrow, post.escrow, EscrowState::Funded)
            &&& post.buyer_deposit == debited(pre.buyer_deposit, pre.escrow.deposit_amount)
            &&& post.vault_deposit == credited(pre.vault_deposit, pre.escrow.deposit_amount)
        },
        Operation::SendAsset => {
            &&& steps_to(pre.escrow, post.escrow, EscrowState::AssetSent)
            &&& post.seller_receive == debited(pre.seller_receive, pre.escrow.receive_amount)
            &&& post.vault_receive == credited(pre.vault_receive, pre.escrow.receive_amount)
        },
        Operation::Confirm => {
            &&& steps_to(pre.escrow, post.escrow, EscrowState::Released)
            &&& post.vault_receive == debited(pre.vault_receive, pre.escrow.receive_amount)
            &&& post.buyer_receive == credited(pre.buyer_receive, pre.escrow.receive_amount)
            &&& post.vault_deposit == debited(pre.vault_deposit, pre.escrow.deposit_amount)
            &&& post.seller_deposit == credited(pre.seller_deposit, pre.escrow.deposit_amount)
        },
        Operation::RefundBuyer => {
            &&& same_terms(pre.escrow, post.escrow)
            &&& post.escrow.state == refund_buyer_next_state(pre.escrow)
            &&& post.escrow.buyer_refund
            &&& post.escrow.seller_refund == pre.escrow.seller_refund
            &&& post.vault_deposit == debited(pre.vault_deposit, pre.escrow.deposit_amount)
            &&& post.buyer_deposit == credited(pre.buyer_deposit, pre.escrow.deposit_amount)
        },
        Operation::RefundSeller => {
            &&& same_terms(pre.escrow, post.escrow)
            &&& post.escrow.state == refund_seller_next_state(pre.escrow)
            &&& post.escrow.seller_refund
            &&& post.escrow.buyer_refund == pre.escrow.buyer_refund
            &&& post.vault_receive == debited(pre.vault_receive, pre.escrow.receive_amount)
            &&& post.seller_receive == credited(pre.seller_receive, pre.escrow.receive_amount)
        },
        Operation::Close => steps_to(pre.escrow, post.escrow, EscrowState::Closed),
    })
}

/// The error a failing `op` reports: the invoked operation's own.
pub open spec fn step_err(w: World, op: Operation, actor: u64, now: i64) -> EscrowError {
    match op {
        Operation::Accept => accept_err(w.escrow, actor, now),
        Operation::Fund => fund_err(w.escrow, actor, now, w.buyer_deposit, w.vault_deposit),
        Operation::SendAsset => send_asset_err(w.escrow, actor, w.seller_receive, w.vault_receive),
        Operation::Confirm => confirm_err(
            w.escrow, actor, now, w.vault_deposit, w.vault_receive, w.buyer_receive, w.seller_deposit,
        ),
        Operation::RefundBuyer => refund_buyer_err(w.escrow, actor, w.vault_deposit, w.buyer_deposit),
        Operation::RefundSeller => refund_seller_err(w.escrow, actor, w.vault_receive, w.seller_receive),
        Operation::Close => close_err(w.escrow, actor, w.vault_deposit, w.vault_receive),
    }
}

/// The event a succeeding `op` reports, from the record it acted on.
pub open spec fn step_event(w: World, op: Operation) -> EscrowEvent {
    let e = w.escrow;
    match op {
        Operation::Accept => EscrowEvent::Accepted(
            EscrowAccepted { escrow: e.record_ref, seller: e.seller },
        ),
        Operation::Fund => EscrowEvent::Funded(
            EscrowFunded { escrow: e.record_ref, asset: e.deposit_asset, amount: e.deposit_amount },
        ),
        Operation::SendAsset => EscrowEvent::AssetSent(
            EscrowAssetSent { escrow: e.record_ref, seller: e.seller, amount: e.receive_amount },
        ),
        Operation::Confirm => EscrowEvent::Completed(
            EscrowCompleted { escrow: e.record_ref, buyer: e.buyer, seller: e.seller },
        ),
        Operation::RefundBuyer => EscrowEvent::BuyerRefund(
            EscrowBuyerRefund { escrow: e.record_ref, buyer: e.buyer, amount: e.deposit_amount },
        ),
        Operation::RefundSeller => EscrowEvent::SellerRefund(
            EscrowSellerRefund { escrow: e.record_ref, seller: e.seller, amount: e.receive_amount },
        ),
        Operation::Close => EscrowEvent::Closed(
            EscrowClosed { escrow: e.record_ref, buyer: e.buyer, seller: e.seller },
        ),
    }
}

/// One entry point for every operation on an existing escrow, for hosts
/// that dispatch requests rather than call the operations one by one.
///
/// A success is exactly a step of the machine's step relation, and returns
/// that step's event; a failure — the invoked operation's own error —
/// changes nothing.
pub fn apply(w: &mut World, op: Operation, actor: u64, now: i64) -> (r: Result<EscrowEvent, EscrowError>)
    ensures
        r is Ok <==> step_ok(*old(w), op, actor, now),
        r is Ok ==> step_rel(*old(w), *final(w), op, actor, now)
            && r->Ok_0 == step_event(*old(w), op),
        r is Err ==> final(w).escrow == old(w).escrow
            && final(w).buyer_deposit == old(w).buyer_deposit
            && final(w).buyer_receive == old(w).buyer_receive
            && final(w).seller_deposit == old(w).seller_deposit
            && final(w).seller_receive == old(w).seller_receive
            && final(w).vault_deposit == old(w).vault_deposit
            && final(w).vault_receive == old(w).vault_receive
            && r->Err_0 == step_err(*old(w), op, actor, now),
{
    match op {
        Operation::Accept => match accept(&mut w.escrow, actor, now) {
            Ok(ev) => Ok(EscrowEvent::Accepted(ev)),
            Err(err) => Err(err),
        },
        Operation::Fund => match fund(&mut w.escrow, actor, now, &mut w.buyer_deposit, &mut w.vault_deposit) {
            Ok(ev) => Ok(EscrowEvent::Funded(ev)),
            Err(err) => Err(err),
        },
        Operation::SendAsset => match send_asset(&mut w.escrow, actor, &mut w.seller_receive, &mut w.vault_receive) {
            Ok(ev) => Ok(EscrowEvent::AssetSent(ev)),
            Err(err) => Err(err),
        },
        Operation::Confirm => match confirm(
            &mut w.escrow,
            actor,
            now,
            &mut w.vault_deposit,
            &mut w.vault_receive,
            &mut w.buyer_receive,
            &mut w.seller_deposit,
        ) {
            Ok(ev) => Ok(EscrowEvent::Completed(ev)),
            Err(err) => Err(err),
        },
        Operation::RefundBuyer => match refund_buyer(&mut w.escrow, actor, &mut w.vault_deposit, &mut w.buyer_deposit) {
            Ok(ev) => Ok(EscrowEvent::BuyerRefund(ev)),
            Err(err) => Err(err),
        },
        Operation::RefundSeller => match refund_seller(&mut w.escrow, actor, &mut w.vault_receive, &mut w.seller_receive) {
            Ok(ev) => Ok(EscrowEvent::SellerRefund(ev)),
            Err(err) => Err(err),
        },
        Operation::Close => match close(&mut w.escrow, actor, &w.vault_deposit, &w.vault_receive) {
            Ok(ev) => Ok(EscrowEvent::Closed(ev)),
            Err(err) => Err(err),
        },
    }
}

} // verus!
