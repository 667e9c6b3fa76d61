//! The engine's laws, proved once over the step relation and therefore of
//! every lifecycle operation a caller invokes.

use vstd::prelude::*;

use crate::escrow::{is_terminal, same_terms, Escrow};
use crate::machine::{step_ok, step_rel, Operation, World};

verus! {

/// Well-formedness — positive amounts, distinct parties and assets, the
/// refund-flag bookkeeping and the derived addresses — is preserved by
/// every step, so it holds of every reachable record.
pub proof fn lemma_step_preserves_invariant(pre: World, post: World, op: Operation, actor: u64, now: i64)
    requires
        pre.escrow.wf(),
        step_rel(pre, post, op, actor, now),
    ensures
        post.escrow.wf(),
        post.escrow.deposit_amount > 0,
        post.escrow.receive_amount > 0,
{
}

/// Once both refund flags are set, the state is `Closed`.
pub proof fn lemma_both_refunded_closed(e: Escrow)
    requires
        e.wf(),
        e.buyer_refund,
        e.seller_refund,
    ensures
        e.state is Closed,
{
}

/// Refund flags only ever go from clear to set, and a refund whose flag is
/// already set is refused: each side is refunded at most once.
pub proof fn lemma_refund_at_most_once(pre: World, post: World, op: Operation, actor: u64, now: i64)
    requires
        step_rel(pre, post, op, actor, now),
    ensures
        pre.escrow.buyer_refund ==> post.escrow.buyer_refund,
        pre.escrow.seller_refund ==> post.escrow.seller_refund,
        pre.escrow.buyer_refund ==> !step_ok(pre, Operation::RefundBuyer, actor, now),
        pre.escrow.seller_refund ==> !step_ok(pre, Operation::RefundSeller, actor, now),
{
}

/// Custody safety: value leaves a vault account only through `confirm` or
/// the matching refund, and then exactly the amount recorded at initiation.
/// And once a side is refunded, that side's funds never move again.
pub proof fn lemma_vault_custody(pre: World, post: World, op: Operation, actor: u64, now: i64)
    requires
        step_rel(pre, post, op, actor, now),
    ensures
        post.vault_deposit.balance < pre.vault_deposit.balance ==> {
            &&& op is Confirm || op is RefundBuyer
            &&& pre.vault_deposit.balance - post.vault_deposit.balance == pre.escrow.deposit_amount
        },
        post.vault_receive.balance < pre.vault_receive.balance ==> {
            &&& op is Confirm || op is RefundSeller
            &&& pre.vault_receive.balance - post.vault_receive.balance == pre.escrow.receive_amount
        },
        pre.escrow.wf() && pre.escrow.buyer_refund ==> {
            &&& post.vault_deposit == pre.vault_deposit
            &&& post.buyer_deposit == pre.buyer_deposit
        },
        pre.escrow.wf() && pre.escrow.seller_refund ==> {
            &&& post.vault_receive == pre.vault_receive
            &&& post.seller_receive == pre.seller_receive
        },
{
}

/// `Released` and `Closed` are terminal: from them no operation succeeds,
/// so the record never changes again.
pub proof fn lemma_terminal_no_step(pre: World, op: Operation, actor: u64, now: i64)
    requires
        is_terminal(pre.escrow.state),
    ensures
        !step_ok(pre, op, actor, now),
{
}

/// No step ever leads back to `Pending`: transitions only move forward
/// along the lifecycle graph.
pub proof fn lemma_no_step_to_pending(pre: World, post: World, op: Operation, actor: u64, now: i64)
    requires
        step_rel(pre, post, op, actor, now),
    ensures
        !(post.escrow.state is Pending),
{
}

/// The round trip: accept, fund, send and confirm, run in order from a
/// fresh escrow whose vault holds nothing, leave the buyer holding exactly
/// the receive amount more, the seller exactly the deposit amount more,
/// each payer exactly its side's amount less, and the vault again empty.
pub proof fn lemma_round_trip(
    w0: World, w1: World, w2: World, w3: World, w4: World,
    a1: u64, a2: u64, a3: u64, a4: u64,
    t1: i64, t2: i64, t3: i64, t4: i64,
)
    requires
        w0.vault_deposit.balance == 0,
        w0.vault_receive.balance == 0,
        step_rel(w0, w1, Operation::Accept, a1, t1),
        step_rel(w1, w2, Operation::Fund, a2, t2),
        step_rel(w2, w3, Operation::SendAsset, a3, t3),
        step_rel(w3, w4, Operation::Confirm, a4, t4),
    ensures
        w4.escrow.state is Released,
        same_terms(w0.escrow, w4.escrow),
        w4.buyer_receive.balance == w0.buyer_receive.balance + w0.escrow.receive_amount,
        w4.seller_deposit.balance == w0.seller_deposit.balance + w0.escrow.deposit_amount,
        w4.buyer_deposit.balance == w0.buyer_deposit.balance - w0.escrow.deposit_amount,
        w4.seller_receive.balance == w0.seller_receive.balance - w0.escrow.receive_amount,
        w4.vault_deposit.balance == 0,
        w4.vault_receive.balance == 0,
{
}

} // verus!
