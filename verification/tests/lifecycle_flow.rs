use escrow::account::{Account, AssetDescriptor};
use escrow::errors::EscrowError;
use escrow::escrow::{Escrow, EscrowState};
use escrow::lifecycle::{accept, close, confirm, fund, initiate_escrow, refund_buyer, send_asset};

const BUYER: u64 = 10;
const SELLER: u64 = 20;
const TOKEN: u64 = 7;

fn new_escrow() -> Escrow {
    let (e, _ev) = initiate_escrow(
        b"x".to_vec(),
        BUYER,
        SELLER,
        AssetDescriptor::Native,
        100,
        AssetDescriptor::Token(TOKEN),
        50,
        0,
        3600,
    )
    .unwrap();
    e
}

struct Accounts {
    buyer_deposit: Account,
    buyer_receive: Account,
    seller_deposit: Account,
    seller_receive: Account,
    vault_deposit: Account,
    vault_receive: Account,
}

fn new_accounts(e: &Escrow) -> Accounts {
    Accounts {
        buyer_deposit: Account { owner: BUYER, asset: AssetDescriptor::Native, balance: 100 },
        buyer_receive: Account { owner: BUYER, asset: AssetDescriptor::Token(TOKEN), balance: 0 },
        seller_deposit: Account { owner: SELLER, asset: AssetDescriptor::Native, balance: 0 },
        seller_receive: Account { owner: SELLER, asset: AssetDescriptor::Token(TOKEN), balance: 50 },
        vault_deposit: Account { owner: e.vault_ref, asset: AssetDescriptor::Native, balance: 0 },
        vault_receive: Account { owner: e.vault_ref, asset: AssetDescriptor::Token(TOKEN), balance: 0 },
    }
}

#[test]
fn full_exchange_releases_both_sides() {
    let mut e = new_escrow();
    let mut a = new_accounts(&e);

    let accepted = accept(&mut e, SELLER, 10).unwrap();
    assert_eq!(e.state, EscrowState::Active);
    assert_eq!(accepted.seller, SELLER);

    let funded = fund(&mut e, BUYER, 20, &mut a.buyer_deposit, &mut a.vault_deposit).unwrap();
    assert_eq!(e.state, EscrowState::Funded);
    assert_eq!(funded.asset, AssetDescriptor::Native);
    assert_eq!(funded.amount, 100);
    assert_eq!(a.buyer_deposit.balance, 0);
    assert_eq!(a.vault_deposit.balance, 100);

    let sent = send_asset(&mut e, SELLER, &mut a.seller_receive, &mut a.vault_receive).unwrap();
    assert_eq!(e.state, EscrowState::AssetSent);
    assert_eq!(sent.amount, 50);
    assert_eq!(a.seller_receive.balance, 0);
    assert_eq!(a.vault_receive.balance, 50);

    let completed = confirm(
        &mut e,
        BUYER,
        30,
        &mut a.vault_deposit,
        &mut a.vault_receive,
        &mut a.buyer_receive,
        &mut a.seller_deposit,
    )
    .unwrap();
    assert_eq!(e.state, EscrowState::Released);
    assert_eq!(completed.buyer, BUYER);
    assert_eq!(completed.seller, SELLER);
    assert_eq!(a.buyer_receive.balance, 50);
    assert_eq!(a.seller_deposit.balance, 100);
    assert_eq!(a.vault_deposit.balance, 0);
    assert_eq!(a.vault_receive.balance, 0);
    assert!(!e.buyer_refund);
    assert!(!e.seller_refund);
}

#[test]
fn refund_after_fund_only_returns_deposit() {
    let mut e = new_escrow();
    let mut a = new_accounts(&e);
    accept(&mut e, SELLER, 10).unwrap();
    fund(&mut e, BUYER, 20, &mut a.buyer_deposit, &mut a.vault_deposit).unwrap();

    let refund = refund_buyer(&mut e, BUYER, &mut a.vault_deposit, &mut a.buyer_deposit).unwrap();
    assert_eq!(refund.amount, 100);
    assert_eq!(a.buyer_deposit.balance, 100);
    assert_eq!(a.vault_deposit.balance, 0);
    assert_eq!(e.state, EscrowState::BuyerRefunded);
    assert!(e.buyer_refund);
    assert!(!e.seller_refund);
}

#[test]
fn accept_after_expiry_fails_expired() {
    let mut e = new_escrow();
    let before = e.state;
    let err = accept(&mut e, SELLER, 4000).unwrap_err();
    assert_eq!(err, EscrowError::EscrowExpired);
    assert_eq!(e.state, before);
    assert_eq!(e.state, EscrowState::Pending);
}

#[test]
fn confirm_by_non_buyer_fails_unauthorized() {
    let mut e = new_escrow();
    let mut a = new_accounts(&e);
    accept(&mut e, SELLER, 10).unwrap();
    fund(&mut e, BUYER, 20, &mut a.buyer_deposit, &mut a.vault_deposit).unwrap();
    send_asset(&mut e, SELLER, &mut a.seller_receive, &mut a.vault_receive).unwrap();

    let err = confirm(
        &mut e,
        SELLER,
        30,
        &mut a.vault_deposit,
        &mut a.vault_receive,
        &mut a.buyer_receive,
        &mut a.seller_deposit,
    )
    .unwrap_err();
    assert_eq!(err, EscrowError::UnauthorizedBuyer);
    assert_eq!(e.state, EscrowState::AssetSent);
    assert_eq!(a.vault_deposit.balance, 100);
    assert_eq!(a.vault_receive.balance, 50);
    assert_eq!(a.buyer_receive.balance, 0);
    assert_eq!(a.seller_deposit.balance, 0);
}

#[test]
fn initiate_with_zero_deposit_fails_validation() {
    let r = initiate_escrow(
        b"x".to_vec(),
        BUYER,
        SELLER,
        AssetDescriptor::Native,
        0,
        AssetDescriptor::Token(TOKEN),
        50,
        0,
        3600,
    );
    assert_eq!(r.unwrap_err(), EscrowError::ValidationError);
}

#[test]
fn confirm_after_expiry_fails_expired() {
    let mut e = new_escrow();
    let mut a = new_accounts(&e);
    accept(&mut e, SELLER, 10).unwrap();
    fund(&mut e, BUYER, 20, &mut a.buyer_deposit, &mut a.vault_deposit).unwrap();
    send_asset(&mut e, SELLER, &mut a.seller_receive, &mut a.vault_receive).unwrap();

    let err = confirm(
        &mut e,
        BUYER,
        3600,
        &mut a.vault_deposit,
        &mut a.vault_receive,
        &mut a.buyer_receive,
        &mut a.seller_deposit,
    )
    .unwrap_err();
    assert_eq!(err, EscrowError::EscrowExpired);
    assert_eq!(e.state, EscrowState::AssetSent);
    assert_eq!(a.vault_receive.balance, 50);
}

#[test]
fn released_escrow_admits_no_further_operation() {
    let mut e = new_escrow();
    let mut a = new_accounts(&e);
    accept(&mut e, SELLER, 10).unwrap();
    fund(&mut e, BUYER, 20, &mut a.buyer_deposit, &mut a.vault_deposit).unwrap();
    send_asset(&mut e, SELLER, &mut a.seller_receive, &mut a.vault_receive).unwrap();
    confirm(
        &mut e,
        BUYER,
        30,
        &mut a.vault_deposit,
        &mut a.vault_receive,
        &mut a.buyer_receive,
        &mut a.seller_deposit,
    )
    .unwrap();

    let err = refund_buyer(&mut e, BUYER, &mut a.vault_deposit, &mut a.buyer_deposit).unwrap_err();
    assert_eq!(err, EscrowError::InvalidStateTransition);
    let err = close(&mut e, BUYER, &a.vault_deposit, &a.vault_receive).unwrap_err();
    assert_eq!(err, EscrowError::InvalidStateTransition);
    assert_eq!(e.state, EscrowState::Released);
}

#[test]
fn close_after_both_refunds_is_rejected_as_already_closed() {
    let mut e = new_escrow();
    let mut a = new_accounts(&e);
    accept(&mut e, SELLER, 10).unwrap();
    fund(&mut e, BUYER, 20, &mut a.buyer_deposit, &mut a.vault_deposit).unwrap();
    send_asset(&mut e, SELLER, &mut a.seller_receive, &mut a.vault_receive).unwrap();
    refund_buyer(&mut e, BUYER, &mut a.vault_deposit, &mut a.buyer_deposit).unwrap();
    assert_eq!(e.state, EscrowState::BuyerRefunded);
    escrow::lifecycle::refund_seller(&mut e, SELLER, &mut a.vault_receive, &mut a.seller_receive)
        .unwrap();
    assert_eq!(e.state, EscrowState::Closed);
    assert!(e.buyer_refund && e.seller_refund);

    let err = close(&mut e, BUYER, &a.vault_deposit, &a.vault_receive).unwrap_err();
    assert_eq!(err, EscrowError::InvalidStateTransition);
}

#[test]
fn close_of_unfunded_escrow_succeeds() {
    let mut e = new_escrow();
    let a = new_accounts(&e);
    let ev = close(&mut e, BUYER, &a.vault_deposit, &a.vault_receive).unwrap();
    assert_eq!(e.state, EscrowState::Closed);
    assert_eq!(ev.buyer, BUYER);
    assert_eq!(ev.seller, SELLER);
}

#[test]
fn close_with_outstanding_custody_fails() {
    let mut e = new_escrow();
    let mut a = new_accounts(&e);
    accept(&mut e, SELLER, 10).unwrap();
    fund(&mut e, BUYER, 20, &mut a.buyer_deposit, &mut a.vault_deposit).unwrap();
    let err = close(&mut e, BUYER, &a.vault_deposit, &a.vault_receive).unwrap_err();
    assert_eq!(err, EscrowError::InvalidStateTransition);
    assert_eq!(e.state, EscrowState::Funded);
}
