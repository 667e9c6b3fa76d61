use escrow::account::{transfer, Account, AssetDescriptor};
use escrow::errors::{ErrorClass, EscrowError};
use escrow::escrow::EscrowState;
use escrow::lifecycle::{accept, fund, initiate_escrow, send_asset};

const BUYER: u64 = 10;
const SELLER: u64 = 20;
const TOKEN: u64 = 7;

fn initiate_with(
    id: Vec<u8>,
    buyer: u64,
    seller: u64,
    deposit_asset: AssetDescriptor,
    deposit_amount: u64,
    receive_asset: AssetDescriptor,
    receive_amount: u64,
    now: i64,
    expiry: i64,
) -> Result<escrow::escrow::Escrow, EscrowError> {
    initiate_escrow(
        id,
        buyer,
        seller,
        deposit_asset,
        deposit_amount,
        receive_asset,
        receive_amount,
        now,
        expiry,
    )
    .map(|(e, _ev)| e)
}

#[test]
fn empty_id_is_rejected() {
    let r = initiate_with(
        Vec::new(),
        BUYER,
        SELLER,
        AssetDescriptor::Native,
        100,
        AssetDescriptor::Token(TOKEN),
        50,
        0,
        3600,
    );
    assert_eq!(r.unwrap_err(), EscrowError::ValidationError);
}

#[test]
fn oversized_id_is_rejected_and_longest_id_is_not() {
    let r = initiate_with(
        vec![b'a'; 33],
        BUYER,
        SELLER,
        AssetDescriptor::Native,
        100,
        AssetDescriptor::Token(TOKEN),
        50,
        0,
        3600,
    );
    assert_eq!(r.unwrap_err(), EscrowError::ValidationError);

    let e = initiate_with(
        vec![b'a'; 32],
        BUYER,
        SELLER,
        AssetDescriptor::Native,
        100,
        AssetDescriptor::Token(TOKEN),
        50,
        0,
        3600,
    )
    .unwrap();
    assert_eq!(e.escrow_id.len(), 32);
    assert_eq!(e.state, EscrowState::Pending);
}

#[test]
fn same_party_on_both_sides_is_rejected() {
    let r = initiate_with(
        b"x".to_vec(),
        BUYER,
        BUYER,
        AssetDescriptor::Native,
        100,
        AssetDescriptor::Token(TOKEN),
        50,
        0,
        3600,
    );
    assert_eq!(r.unwrap_err(), EscrowError::ValidationError);
}

#[test]
fn zero_receive_amount_is_rejected() {
    let r = initiate_with(
        b"x".to_vec(),
        BUYER,
        SELLER,
        AssetDescriptor::Native,
        100,
        AssetDescriptor::Token(TOKEN),
        0,
        0,
        3600,
    );
    assert_eq!(r.unwrap_err(), EscrowError::ValidationError);
}

#[test]
fn native_for_native_swap_is_rejected() {
    let r = initiate_with(
        b"x".to_vec(),
        BUYER,
        SELLER,
        AssetDescriptor::Native,
        100,
        AssetDescriptor::Native,
        50,
        0,
        3600,
    );
    assert_eq!(r.unwrap_err(), EscrowError::ValidationError);
}

#[test]
fn same_token_swap_is_rejected_but_distinct_tokens_are_not() {
    let r = initiate_with(
        b"x".to_vec(),
        BUYER,
        SELLER,
        AssetDescriptor::Token(TOKEN),
        100,
        AssetDescriptor::Token(TOKEN),
        50,
        0,
        3600,
    );
    assert_eq!(r.unwrap_err(), EscrowError::ValidationError);

    let e = initiate_with(
        b"x".to_vec(),
        BUYER,
        SELLER,
        AssetDescriptor::Token(TOKEN),
        100,
        AssetDescriptor::Token(TOKEN + 1),
        50,
        0,
        3600,
    )
    .unwrap();
    assert_eq!(e.deposit_asset, AssetDescriptor::Token(TOKEN));
}

#[test]
fn expiry_not_in_the_future_is_rejected() {
    let r = initiate_with(
        b"x".to_vec(),
        BUYER,
        SELLER,
        AssetDescriptor::Native,
        100,
        AssetDescriptor::Token(TOKEN),
        50,
        3600,
        3600,
    );
    assert_eq!(r.unwrap_err(), EscrowError::ValidationError);
}

#[test]
fn accept_by_non_seller_fails_unauthorized() {
    let mut e = initiate_with(
        b"x".to_vec(),
        BUYER,
        SELLER,
        AssetDescriptor::Native,
        100,
        AssetDescriptor::Token(TOKEN),
        50,
        0,
        3600,
    )
    .unwrap();
    let err = accept(&mut e, BUYER, 10).unwrap_err();
    assert_eq!(err, EscrowError::UnauthorizedSeller);
    assert_eq!(e.state, EscrowState::Pending);
}

#[test]
fn fund_before_accept_fails_state() {
    let mut e = initiate_with(
        b"x".to_vec(),
        BUYER,
        SELLER,
        AssetDescriptor::Native,
        100,
        AssetDescriptor::Token(TOKEN),
        50,
        0,
        3600,
    )
    .unwrap();
    let mut from = Account { owner: BUYER, asset: AssetDescriptor::Native, balance: 100 };
    let mut vault = Account { owner: e.vault_ref, asset: AssetDescriptor::Native, balance: 0 };
    let err = fund(&mut e, BUYER, 10, &mut from, &mut vault).unwrap_err();
    assert_eq!(err, EscrowError::InvalidStateTransition);
    assert_eq!(from.balance, 100);
    assert_eq!(vault.balance, 0);
}

#[test]
fn fund_with_insufficient_balance_fails() {
    let mut e = initiate_with(
        b"x".to_vec(),
        BUYER,
        SELLER,
        AssetDescriptor::Native,
        100,
        AssetDescriptor::Token(TOKEN),
        50,
        0,
        3600,
    )
    .unwrap();
    accept(&mut e, SELLER, 10).unwrap();
    let mut from = Account { owner: BUYER, asset: AssetDescriptor::Native, balance: 99 };
    let mut vault = Account { owner: e.vault_ref, asset: AssetDescriptor::Native, balance: 0 };
    let err = fund(&mut e, BUYER, 20, &mut from, &mut vault).unwrap_err();
    assert_eq!(err, EscrowError::InsufficientBalance);
    assert_eq!(e.state, EscrowState::Active);
    assert_eq!(from.balance, 99);
}

#[test]
fn fund_overflowing_the_vault_fails() {
    let mut e = initiate_with(
        b"x".to_vec(),
        BUYER,
        SELLER,
        AssetDescriptor::Native,
        100,
        AssetDescriptor::Token(TOKEN),
        50,
        0,
        3600,
    )
    .unwrap();
    accept(&mut e, SELLER, 10).unwrap();
    let mut from = Account { owner: BUYER, asset: AssetDescriptor::Native, balance: 100 };
    let mut vault =
        Account { owner: e.vault_ref, asset: AssetDescriptor::Native, balance: u64::MAX - 99 };
    let err = fund(&mut e, BUYER, 20, &mut from, &mut vault).unwrap_err();
    assert_eq!(err, EscrowError::Overflow);
    assert_eq!(from.balance, 100);
    assert_eq!(vault.balance, u64::MAX - 99);
}

#[test]
fn mistyped_account_fails_asset_check() {
    let mut e = initiate_with(
        b"x".to_vec(),
        BUYER,
        SELLER,
        AssetDescriptor::Native,
        100,
        AssetDescriptor::Token(TOKEN),
        50,
        0,
        3600,
    )
    .unwrap();
    accept(&mut e, SELLER, 10).unwrap();
    let mut from = Account { owner: BUYER, asset: AssetDescriptor::Token(TOKEN), balance: 100 };
    let mut vault = Account { owner: e.vault_ref, asset: AssetDescriptor::Native, balance: 0 };
    let err = fund(&mut e, BUYER, 20, &mut from, &mut vault).unwrap_err();
    assert_eq!(err, EscrowError::InvalidAssetType);
}

#[test]
fn foreign_account_fails_ownership_check() {
    let mut e = initiate_with(
        b"x".to_vec(),
        BUYER,
        SELLER,
        AssetDescriptor::Native,
        100,
        AssetDescriptor::Token(TOKEN),
        50,
        0,
        3600,
    )
    .unwrap();
    accept(&mut e, SELLER, 10).unwrap();
    let mut buyer_deposit = Account { owner: BUYER, asset: AssetDescriptor::Native, balance: 100 };
    let mut vault_deposit = Account { owner: e.vault_ref, asset: AssetDescriptor::Native, balance: 0 };
    fund(&mut e, BUYER, 20, &mut buyer_deposit, &mut vault_deposit).unwrap();
    let mut from = Account { owner: BUYER, asset: AssetDescriptor::Token(TOKEN), balance: 50 };
    let mut vault = Account { owner: e.vault_ref, asset: AssetDescriptor::Token(TOKEN), balance: 0 };
    let err = send_asset(&mut e, SELLER, &mut from, &mut vault).unwrap_err();
    assert_eq!(err, EscrowError::ValidationError);
    assert_eq!(e.state, EscrowState::Funded);
}

#[test]
fn transfer_moves_exactly_the_amount() {
    let mut from = Account { owner: 1, asset: AssetDescriptor::Token(3), balance: 75 };
    let mut to = Account { owner: 2, asset: AssetDescriptor::Token(3), balance: 5 };
    transfer(AssetDescriptor::Token(3), &mut from, &mut to, 70).unwrap();
    assert_eq!(from.balance, 5);
    assert_eq!(to.balance, 75);
    let err = transfer(AssetDescriptor::Token(4), &mut from, &mut to, 1).unwrap_err();
    assert_eq!(err, EscrowError::InvalidAssetType);
    assert_eq!(from.balance, 5);
    assert_eq!(to.balance, 75);
}

#[test]
fn error_classes_follow_the_taxonomy() {
    assert_eq!(EscrowError::ValidationError.class(), ErrorClass::Validation);
    assert_eq!(EscrowError::UnauthorizedBuyer.class(), ErrorClass::Authorization);
    assert_eq!(EscrowError::UnauthorizedSeller.class(), ErrorClass::Authorization);
    assert_eq!(EscrowError::InvalidStateTransition.class(), ErrorClass::State);
    assert_eq!(EscrowError::EscrowExpired.class(), ErrorClass::Temporal);
    assert_eq!(EscrowError::AlreadyRefunded.class(), ErrorClass::State);
    assert_eq!(EscrowError::InsufficientBalance.class(), ErrorClass::Balance);
    assert_eq!(EscrowError::Overflow.class(), ErrorClass::Balance);
    assert_eq!(EscrowError::InvalidAssetType.class(), ErrorClass::AssetMismatch);
}
