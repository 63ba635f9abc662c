use metadata_setter::{Bucket, CredentialVault, Error, AUTHORIZATION_AMOUNT};
use scrypto::prelude::{ResourceAddress, ACCOUNT_OWNER_BADGE, XRD};

const BADGE: ResourceAddress = ACCOUNT_OWNER_BADGE;

fn vault_holding(amount: u128) -> CredentialVault {
    let mut vault = CredentialVault::new(BADGE);
    assert_eq!(vault.put(Bucket { resource: BADGE, amount }), Ok(()));
    vault
}

#[test]
fn new_vault_is_empty_and_bound_to_its_resource() {
    let vault = CredentialVault::new(BADGE);
    assert_eq!(vault.amount(), 0);
    assert!(vault.is_empty());
    assert_eq!(vault.resource_address(), BADGE);
}

#[test]
fn deposit_raises_balance_by_the_deposited_amount() {
    let mut vault = CredentialVault::new(BADGE);
    assert_eq!(vault.put(Bucket { resource: BADGE, amount: 3 }), Ok(()));
    assert_eq!(vault.amount(), 3);
    assert_eq!(vault.put(Bucket { resource: BADGE, amount: 4 }), Ok(()));
    assert_eq!(vault.amount(), 7);
    assert!(!vault.is_empty());
}

#[test]
fn deposit_of_nothing_changes_nothing() {
    let mut vault = vault_holding(5);
    assert_eq!(vault.put(Bucket { resource: BADGE, amount: 0 }), Ok(()));
    assert_eq!(vault.amount(), 5);
}

#[test]
fn deposit_up_to_the_largest_balance() {
    let mut vault = vault_holding(1);
    assert_eq!(vault.put(Bucket { resource: BADGE, amount: u128::MAX - 1 }), Ok(()));
    assert_eq!(vault.amount(), u128::MAX);
}

#[test]
fn deposit_of_another_resource_is_a_type_mismatch() {
    let mut vault = vault_holding(2);
    assert_eq!(vault.put(Bucket { resource: XRD, amount: 9 }), Err(Error::TypeMismatch));
    assert_eq!(vault.amount(), 2);
    assert_eq!(vault.resource_address(), BADGE);
}

#[test]
fn deposit_of_the_same_resource_under_another_binding_is_accepted() {
    let same: ResourceAddress = ACCOUNT_OWNER_BADGE;
    let mut vault = CredentialVault::new(BADGE);
    assert_eq!(vault.put(Bucket { resource: same, amount: 1 }), Ok(()));
    assert_eq!(vault.amount(), 1);
}

#[test]
fn withdrawing_the_exact_balance_leaves_zero() {
    let mut vault = vault_holding(6);
    assert_eq!(vault.take(6), Ok(Bucket { resource: BADGE, amount: 6 }));
    assert_eq!(vault.amount(), 0);
    assert!(vault.is_empty());
}

#[test]
fn withdrawing_one_unit_more_than_the_balance_fails() {
    let mut vault = vault_holding(6);
    assert_eq!(vault.take(7), Err(Error::InsufficientBalance));
    assert_eq!(vault.amount(), 6);
}

#[test]
fn withdrawing_part_leaves_the_rest() {
    let mut vault = vault_holding(10);
    assert_eq!(vault.take(4), Ok(Bucket { resource: BADGE, amount: 4 }));
    assert_eq!(vault.amount(), 6);
    assert_eq!(vault.take(7), Err(Error::InsufficientBalance));
    assert_eq!(vault.take(6), Ok(Bucket { resource: BADGE, amount: 6 }));
    assert_eq!(vault.amount(), 0);
}

#[test]
fn withdrawing_from_an_empty_vault() {
    let mut vault = CredentialVault::new(BADGE);
    assert_eq!(vault.take(1), Err(Error::InsufficientBalance));
    assert_eq!(vault.take(0), Ok(Bucket { resource: BADGE, amount: 0 }));
    assert_eq!(vault.amount(), 0);
}

#[test]
fn withdrawn_units_can_be_deposited_again() {
    let mut vault = vault_holding(3);
    let bucket = vault.take(2).unwrap();
    assert_eq!(vault.amount(), 1);
    assert_eq!(vault.put(bucket), Ok(()));
    assert_eq!(vault.amount(), 3);
}

#[test]
fn authorization_amount_is_one_unit() {
    assert_eq!(AUTHORIZATION_AMOUNT, 1);
}

#[test]
fn authorize_runs_the_operation_once_and_keeps_the_balance() {
    let mut vault = vault_holding(1);
    let mut runs = 0;
    let result = vault.authorize(|| {
        runs += 1;
        "done"
    });
    assert_eq!(result, Ok("done"));
    assert_eq!(runs, 1);
    assert_eq!(vault.amount(), 1);
}

#[test]
fn authorize_on_an_empty_vault_is_unauthorized_and_runs_nothing() {
    let mut vault = CredentialVault::new(BADGE);
    let mut runs = 0;
    let result = vault.authorize(|| {
        runs += 1;
    });
    assert_eq!(result, Err(Error::Unauthorized));
    assert_eq!(runs, 0);
    assert_eq!(vault.amount(), 0);
}

#[test]
fn authorize_keeps_a_large_balance_exact() {
    let mut vault = vault_holding(u128::MAX);
    assert_eq!(vault.authorize(|| 7u8), Ok(7u8));
    assert_eq!(vault.amount(), u128::MAX);
}

#[test]
fn authorize_after_the_last_unit_left_is_unauthorized() {
    let mut vault = vault_holding(1);
    assert_eq!(vault.authorize(|| ()), Ok(()));
    assert_eq!(vault.take(1), Ok(Bucket { resource: BADGE, amount: 1 }));
    assert_eq!(vault.authorize(|| ()), Err(Error::Unauthorized));
}
