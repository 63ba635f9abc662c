//! Custody of the authorization credential.
//!
//! A [`CredentialVault`] holds units of exactly one resource, the credential.
//! Amounts are whole numbers of the credential's smallest unit, so every
//! amount is non-negative and representable by construction, and a balance is
//! exact.
use crate::error::Error;
use crate::ledger::same_resource;
use scrypto::prelude::ResourceAddress;
use vstd::prelude::*;

verus! {

/// The amount of credential that authorizes one metadata write: the smallest
/// amount a vault can hold. It is the same for every write.
pub const AUTHORIZATION_AMOUNT: u128 = 1;

/// Some units of one resource, on their way into or out of a vault.
#[derive(Debug, PartialEq, Eq)]
pub struct Bucket {
    /// The resource the units are of.
    pub resource: ResourceAddress,
    /// How many units.
    pub amount: u128,
}

/// What a vault is: the resource it is bound to and how much of it it holds.
pub struct VaultView {
    pub resource: ResourceAddress,
    pub balance: nat,
}

impl VaultView {
    /// Whether a bucket of `resource` may be deposited.
    pub open spec fn accepts(self, resource: ResourceAddress) -> bool {
        resource == self.resource
    }

    /// The vault after `amount` more units have been deposited.
    pub open spec fn after_deposit(self, amount: nat) -> VaultView {
        VaultView { resource: self.resource, balance: self.balance + amount }
    }

    /// Whether `amount` units can be withdrawn.
    pub open spec fn can_withdraw(self, amount: nat) -> bool {
        amount <= self.balance
    }

    /// The vault after `amount` units have been withdrawn.
    pub open spec fn after_withdrawal(self, amount: nat) -> VaultView
        recommends
            self.can_withdraw(amount),
    {
        VaultView { resource: self.resource, balance: (self.balance - amount) as nat }
    }

    /// Whether the vault can supply the authorization amount.
    pub open spec fn can_authorize(self) -> bool {
        self.balance >= AUTHORIZATION_AMOUNT
    }
}

/// A vault for one credential resource. It is bound to that resource when it
/// is made and never holds anything else.
#[derive(Debug)]
pub struct CredentialVault {
    resource: ResourceAddress,
    balance: u128,
}

impl View for CredentialVault {
    type V = VaultView;

    closed spec fn view(&self) -> VaultView {
        VaultView { resource: self.resource, balance: self.balance as nat }
    }
}

impl CredentialVault {
    /// An empty vault bound to `resource`.
    pub fn new(resource: ResourceAddress) -> (vault: CredentialVault)
        ensures
            vault@ == (VaultView { resource, balance: 0 }),
    {
        CredentialVault { resource, balance: 0 }
    }

    /// The balance.
    pub fn amount(&self) -> (amount: u128)
        ensures
            amount == self@.balance,
    {
        self.balance
    }

    /// The resource this vault is bound to.
    pub fn resource_address(&self) -> (resource: ResourceAddress)
        ensures
            resource == self@.resource,
    {
        self.resource
    }

    /// Whether the balance is zero.
    pub fn is_empty(&self) -> (empty: bool)
        ensures
            empty == (self@.balance == 0),
    {
        self.balance == 0
    }

    /// Deposits a bucket. A bucket of the vault's own resource is always
    /// accepted and raises the balance by its amount; a bucket of any other
    /// resource is refused with [`Error::TypeMismatch`] and changes nothing.
    ///
    /// The only demand on the caller is that the new balance fits in `u128`.
    pub fn put(&mut self, bucket: Bucket) -> (result: Result<(), Error>)
        requires
            old(self)@.accepts(bucket.resource) ==> old(self)@.balance + bucket.amount
                <= u128::MAX,
        ensures
            old(self)@.accepts(bucket.resource) ==> result == Ok::<(), Error>(())
                && final(self)@ == old(self)@.after_deposit(bucket.amount as nat),
            !old(self)@.accepts(bucket.resource) ==> result == Err::<(), Error>(
                Error::TypeMismatch,
            ) && final(self)@ == old(self)@,
    {
        if same_resource(&bucket.resource, &self.resource) {
            self.balance = self.balance + bucket.amount;
            Ok(())
        } else {
            Err(Error::TypeMismatch)
        }
    }

    /// Withdraws exactly `amount` units. Any amount up to the whole balance
    /// comes out in a bucket of the vault's resource; a larger one fails
    /// with [`Error::InsufficientBalance`] and changes nothing. There is no
    /// partial withdrawal.
    pub fn take(&mut self, amount: u128) -> (result: Result<Bucket, Error>)
        ensures
            old(self)@.can_withdraw(amount as nat) ==> result == Ok::<Bucket, Error>(
                Bucket { resource: old(self)@.resource, amount },
            ) && final(self)@ == old(self)@.after_withdrawal(amount as nat),
            !old(self)@.can_withdraw(amount as nat) ==> result == Err::<Bucket, Error>(
                Error::InsufficientBalance,
            ) && final(self)@ == old(self)@,
    {
        if amount <= self.balance {
            self.balance = self.balance - amount;
            Ok(Bucket { resource: self.resource, amount })
        } else {
            Err(Error::InsufficientBalance)
        }
    }

    /// Runs `operation` under an authorization drawn from this vault.
    ///
    /// [`AUTHORIZATION_AMOUNT`] is set aside from the balance, `operation`
    /// runs once, and the amount is back in the vault before this function
    /// returns, whatever `operation` answered. A vault that cannot supply
    /// the amount fails with [`Error::Unauthorized`]; `operation` need not
    /// even be callable in that case, so it is not called.
    pub fn authorize<O, F: FnOnce() -> O>(&mut self, operation: F) -> (result: Result<O, Error>)
        requires
            old(self)@.can_authorize() ==> call_requires(operation, ()),
        ensures
            final(self)@ == old(self)@,
            !old(self)@.can_authorize() ==> result == Err::<O, Error>(Error::Unauthorized),
            old(self)@.can_authorize() ==> (result matches Ok(output) && call_ensures(
                operation,
                (),
                output,
            )),
    {
        if self.balance < AUTHORIZATION_AMOUNT {
            return Err(Error::Unauthorized);
        }
        self.balance = self.balance - AUTHORIZATION_AMOUNT;
        let output = operation();
        self.balance = self.balance + AUTHORIZATION_AMOUNT;
        Ok(output)
    }
}

} // verus!
