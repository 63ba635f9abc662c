//! The metadata setter: a credential vault and the writes it authorizes.
use crate::error::Error;
use crate::value::MetadataValue;
use crate::vault::{Bucket, CredentialVault, VaultView};
use crate::write::{MetadataWrite, TargetRef, WriteOutcome};
use scrypto::prelude::{ComponentAddress, OwnerRole, ResourceAddress};
use vstd::prelude::*;

verus! {

/// What a setter is: its vault, and the owner it was instantiated with.
pub struct SetterView {
    pub vault: VaultView,
    pub owner_role: OwnerRole,
}

/// A component that keeps an admin badge in a vault and, while it holds one,
/// writes metadata fields on resource managers and accounts on behalf of its
/// owner.
///
/// Who may call which method is the ledger's business: it checks the caller
/// against the owner role before a method runs. Depositing is open to
/// everyone, the other methods to the owner.
#[derive(Debug)]
pub struct MetadataSetter {
    admin_badge: CredentialVault,
    owner_role: OwnerRole,
}

impl View for MetadataSetter {
    type V = SetterView;

    closed spec fn view(&self) -> SetterView {
        SetterView { vault: self.admin_badge@, owner_role: self.owner_role }
    }
}

impl MetadataSetter {
    /// A setter for the badge resource at `admin_badge_address`, owned by
    /// `owner_role`. Its vault starts empty.
    pub fn instantiate_metadata_setter(
        admin_badge_address: ResourceAddress,
        owner_role: OwnerRole,
    ) -> (setter: MetadataSetter)
        ensures
            setter@ == (SetterView {
                vault: VaultView { resource: admin_badge_address, balance: 0 },
                owner_role,
            }),
    {
        MetadataSetter { admin_badge: CredentialVault::new(admin_badge_address), owner_role }
    }

    /// The vault that holds the admin badge.
    pub fn admin_badge(&self) -> (vault: &CredentialVault)
        ensures
            vault@ == self@.vault,
    {
        &self.admin_badge
    }

    /// The owner role this setter was instantiated with.
    pub fn owner_role(&self) -> (owner_role: &OwnerRole)
        ensures
            *owner_role == self@.owner_role,
    {
        &self.owner_role
    }

    /// Deposits `badge` into the vault. Units of the badge resource raise
    /// the balance by their amount; anything else is refused with
    /// [`Error::TypeMismatch`] and changes nothing.
    ///
    /// The only demand on the caller is that the new balance fits in `u128`.
    pub fn insert_admin_badge(&mut self, badge: Bucket) -> (result: Result<(), Error>)
        requires
            old(self)@.vault.accepts(badge.resource) ==> old(self)@.vault.balance + badge.amount
                <= u128::MAX,
        ensures
            final(self)@.owner_role == old(self)@.owner_role,
            old(self)@.vault.accepts(badge.resource) ==> result == Ok::<(), Error>(())
                && final(self)@.vault == old(self)@.vault.after_deposit(badge.amount as nat),
            !old(self)@.vault.accepts(badge.resource) ==> result == Err::<(), Error>(
                Error::TypeMismatch,
            ) && final(self)@.vault == old(self)@.vault,
    {
        self.admin_badge.put(badge)
    }

    /// Withdraws exactly `amount` units of the badge. Any amount up to the
    /// whole balance comes out; a larger one fails with
    /// [`Error::InsufficientBalance`] and changes nothing.
    pub fn take_admin_badge(&mut self, amount: u128) -> (result: Result<Bucket, Error>)
        ensures
            final(self)@.owner_role == old(self)@.owner_role,
            old(self)@.vault.can_withdraw(amount as nat) ==> result == Ok::<Bucket, Error>(
                Bucket { resource: old(self)@.vault.resource, amount },
            ) && final(self)@.vault == old(self)@.vault.after_withdrawal(amount as nat),
            !old(self)@.vault.can_withdraw(amount as nat) ==> result == Err::<Bucket, Error>(
                Error::InsufficientBalance,
            ) && final(self)@.vault == old(self)@.vault,
    {
        self.admin_badge.take(amount)
    }

    /// Sets the metadata field `field_name` of the resource manager at
    /// `resource` to `field_value`.
    ///
    /// `set_metadata` is the resource manager's side of the write. While the
    /// vault holds the authorization amount it is called once, with exactly
    /// this target, name and value, and its answer decides the result. While
    /// the vault does not, the call fails with [`Error::Unauthorized`];
    /// `set_metadata` need not even be callable then, so the resource
    /// manager is not touched. In every case the vault ends as it began.
    pub fn update_resource_metadata_field<F: FnOnce(MetadataWrite) -> WriteOutcome>(
        &mut self,
        resource: ResourceAddress,
        field_name: String,
        field_value: MetadataValue,
        set_metadata: F,
    ) -> (result: Result<(), Error>)
        requires
            old(self)@.vault.can_authorize() ==> call_requires(
                set_metadata,
                ((MetadataWrite {
                    target: TargetRef::Resource(resource),
                    field_name,
                    value: field_value,
                }),),
            ),
        ensures
            final(self)@ == old(self)@,
            !old(self)@.vault.can_authorize() ==> result == Err::<(), Error>(
                Error::Unauthorized,
            ),
            old(self)@.vault.can_authorize() ==> exists|outcome: WriteOutcome|
                #[trigger] call_ensures(
                    set_metadata,
                    ((MetadataWrite {
                        target: TargetRef::Resource(resource),
                        field_name,
                        value: field_value,
                    }),),
                    outcome,
                ) && result == outcome.as_result(),
    {
        let write = MetadataWrite {
            target: TargetRef::Resource(resource),
            field_name,
            value: field_value,
        };
        self.write_authorized(write, set_metadata)
    }

    /// Sets the metadata field `field_name` of the account at `component`
    /// to `field_value`.
    ///
    /// `set_metadata` is the account's side of the write. While the vault
    /// holds the authorization amount it is called once, with exactly this
    /// target, name and value, and its answer decides the result. While the
    /// vault does not, the call fails with [`Error::Unauthorized`];
    /// `set_metadata` need not even be callable then, so the account is not
    /// touched. In every case the vault ends as it began.
    pub fn update_account_metadata_field<F: FnOnce(MetadataWrite) -> WriteOutcome>(
        &mut self,
        component: ComponentAddress,
        field_name: String,
        field_value: MetadataValue,
        set_metadata: F,
    ) -> (result: Result<(), Error>)
        requires
            old(self)@.vault.can_authorize() ==> call_requires(
                set_metadata,
                ((MetadataWrite {
                    target: TargetRef::Account(component),
                    field_name,
                    value: field_value,
                }),),
            ),
        ensures
            final(self)@ == old(self)@,
            !old(self)@.vault.can_authorize() ==> result == Err::<(), Error>(
                Error::Unauthorized,
            ),
            old(self)@.vault.can_authorize() ==> exists|outcome: WriteOutcome|
                #[trigger] call_ensures(
                    set_metadata,
                    ((MetadataWrite {
                        target: TargetRef::Account(component),
                        field_name,
                        value: field_value,
                    }),),
                    outcome,
                ) && result == outcome.as_result(),
    {
        let write = MetadataWrite {
            target: TargetRef::Account(component),
            field_name,
            value: field_value,
        };
        self.write_authorized(write, set_metadata)
    }

    /// Hands `write` to `set_metadata` under an authorization drawn from the
    /// vault, and turns the answer into the result.
    fn write_authorized<F: FnOnce(MetadataWrite) -> WriteOutcome>(
        &mut self,
        write: MetadataWrite,
        set_metadata: F,
    ) -> (result: Result<(), Error>)
        requires
            old(self)@.vault.can_authorize() ==> call_requires(
                set_metadata,
                (write,),
            ),
        ensures
            final(self)@ == old(self)@,
            !old(self)@.vault.can_authorize() ==> result == Err::<(), Error>(
                Error::Unauthorized,
            ),
            old(self)@.vault.can_authorize() ==> exists|outcome: WriteOutcome|
                #[trigger] call_ensures(set_metadata, (write,), outcome) && result
                    == outcome.as_result(),
    {
        let authorized_call = move || -> (outcome: WriteOutcome)
            requires
                call_requires(set_metadata, (write,)),
            ensures
                call_ensures(set_metadata, (write,), outcome),
            { set_metadata(write) };
        match self.admin_badge.authorize(authorized_call) {
            Ok(outcome) => outcome.into_result(),
            Err(error) => Err(error),
        }
    }
}

} // verus!
