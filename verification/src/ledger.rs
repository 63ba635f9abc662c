//! The ledger's own vocabulary.
//!
//! Addresses, keys, identifiers and the other ledger-defined payloads travel
//! through this library unopened: they are received from a caller and handed
//! on to the ledger exactly as they came. Each is declared here as an opaque
//! type, so the verifier knows that such values exist and can be moved and
//! compared for identity, and nothing else about them.
use scrypto::prelude::ResourceAddress;
use vstd::prelude::*;

verus! {

/// `ResourceAddress`: the address of a global resource manager.
#[verifier::external_type_specification]
#[verifier::external_body]
pub struct ExResourceAddress(scrypto::prelude::ResourceAddress);

/// `ComponentAddress`: the address of a global component, such as an account.
#[verifier::external_type_specification]
#[verifier::external_body]
pub struct ExComponentAddress(scrypto::prelude::ComponentAddress);

/// `GlobalAddress`: the address of any global entity.
#[verifier::external_type_specification]
#[verifier::external_body]
pub struct ExGlobalAddress(scrypto::prelude::GlobalAddress);

/// `OwnerRole`: who owns a component, as handed to the ledger on instantiation.
#[verifier::external_type_specification]
#[verifier::external_body]
pub struct ExOwnerRole(scrypto::prelude::OwnerRole);

/// `Decimal`: the ledger's fixed-point number.
#[verifier::external_type_specification]
#[verifier::external_body]
pub struct ExDecimal(scrypto::prelude::Decimal);

/// `PublicKey`: a public key of one of the ledger's signature schemes.
#[verifier::external_type_specification]
#[verifier::external_body]
pub struct ExPublicKey(scrypto::prelude::PublicKey);

/// `PublicKeyHash`: the hash of a public key.
#[verifier::external_type_specification]
#[verifier::external_body]
pub struct ExPublicKeyHash(scrypto::prelude::PublicKeyHash);

/// `NonFungibleGlobalId`: a non-fungible, named together with its resource.
#[verifier::external_type_specification]
#[verifier::external_body]
pub struct ExNonFungibleGlobalId(scrypto::prelude::NonFungibleGlobalId);

/// `NonFungibleLocalId`: a non-fungible, named within its resource.
#[verifier::external_type_specification]
#[verifier::external_body]
pub struct ExNonFungibleLocalId(scrypto::prelude::NonFungibleLocalId);

/// `Instant`: a point in time.
#[verifier::external_type_specification]
#[verifier::external_body]
pub struct ExInstant(scrypto::prelude::Instant);

/// `UncheckedUrl`: a URL whose shape only the ledger validates.
#[verifier::external_type_specification]
#[verifier::external_body]
pub struct ExUncheckedUrl(scrypto::prelude::UncheckedUrl);

/// `UncheckedOrigin`: a scheme and host whose shape only the ledger validates.
#[verifier::external_type_specification]
#[verifier::external_body]
pub struct ExUncheckedOrigin(scrypto::prelude::UncheckedOrigin);

/// Compares two resource addresses with `ResourceAddress`'s own `==`.
///
/// Trusted: that `==` is derived over the address bytes, so it answers `true`
/// exactly when the two addresses are the same value.
#[verifier::external_body]
pub(crate) fn same_resource(a: &ResourceAddress, b: &ResourceAddress) -> (same: bool)
    ensures
        same == (*a == *b),
{
    a == b
}

} // verus!
