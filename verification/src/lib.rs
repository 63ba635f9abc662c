//! Credential-gated metadata dispatch.
//!
//! A [`MetadataSetter`] keeps a scarce credential, the admin badge, in a
//! [`CredentialVault`]. While the vault holds the badge, the setter writes
//! metadata fields on resource managers and accounts for its owner: it draws
//! an authorization from the vault, hands exactly one [`MetadataWrite`] to
//! the target entity, and has the authorization back in the vault before it
//! returns. The value written is a [`MetadataValue`], a closed union that
//! reaches the entity as the kind it was given.
//!
//! The entities themselves live on the ledger. A caller passes in the
//! entity's side of a write as a function from the write to a
//! [`WriteOutcome`]; [`MetadataFields`] is an in-memory entity that accepts
//! every write.
pub mod error;
pub mod fields;
pub mod guarantees;
pub mod ledger;
pub mod setter;
pub mod value;
pub mod vault;
pub mod write;

pub use error::Error;
pub use fields::MetadataFields;
pub use setter::MetadataSetter;
pub use value::{MetadataValue, ValueKind};
pub use vault::{Bucket, CredentialVault, AUTHORIZATION_AMOUNT};
pub use write::{MetadataWrite, TargetRef, WriteOutcome};
