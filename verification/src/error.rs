//! The ways an operation of this library can fail.
use vstd::prelude::*;

verus! {

/// Why an operation failed. A failed operation leaves every state it was
/// given as it found it.
#[derive(Clone, Copy, Debug, PartialEq, Eq, Structural)]
pub enum Error {
    /// The credential vault cannot supply the authorization amount.
    Unauthorized,
    /// A withdrawal asked for more than the vault holds.
    InsufficientBalance,
    /// A deposit was of another resource than the vault's credential.
    TypeMismatch,
    /// The target address does not resolve to a live entity of the expected
    /// kind.
    EntityResolutionError,
    /// The target entity refused the field name.
    RejectedField,
    /// The target entity refused the value.
    RejectedValue,
}

} // verus!
