//! One metadata write, as it is handed to a target entity, and what the
//! entity answers.
use crate::error::Error;
use crate::value::{MetadataValue, ValueView};
use scrypto::prelude::{ComponentAddress, ResourceAddress};
use vstd::prelude::*;

verus! {

/// The entity a write is addressed to. Nothing is remembered about a target
/// between calls: each write names its own.
#[derive(Clone, Copy, Debug, PartialEq, Eq)]
pub enum TargetRef {
    /// A resource manager, by its address.
    Resource(ResourceAddress),
    /// An account component, by its address.
    Account(ComponentAddress),
}

/// A single metadata write: set `field_name` on `target` to `value`.
#[derive(Debug, PartialEq, Eq)]
pub struct MetadataWrite {
    /// The entity to write to.
    pub target: TargetRef,
    /// The name of the field. Any string is passed on; the entity decides
    /// which names it accepts.
    pub field_name: String,
    /// The value to store, of the kind the caller gave it.
    pub value: MetadataValue,
}

/// The mathematical content of a [`MetadataWrite`].
pub struct WriteView {
    pub target: TargetRef,
    pub field_name: Seq<char>,
    pub value: ValueView,
}

impl View for MetadataWrite {
    type V = WriteView;

    open spec fn view(&self) -> WriteView {
        WriteView { target: self.target, field_name: self.field_name@, value: self.value@ }
    }
}

impl WriteView {
    /// The fields of an entity after it has accepted this write: the named
    /// field holds the written value, whether or not it existed before, and
    /// every other field is as it was.
    pub open spec fn applied_to(self, fields: Map<Seq<char>, ValueView>) -> Map<
        Seq<char>,
        ValueView,
    > {
        fields.insert(self.field_name, self.value)
    }
}

/// What a target entity answers to a write.
#[derive(Clone, Copy, Debug, PartialEq, Eq, Structural)]
pub enum WriteOutcome {
    /// The field now holds the value.
    Written,
    /// The address did not resolve to a live entity of the expected kind.
    Unresolved,
    /// The entity refused the field name; nothing was written.
    RejectedField,
    /// The entity refused the value; nothing was written.
    RejectedValue,
}

impl WriteOutcome {
    /// The result that a write with this outcome ends in.
    pub open spec fn as_result(self) -> Result<(), Error> {
        match self {
            WriteOutcome::Written => Ok(()),
            WriteOutcome::Unresolved => Err(Error::EntityResolutionError),
            WriteOutcome::RejectedField => Err(Error::RejectedField),
            WriteOutcome::RejectedValue => Err(Error::RejectedValue),
        }
    }

    /// Turns the entity's answer into the result of the write: success if
    /// the field was written, and otherwise the entity's own failure,
    /// unchanged.
    pub fn into_result(self) -> (result: Result<(), Error>)
        ensures
            result == self.as_result(),
    {
        match self {
            WriteOutcome::Written => Ok(()),
            WriteOutcome::Unresolved => Err(Error::EntityResolutionError),
            WriteOutcome::RejectedField => Err(Error::RejectedField),
            WriteOutcome::RejectedValue => Err(Error::RejectedValue),
        }
    }
}

} // verus!
