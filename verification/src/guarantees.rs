//! What holds of the vault, of a write and of a target's fields, whatever
//! the inputs.
use crate::error::Error;
use crate::value::{ValueKind, ValueView};
use crate::vault::VaultView;
use crate::write::{WriteOutcome, WriteView};
use vstd::prelude::*;

verus! {

/// Every scalar kind comes in both shapes: there is a single value of that
/// kind, and there is a list of values of that kind.
pub proof fn lemma_every_kind_has_both_shapes(kind: ValueKind)
    ensures
        exists|single: ValueView| #[trigger] single.kind() == kind && !single.is_array(),
        exists|list: ValueView| #[trigger] list.kind() == kind && list.is_array(),
{
    let (single, list) = match kind {
        ValueKind::String => (
            ValueView::String(Seq::<char>::empty()),
            ValueView::StringArray(Seq::empty()),
        ),
        ValueKind::Bool => (ValueView::Bool(false), ValueView::BoolArray(Seq::empty())),
        ValueKind::U8 => (ValueView::U8(0u8), ValueView::U8Array(Seq::empty())),
        ValueKind::U32 => (ValueView::U32(0u32), ValueView::U32Array(Seq::empty())),
        ValueKind::U64 => (ValueView::U64(0u64), ValueView::U64Array(Seq::empty())),
        ValueKind::I32 => (ValueView::I32(0i32), ValueView::I32Array(Seq::empty())),
        ValueKind::I64 => (ValueView::I64(0i64), ValueView::I64Array(Seq::empty())),
        ValueKind::Decimal => (
            ValueView::Decimal(arbitrary()),
            ValueView::DecimalArray(Seq::empty()),
        ),
        ValueKind::GlobalAddress => (
            ValueView::GlobalAddress(arbitrary()),
            ValueView::GlobalAddressArray(Seq::empty()),
        ),
        ValueKind::PublicKey => (
            ValueView::PublicKey(arbitrary()),
            ValueView::PublicKeyArray(Seq::empty()),
        ),
        ValueKind::NonFungibleGlobalId => (
            ValueView::NonFungibleGlobalId(arbitrary()),
            ValueView::NonFungibleGlobalIdArray(Seq::empty()),
        ),
        ValueKind::NonFungibleLocalId => (
            ValueView::NonFungibleLocalId(arbitrary()),
            ValueView::NonFungibleLocalIdArray(Seq::empty()),
        ),
        ValueKind::Instant => (
            ValueView::Instant(arbitrary()),
            ValueView::InstantArray(Seq::empty()),
        ),
        ValueKind::Url => (ValueView::Url(arbitrary()), ValueView::UrlArray(Seq::empty())),
        ValueKind::Origin => (ValueView::Origin(arbitrary()), ValueView::OriginArray(Seq::empty())),
        ValueKind::PublicKeyHash => (
            ValueView::PublicKeyHash(arbitrary()),
            ValueView::PublicKeyHashArray(Seq::empty()),
        ),
    };
    assert(single.kind() == kind && !single.is_array());
    assert(list.kind() == kind && list.is_array());
}

/// A write that an entity accepts shows in its fields, and nowhere else: the
/// named field is there and holds exactly the written value, of the kind it
/// was written with, and every other field is present or absent, and holds
/// what it held, as before the write.
pub proof fn lemma_written_field_holds_value(write: WriteView, fields: Map<Seq<char>, ValueView>)
    ensures
        write.applied_to(fields).dom().contains(write.field_name),
        write.applied_to(fields)[write.field_name] == write.value,
        write.applied_to(fields)[write.field_name].kind() == write.value.kind(),
        write.applied_to(fields)[write.field_name].is_array() == write.value.is_array(),
        forall|other: Seq<char>|
            other != write.field_name ==> (#[trigger] write.applied_to(fields).dom().contains(
                other,
            ) == fields.dom().contains(other)),
        forall|other: Seq<char>|
            other != write.field_name && fields.dom().contains(other)
                ==> #[trigger] write.applied_to(fields)[other] == fields[other],
{
}

/// Writing the same value to the same field a second time changes nothing:
/// the fields after two writes are the fields after one.
pub proof fn lemma_repeated_write_changes_nothing(
    write: WriteView,
    fields: Map<Seq<char>, ValueView>,
)
    ensures
        write.applied_to(write.applied_to(fields)) == write.applied_to(fields),
{
    assert(write.applied_to(write.applied_to(fields)) =~= write.applied_to(fields));
}

/// The last write to a field wins: after two writes to one field, the fields
/// are what the second write alone would have left.
pub proof fn lemma_last_write_wins(
    first: WriteView,
    second: WriteView,
    fields: Map<Seq<char>, ValueView>,
)
    requires
        first.field_name == second.field_name,
    ensures
        second.applied_to(first.applied_to(fields)) == second.applied_to(fields),
{
    assert(second.applied_to(first.applied_to(fields)) =~= second.applied_to(fields));
}

/// An empty vault authorizes nothing, and any vault that is not empty
/// authorizes a write.
pub proof fn lemma_only_an_empty_vault_refuses(vault: VaultView)
    ensures
        vault.balance == 0 <==> !vault.can_authorize(),
{
}

/// A write succeeds only if the entity performed it: every other answer of
/// the entity is a failure, and each answer has a failure of its own.
pub proof fn lemma_only_a_performed_write_succeeds(outcome: WriteOutcome)
    ensures
        outcome.as_result() is Ok <==> outcome == WriteOutcome::Written,
        outcome == WriteOutcome::Unresolved <==> outcome.as_result() == Err::<(), Error>(
            Error::EntityResolutionError,
        ),
        outcome == WriteOutcome::RejectedField <==> outcome.as_result() == Err::<(), Error>(
            Error::RejectedField,
        ),
        outcome == WriteOutcome::RejectedValue <==> outcome.as_result() == Err::<(), Error>(
            Error::RejectedValue,
        ),
        outcome.as_result() != Err::<(), Error>(Error::Unauthorized),
{
}

/// The whole balance can be withdrawn, and that leaves the vault empty; one
/// unit more than the balance cannot.
pub proof fn lemma_withdrawal_boundary(vault: VaultView)
    ensures
        vault.can_withdraw(vault.balance),
        vault.after_withdrawal(vault.balance).balance == 0,
        vault.after_withdrawal(vault.balance).resource == vault.resource,
        !vault.can_withdraw(vault.balance + 1),
{
}

} // verus!
