//! The metadata fields of one entity, held in memory.
//!
//! This is the behaviour a write relies on in an entity that accepts it: the
//! named field holds the written value afterwards, whether it existed before
//! or not, and no other field changes. Entities on the ledger may refuse a
//! write for reasons of their own; this one never does.
use crate::value::{MetadataValue, ValueView};
use crate::write::{MetadataWrite, WriteOutcome};
use vstd::prelude::*;

verus! {

/// One field: its name and the value it holds.
#[derive(Debug)]
struct Entry {
    name: String,
    value: MetadataValue,
}

/// A set of metadata fields, each name held once.
#[derive(Debug)]
pub struct MetadataFields {
    entries: Vec<Entry>,
}

/// Whether some entry is named `name`.
spec fn has_name(entries: Seq<Entry>, name: Seq<char>) -> bool {
    exists|i: int| 0 <= i < entries.len() && (#[trigger] entries[i]).name@ == name
}

/// The position of an entry named `name`, if there is one.
spec fn position_of(entries: Seq<Entry>, name: Seq<char>) -> int {
    choose|i: int| 0 <= i < entries.len() && (#[trigger] entries[i]).name@ == name
}

/// Whether no two entries share a name.
spec fn names_differ(entries: Seq<Entry>) -> bool {
    forall|i: int, j: int|
        0 <= i < entries.len() && 0 <= j < entries.len() && (#[trigger] entries[i]).name@ == (
        #[trigger] entries[j]).name@ ==> i == j
}

/// The map from names to values that `entries` stands for.
spec fn fields_of(entries: Seq<Entry>) -> Map<Seq<char>, ValueView> {
    Map::new(
        |name: Seq<char>| has_name(entries, name),
        |name: Seq<char>| entries[position_of(entries, name)].value@,
    )
}

/// With distinct names, the entry at position `i` is the one its name maps
/// to.
proof fn lemma_entry_is_mapped(entries: Seq<Entry>, i: int)
    requires
        names_differ(entries),
        0 <= i < entries.len(),
    ensures
        fields_of(entries).dom().contains(entries[i].name@),
        fields_of(entries)[entries[i].name@] == entries[i].value@,
{
    let name = entries[i].name@;
    assert(has_name(entries, name));
    let p = position_of(entries, name);
    assert(0 <= p < entries.len() && entries[p].name@ == name);
}

impl View for MetadataFields {
    type V = Map<Seq<char>, ValueView>;

    closed spec fn view(&self) -> Map<Seq<char>, ValueView> {
        fields_of(self.entries@)
    }
}

impl MetadataFields {
    #[verifier::type_invariant]
    spec fn names_are_distinct(&self) -> bool {
        names_differ(self.entries@)
    }

    /// No fields at all.
    pub fn new() -> (fields: MetadataFields)
        ensures
            fields@ == Map::<Seq<char>, ValueView>::empty(),
    {
        let fields = MetadataFields { entries: Vec::new() };
        assert(fields@ =~= Map::<Seq<char>, ValueView>::empty());
        fields
    }

    /// The value of the field named `field_name`, if there is such a field.
    pub fn get(&self, field_name: &String) -> (value: Option<&MetadataValue>)
        ensures
            match value {
                Some(found) => self@.dom().contains(field_name@) && found@ == self@[field_name@],
                None => !self@.dom().contains(field_name@),
            },
    {
        proof {
            use_type_invariant(self);
        }
        let mut i: usize = 0;
        while i < self.entries.len()
            invariant
                0 <= i <= self.entries.len(),
                names_differ(self.entries@),
                forall|j: int| 0 <= j < i ==> (#[trigger] self.entries@[j]).name@ != field_name@,
            decreases self.entries.len() - i,
        {
            if self.entries[i].name == *field_name {
                proof {
                    lemma_entry_is_mapped(self.entries@, i as int);
                }
                return Some(&self.entries[i].value);
            }
            i = i + 1;
        }
        assert(!has_name(self.entries@, field_name@));
        None
    }

    /// Accepts `write`: afterwards the field it names holds its value, and
    /// every other field is as it was. Writing to a name that is already
    /// there replaces the value; nothing accumulates.
    pub fn apply(&mut self, write: MetadataWrite) -> (outcome: WriteOutcome)
        ensures
            outcome == WriteOutcome::Written,
            final(self)@ == write@.applied_to(old(self)@),
    {
        proof {
            use_type_invariant(&*self);
        }
        let ghost before = self.entries@;
        let ghost name = write.field_name@;
        let ghost value = write.value@;
        let mut entries: Vec<Entry> = Vec::new();
        core::mem::swap(&mut self.entries, &mut entries);
        let mut i: usize = 0;
        while i < entries.len() && !(entries[i].name == write.field_name)
            invariant
                0 <= i <= entries.len(),
                entries@ == before,
                name == write.field_name@,
                forall|j: int| 0 <= j < i ==> (#[trigger] entries@[j]).name@ != name,
            decreases entries.len() - i,
        {
            i = i + 1;
        }
        let entry = Entry { name: write.field_name, value: write.value };
        if i < entries.len() {
            entries.set(i, entry);
        } else {
            entries.push(entry);
        }
        proof {
            let after = entries@;
            assert(after[i as int].name@ == name && after[i as int].value@ == value);
            assert(forall|j: int|
                0 <= j < before.len() && j != i ==> #[trigger] after[j] == before[j]);
            assert(forall|j: int|
                0 <= j < before.len() ==> (#[trigger] after[j]).name@ == before[j].name@);
            assert forall|key: Seq<char>| #[trigger]
                fields_of(after).dom().contains(key) == fields_of(before).insert(
                    name,
                    value,
                ).dom().contains(key) by {
                if has_name(after, key) {
                    let p = position_of(after, key);
                    if key != name {
                        assert(before[p].name@ == key);
                    }
                }
                if key != name && has_name(before, key) {
                    let p = position_of(before, key);
                    assert(after[p].name@ == key);
                }
            }
            assert forall|key: Seq<char>| #[trigger]
                fields_of(after).dom().contains(key) implies fields_of(after)[key]
                == fields_of(before).insert(name, value)[key] by {
                let p = position_of(after, key);
                lemma_entry_is_mapped(after, p);
                if key != name {
                    assert(before[p].name@ == key);
                    lemma_entry_is_mapped(before, p);
                } else {
                    assert(p == i);
                }
            }
            assert(fields_of(after) =~= fields_of(before).insert(name, value));
        }
        core::mem::swap(&mut self.entries, &mut entries);
        WriteOutcome::Written
    }
}

} // verus!
