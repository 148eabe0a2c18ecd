//! A builder as it runs: what the generated factory, setters and build operation do.
//!
//! A builder holds one slot for each field of its record. The values that the slots hold
//! are of one type `V`, whatever the types of the fields are.

use crate::behavior::{missing_field, missing_field_message};
use crate::descriptor::FieldDescriptorView;
use crate::record::RecordDescriptor;
use crate::scan::{first_true, lemma_first_true_is, lemma_first_true_none};
use vstd::prelude::*;

verus! {

/// The slots of a builder that the factory has just made: one for each field, all empty.
pub open spec fn empty_slots<V>(n: nat) -> Seq<Option<V>> {
    Seq::new(n, |i: int| None)
}

/// For each field, whether it is required and its slot is empty.
pub open spec fn missing_flags<V>(fields: Seq<FieldDescriptorView>, slots: Seq<Option<V>>) -> Seq<
    bool,
> {
    Seq::new(fields.len(), |i: int| !fields[i].is_optional && slots[i] is None)
}

/// The first required field, in the order of the declaration, whose slot is empty.
pub open spec fn first_missing<V>(fields: Seq<FieldDescriptorView>, slots: Seq<Option<V>>) -> Option<
    int,
> {
    first_true(missing_flags(fields, slots))
}

/// What a build returns: the values of all slots in the order of the declaration, where
/// every required field has one; else the message that names the first required field
/// that has none.
pub open spec fn build_result<V>(fields: Seq<FieldDescriptorView>, slots: Seq<Option<V>>) -> Result<
    Seq<Option<V>>,
    Seq<char>,
> {
    match first_missing(fields, slots) {
        None => Ok(slots),
        Some(k) => Err(missing_field_message(fields[k].name)),
    }
}

/// The slots that a build leaves: all empty after a build that succeeded; after one that
/// failed, empty up to the field that it reports, and unchanged behind it.
pub open spec fn slots_after_build<V>(
    fields: Seq<FieldDescriptorView>,
    slots: Seq<Option<V>>,
) -> Seq<Option<V>> {
    match first_missing(fields, slots) {
        None => empty_slots(slots.len()),
        Some(k) => Seq::new(
            slots.len(),
            |i: int|
                if i < k {
                    None
                } else {
                    slots[i]
                },
        ),
    }
}

/// A builder for the record that it was made for.
pub struct Builder<'a, V> {
    record: &'a RecordDescriptor,
    slots: Vec<Option<V>>,
}

impl RecordDescriptor {
    /// The factory: a new builder for this record, with every slot empty.
    pub fn builder<V>(&self) -> (b: Builder<'_, V>)
        ensures
            b.wf(),
            b.fields() == self@.fields,
            b.slots() == empty_slots::<V>(self@.fields.len()),
    {
        let mut slots: Vec<Option<V>> = Vec::new();
        let mut i: usize = 0;
        while i < self.fields.len()
            invariant
                0 <= i <= self.fields.len(),
                slots@ == empty_slots::<V>(i as nat),
            decreases self.fields.len() - i,
        {
            slots.push(None);
            assert(slots@ =~= empty_slots::<V>((i + 1) as nat));
            i = i + 1;
        }
        Builder { record: self, slots }
    }
}

impl<'a, V> Builder<'a, V> {
    /// The fields of the record, in the order of the declaration.
    pub closed spec fn fields(&self) -> Seq<FieldDescriptorView> {
        self.record@.fields
    }

    /// What each field's slot holds.
    pub closed spec fn slots(&self) -> Seq<Option<V>> {
        self.slots@
    }

    /// There is one slot for each field.
    pub open spec fn wf(&self) -> bool {
        self.slots().len() == self.fields().len()
    }

    /// The number of fields.
    pub fn len(&self) -> (n: usize)
        requires
            self.wf(),
        ensures
            n == self.fields().len(),
    {
        self.slots.len()
    }

    /// Whether the slot of the field at `index` holds a value.
    pub fn is_set(&self, index: usize) -> (set: bool)
        requires
            self.wf(),
            index < self.fields().len(),
        ensures
            set == (self.slots()[index as int] is Some),
    {
        self.slots[index].is_some()
    }

    /// The setter of the field at `index`: puts `value` in the field's slot, in place of
    /// what was there, and returns the builder it was called on.
    pub fn set(&mut self, index: usize, value: V) -> (chained: &mut Self)
        requires
            old(self).wf(),
            index < old(self).fields().len(),
        ensures
            chained.wf(),
            chained.fields() == old(self).fields(),
            chained.slots() == old(self).slots().update(index as int, Some(value)),
            *final(self) == *final(chained),
    {
        self.slots.set(index, Some(value));
        self
    }

    /// Builds the record: takes the value out of each slot in the order of the declaration
    /// and leaves the slot empty. It stops at the first required field whose slot is empty
    /// and reports it by name; the slots behind that field keep what they hold.
    pub fn build(&mut self) -> (r: Result<Vec<Option<V>>, String>)
        requires
            old(self).wf(),
        ensures
            final(self).wf(),
            final(self).fields() == old(self).fields(),
            final(self).slots() == slots_after_build(old(self).fields(), old(self).slots()),
            match r {
                Ok(values) => build_result(old(self).fields(), old(self).slots()) == Ok::<
                    Seq<Option<V>>,
                    Seq<char>,
                >(values@),
                Err(message) => build_result(old(self).fields(), old(self).slots()) == Err::<
                    Seq<Option<V>>,
                    Seq<char>,
                >(message@),
            },
    {
        let ghost fields = self.fields();
        let ghost before = self.slots();
        let ghost flags = missing_flags(fields, before);
        let n = self.slots.len();
        let mut values: Vec<Option<V>> = Vec::new();
        let mut i: usize = 0;
        while i < n
            invariant
                0 <= i <= n,
                n == before.len(),
                n == fields.len(),
                fields == self.fields(),
                fields == old(self).fields(),
                before == old(self).slots(),
                flags == missing_flags(fields, before),
                self.slots().len() == n,
                forall|j: int| 0 <= j < i ==> self.slots()[j] is None,
                forall|j: int| i <= j < n ==> self.slots()[j] == before[j],
                values@ == before.take(i as int),
                forall|j: int| 0 <= j < i ==> !flags[j],
            decreases n - i,
        {
            let taken = self.slots[i].take();
            if taken.is_none() && !self.record.fields[i].is_optional {
                let message = missing_field(self.record.fields[i].name.as_str());
                proof {
                    lemma_first_true_is(flags, i as int);
                    assert(self.slots() =~= slots_after_build(fields, before));
                }
                return Err(message);
            }
            values.push(taken);
            proof {
                assert(values@ =~= before.take(i + 1));
            }
            i = i + 1;
        }
        proof {
            lemma_first_true_none(flags);
            assert(before.take(n as int) =~= before);
            assert(self.slots() =~= slots_after_build(fields, before));
        }
        Ok(values)
    }
}

} // verus!
