//! What holds of every builder, whatever the record and the order of the calls.

use crate::behavior::missing_field_message;
use crate::descriptor::FieldDescriptorView;
use crate::instance::{build_result, empty_slots, first_missing, missing_flags, slots_after_build};
use crate::scan::{lemma_first_true, lemma_first_true_none};
use vstd::prelude::*;

verus! {

/// The slots after the setter calls `calls`, each the index of a field and a value, made
/// in order on a builder whose slots were `slots`.
pub open spec fn after_calls<V>(slots: Seq<Option<V>>, calls: Seq<(int, V)>) -> Seq<Option<V>>
    decreases calls.len(),
{
    if calls.len() == 0 {
        slots
    } else {
        after_calls(slots, calls.drop_last()).update(calls.last().0, Some(calls.last().1))
    }
}

/// Whether every call among `calls` is the setter of one of `n` fields.
pub open spec fn calls_in_range<V>(calls: Seq<(int, V)>, n: nat) -> bool {
    forall|c: int| 0 <= c < calls.len() ==> 0 <= (#[trigger] calls[c]).0 < n
}

/// Whether the setter of the field at `index` is called among `calls`.
pub open spec fn called<V>(calls: Seq<(int, V)>, index: int) -> bool {
    exists|c: int| 0 <= c < calls.len() && (#[trigger] calls[c]).0 == index
}

/// The value of the last call among `calls` of the setter of the field at `index`.
pub open spec fn last_value<V>(calls: Seq<(int, V)>, index: int) -> Option<V>
    decreases calls.len(),
{
    if calls.len() == 0 {
        None
    } else if calls.last().0 == index {
        Some(calls.last().1)
    } else {
        last_value(calls.drop_last(), index)
    }
}

/// A setter was called exactly if there is a last value for it.
pub proof fn lemma_called_has_last_value<V>(calls: Seq<(int, V)>, index: int)
    ensures
        called(calls, index) <==> last_value(calls, index) is Some,
    decreases calls.len(),
{
    if calls.len() > 0 {
        let front = calls.drop_last();
        lemma_called_has_last_value(front, index);
        if calls.last().0 != index {
            if called(calls, index) {
                let c = choose|c: int| 0 <= c < calls.len() && (#[trigger] calls[c]).0 == index;
                assert(front[c].0 == index);
            }
            if called(front, index) {
                let c = choose|c: int| 0 <= c < front.len() && (#[trigger] front[c]).0 == index;
                assert(calls[c].0 == index);
            }
        } else {
            assert(calls[calls.len() - 1].0 == index);
        }
    }
}

/// After setter calls on a new builder, each slot holds the value of the last call of its
/// setter, and is empty where its setter was not called: a later call overwrites an
/// earlier one.
pub proof fn lemma_slots_hold_last_values<V>(n: nat, calls: Seq<(int, V)>)
    requires
        calls_in_range(calls, n),
    ensures
        after_calls(empty_slots::<V>(n), calls).len() == n,
        forall|i: int|
            0 <= i < n ==> (#[trigger] after_calls(empty_slots::<V>(n), calls)[i]) == last_value(
                calls,
                i,
            ),
    decreases calls.len(),
{
    if calls.len() > 0 {
        let front = calls.drop_last();
        assert(calls_in_range(front, n)) by {
            assert forall|c: int| 0 <= c < front.len() implies 0 <= (#[trigger] front[c]).0 < n by {
                assert(front[c] == calls[c]);
            }
        }
        lemma_slots_hold_last_values(n, front);
        assert(0 <= calls[calls.len() - 1].0 < n);
    }
}

/// Where the setter of every required field was called on a new builder, the build
/// succeeds, and each field of the record has the value of the last call of its setter;
/// an optional field whose setter was not called is empty.
pub proof fn lemma_build_succeeds_when_required_set<V>(
    fields: Seq<FieldDescriptorView>,
    calls: Seq<(int, V)>,
)
    requires
        calls_in_range(calls, fields.len()),
        forall|i: int|
            0 <= i < fields.len() && !(#[trigger] fields[i]).is_optional ==> called(calls, i),
    ensures
        build_result(fields, after_calls(empty_slots::<V>(fields.len()), calls)) matches Ok(
            values,
        ) && values.len() == fields.len() && forall|i: int|
            0 <= i < fields.len() ==> #[trigger] values[i] == last_value(calls, i),
{
    let slots = after_calls(empty_slots::<V>(fields.len()), calls);
    lemma_slots_hold_last_values(fields.len(), calls);
    let flags = missing_flags(fields, slots);
    assert forall|i: int| 0 <= i < flags.len() implies !flags[i] by {
        if !fields[i].is_optional {
            lemma_called_has_last_value(calls, i);
            assert(slots[i] == last_value(calls, i));
        }
    }
    lemma_first_true_none(flags);
}

/// Where the setter of a required field was not called on a new builder, the build fails.
/// Its message names the first required field, in the order of the declaration, whose
/// setter was not called: that field itself, where the setters of all required fields
/// before it were called.
pub proof fn lemma_build_fails_when_required_unset<V>(
    fields: Seq<FieldDescriptorView>,
    calls: Seq<(int, V)>,
    index: int,
)
    requires
        calls_in_range(calls, fields.len()),
        0 <= index < fields.len(),
        !fields[index].is_optional,
        !called(calls, index),
    ensures
        first_missing(fields, after_calls(empty_slots::<V>(fields.len()), calls)) matches Some(k)
            && 0 <= k <= index && !fields[k].is_optional && !called(calls, k) && build_result(
            fields,
            after_calls(empty_slots::<V>(fields.len()), calls),
        ) == Err::<Seq<Option<V>>, Seq<char>>(missing_field_message(fields[k].name)),
        (forall|i: int| 0 <= i < index && !(#[trigger] fields[i]).is_optional ==> called(calls, i))
            ==> build_result(fields, after_calls(empty_slots::<V>(fields.len()), calls)) == Err::<
            Seq<Option<V>>,
            Seq<char>,
        >(missing_field_message(fields[index].name)),
{
    let slots = after_calls(empty_slots::<V>(fields.len()), calls);
    lemma_slots_hold_last_values(fields.len(), calls);
    let flags = missing_flags(fields, slots);
    lemma_called_has_last_value(calls, index);
    assert(slots[index] == last_value(calls, index));
    assert(flags[index]);
    lemma_first_true(flags);
    let k = first_missing(fields, slots)->Some_0;
    assert(flags[k]);
    assert(slots[k] == last_value(calls, k));
    lemma_called_has_last_value(calls, k);
    if forall|i: int| 0 <= i < index && !(#[trigger] fields[i]).is_optional ==> called(calls, i) {
        if k < index {
            assert(!fields[k].is_optional);
            assert(called(calls, k));
        }
    }
}

/// The message of a failed build holds the name of the field it reports, between the
/// fixed words, and names one field only: two fields with the same message have the same
/// name.
pub proof fn lemma_message_names_one_field(a: Seq<char>, b: Seq<char>)
    ensures
        missing_field_message(a).subrange(
            "The field `"@.len() as int,
            ("The field `"@.len() + a.len()) as int,
        ) == a,
        missing_field_message(a) == missing_field_message(b) ==> a == b,
{
    let head = "The field `"@;
    let ma = missing_field_message(a);
    let mb = missing_field_message(b);
    assert(ma.subrange(head.len() as int, (head.len() + a.len()) as int) =~= a);
    assert(mb.subrange(head.len() as int, (head.len() + b.len()) as int) =~= b);
    if ma == mb {
        assert(ma.len() == mb.len());
        assert(a.len() == b.len());
    }
}

/// In the record that a build returns, every required field has a value.
pub proof fn lemma_built_record_has_required_fields<V>(
    fields: Seq<FieldDescriptorView>,
    slots: Seq<Option<V>>,
)
    requires
        slots.len() == fields.len(),
        build_result(fields, slots) is Ok,
    ensures
        build_result(fields, slots) == Ok::<Seq<Option<V>>, Seq<char>>(slots),
        forall|i: int|
            0 <= i < fields.len() && !(#[trigger] fields[i]).is_optional ==> slots[i] is Some,
{
    let flags = missing_flags(fields, slots);
    lemma_first_true(flags);
    assert forall|i: int|
        0 <= i < fields.len() && !(#[trigger] fields[i]).is_optional implies slots[i] is Some by {
        assert(!flags[i]);
    }
}

/// A build that succeeded leaves the builder as the factory makes one: every slot is
/// empty. So a second build checks all required fields anew: after any setter calls it
/// returns what it returns for a new builder after the same calls, and it fails where the
/// setter of a required field was not called again.
pub proof fn lemma_rebuild_checks_anew<V>(
    fields: Seq<FieldDescriptorView>,
    slots: Seq<Option<V>>,
    calls: Seq<(int, V)>,
    index: int,
)
    requires
        slots.len() == fields.len(),
        build_result(fields, slots) is Ok,
        calls_in_range(calls, fields.len()),
    ensures
        slots_after_build(fields, slots) == empty_slots::<V>(fields.len()),
        build_result(fields, after_calls(slots_after_build(fields, slots), calls)) == build_result(
            fields,
            after_calls(empty_slots::<V>(fields.len()), calls),
        ),
        0 <= index < fields.len() && !fields[index].is_optional && !called(calls, index)
            ==> build_result(fields, after_calls(slots_after_build(fields, slots), calls)) is Err,
{
    if 0 <= index < fields.len() && !fields[index].is_optional && !called(calls, index) {
        lemma_build_fails_when_required_unset(fields, calls, index);
    }
}

/// A build that failed took the values of the fields before the one it reports, and left
/// the slots from that field on as they were: a second build without new setter calls
/// fails too.
pub proof fn lemma_failed_build_clears_before<V>(
    fields: Seq<FieldDescriptorView>,
    slots: Seq<Option<V>>,
)
    requires
        slots.len() == fields.len(),
        first_missing(fields, slots) is Some,
    ensures
        ({
            let k = first_missing(fields, slots)->Some_0;
            let after = slots_after_build(fields, slots);
            &&& after.len() == slots.len()
            &&& forall|i: int| 0 <= i < k ==> (#[trigger] after[i]) is None
            &&& forall|i: int| k <= i < slots.len() ==> (#[trigger] after[i]) == slots[i]
            &&& build_result(fields, after) is Err
        }),
{
    let k = first_missing(fields, slots)->Some_0;
    let after = slots_after_build(fields, slots);
    lemma_first_true(missing_flags(fields, slots));
    assert(missing_flags(fields, after)[k]);
    lemma_first_true(missing_flags(fields, after));
}

/// Two builders that the factory made for one record share no state: each slot of either
/// holds the value of the last call of its setter on that builder, and is empty where
/// that setter was not called on it, whatever setters were called on the other.
pub proof fn lemma_factory_builders_independent<V>(
    fields: Seq<FieldDescriptorView>,
    calls_on_first: Seq<(int, V)>,
    calls_on_second: Seq<(int, V)>,
)
    requires
        calls_in_range(calls_on_first, fields.len()),
        calls_in_range(calls_on_second, fields.len()),
    ensures
        ({
            let first = after_calls(empty_slots::<V>(fields.len()), calls_on_first);
            let second = after_calls(empty_slots::<V>(fields.len()), calls_on_second);
            &&& forall|i: int|
                0 <= i < fields.len() ==> #[trigger] first[i] == last_value(calls_on_first, i)
            &&& forall|i: int|
                0 <= i < fields.len() ==> #[trigger] second[i] == last_value(calls_on_second, i)
        }),
{
    lemma_slots_hold_last_values(fields.len(), calls_on_first);
    lemma_slots_hold_last_values(fields.len(), calls_on_second);
}

} // verus!
