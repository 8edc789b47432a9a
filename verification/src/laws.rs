//! What holds of every record, every builder and every order of calls.

use vstd::prelude::*;
use crate::classify::{classify_spec, option_inner, OptionalityView};
use crate::descriptor::{
    describe_spec, option_of, slot_of, storage_type, BuilderDescriptorView,
};
use crate::derive_spec;
use crate::emit::CodeBundleView;
use crate::record::{
    extract_spec, FieldDescriptorView, RecordDefinitionView, RecordShapeView, ShapeError,
};
use crate::runtime::{zero_state, BuildErrorView, BuilderView, FieldValue};
use crate::type_expr::TypeExprView;

verus! {

/// A fresh builder has one slot per field, and no slot holds a value:
/// asking for any of them says that it is not set.
pub proof fn law_fresh_builder_is_empty<V>(d: BuilderDescriptorView)
    ensures
        zero_state::<V>(d).wf(),
        zero_state::<V>(d).slots.len() == d.slots.len(),
        forall|field: int| !(#[trigger] zero_state::<V>(d).is_set(field)),
        forall|field: int|
            0 <= field < d.slots.len() ==> (#[trigger] zero_state::<V>(d).slots[field]) is None,
{
}

/// A setter changes its own slot and no other.
pub proof fn law_set_touches_one_slot<V>(b: BuilderView<V>, field: int, value: V)
    requires
        b.wf(),
        0 <= field < b.slots.len(),
    ensures
        b.set(field, value).wf(),
        b.set(field, value).descriptor == b.descriptor,
        b.set(field, value).slots[field] == Some(value),
        forall|other: int|
            0 <= other < b.slots.len() && other != field ==> b.set(field, value).slots[other]
                == b.slots[other],
{
}

/// Once every other required field is set, setting a field and then
/// assembling gives a record whose field is the value that was set: bare
/// for a required field, present in its wrapper for an optional one.
pub proof fn law_set_then_assemble<V>(b: BuilderView<V>, field: int, value: V)
    requires
        b.wf(),
        0 <= field < b.slots.len(),
        forall|other: int| 0 <= other < b.slots.len() && other != field ==> !b.missing(other),
    ensures
        b.set(field, value).assemble() matches Ok(record) && record.len() == b.slots.len()
            && record[field] == (if b.descriptor.slots[field].required {
            FieldValue::Bare(value)
        } else {
            FieldValue::Wrapped(Some(value))
        }),
{
    let after = b.set(field, value);
    after.lemma_first_missing(0);
    assert forall|j: int| 0 <= j < after.slots.len() implies !after.missing(j) by {
        if j != field {
            assert(!b.missing(j));
        }
    }
}

/// Assembly fails as soon as one required field is missing, and nothing
/// is assembled. The error names a missing field at or before `field`:
/// the first one in declaration order, which is `field` itself where no
/// required field before it is missing.
pub proof fn law_missing_required_fails<V>(b: BuilderView<V>, field: int)
    requires
        b.wf(),
        0 <= field < b.slots.len(),
        b.descriptor.slots[field].required,
        b.slots[field] is None,
    ensures
        b.assemble() is Err,
        exists|first: int|
            {
                &&& 0 <= first <= field
                &&& #[trigger] b.missing(first)
                &&& forall|j: int| 0 <= j < first ==> !b.missing(j)
                &&& b.assemble() == Err::<Seq<FieldValue<V>>, BuildErrorView>(
                    BuildErrorView::RequiredFieldMissing(b.descriptor.slots[first].name),
                )
            },
        (forall|j: int| 0 <= j < field ==> !b.missing(j)) ==> b.assemble() == Err::<
            Seq<FieldValue<V>>,
            BuildErrorView,
        >(BuildErrorView::RequiredFieldMissing(b.descriptor.slots[field].name)),
{
    b.lemma_first_missing(0);
    assert(b.missing(field));
    let first = b.first_missing_from(0).unwrap();
    assert(b.missing(first));
}

/// Assembly succeeds exactly when no required field is missing; the
/// record then has every field, in declaration order.
pub proof fn law_assembly_succeeds_iff_complete<V>(b: BuilderView<V>)
    requires
        b.wf(),
    ensures
        b.assemble() is Ok <==> b.complete(),
        b.assemble() matches Ok(record) ==> record.len() == b.slots.len() && forall|i: int|
            0 <= i < record.len() ==> record[i] == b.field_value(i),
{
    b.lemma_first_missing(0);
    if b.assemble() is Err {
        let first = b.first_missing_from(0).unwrap();
        assert(b.missing(first));
    }
}

/// An optional field that was never set does not stand in the way: with
/// every required field set, assembly succeeds and the field is absent in
/// the record.
pub proof fn law_unset_optional_is_absent<V>(b: BuilderView<V>, field: int)
    requires
        b.wf(),
        0 <= field < b.slots.len(),
        !b.descriptor.slots[field].required,
        b.slots[field] is None,
        b.complete(),
    ensures
        b.assemble() matches Ok(record) && record[field] == FieldValue::<V>::Wrapped(None),
{
    law_assembly_succeeds_iff_complete(b);
}

/// Of two calls of the same setter the second wins: nothing of the first
/// value is left.
pub proof fn law_last_write_wins<V>(b: BuilderView<V>, field: int, first: V, second: V)
    requires
        b.wf(),
        0 <= field < b.slots.len(),
    ensures
        b.set(field, first).set(field, second) == b.set(field, second),
        b.set(field, first).set(field, second).assemble() == b.set(field, second).assemble(),
{
    assert(b.set(field, first).set(field, second).slots =~= b.set(field, second).slots);
}

/// A run of setter calls keeps the descriptor and the number of slots.
pub proof fn lemma_set_all_shape<V>(b: BuilderView<V>, writes: Seq<(int, V)>)
    requires
        b.wf(),
        forall|k: int| 0 <= k < writes.len() ==> 0 <= (#[trigger] writes[k]).0 < b.slots.len(),
    ensures
        b.set_all(writes).wf(),
        b.set_all(writes).descriptor == b.descriptor,
        b.set_all(writes).slots.len() == b.slots.len(),
    decreases writes.len(),
{
    if writes.len() > 0 {
        let before = writes.drop_last();
        assert(forall|k: int| 0 <= k < before.len() ==> before[k] == writes[k]);
        lemma_set_all_shape(b, before);
    }
}

/// What a run of setter calls leaves in a slot: the value of one of the
/// calls on that field, or what the slot held before where there was none.
pub proof fn lemma_set_all_slot<V>(b: BuilderView<V>, writes: Seq<(int, V)>, field: int)
    requires
        b.wf(),
        0 <= field < b.slots.len(),
        forall|k: int| 0 <= k < writes.len() ==> 0 <= (#[trigger] writes[k]).0 < b.slots.len(),
    ensures
        (forall|k: int| 0 <= k < writes.len() ==> (#[trigger] writes[k]).0 != field)
            ==> b.set_all(writes).slots[field] == b.slots[field],
        (exists|k: int| 0 <= k < writes.len() && (#[trigger] writes[k]).0 == field) ==> exists|
            k: int,
        |
            0 <= k < writes.len() && (#[trigger] writes[k]).0 == field && b.set_all(
                writes,
            ).slots[field] == Some(writes[k].1),
    decreases writes.len(),
{
    if writes.len() > 0 {
        let before = writes.drop_last();
        let last = writes.len() - 1;
        assert(forall|k: int| 0 <= k < before.len() ==> before[k] == writes[k]);
        lemma_set_all_slot(b, before, field);
        lemma_set_all_shape(b, before);
        if writes[last].0 == field {
            assert(b.set_all(writes).slots[field] == Some(writes[last].1));
        } else if exists|k: int| 0 <= k < writes.len() && (#[trigger] writes[k]).0 == field {
            let k = choose|k: int| 0 <= k < writes.len() && (#[trigger] writes[k]).0 == field;
            assert(k < last);
            assert(before[k].0 == field);
            let k2 = choose|k2: int|
                0 <= k2 < before.len() && (#[trigger] before[k2]).0 == field && b.set_all(
                    before,
                ).slots[field] == Some(before[k2].1);
            assert(writes[k2].0 == field && b.set_all(writes).slots[field] == Some(
                writes[k2].1,
            ));
        }
    }
}

/// The order of setter calls does not matter: where each field is set at
/// most once, the same calls in any other order leave the same builder,
/// and so assemble to the same outcome.
pub proof fn law_set_order_is_irrelevant<V>(
    b: BuilderView<V>,
    writes: Seq<(int, V)>,
    reordered: Seq<(int, V)>,
)
    requires
        b.wf(),
        forall|k: int| 0 <= k < writes.len() ==> 0 <= (#[trigger] writes[k]).0 < b.slots.len(),
        forall|k: int, l: int|
            0 <= k < l < writes.len() ==> (#[trigger] writes[k]).0 != (#[trigger] writes[l]).0,
        writes.to_multiset() == reordered.to_multiset(),
    ensures
        b.set_all(writes) == b.set_all(reordered),
        b.set_all(writes).assemble() == b.set_all(reordered).assemble(),
{
    broadcast use vstd::seq_lib::group_to_multiset_ensures;

    assert forall|k: int| 0 <= k < reordered.len() implies writes.contains(
        #[trigger] reordered[k],
    ) by {
        assert(reordered.contains(reordered[k]));
        assert(reordered.to_multiset().count(reordered[k]) > 0);
    }
    assert forall|k: int| 0 <= k < writes.len() implies reordered.contains(
        #[trigger] writes[k],
    ) by {
        assert(writes.contains(writes[k]));
        assert(writes.to_multiset().count(writes[k]) > 0);
    }
    assert forall|k: int| 0 <= k < reordered.len() implies 0 <= (#[trigger] reordered[k]).0
        < b.slots.len() by {
        assert(writes.contains(reordered[k]));
    }
    let one = b.set_all(writes);
    let other = b.set_all(reordered);
    assert forall|field: int| 0 <= field < b.slots.len() implies one.slots[field]
        == other.slots[field] by {
        lemma_set_all_slot(b, writes, field);
        lemma_set_all_slot(b, reordered, field);
        if exists|k: int| 0 <= k < writes.len() && (#[trigger] writes[k]).0 == field {
            let k = choose|k: int|
                0 <= k < writes.len() && (#[trigger] writes[k]).0 == field && one.slots[field]
                    == Some(writes[k].1);
            assert(reordered.contains(writes[k]));
            let m = choose|m: int| 0 <= m < reordered.len() && reordered[m] == writes[k];
            assert(reordered[m].0 == field);
            let m2 = choose|m2: int|
                0 <= m2 < reordered.len() && (#[trigger] reordered[m2]).0 == field
                    && other.slots[field] == Some(reordered[m2].1);
            assert(writes.contains(reordered[m2]));
            let k2 = choose|k2: int| 0 <= k2 < writes.len() && writes[k2] == reordered[m2];
            assert(writes[k2].0 == field);
            assert(k2 == k);
        } else {
            assert forall|m: int| 0 <= m < reordered.len() implies (#[trigger] reordered[m]).0
                != field by {
                assert(writes.contains(reordered[m]));
                let k = choose|k: int| 0 <= k < writes.len() && writes[k] == reordered[m];
                assert(writes[k].0 != field);
            }
        }
    }
    lemma_set_all_shape(b, writes);
    lemma_set_all_shape(b, reordered);
    assert(one.slots =~= other.slots);
}

/// Once every required field has been set, in whatever order and with
/// whatever else, assembly succeeds.
pub proof fn law_all_required_set_succeeds<V>(b: BuilderView<V>, writes: Seq<(int, V)>)
    requires
        b.wf(),
        forall|k: int| 0 <= k < writes.len() ==> 0 <= (#[trigger] writes[k]).0 < b.slots.len(),
        forall|field: int|
            0 <= field < b.slots.len() && b.missing(field) ==> exists|k: int|
                0 <= k < writes.len() && (#[trigger] writes[k]).0 == field,
    ensures
        b.set_all(writes).assemble() is Ok,
{
    let after = b.set_all(writes);
    lemma_set_all_shape(b, writes);
    assert forall|field: int| 0 <= field < after.slots.len() implies !after.missing(field) by {
        lemma_set_all_slot(b, writes, field);
        if !b.missing(field) {
            if exists|k: int| 0 <= k < writes.len() && (#[trigger] writes[k]).0 == field {
            } else {
                assert(after.slots[field] == b.slots[field]);
            }
        }
    }
    law_assembly_succeeds_iff_complete(after);
}

/// A type wrapped once classifies as optional, and what comes out is
/// exactly what was wrapped.
pub proof fn law_wrapped_type_is_optional(inner: TypeExprView)
    ensures
        option_inner(option_of(inner)) == Some(inner),
        classify_spec(option_of(inner)) == OptionalityView::Optional(inner),
{
}

/// Only one level is taken off: a type wrapped twice classifies as
/// optional with the once-wrapped type inside, never with the bare type.
pub proof fn law_single_unwrap(inner: TypeExprView)
    ensures
        classify_spec(option_of(option_of(inner))) == OptionalityView::Optional(option_of(inner)),
        option_of(inner) != inner,
        classify_spec(option_of(option_of(inner))) != OptionalityView::Optional(inner),
{
    reveal_strlit("<");
    assert(option_of(inner).text.len() > inner.text.len());
}

/// Every slot is an optional wrapper around the type that its setter
/// takes: the declared type itself where the field is optional, the
/// declared type wrapped once where it is required.
pub proof fn law_slot_wraps_value_type(declared: TypeExprView)
    ensures
        option_inner(storage_type(declared)) == Some(classify_spec(declared).value_type()),
        classify_spec(storage_type(declared)) is Optional,
        classify_spec(declared) is Optional ==> storage_type(declared) == declared,
        classify_spec(declared) is Required ==> storage_type(declared) == option_of(declared),
{
}

/// A builder has exactly one slot per field of its record, in declaration
/// order and under the field's name, and a builder is described exactly
/// for the definitions whose fields can be extracted.
pub proof fn law_one_slot_per_field(def: RecordDefinitionView)
    ensures
        describe_spec(def) is Ok <==> extract_spec(def) is Ok,
        describe_spec(def) matches Err(e) ==> extract_spec(def) == Err::<
            Seq<FieldDescriptorView>,
            ShapeError,
        >(e),
        extract_spec(def) matches Ok(fields) ==> {
            let d = describe_spec(def).unwrap();
            &&& d.slots.len() == fields.len()
            &&& d.slots.len() > 0
            &&& forall|i: int| 0 <= i < fields.len() ==> d.slots[i] == slot_of(fields[i])
            &&& forall|i: int| 0 <= i < fields.len() ==> d.slots[i].name == fields[i].name
        },
{
}

/// Code is generated for a struct with at least one named field and for
/// nothing else; every other definition is refused for its shape, and
/// nothing is generated for it.
pub proof fn law_generation_follows_shape(def: RecordDefinitionView)
    ensures
        derive_spec(def) is Ok <==> (def.shape matches RecordShapeView::Named(fields)
            && fields.len() > 0),
        derive_spec(def) is Ok <==> describe_spec(def) is Ok,
        (def.shape is Enum || def.shape is Union) ==> derive_spec(def) == Err::<
            CodeBundleView,
            ShapeError,
        >(ShapeError::SumType),
        def.shape is Positional ==> derive_spec(def) == Err::<CodeBundleView, ShapeError>(
            ShapeError::PositionalFields,
        ),
        (def.shape is Unit || (def.shape matches RecordShapeView::Named(fields) && fields.len()
            == 0)) ==> derive_spec(def) == Err::<CodeBundleView, ShapeError>(
            ShapeError::NoFields,
        ),
{
}

} // verus!
