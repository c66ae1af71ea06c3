use crate::value::{fields_model, keys_distinct, keys_of, JsonModel, JsonValue};
use vstd::prelude::*;

verus! {

/// Tells of a field whether its value is a leaf that carries a value.
pub open spec fn has_scalar_value() -> spec_fn((Seq<char>, JsonModel)) -> bool {
    |field: (Seq<char>, JsonModel)| field.1.is_scalar()
}

/// The fields of a record that an insert sends: those with a scalar value,
/// in their order.
pub open spec fn scalar_fields(fields: Seq<(Seq<char>, JsonModel)>) -> Seq<(Seq<char>, JsonModel)> {
    fields.filter(has_scalar_value())
}

/// Removes every field whose value is null, an object or a collection, and
/// keeps the others as they are.
pub fn strip_relations(fields: Vec<(String, JsonValue)>) -> (r: Vec<(String, JsonValue)>)
    ensures
        fields_model(r@) == scalar_fields(fields_model(fields@)),
{
    let ghost all = fields_model(fields@);
    let mut kept: Vec<(String, JsonValue)> = Vec::new();
    for field in it: fields
        invariant
            all == fields_model(fields@),
            fields_model(kept@) == scalar_fields(all.take(it.index() as int)),
    {
        proof {
            reveal(Seq::filter);
            let i = it.index() as int;
            assert(all.take(i + 1).drop_last() == all.take(i));
            assert(all.take(i + 1).last() == all[i]);
        }
        if field.1.is_scalar() {
            kept.push(field);
        }
    }
    proof {
        assert(all.take(all.len() as int) == all);
    }
    kept
}

/// Every field that is sent is a field of the record with a scalar value.
pub proof fn sent_fields_are_scalar_fields_of_record(fields: Seq<(Seq<char>, JsonModel)>)
    ensures
        forall|k: int|
            0 <= k < scalar_fields(fields).len() ==> (#[trigger] scalar_fields(
                fields,
            )[k]).1.is_scalar() && fields.contains(scalar_fields(fields)[k]),
    decreases fields.len(),
{
    reveal(Seq::filter);
    if fields.len() > 0 {
        let earlier = fields.drop_last();
        sent_fields_are_scalar_fields_of_record(earlier);
        let sent = scalar_fields(fields);
        assert forall|k: int| 0 <= k < sent.len() implies (#[trigger] sent[k]).1.is_scalar()
            && fields.contains(sent[k]) by {
            if k < scalar_fields(earlier).len() {
                assert(sent[k] == scalar_fields(earlier)[k]);
                let i = choose|i: int| 0 <= i < earlier.len() && earlier[i] == sent[k];
                assert(fields[i] == sent[k]);
            } else {
                assert(sent[k] == fields[fields.len() - 1]);
            }
        }
    }
}

/// A record with none but scalar fields is sent whole: the keys of the
/// payload are the names of the record's fields, and the values are
/// unchanged.
pub proof fn scalar_record_is_sent_whole(fields: Seq<(Seq<char>, JsonModel)>)
    requires
        forall|i: int| 0 <= i < fields.len() ==> (#[trigger] fields[i]).1.is_scalar(),
    ensures
        scalar_fields(fields) == fields,
        keys_of(scalar_fields(fields)) == keys_of(fields),
    decreases fields.len(),
{
    reveal(Seq::filter);
    if fields.len() > 0 {
        let earlier = fields.drop_last();
        assert forall|i: int| 0 <= i < earlier.len() implies (#[trigger] earlier[i]).1.is_scalar() by {
            assert(earlier[i] == fields[i]);
        }
        scalar_record_is_sent_whole(earlier);
        assert(fields.last() == fields[fields.len() - 1]);
        assert(earlier.push(fields.last()) == fields);
    }
}

/// Of a record whose keys are distinct, the key of every field whose value
/// is null, an object or a collection is absent from the payload, and every
/// other field is in it as it was.
pub proof fn relations_are_stripped(fields: Seq<(Seq<char>, JsonModel)>)
    requires
        keys_distinct(fields),
    ensures
        forall|i: int|
            0 <= i < fields.len() && !(#[trigger] fields[i]).1.is_scalar() ==> !keys_of(
                scalar_fields(fields),
            ).contains(fields[i].0),
        forall|i: int|
            0 <= i < fields.len() && (#[trigger] fields[i]).1.is_scalar() ==> scalar_fields(
                fields,
            ).contains(fields[i]),
{
    broadcast use vstd::seq_lib::group_filter_ensures;

    let sent = scalar_fields(fields);
    sent_fields_are_scalar_fields_of_record(fields);
    assert forall|i: int| 0 <= i < fields.len() && !(#[trigger] fields[i]).1.is_scalar() implies !keys_of(
        sent,
    ).contains(fields[i].0) by {
        if keys_of(sent).contains(fields[i].0) {
            let k = choose|k: int| 0 <= k < keys_of(sent).len() && keys_of(sent)[k] == fields[i].0;
            assert(sent[k].1.is_scalar() && fields.contains(sent[k]));
            let j = choose|j: int| 0 <= j < fields.len() && fields[j] == sent[k];
            assert(j != i);
            assert(fields[j].0 == fields[i].0);
            if j < i {
                assert(fields[j].0 != fields[i].0);
            } else {
                assert(fields[i].0 != fields[j].0);
            }
        }
    }
    assert forall|i: int| 0 <= i < fields.len() && (#[trigger] fields[i]).1.is_scalar() implies sent.contains(
        fields[i],
    ) by {
        assert(has_scalar_value()(fields[i]));
        fields.lemma_filter_contains(has_scalar_value(), i);
    }
}

} // verus!
