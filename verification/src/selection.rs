use crate::text::join;
use crate::value::{
    field_shapes, fields_model, item_shapes, items_model, keys_of, of_one_shape, same_shape,
    shape_of, JsonModel, JsonValue,
};
use vstd::prelude::*;
use vstd::string::StringExecFns;

verus! {

/// The view of an optional string.
pub open spec fn option_text(text: Option<String>) -> Option<Seq<char>> {
    match text {
        Some(t) => Some(t@),
        None => None,
    }
}

/// The literal field names that open an object's selection, each followed by
/// a comma.
pub open spec fn extra_prefix(extra: Option<Seq<char>>) -> Seq<char> {
    match extra {
        Some(names) => names + ","@,
        None => Seq::empty(),
    }
}

/// The selection set that mirrors the shape of `value`: an object gives its
/// keys, each followed by the selection of its value, comma-joined inside
/// braces and preceded by the extra field names; a collection whose items
/// are all of one shape gives the selection of its first item inside braces,
/// any other collection an empty pair of braces; a leaf gives nothing.
pub open spec fn selection_text(value: JsonModel, extra: Option<Seq<char>>) -> Seq<char>
    decreases value, 0nat,
{
    match value {
        JsonModel::Object(fields) => "{"@ + extra_prefix(extra) + object_text(fields) + "}"@,
        JsonModel::Array(items) => "{"@ + array_text(items) + "}"@,
        _ => Seq::empty(),
    }
}

/// What each field of an object contributes: its key, then the selection of
/// its value.
pub open spec fn field_texts(fields: Seq<(Seq<char>, JsonModel)>) -> Seq<Seq<char>>
    decreases fields, 0nat,
{
    Seq::new(
        fields.len(),
        |i: int|
            if 0 <= i < fields.len() {
                fields[i].0 + selection_text(fields[i].1, None)
            } else {
                Seq::empty()
            },
    )
}

/// The body of an object's selection: the fields' contributions in
/// serialization order, comma-joined.
pub open spec fn object_text(fields: Seq<(Seq<char>, JsonModel)>) -> Seq<char>
    decreases fields, 1nat,
{
    join(field_texts(fields), ","@)
}

/// The body of a collection's selection: that of its first item where the
/// items are all of one shape, and nothing for a collection that is empty
/// or holds items of different shapes.
pub open spec fn array_text(items: Seq<JsonModel>) -> Seq<char>
    decreases items, 0nat,
{
    if items.len() > 0 && of_one_shape(items) {
        selection_text(items[0], None)
    } else {
        Seq::empty()
    }
}

/// Builds the selection set of `value`, with `additional_fields` injected at
/// the front of an object's selection.
pub fn parse_value(value: &JsonValue, additional_fields: Option<String>) -> (r: String)
    ensures
        r@ == selection_text(value@, option_text(additional_fields)),
    decreases value,
{
    match value {
        JsonValue::Object(fields) => {
            let mut out = String::from_str("{");
            match additional_fields {
                Some(names) => {
                    out.append(names.as_str());
                    out.append(",");
                },
                None => {},
            }
            let body = parse_object(fields);
            out.append(body.as_str());
            out.append("}");
            out
        },
        JsonValue::Array(items) => {
            let mut out = String::from_str("{");
            let body = parse_array(items);
            out.append(body.as_str());
            out.append("}");
            out
        },
        _ => String::new(),
    }
}

/// Builds the body of an object's selection from its fields.
pub fn parse_object(fields: &Vec<(String, JsonValue)>) -> (r: String)
    ensures
        r@ == object_text(fields_model(fields@)),
    decreases fields,
{
    let ghost texts = field_texts(fields_model(fields@));
    let mut out = String::new();
    let mut i: usize = 0;
    while i < fields.len()
        invariant
            i <= fields.len(),
            texts == field_texts(fields_model(fields@)),
            out@ == join(texts.take(i as int), ","@),
        decreases fields.len() - i,
    {
        proof {
            let before = texts.take(i as int);
            let after = texts.take(i + 1);
            assert(after.drop_last() == before);
            assert(after.last() == texts[i as int]);
        }
        if i > 0 {
            out.append(",");
        }
        out.append(fields[i].0.as_str());
        let nested = parse_value(&fields[i].1, None);
        out.append(nested.as_str());
        i = i + 1;
    }
    proof {
        assert(texts.take(i as int) == texts);
    }
    out
}

/// Builds the body of a collection's selection: from its first item where
/// the items are all of one shape, empty otherwise.
pub fn parse_array(items: &Vec<JsonValue>) -> (r: String)
    ensures
        r@ == array_text(items_model(items@)),
    decreases items,
{
    if items.len() == 0 {
        return String::new();
    }
    let ghost model = items_model(items@);
    let mut i: usize = 1;
    while i < items.len()
        invariant
            1 <= i <= items.len(),
            model == items_model(items@),
            forall|j: int| 0 <= j < i ==> shape_of(#[trigger] model[j]) == shape_of(model[0]),
        decreases items.len() - i,
    {
        if !same_shape(&items[0], &items[i]) {
            proof {
                assert(shape_of(model[i as int]) != shape_of(model[0]));
            }
            return String::new();
        }
        i = i + 1;
    }
    parse_value(&items[0], None)
}

/// Two values of one shape have one selection: what the leaves hold does
/// not enter it, so any two instances of a record type whose relations are
/// filled alike ask for the same fields.
pub proof fn selection_follows_shape(a: JsonModel, b: JsonModel, extra: Option<Seq<char>>)
    requires
        shape_of(a) == shape_of(b),
    ensures
        selection_text(a, extra) == selection_text(b, extra),
    decreases a,
{
    match a {
        JsonModel::Object(fields_a) => {
            let fields_b = b->Object_0;
            assert(field_shapes(fields_a).len() == fields_a.len());
            assert(field_shapes(fields_b).len() == fields_b.len());
            assert forall|i: int| 0 <= i < fields_a.len() implies field_texts(fields_a)[i]
                == field_texts(fields_b)[i] by {
                assert(field_shapes(fields_a)[i] == field_shapes(fields_b)[i]);
                selection_follows_shape(fields_a[i].1, fields_b[i].1, None);
            }
            assert(field_texts(fields_a) == field_texts(fields_b));
        },
        JsonModel::Array(items_a) => {
            let items_b = b->Array_0;
            assert(item_shapes(items_a).len() == items_a.len());
            assert(item_shapes(items_b).len() == items_b.len());
            assert forall|i: int| 0 <= i < items_a.len() implies shape_of(items_a[i]) == shape_of(
                items_b[i],
            ) by {
                assert(item_shapes(items_a)[i] == item_shapes(items_b)[i]);
            }
            if items_a.len() > 0 {
                assert(of_one_shape(items_a) == of_one_shape(items_b)) by {
                    if of_one_shape(items_a) {
                        assert forall|i: int| 0 <= i < items_b.len() implies shape_of(
                            #[trigger] items_b[i],
                        ) == shape_of(items_b[0]) by {
                            assert(shape_of(items_a[i]) == shape_of(items_a[0]));
                        }
                    }
                    if of_one_shape(items_b) {
                        assert forall|i: int| 0 <= i < items_a.len() implies shape_of(
                            #[trigger] items_a[i],
                        ) == shape_of(items_a[0]) by {
                            assert(shape_of(items_b[i]) == shape_of(items_b[0]));
                        }
                    }
                }
                selection_follows_shape(items_a[0], items_b[0], None);
            }
        },
        _ => {},
    }
}

/// The selection of a record with none but leaves is its field names in
/// serialization order, comma-joined inside braces, with no comma after the
/// last.
pub proof fn flat_record_selects_its_keys(fields: Seq<(Seq<char>, JsonModel)>)
    requires
        forall|i: int| 0 <= i < fields.len() ==> (#[trigger] fields[i]).1.is_leaf(),
    ensures
        selection_text(JsonModel::Object(fields), None) == "{"@ + join(keys_of(fields), ","@)
            + "}"@,
{
    assert forall|i: int| 0 <= i < fields.len() implies field_texts(fields)[i] == keys_of(
        fields,
    )[i] by {
        assert(fields[i].1.is_leaf());
        assert(selection_text(fields[i].1, None) == Seq::<char>::empty());
        assert(fields[i].0 + Seq::<char>::empty() == fields[i].0);
    }
    assert(field_texts(fields) == keys_of(fields));
    assert(extra_prefix(None) == Seq::<char>::empty());
    assert("{"@ + Seq::<char>::empty() == "{"@);
}

/// The selection of a collection whose items are all of one shape is that
/// of its first item, inside braces of its own; extra field names do not
/// enter it.
pub proof fn uniform_collection_selects_by_its_first_item(
    items: Seq<JsonModel>,
    extra: Option<Seq<char>>,
)
    requires
        items.len() > 0,
        of_one_shape(items),
    ensures
        selection_text(JsonModel::Array(items), extra) == "{"@ + selection_text(items[0], None)
            + "}"@,
{
}

/// The selection of a collection that is empty, or that holds two items of
/// different shapes, is a pair of braces with nothing between them.
pub proof fn mixed_collection_selects_nothing(
    items: Seq<JsonModel>,
    first: int,
    second: int,
    extra: Option<Seq<char>>,
)
    requires
        items.len() == 0 || (0 <= first < items.len() && 0 <= second < items.len() && shape_of(
            items[first],
        ) != shape_of(items[second])),
    ensures
        selection_text(JsonModel::Array(items), extra) == "{"@ + "}"@,
{
    if items.len() > 0 {
        if of_one_shape(items) {
            assert(shape_of(items[first]) == shape_of(items[0]));
            assert(shape_of(items[second]) == shape_of(items[0]));
        }
    }
    assert("{"@ + Seq::<char>::empty() == "{"@);
}

} // verus!
