use vstd::prelude::*;

verus! {

/// The mathematical content of a serialized value: a tree whose leaves are
/// the scalars and whose inner nodes are collections and keyed objects.
pub enum JsonModel {
    Null,
    Bool(bool),
    Number(Seq<char>),
    Text(Seq<char>),
    Array(Seq<JsonModel>),
    Object(Seq<(Seq<char>, JsonModel)>),
}

/// A serialized value as the builders read it. A number is kept as its
/// decimal text, an object as its fields in serialization order.
#[derive(Debug, PartialEq)]
pub enum JsonValue {
    Null,
    Bool(bool),
    Number(String),
    Text(String),
    Array(Vec<JsonValue>),
    Object(Vec<(String, JsonValue)>),
}

/// The content of the items of a collection, in order.
pub open spec fn items_model(items: Seq<JsonValue>) -> Seq<JsonModel>
    decreases items,
{
    Seq::new(
        items.len(),
        |i: int|
            if 0 <= i < items.len() {
                items[i]@
            } else {
                JsonModel::Null
            },
    )
}

/// The content of the fields of an object, in order.
pub open spec fn fields_model(fields: Seq<(String, JsonValue)>) -> Seq<(Seq<char>, JsonModel)>
    decreases fields,
{
    Seq::new(
        fields.len(),
        |i: int|
            if 0 <= i < fields.len() {
                (fields[i].0@, fields[i].1@)
            } else {
                (Seq::empty(), JsonModel::Null)
            },
    )
}

impl View for JsonValue {
    type V = JsonModel;

    open spec fn view(&self) -> JsonModel
        decreases self,
    {
        match self {
            JsonValue::Null => JsonModel::Null,
            JsonValue::Bool(b) => JsonModel::Bool(*b),
            JsonValue::Number(text) => JsonModel::Number(text@),
            JsonValue::Text(text) => JsonModel::Text(text@),
            JsonValue::Array(items) => JsonModel::Array(items_model(items@)),
            JsonValue::Object(fields) => JsonModel::Object(fields_model(fields@)),
        }
    }
}

impl Clone for JsonValue {
    fn clone(&self) -> (r: Self)
        ensures
            r@ == self@,
    {
        self.duplicate()
    }
}

impl JsonModel {
    /// A leaf that carries a value: neither null, nor an object, nor a
    /// collection.
    pub open spec fn is_scalar(self) -> bool {
        self is Bool || self is Number || self is Text
    }

    /// A value without parts: a scalar, or null.
    pub open spec fn is_leaf(self) -> bool {
        !(self is Object) && !(self is Array)
    }
}

/// The keys of the fields of an object, in order.
pub open spec fn keys_of(fields: Seq<(Seq<char>, JsonModel)>) -> Seq<Seq<char>> {
    Seq::new(fields.len(), |i: int| fields[i].0)
}

/// Tells whether no key occurs twice among `fields`, as in every object
/// that was serialized from a record.
pub open spec fn keys_distinct(fields: Seq<(Seq<char>, JsonModel)>) -> bool {
    forall|i: int, j: int| 0 <= i < j < fields.len() ==> fields[i].0 != fields[j].0
}

impl JsonValue {
    /// A second value with the same content.
    pub fn duplicate(&self) -> (r: JsonValue)
        ensures
            r@ == self@,
        decreases self,
    {
        match self {
            JsonValue::Null => JsonValue::Null,
            JsonValue::Bool(b) => JsonValue::Bool(*b),
            JsonValue::Number(text) => JsonValue::Number(text.clone()),
            JsonValue::Text(text) => JsonValue::Text(text.clone()),
            JsonValue::Array(items) => JsonValue::Array(duplicate_items(items)),
            JsonValue::Object(fields) => JsonValue::Object(duplicate_fields(fields)),
        }
    }

    /// Tells whether the value is a leaf that carries a value.
    pub fn is_scalar(&self) -> (r: bool)
        ensures
            r == self@.is_scalar(),
    {
        match self {
            JsonValue::Bool(_) => true,
            JsonValue::Number(_) => true,
            JsonValue::Text(_) => true,
            _ => false,
        }
    }
}

/// Second values with the content of `items`, in their order.
pub fn duplicate_items(items: &Vec<JsonValue>) -> (r: Vec<JsonValue>)
    ensures
        items_model(r@) == items_model(items@),
    decreases items,
{
    let mut copies: Vec<JsonValue> = Vec::new();
    let mut i: usize = 0;
    while i < items.len()
        invariant
            i <= items.len(),
            copies@.len() == i,
            forall|j: int| 0 <= j < i ==> (#[trigger] copies@[j])@ == items@[j]@,
        decreases items.len() - i,
    {
        copies.push(items[i].duplicate());
        i = i + 1;
    }
    proof {
        assert(items_model(copies@) == items_model(items@));
    }
    copies
}

/// Second fields with the content of `fields`, in their order.
pub fn duplicate_fields(fields: &Vec<(String, JsonValue)>) -> (r: Vec<(String, JsonValue)>)
    ensures
        fields_model(r@) == fields_model(fields@),
    decreases fields,
{
    let mut copies: Vec<(String, JsonValue)> = Vec::new();
    let mut i: usize = 0;
    while i < fields.len()
        invariant
            i <= fields.len(),
            copies@.len() == i,
            forall|j: int|
                0 <= j < i ==> (#[trigger] copies@[j]).0@ == fields@[j].0@ && copies@[j].1@
                    == fields@[j].1@,
        decreases fields.len() - i,
    {
        copies.push((fields[i].0.clone(), fields[i].1.duplicate()));
        i = i + 1;
    }
    proof {
        assert(fields_model(copies@) == fields_model(fields@));
    }
    copies
}

/// What a selection mirrors of a value: whether it is a leaf, a collection
/// or a keyed object, with the keys in their order.
pub enum Shape {
    Leaf,
    Collection(Seq<Shape>),
    Record(Seq<(Seq<char>, Shape)>),
}

/// The shape of a value: the value without what its leaves hold.
pub open spec fn shape_of(value: JsonModel) -> Shape
    decreases value, 1nat,
{
    match value {
        JsonModel::Object(fields) => Shape::Record(field_shapes(fields)),
        JsonModel::Array(items) => Shape::Collection(item_shapes(items)),
        _ => Shape::Leaf,
    }
}

/// The keys of the fields of an object, each with the shape of its value.
pub open spec fn field_shapes(fields: Seq<(Seq<char>, JsonModel)>) -> Seq<(Seq<char>, Shape)>
    decreases fields, 0nat,
{
    Seq::new(
        fields.len(),
        |i: int|
            if 0 <= i < fields.len() {
                (fields[i].0, shape_of(fields[i].1))
            } else {
                (Seq::empty(), Shape::Leaf)
            },
    )
}

/// The shapes of the items of a collection, in order.
pub open spec fn item_shapes(items: Seq<JsonModel>) -> Seq<Shape>
    decreases items, 0nat,
{
    Seq::new(
        items.len(),
        |i: int|
            if 0 <= i < items.len() {
                shape_of(items[i])
            } else {
                Shape::Leaf
            },
    )
}

/// Tells whether the items of a collection are all of one shape. A
/// collection in which two items differ in shape is heterogeneous.
pub open spec fn of_one_shape(items: Seq<JsonModel>) -> bool {
    forall|i: int| 0 <= i < items.len() ==> shape_of(#[trigger] items[i]) == shape_of(items[0])
}

/// Tells whether two values have one shape.
pub fn same_shape(a: &JsonValue, b: &JsonValue) -> (r: bool)
    ensures
        r == (shape_of(a@) == shape_of(b@)),
    decreases a,
{
    match a {
        JsonValue::Object(fields_a) => match b {
            JsonValue::Object(fields_b) => same_field_shapes(fields_a, fields_b),
            _ => false,
        },
        JsonValue::Array(items_a) => match b {
            JsonValue::Array(items_b) => same_item_shapes(items_a, items_b),
            _ => false,
        },
        _ => match b {
            JsonValue::Object(_) => false,
            JsonValue::Array(_) => false,
            _ => true,
        },
    }
}

/// Tells whether two collections hold items of the same shapes, position
/// by position.
pub fn same_item_shapes(a: &Vec<JsonValue>, b: &Vec<JsonValue>) -> (r: bool)
    ensures
        r == (item_shapes(items_model(a@)) == item_shapes(items_model(b@))),
    decreases a,
{
    let ghost shapes_a = item_shapes(items_model(a@));
    let ghost shapes_b = item_shapes(items_model(b@));
    if a.len() != b.len() {
        proof {
            assert(shapes_a.len() != shapes_b.len());
        }
        return false;
    }
    let mut i: usize = 0;
    while i < a.len()
        invariant
            i <= a.len(),
            a.len() == b.len(),
            shapes_a == item_shapes(items_model(a@)),
            shapes_b == item_shapes(items_model(b@)),
            forall|j: int| 0 <= j < i ==> shapes_a[j] == shapes_b[j],
        decreases a.len() - i,
    {
        if !same_shape(&a[i], &b[i]) {
            proof {
                assert(shapes_a[i as int] != shapes_b[i as int]);
            }
            return false;
        }
        i = i + 1;
    }
    proof {
        assert(shapes_a == shapes_b);
    }
    true
}

/// Tells whether two objects have the same keys in the same order, with
/// values of the same shapes.
pub fn same_field_shapes(a: &Vec<(String, JsonValue)>, b: &Vec<(String, JsonValue)>) -> (r: bool)
    ensures
        r == (field_shapes(fields_model(a@)) == field_shapes(fields_model(b@))),
    decreases a,
{
    let ghost shapes_a = field_shapes(fields_model(a@));
    let ghost shapes_b = field_shapes(fields_model(b@));
    if a.len() != b.len() {
        proof {
            assert(shapes_a.len() != shapes_b.len());
        }
        return false;
    }
    let mut i: usize = 0;
    while i < a.len()
        invariant
            i <= a.len(),
            a.len() == b.len(),
            shapes_a == field_shapes(fields_model(a@)),
            shapes_b == field_shapes(fields_model(b@)),
            forall|j: int| 0 <= j < i ==> shapes_a[j] == shapes_b[j],
        decreases a.len() - i,
    {
        if !(a[i].0 == b[i].0) || !same_shape(&a[i].1, &b[i].1) {
            proof {
                assert(shapes_a[i as int] != shapes_b[i as int]);
            }
            return false;
        }
        i = i + 1;
    }
    proof {
        assert(shapes_a == shapes_b);
    }
    true
}

} // verus!
