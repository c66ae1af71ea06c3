use devii::selection::{parse_array, parse_object, parse_value};
use devii::value::JsonValue;

fn number(text: &str) -> JsonValue {
    JsonValue::Number(text.to_string())
}

fn field(key: &str, value: JsonValue) -> (String, JsonValue) {
    (key.to_string(), value)
}

fn default_test_struct() -> JsonValue {
    JsonValue::Object(vec![
        field("_char", JsonValue::Text("\0".to_string())),
        field("_f32", number("0.0")),
        field("_f64", number("0.0")),
        field("_i16", number("0")),
        field("_i32", number("0")),
        field("_i64", number("0")),
        field("_i8", number("0")),
        field("_u16", number("0")),
        field("_u32", number("0")),
        field("_u8", number("0")),
        field("string", JsonValue::Text(String::new())),
    ])
}

fn child(id: &str, value: &str) -> JsonValue {
    JsonValue::Object(vec![
        field("id", number(id)),
        field("value", JsonValue::Text(value.to_string())),
    ])
}

fn parent(children: Vec<JsonValue>) -> JsonValue {
    JsonValue::Object(vec![
        field("id", number("1")),
        field("value", JsonValue::Text("p".to_string())),
        field("children", JsonValue::Array(children)),
    ])
}

#[test]
fn parse_value_test() {
    let value = default_test_struct();
    let result = parse_value(&value, None);
    assert_eq!(
        "{_char,_f32,_f64,_i16,_i32,_i64,_i8,_u16,_u32,_u8,string}".to_string(),
        result
    )
}

#[test]
fn selection_of_scalars_keeps_field_order() {
    let record = JsonValue::Object(vec![
        field("a", number("1")),
        field("b", JsonValue::Bool(true)),
        field("c", JsonValue::Text("x".to_string())),
    ]);
    assert_eq!(parse_value(&record, None), "{a,b,c}");
    let reordered = JsonValue::Object(vec![
        field("c", number("1")),
        field("a", number("2")),
        field("b", number("3")),
    ]);
    assert_eq!(parse_value(&reordered, None), "{c,a,b}");
}

#[test]
fn selection_of_a_leaf_is_empty() {
    assert_eq!(parse_value(&JsonValue::Null, None), "");
    assert_eq!(parse_value(&JsonValue::Bool(false), None), "");
    assert_eq!(parse_value(&number("12"), None), "");
    assert_eq!(parse_value(&JsonValue::Text("t".to_string()), None), "");
    assert_eq!(parse_value(&number("12"), Some("id".to_string())), "");
}

#[test]
fn selection_of_an_empty_object() {
    assert_eq!(parse_value(&JsonValue::Object(vec![]), None), "{}");
    assert_eq!(parse_value(&JsonValue::Object(vec![]), Some("id".to_string())), "{id,}");
}

#[test]
fn selection_with_extra_fields_in_front() {
    let record = JsonValue::Object(vec![field("a", number("1")), field("b", number("2"))]);
    assert_eq!(parse_value(&record, Some("id".to_string())), "{id,a,b}");
}

#[test]
fn selection_of_a_parent_without_children() {
    assert_eq!(parse_value(&parent(vec![]), None), "{id,value,children{}}");
}

#[test]
fn selection_of_a_parent_with_children() {
    let value = parent(vec![child("2", "a"), child("3", "b")]);
    assert_eq!(parse_value(&value, None), "{id,value,children{{id,value}}}");
}

#[test]
fn selection_of_a_collection_follows_its_first_item() {
    let alike = JsonValue::Array(vec![child("2", "a"), child("3", "b"), child("4", "c")]);
    assert_eq!(parse_value(&alike, None), "{{id,value}}");
    assert_eq!(parse_value(&alike, Some("id".to_string())), "{{id,value}}");
    let single = JsonValue::Array(vec![child("2", "a")]);
    assert_eq!(parse_value(&single, None), "{{id,value}}");
    let leaves = JsonValue::Array(vec![number("5"), JsonValue::Null, JsonValue::Bool(true)]);
    assert_eq!(parse_value(&leaves, None), "{}");
    assert_eq!(parse_value(&JsonValue::Array(vec![]), None), "{}");
}

#[test]
fn selection_of_a_heterogeneous_collection_is_empty() {
    let mixed = JsonValue::Array(vec![child("2", "a"), number("5")]);
    assert_eq!(parse_value(&mixed, None), "{}");
    let scalars_first = JsonValue::Array(vec![number("5"), child("2", "a")]);
    assert_eq!(parse_value(&scalars_first, None), "{}");
    let late = JsonValue::Array(vec![child("1", "a"), child("2", "b"), JsonValue::Array(vec![])]);
    assert_eq!(parse_value(&late, None), "{}");
    let other_keys = JsonValue::Array(vec![
        JsonValue::Object(vec![field("a", number("1"))]),
        JsonValue::Object(vec![field("b", number("1"))]),
    ]);
    assert_eq!(parse_value(&other_keys, None), "{}");
    let other_order = JsonValue::Array(vec![
        JsonValue::Object(vec![field("a", number("1")), field("b", number("2"))]),
        JsonValue::Object(vec![field("b", number("2")), field("a", number("1"))]),
    ]);
    assert_eq!(parse_value(&other_order, None), "{}");
    let nested_differs = JsonValue::Array(vec![parent(vec![]), parent(vec![child("1", "a")])]);
    assert_eq!(parse_value(&nested_differs, None), "{}");
    let holder = JsonValue::Object(vec![field("list", mixed_list())]);
    assert_eq!(parse_value(&holder, None), "{list{}}");
}

fn mixed_list() -> JsonValue {
    JsonValue::Array(vec![
        JsonValue::Object(vec![field("a", number("1"))]),
        number("5"),
    ])
}

#[test]
fn selection_of_a_nested_object() {
    let value = JsonValue::Object(vec![
        field("id", number("1")),
        field("owner", child("2", "a")),
        field("gone", JsonValue::Null),
    ]);
    assert_eq!(parse_value(&value, None), "{id,owner{id,value},gone}");
}

#[test]
fn selection_is_the_same_for_two_defaults() {
    let first = parse_value(&default_test_struct(), None);
    let second = parse_value(&default_test_struct(), None);
    assert_eq!(first, second);
}

#[test]
fn selection_ignores_what_the_leaves_hold() {
    let one = JsonValue::Object(vec![field("a", number("1")), field("b", JsonValue::Null)]);
    let other = JsonValue::Object(vec![
        field("a", JsonValue::Text("z".to_string())),
        field("b", JsonValue::Bool(true)),
    ]);
    assert_eq!(parse_value(&one, None), parse_value(&other, None));
}

#[test]
fn object_body_is_comma_joined() {
    let fields = vec![field("a", number("1")), field("b", child("2", "x"))];
    assert_eq!(parse_object(&fields), "a,b{id,value}");
    assert_eq!(parse_object(&vec![]), "");
    assert_eq!(parse_object(&vec![field("only", JsonValue::Null)]), "only");
}

#[test]
fn collection_body_is_that_of_the_first_item() {
    assert_eq!(parse_array(&vec![child("2", "x"), child("3", "y")]), "{id,value}");
    assert_eq!(parse_array(&vec![]), "");
    assert_eq!(parse_array(&vec![number("1")]), "");
}

#[test]
fn collection_body_of_items_that_differ_is_empty() {
    let object_then_scalar = vec![JsonValue::Object(vec![field("a", number("1"))]), number("5")];
    assert_eq!(parse_array(&object_then_scalar), "");
    let scalar_then_object = vec![number("5"), JsonValue::Object(vec![field("a", number("1"))])];
    assert_eq!(parse_array(&scalar_then_object), "");
    let one_key_more = vec![
        child("1", "a"),
        JsonValue::Object(vec![
            field("id", number("2")),
            field("value", number("3")),
            field("more", number("4")),
        ]),
    ];
    assert_eq!(parse_array(&one_key_more), "");
}
