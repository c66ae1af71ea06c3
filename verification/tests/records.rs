use devii::devii::DeviiTrait;
use devii::test_struct::{id_value, insert_fragment, TestManyToOne, TestOneToMany};
use devii::value::JsonValue;

#[test]
fn fetch_fields_test() {
    let value = TestOneToMany::fetch_fields();

    assert_eq!("{ id, value, test_many_to_one_collection { id, value, test_one_to_many_id, test_one_to_many { id, value } } }".to_string()
    , value)
}

#[test]
fn child_fetch_fields() {
    assert_eq!(
        TestManyToOne::fetch_fields(),
        "{ id, value, test_one_to_many_id, test_one_to_many { id, value } }"
    );
}

#[test]
fn new_parent_has_two_unlinked_children() {
    let parent = TestOneToMany::new();
    assert_eq!(parent.id, None);
    assert_eq!(parent.value, "OneToMany");
    let children = parent.test_many_to_one_collection.unwrap();
    assert_eq!(children.len(), 2);
    assert_eq!(children[0].value, "Hello World from Layer 2~");
    assert_eq!(children[1].value, "I wouldn't have said that...");
    for child in children.iter() {
        assert_eq!(child.id, None);
        assert_eq!(child.test_one_to_many_id, None);
        assert!(child.test_one_to_many.is_none());
    }
}

#[test]
fn default_records_are_empty() {
    let parent = TestOneToMany::default();
    assert_eq!(parent.id, None);
    assert_eq!(parent.value, "");
    assert!(parent.test_many_to_one_collection.is_none());
    let child = TestManyToOne::default();
    assert_eq!(child.id, None);
    assert_eq!(child.test_one_to_many_id, None);
    assert!(child.test_one_to_many.is_none());
    assert_eq!(child.value, "");
}

#[test]
fn parent_names_its_insert() {
    let parent = TestOneToMany::new();
    assert_eq!(parent.input_type(), "test_one_to_manyInput");
    assert_eq!(
        parent.insert_query("input_3".to_string()),
        "create_test_one_to_many (input: $input_3 ){ id }"
    );
}

#[test]
fn child_names_its_insert() {
    let child = TestManyToOne::default();
    assert_eq!(child.input_type(), "test_many_to_oneInput");
    assert_eq!(
        child.insert_query("input_0".to_string()),
        "create_test_many_to_one (input: $input_0 ){ id }"
    );
}

#[test]
fn parent_inputs_leave_the_collection_out() {
    let parent = TestOneToMany::new();
    assert_eq!(
        parent.graphql_inputs(),
        JsonValue::Object(vec![
            ("id".to_string(), JsonValue::Null),
            ("value".to_string(), JsonValue::Text("OneToMany".to_string())),
        ])
    );
}

#[test]
fn child_inputs_leave_the_owner_out() {
    let child = TestManyToOne {
        id: Some(7),
        test_one_to_many_id: Some(12),
        test_one_to_many: Some(TestOneToMany::new()),
        value: "v".to_string(),
    };
    assert_eq!(
        child.graphql_inputs(),
        JsonValue::Object(vec![
            ("id".to_string(), JsonValue::Number("7".to_string())),
            ("test_one_to_many_id".to_string(), JsonValue::Number("12".to_string())),
            ("value".to_string(), JsonValue::Text("v".to_string())),
        ])
    );
}

#[test]
fn identifiers_serialize_as_numbers_or_null() {
    assert_eq!(id_value(None), JsonValue::Null);
    assert_eq!(id_value(Some(0)), JsonValue::Number("0".to_string()));
    assert_eq!(
        id_value(Some(u64::MAX)),
        JsonValue::Number("18446744073709551615".to_string())
    );
}

#[test]
fn delete_input_names_the_record() {
    let mut parent = TestOneToMany::new();
    parent.id = Some(31);
    assert_eq!(parent.delete_input(), "id: 31");
    let mut child = TestManyToOne::default();
    child.id = Some(4);
    assert_eq!(child.delete_input(), "id: 4");
}

#[test]
fn fragment_names_the_operation_and_the_variable() {
    assert_eq!(
        insert_fragment("create_test_struct", "input_2"),
        "create_test_struct (input: $input_2 ){ id }"
    );
    assert_eq!(insert_fragment("", ""), " (input: $ ){ id }");
}
