use devii::naming::{create_operation, input_type_name, snake_name, update_operation};

#[test]
fn type_names_resolve_to_snake_case() {
    assert_eq!(snake_name("TestStruct"), "test_struct");
    assert_eq!(snake_name("TestOneToMany"), "test_one_to_many");
    assert_eq!(snake_name("TestManyToOne"), "test_many_to_one");
    assert_eq!(snake_name("Record"), "record");
}

#[test]
fn snake_names_stay_as_they_are() {
    assert_eq!(snake_name("chain_stats"), "chain_stats");
    assert_eq!(snake_name(""), "");
}

#[test]
fn acronyms_are_one_word() {
    assert_eq!(snake_name("HTTPRequest"), "http_request");
}

#[test]
fn names_of_operations_and_input_types() {
    assert_eq!(input_type_name("test_struct"), "test_structInput");
    assert_eq!(create_operation("test_struct"), "create_test_struct");
    assert_eq!(update_operation("test_struct"), "update_test_struct");
    assert_eq!(input_type_name(""), "Input");
}
