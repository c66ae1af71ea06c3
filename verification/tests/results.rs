use devii::devii::{created, fetched, first_record, position_of, updated, DeviiQueryResult};
use devii::error::DeviiError;

fn answer<T>(entries: Vec<(&str, T)>) -> DeviiQueryResult<T> {
    let mut data = Vec::new();
    for (alias, value) in entries {
        data.push((alias.to_string(), value));
    }
    DeviiQueryResult { data }
}

#[test]
fn take_finds_the_result_under_its_alias() {
    let result = answer(vec![("insert_0", 10), ("insert_1", 11), ("insert_2", 12)]);
    assert_eq!(result.take("insert_1"), Ok(11));
    let again = answer(vec![("insert_0", 10), ("insert_1", 11)]);
    assert_eq!(again.take("insert_0"), Ok(10));
}

#[test]
fn take_reports_the_missing_alias() {
    let result = answer(vec![("create_test_struct", 1)]);
    assert_eq!(
        result.take("update_test_struct"),
        Err(DeviiError::MissingKey("update_test_struct".to_string()))
    );
    let empty: DeviiQueryResult<u8> = answer(vec![]);
    assert_eq!(empty.take("x"), Err(DeviiError::MissingKey("x".to_string())));
}

#[test]
fn take_prefers_the_first_of_equal_aliases() {
    let result = answer(vec![("a", 1), ("b", 2), ("a", 3)]);
    assert_eq!(result.take("a"), Ok(1));
}

#[test]
fn created_looks_under_the_create_operation() {
    let result = answer(vec![("create_test_struct", "7".to_string())]);
    assert_eq!(created("TestStruct", result), Ok("7".to_string()));
    let wrong = answer(vec![("test_struct", "7".to_string())]);
    assert_eq!(
        created("TestStruct", wrong),
        Err(DeviiError::MissingKey("create_test_struct".to_string()))
    );
}

#[test]
fn updated_looks_under_the_update_operation() {
    let result = answer(vec![("update_test_one_to_many", 5)]);
    assert_eq!(updated("TestOneToMany", result), Ok(5));
    let wrong = answer(vec![("create_test_one_to_many", 5)]);
    assert_eq!(
        updated("TestOneToMany", wrong),
        Err(DeviiError::MissingKey("update_test_one_to_many".to_string()))
    );
}

#[test]
fn fetched_returns_the_first_record() {
    let result = answer(vec![("test_struct", vec!["first", "second"])]);
    assert_eq!(fetched("TestStruct", result), Ok("first"));
    let single = answer(vec![("test_struct", vec!["only"])]);
    assert_eq!(fetched("TestStruct", single), Ok("only"));
}

#[test]
fn fetch_of_an_unknown_identifier_is_not_found() {
    let result: DeviiQueryResult<Vec<u64>> = answer(vec![("test_struct", vec![])]);
    assert_eq!(fetched("TestStruct", result), Err(DeviiError::NotFound));
    let none: Vec<String> = vec![];
    assert_eq!(first_record(none), Err(DeviiError::NotFound));
}

#[test]
fn fetch_without_the_type_in_the_answer_is_a_missing_key() {
    let result: DeviiQueryResult<Vec<u64>> = answer(vec![("other", vec![1])]);
    assert_eq!(
        fetched("TestStruct", result),
        Err(DeviiError::MissingKey("test_struct".to_string()))
    );
}

#[test]
fn first_record_is_the_one_in_front() {
    assert_eq!(first_record(vec![3, 2, 1]), Ok(3));
    assert_eq!(first_record(vec!["x".to_string()]), Ok("x".to_string()));
}

#[test]
fn errors_say_what_went_wrong() {
    assert_eq!(DeviiError::Shape.message(), "Struct not evaluated as an Object!");
    assert_eq!(DeviiError::NotFound.message(), "No Type Found with that id");
    assert_eq!(
        DeviiError::MissingKey("create_x".to_string()).message(),
        "No result under the key create_x"
    );
    assert_eq!(
        DeviiError::Transport("refused".to_string()).message(),
        "Failed to reach the backend: refused"
    );
    assert_eq!(
        DeviiError::Parse { raw: "<html>".to_string(), cause: "expected value".to_string() }
            .message(),
        "Failed to Parse struct from Result: <html>, Error: expected value"
    );
}

#[test]
fn position_of_the_first_result_under_an_alias() {
    let data = vec![("a".to_string(), 1), ("b".to_string(), 2), ("a".to_string(), 3)];
    assert_eq!(position_of(&data, "a"), Some(0));
    assert_eq!(position_of(&data, "b"), Some(1));
    assert_eq!(position_of(&data, "c"), None);
    let empty: Vec<(String, u8)> = vec![];
    assert_eq!(position_of(&empty, "a"), None);
}
