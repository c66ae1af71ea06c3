use devii::test_struct::{deserialize_u64_or_string, id_value, IdError};
use devii::text::{parse_digits, parse_u64, u64_to_decimal};
use devii::value::JsonValue;

#[test]
fn digits_are_read_as_their_number() {
    assert_eq!(parse_digits("0"), Some(0));
    assert_eq!(parse_digits("7"), Some(7));
    assert_eq!(parse_digits("42"), Some(42));
    assert_eq!(parse_digits("007"), Some(7));
    assert_eq!(parse_digits("18446744073709551615"), Some(u64::MAX));
}

#[test]
fn too_great_a_number_is_refused() {
    assert_eq!(parse_digits("18446744073709551616"), None);
    assert_eq!(parse_digits("18446744073709551620"), None);
    assert_eq!(parse_digits("99999999999999999999"), None);
    assert_eq!(parse_digits("184467440737095516150"), None);
    assert_eq!(parse_u64("+18446744073709551616"), None);
}

#[test]
fn what_is_no_digit_is_refused() {
    assert_eq!(parse_digits(""), None);
    assert_eq!(parse_digits("+5"), None);
    assert_eq!(parse_digits("-5"), None);
    assert_eq!(parse_digits("1.5"), None);
    assert_eq!(parse_digits("12a"), None);
    assert_eq!(parse_digits(" 12"), None);
    assert_eq!(parse_digits("12 "), None);
    assert_eq!(parse_digits("1_000"), None);
    assert_eq!(parse_digits("\u{663}"), None);
}

#[test]
fn a_plus_sign_may_lead_an_unsigned_integer() {
    assert_eq!(parse_u64("+5"), Some(5));
    assert_eq!(parse_u64("5"), Some(5));
    assert_eq!(parse_u64("+"), None);
    assert_eq!(parse_u64(""), None);
    assert_eq!(parse_u64("++5"), None);
    assert_eq!(parse_u64("-5"), None);
    assert_eq!(parse_u64("5+"), None);
}

#[test]
fn parsing_agrees_with_the_standard_library() {
    let samples = [
        "0", "1", "+1", "-1", "", "+", "00", "123456789", "18446744073709551615",
        "18446744073709551616", "1e3", "0x10", "12 ", "٣",
    ];
    for text in samples {
        assert_eq!(parse_u64(text), text.parse::<u64>().ok(), "for {:?}", text);
    }
}

#[test]
fn what_is_written_is_read_back() {
    let samples: [u64; 7] = [0, 9, 10, 99, 1234567890, u64::MAX - 1, u64::MAX];
    for n in samples {
        assert_eq!(parse_digits(u64_to_decimal(n).as_str()), Some(n));
        assert_eq!(parse_u64(u64_to_decimal(n).as_str()), Some(n));
        assert_eq!(deserialize_u64_or_string(&id_value(Some(n))), Ok(Some(n)));
    }
}

#[test]
fn identifier_from_a_number() {
    assert_eq!(
        deserialize_u64_or_string(&JsonValue::Number("31".to_string())),
        Ok(Some(31))
    );
    assert_eq!(
        deserialize_u64_or_string(&JsonValue::Number("-31".to_string())),
        Err(IdError::Mismatch)
    );
    assert_eq!(
        deserialize_u64_or_string(&JsonValue::Number("3.5".to_string())),
        Err(IdError::Mismatch)
    );
}

#[test]
fn identifier_from_a_string() {
    assert_eq!(deserialize_u64_or_string(&JsonValue::Text("31".to_string())), Ok(Some(31)));
    assert_eq!(deserialize_u64_or_string(&JsonValue::Text("+31".to_string())), Ok(Some(31)));
    assert_eq!(
        deserialize_u64_or_string(&JsonValue::Text("abc".to_string())),
        Err(IdError::Unparsable)
    );
    assert_eq!(
        deserialize_u64_or_string(&JsonValue::Text(String::new())),
        Err(IdError::Unparsable)
    );
}

#[test]
fn identifier_from_anything_else() {
    assert_eq!(deserialize_u64_or_string(&JsonValue::Null), Err(IdError::Mismatch));
    assert_eq!(deserialize_u64_or_string(&JsonValue::Bool(true)), Err(IdError::Mismatch));
    assert_eq!(deserialize_u64_or_string(&JsonValue::Array(vec![])), Err(IdError::Mismatch));
    assert_eq!(deserialize_u64_or_string(&JsonValue::Object(vec![])), Err(IdError::Mismatch));
}

#[test]
fn identifier_errors_say_what_went_wrong() {
    assert_eq!(IdError::Unparsable.message(), "Can't parse id!");
    assert_eq!(
        IdError::Mismatch.message(),
        "data did not match any variant of untagged enum StringOrU64"
    );
}
