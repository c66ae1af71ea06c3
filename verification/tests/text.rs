use devii::text::{join_strings, u64_to_decimal};

#[test]
fn decimal_of_small_numbers() {
    assert_eq!(u64_to_decimal(0), "0");
    assert_eq!(u64_to_decimal(7), "7");
    assert_eq!(u64_to_decimal(9), "9");
    assert_eq!(u64_to_decimal(10), "10");
    assert_eq!(u64_to_decimal(105), "105");
}

#[test]
fn decimal_of_the_greatest_number() {
    assert_eq!(u64_to_decimal(u64::MAX), "18446744073709551615");
    assert_eq!(u64_to_decimal(1000000), "1000000");
}

#[test]
fn decimal_agrees_with_the_standard_library() {
    let samples: [u64; 8] = [1, 19, 99, 100, 12345, 4294967295, 4294967296, 9999999999999999999];
    for n in samples {
        assert_eq!(u64_to_decimal(n), n.to_string());
    }
}

#[test]
fn join_puts_the_separator_between_neighbours() {
    let parts = vec!["a".to_string(), "b".to_string(), "c".to_string()];
    assert_eq!(join_strings(&parts, ","), "a,b,c");
    assert_eq!(join_strings(&parts, ""), "abc");
    assert_eq!(join_strings(&parts, ", "), "a, b, c");
}

#[test]
fn join_of_few_parts() {
    assert_eq!(join_strings(&vec![], ","), "");
    assert_eq!(join_strings(&vec!["only".to_string()], ","), "only");
    assert_eq!(join_strings(&vec![String::new(), String::new()], ","), ",");
}
