use dilobo::text::{
    bool_to_string, i64_to_string, join, list_to_string, text, text_or_none, u64_to_hex,
    u64_to_string,
};

#[test]
fn decimal_of_zero_is_one_digit() {
    assert_eq!(u64_to_string(0), "0");
}

#[test]
fn decimal_has_no_leading_zeros() {
    assert_eq!(u64_to_string(7), "7");
    assert_eq!(u64_to_string(10), "10");
    assert_eq!(u64_to_string(1234567890), "1234567890");
}

#[test]
fn decimal_of_the_greatest_number() {
    assert_eq!(u64_to_string(u64::MAX), "18446744073709551615");
}

#[test]
fn signed_decimal_has_a_minus_sign_below_zero() {
    assert_eq!(i64_to_string(0), "0");
    assert_eq!(i64_to_string(42), "42");
    assert_eq!(i64_to_string(-1), "-1");
    assert_eq!(i64_to_string(i64::MAX), "9223372036854775807");
    assert_eq!(i64_to_string(i64::MIN), "-9223372036854775808");
}

#[test]
fn hexadecimal_is_lower_case() {
    assert_eq!(u64_to_hex(0), "0");
    assert_eq!(u64_to_hex(255), "ff");
    assert_eq!(u64_to_hex(0xDEADBEEF), "deadbeef");
    assert_eq!(u64_to_hex(u64::MAX), "ffffffffffffffff");
}

#[test]
fn truth_values_are_spelled_out() {
    assert_eq!(bool_to_string(true), "true");
    assert_eq!(bool_to_string(false), "false");
}

#[test]
fn joined_texts_have_the_separator_between_them() {
    assert_eq!(join(&vec![], ", "), "");
    assert_eq!(join(&vec![text("a")], ", "), "a");
    assert_eq!(join(&vec![text("a"), text("b"), text("c")], " | "), "a | b | c");
}

#[test]
fn list_is_bracketed() {
    assert_eq!(list_to_string(&vec![]), "[]");
    assert_eq!(list_to_string(&vec![text("1"), text("2")]), "[1, 2]");
}

#[test]
fn missing_text_is_none() {
    assert_eq!(text_or_none(None), "None");
    assert_eq!(text_or_none(Some(text("x"))), "x");
}
