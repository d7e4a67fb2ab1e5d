use kratos_forms::text::{i64_text, u64_text};
use kratos_forms::value::{checked, display_text, plain_text, Number, Value};

fn s(text: &str) -> Value {
    Value::String(text.to_string())
}

fn n(number: u64) -> Value {
    Value::Number(Number::Unsigned(number))
}

#[test]
fn checkbox_true_is_checked() {
    assert!(checked(&Some(Value::Bool(true))));
}

#[test]
fn checkbox_string_true_is_unchecked() {
    assert!(!checked(&Some(s("true"))));
}

#[test]
fn checkbox_other_values_are_unchecked() {
    assert!(!checked(&Some(Value::Bool(false))));
    assert!(!checked(&None));
    assert!(!checked(&Some(Value::Null)));
    assert!(!checked(&Some(n(1))));
    assert!(!checked(&Some(Value::Array(vec![Value::Bool(true)]))));
    assert!(!checked(&Some(Value::Object)));
}

#[test]
fn scalar_table_string() {
    assert_eq!(display_text(&Some(s("x"))), "x");
}

#[test]
fn scalar_table_number() {
    assert_eq!(display_text(&Some(n(5))), "5");
}

#[test]
fn scalar_table_bool() {
    assert_eq!(display_text(&Some(Value::Bool(true))), "true");
    assert_eq!(display_text(&Some(Value::Bool(false))), "false");
}

#[test]
fn scalar_table_array() {
    assert_eq!(display_text(&Some(Value::Array(vec![n(1), n(2)]))), "[1, 2]");
}

#[test]
fn scalar_table_null_and_absent() {
    assert_eq!(display_text(&Some(Value::Null)), "");
    assert_eq!(display_text(&None), "");
    assert_eq!(display_text(&Some(Value::Object)), "");
}

#[test]
fn empty_and_single_arrays() {
    assert_eq!(display_text(&Some(Value::Array(vec![]))), "[]");
    assert_eq!(display_text(&Some(Value::Array(vec![n(7)]))), "[7]");
}

#[test]
fn array_items_of_every_kind() {
    let value = Value::Array(vec![
        Value::Null,
        Value::Bool(false),
        Value::Number(Number::Signed(-3)),
        Value::Number(Number::Real("1.5".to_string())),
        s("a"),
        Value::Array(vec![n(1), Value::Array(vec![])]),
        Value::Object,
    ]);
    assert_eq!(display_text(&Some(value)), "[null, false, -3, 1.5, \"a\", [1, []], {}]");
}

#[test]
fn strings_in_arrays_are_quoted_and_escaped() {
    let value = Value::Array(vec![s("x"), s("say \"hi\"\n")]);
    assert_eq!(display_text(&Some(value)), "[\"x\", \"say \\\"hi\\\"\\n\"]");
}

#[test]
fn numbers_show_their_decimal_text() {
    assert_eq!(display_text(&Some(n(0))), "0");
    assert_eq!(display_text(&Some(n(u64::MAX))), "18446744073709551615");
    assert_eq!(display_text(&Some(Value::Number(Number::Signed(-42)))), "-42");
    assert_eq!(display_text(&Some(Value::Number(Number::Signed(42)))), "42");
    assert_eq!(
        display_text(&Some(Value::Number(Number::Signed(i64::MIN)))),
        "-9223372036854775808"
    );
    assert_eq!(display_text(&Some(Value::Number(Number::Real("2.5e3".to_string())))), "2.5e3");
}

#[test]
fn text_controls_show_strings_only() {
    assert_eq!(plain_text(&Some(s("hello"))), "hello");
    assert_eq!(plain_text(&Some(n(5))), "");
    assert_eq!(plain_text(&Some(Value::Bool(true))), "");
    assert_eq!(plain_text(&Some(Value::Array(vec![s("a")]))), "");
    assert_eq!(plain_text(&Some(Value::Null)), "");
    assert_eq!(plain_text(&None), "");
}

#[test]
fn decimal_texts() {
    assert_eq!(u64_text(0), "0");
    assert_eq!(u64_text(9), "9");
    assert_eq!(u64_text(10), "10");
    assert_eq!(u64_text(1234567890), "1234567890");
    assert_eq!(i64_text(0), "0");
    assert_eq!(i64_text(-1), "-1");
    assert_eq!(i64_text(i64::MAX), "9223372036854775807");
    assert_eq!(i64_text(i64::MIN), "-9223372036854775808");
}

#[test]
fn decimal_texts_agree_with_the_standard_library() {
    let samples: [i64; 9] = [0, 1, -1, 9, 10, -10, 99, 100, 1_000_000_007];
    for sample in samples {
        assert_eq!(i64_text(sample), sample.to_string());
    }
}
