use tft_stat::text::{push_decimal, same_text};

fn written(n: i64) -> String {
    let mut out = String::new();
    push_decimal(&mut out, n);
    out
}

#[test]
fn decimal_of_small_numbers() {
    assert_eq!(written(0), "0");
    assert_eq!(written(7), "7");
    assert_eq!(written(10), "10");
    assert_eq!(written(-1), "-1");
    assert_eq!(written(1234567890), "1234567890");
    assert_eq!(written(-9080706050), "-9080706050");
}

#[test]
fn decimal_of_the_extremes() {
    assert_eq!(written(i64::MAX), "9223372036854775807");
    assert_eq!(written(i64::MIN), "-9223372036854775808");
}

#[test]
fn decimal_is_appended() {
    let mut out = String::from("n=");
    push_decimal(&mut out, 42);
    push_decimal(&mut out, -3);
    assert_eq!(out, "n=42-3");
}

#[test]
fn decimal_agrees_with_the_standard_writing() {
    for n in -1100..1100 {
        assert_eq!(written(n), n.to_string());
    }
}

#[test]
fn same_text_compares_characters() {
    assert!(same_text("", ""));
    assert!(same_text("ranked", "ranked"));
    assert!(!same_text("ranked", "unranked"));
    assert!(!same_text("ranked", "ranke"));
    assert!(!same_text("ranked", "rankeD"));
    assert!(same_text("Ⅳ é", "Ⅳ é"));
    assert!(!same_text("é", "e"));
}
