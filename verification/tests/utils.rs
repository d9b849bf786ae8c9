use rust_calculator::utils::{format_result, greet, validate_number};

#[test]
fn greet_names_the_person() {
    assert_eq!(greet("Rust Calculator"), "Hello, Rust Calculator!");
    assert_eq!(greet("Ada"), "Hello, Ada!");
}

#[test]
fn greet_empty_and_non_ascii_names() {
    assert_eq!(greet(""), "Hello, !");
    assert_eq!(greet("Zoë"), "Hello, Zoë!");
}

#[test]
fn format_result_joins_expression_and_value() {
    assert_eq!(format_result("10 + 5", &format!("{:.2}", 15.0)), "10 + 5 = 15.00");
    assert_eq!(
        format_result("(10 + 5) * 2 / 3", &format!("{:.2}", 30.0 / 3.0)),
        "(10 + 5) * 2 / 3 = 10.00"
    );
    assert_eq!(format_result("2 / 3", &format!("{:.2}", 2.0 / 3.0)), "2 / 3 = 0.67");
}

#[test]
fn format_result_with_empty_parts() {
    assert_eq!(format_result("", ""), " = ");
    assert_eq!(format_result("x", ""), "x = ");
}

#[test]
fn validate_number_accepts_plain_numbers() {
    assert!(validate_number("0"));
    assert!(validate_number("123"));
    assert!(validate_number("1.5"));
    assert!(validate_number("-5"));
    assert!(validate_number("+5"));
    assert!(validate_number("-12.75"));
    assert!(validate_number(".5"));
    assert!(validate_number("5."));
}

#[test]
fn validate_number_rejects_empty_text() {
    assert!(!validate_number(""));
}

#[test]
fn validate_number_rejects_two_decimal_points() {
    assert!(!validate_number("1.2.3"));
    assert!(!validate_number(".."));
    assert!(!validate_number("1..2"));
    assert!(!validate_number(".1."));
}

#[test]
fn validate_number_rejects_other_characters() {
    assert!(!validate_number("abc"));
    assert!(!validate_number("12a"));
    assert!(!validate_number("1e5"));
    assert!(!validate_number(" 1"));
    assert!(!validate_number("1 "));
    assert!(!validate_number("1,5"));
    assert!(!validate_number("/"));
    assert!(!validate_number(":"));
}

#[test]
fn validate_number_rejects_digits_outside_ascii() {
    assert!(!validate_number("١٢٣"));
    assert!(!validate_number("１"));
    assert!(!validate_number("1²"));
}

#[test]
fn validate_number_needs_a_digit() {
    assert!(!validate_number("."));
    assert!(!validate_number("-"));
    assert!(!validate_number("+"));
    assert!(!validate_number("+-"));
    assert!(!validate_number("-."));
}

#[test]
fn validate_number_takes_signs_anywhere() {
    assert!(validate_number("1-2"));
    assert!(validate_number("5-"));
    assert!(validate_number("--1"));
    assert!(validate_number("+-+3.0"));
}

#[test]
fn validate_number_bad_character_after_digits() {
    assert!(!validate_number("123x"));
    assert!(!validate_number("1.5.0"));
}
