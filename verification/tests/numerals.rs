use swedish_iban_tool::numeral::digit_str;
use swedish_iban_tool::{decimal_string, pad_left_zeros};

#[test]
fn digit_str_gives_each_digit() {
    let all: Vec<&str> = (0..10).map(digit_str).collect();
    assert_eq!(all, vec!["0", "1", "2", "3", "4", "5", "6", "7", "8", "9"]);
}

#[test]
fn decimal_string_has_no_leading_zero() {
    assert_eq!(decimal_string(0), "0");
    assert_eq!(decimal_string(9), "9");
    assert_eq!(decimal_string(10), "10");
    assert_eq!(decimal_string(120), "120");
    assert_eq!(decimal_string(83279), "83279");
    assert_eq!(decimal_string(1000000000), "1000000000");
    assert_eq!(decimal_string(u32::MAX), "4294967295");
}

#[test]
fn pad_left_zeros_fills_to_the_width() {
    assert_eq!(pad_left_zeros("12740235305", 17), "00000012740235305");
    assert_eq!(pad_left_zeros("", 3), "000");
    assert_eq!(pad_left_zeros("7", 2), "07");
    assert_eq!(pad_left_zeros("ab", 4), "00ab");
}

#[test]
fn pad_left_zeros_never_cuts() {
    assert_eq!(pad_left_zeros("12345", 5), "12345");
    assert_eq!(pad_left_zeros("123456", 5), "123456");
    assert_eq!(pad_left_zeros("abc", 0), "abc");
    assert_eq!(pad_left_zeros("", 0), "");
}

#[test]
fn pad_left_zeros_counts_characters() {
    assert_eq!(pad_left_zeros("éé", 4), "00éé");
}
