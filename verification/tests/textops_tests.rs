use aoc_fetch::textops::{contains_substr, i64_string, join_with_newlines, pad_day, u64_string};

#[test]
fn u64_renders_single_digit() {
    assert_eq!(u64_string(0), "0");
    assert_eq!(u64_string(7), "7");
}

#[test]
fn u64_renders_multiple_digits() {
    assert_eq!(u64_string(25), "25");
    assert_eq!(u64_string(2015), "2015");
    assert_eq!(u64_string(18446744073709551615), "18446744073709551615");
}

#[test]
fn i64_renders_negative_numbers() {
    assert_eq!(i64_string(-42), "-42");
    assert_eq!(i64_string(-1), "-1");
    assert_eq!(i64_string(i64::MIN), "-9223372036854775808");
}

#[test]
fn i64_renders_non_negative_numbers() {
    assert_eq!(i64_string(0), "0");
    assert_eq!(i64_string(2023), "2023");
    assert_eq!(i64_string(i64::MAX), "9223372036854775807");
}

#[test]
fn pad_day_pads_short_labels() {
    assert_eq!(pad_day("3"), "03");
    assert_eq!(pad_day(""), "00");
}

#[test]
fn pad_day_keeps_long_labels() {
    assert_eq!(pad_day("12"), "12");
    assert_eq!(pad_day("123"), "123");
}

#[test]
fn contains_finds_pattern() {
    assert!(contains_substr("hello id=\"part2\" more", "id=\"part2\""));
    assert!(contains_substr("abc", "abc"));
    assert!(contains_substr("abc", "c"));
    assert!(contains_substr("abc", ""));
}

#[test]
fn contains_rejects_absent_pattern() {
    assert!(!contains_substr("hello", "world"));
    assert!(!contains_substr("ab", "abc"));
    assert!(!contains_substr("", "a"));
    assert!(!contains_substr("id=\"part1\"", "id=\"part2\""));
}

#[test]
fn join_empty_vector_is_empty() {
    let parts: Vec<String> = vec![];
    assert_eq!(join_with_newlines(&parts), "");
}

#[test]
fn join_single_part_is_itself() {
    let parts = vec![String::from("A")];
    assert_eq!(join_with_newlines(&parts), "A");
}

#[test]
fn join_separates_with_newlines() {
    let parts = vec![String::from("A"), String::from("B"), String::from("C")];
    assert_eq!(join_with_newlines(&parts), "A\nB\nC");
}
