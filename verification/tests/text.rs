use livebox::text::{join, format_i64, format_u64, same_text, strip_trailing_slash};

#[test]
fn format_u64_writes_decimal_digits() {
    assert_eq!(format_u64(0), "0");
    assert_eq!(format_u64(7), "7");
    assert_eq!(format_u64(10), "10");
    assert_eq!(format_u64(401), "401");
    assert_eq!(format_u64(u64::MAX), "18446744073709551615");
}

#[test]
fn format_i64_writes_a_sign_for_negative_numbers() {
    assert_eq!(format_i64(0), "0");
    assert_eq!(format_i64(8080), "8080");
    assert_eq!(format_i64(-1), "-1");
    assert_eq!(format_i64(-32768), "-32768");
    assert_eq!(format_i64(i64::MAX), "9223372036854775807");
    assert_eq!(format_i64(i64::MIN), "-9223372036854775808");
}

#[test]
fn strip_trailing_slash_removes_at_most_one() {
    assert_eq!(strip_trailing_slash("a/"), "a");
    assert_eq!(strip_trailing_slash("a//"), "a/");
    assert_eq!(strip_trailing_slash("a"), "a");
    assert_eq!(strip_trailing_slash("/"), "");
    assert_eq!(strip_trailing_slash(""), "");
    assert_eq!(strip_trailing_slash("é/"), "é");
}

#[test]
fn same_text_compares_characters() {
    assert!(same_text("abc", "abc"));
    assert!(!same_text("abc", "abd"));
    assert!(!same_text("abc", "ab"));
    assert!(same_text("", ""));
}

#[test]
fn concat_joins_two_texts() {
    assert_eq!(join("ab", "cd"), "abcd");
    assert_eq!(join("", ""), "");
}
