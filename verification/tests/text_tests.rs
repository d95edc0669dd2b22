use gotd_bot::text::{contains_text, i64_to_string, str_eq};

#[test]
fn decimal_text_of_integers() {
    assert_eq!(i64_to_string(0), "0");
    assert_eq!(i64_to_string(7), "7");
    assert_eq!(i64_to_string(720), "720");
    assert_eq!(i64_to_string(2021), "2021");
    assert_eq!(i64_to_string(-1), "-1");
    assert_eq!(i64_to_string(-2021), "-2021");
    assert_eq!(i64_to_string(i64::MAX), "9223372036854775807");
    assert_eq!(i64_to_string(i64::MIN), "-9223372036854775808");
}

#[test]
fn text_equality() {
    assert!(str_eq("noon", "noon"));
    assert!(!str_eq("noon", "night"));
    assert!(!str_eq("noon", "noo"));
    assert!(str_eq("", ""));
}

#[test]
fn substring_search() {
    assert!(contains_text("abcdef", "cde"));
    assert!(contains_text("abcdef", ""));
    assert!(contains_text("abcdef", "abcdef"));
    assert!(!contains_text("abcdef", "cdf"));
    assert!(!contains_text("ab", "abc"));
    assert!(contains_text("aaab", "aab"));
}
