use jot_sync::text::contains;
use jot_sync::text::decimal;
use jot_sync::text::decimal_two;
use jot_sync::text::ends_with_slash;
use jot_sync::text::find;
use jot_sync::text::find_from;
use jot_sync::text::matches_at;
use jot_sync::text::same_text;
use jot_sync::text::starts_with_slash;
use jot_sync::text::to_chars;
use jot_sync::text::trim_trailing_slashes;

fn chars(s: &str) -> Vec<char> {
    s.chars().collect()
}

#[test]
fn to_chars_keeps_every_character() {
    assert_eq!(to_chars(""), Vec::<char>::new());
    assert_eq!(to_chars("a/b"), vec!['a', '/', 'b']);
    assert_eq!(to_chars("h\u{e9}llo"), vec!['h', '\u{e9}', 'l', 'l', 'o']);
}

#[test]
fn find_gives_the_first_position() {
    assert_eq!(find(&chars("abcabc"), &chars("bc")), Some(1));
    assert_eq!(find(&chars("abcabc"), &chars("abc")), Some(0));
    assert_eq!(find(&chars("abcabc"), &chars("c")), Some(2));
    assert_eq!(find(&chars("abcabc"), &chars("cab")), Some(2));
}

#[test]
fn find_reports_a_missing_needle() {
    assert_eq!(find(&chars("abcabc"), &chars("x")), None);
    assert_eq!(find(&chars("abc"), &chars("abcd")), None);
    assert_eq!(find(&chars(""), &chars("a")), None);
}

#[test]
fn find_of_the_empty_needle_is_the_start() {
    assert_eq!(find(&chars("abc"), &chars("")), Some(0));
    assert_eq!(find(&chars(""), &chars("")), Some(0));
    assert_eq!(find_from(&chars("abc"), &chars(""), 3), Some(3));
    assert_eq!(find_from(&chars("abc"), &chars(""), 4), None);
}

#[test]
fn find_from_skips_earlier_positions() {
    assert_eq!(find_from(&chars("abcabc"), &chars("bc"), 1), Some(1));
    assert_eq!(find_from(&chars("abcabc"), &chars("bc"), 2), Some(4));
    assert_eq!(find_from(&chars("abcabc"), &chars("bc"), 5), None);
    assert_eq!(find_from(&chars("abcabc"), &chars("bc"), 100), None);
}

#[test]
fn find_counts_characters_not_bytes() {
    assert_eq!(find(&chars("\u{e9}\u{e9}x"), &chars("x")), Some(2));
}

#[test]
fn matches_at_checks_one_position() {
    assert!(matches_at(&chars("abcabc"), &chars("cab"), 2));
    assert!(!matches_at(&chars("abcabc"), &chars("cab"), 1));
    assert!(!matches_at(&chars("abcabc"), &chars("bc"), 5));
    assert!(!matches_at(&chars("abc"), &chars("a"), 7));
    assert!(matches_at(&chars("abc"), &chars(""), 3));
}

#[test]
fn contains_looks_everywhere() {
    assert!(contains("Failed: entry not found", "not found"));
    assert!(contains("not found", "not found"));
    assert!(!contains("No matching entry found in secure storage", "not found"));
    assert!(!contains("", "not found"));
    assert!(contains("anything", ""));
}

#[test]
fn same_text_compares_whole_texts() {
    assert!(same_text("", ""));
    assert!(same_text("secret", "secret"));
    assert!(!same_text("secret", "secret "));
    assert!(!same_text("secret", "Secret"));
    assert!(!same_text("", "a"));
}

#[test]
fn decimal_renders_numbers() {
    assert_eq!(decimal(0), "0");
    assert_eq!(decimal(7), "7");
    assert_eq!(decimal(10), "10");
    assert_eq!(decimal(1234567890), "1234567890");
    assert_eq!(decimal(u64::MAX), "18446744073709551615");
}

#[test]
fn decimal_two_pads_small_numbers() {
    assert_eq!(decimal_two(0), "00");
    assert_eq!(decimal_two(9), "09");
    assert_eq!(decimal_two(10), "10");
    assert_eq!(decimal_two(59), "59");
    assert_eq!(decimal_two(123), "123");
}

#[test]
fn trailing_slashes_are_removed() {
    assert_eq!(trim_trailing_slashes("https://cloud.example.com/"), "https://cloud.example.com");
    assert_eq!(trim_trailing_slashes("https://cloud.example.com///"), "https://cloud.example.com");
    assert_eq!(trim_trailing_slashes("https://cloud.example.com"), "https://cloud.example.com");
    assert_eq!(trim_trailing_slashes("a/b/"), "a/b");
    assert_eq!(trim_trailing_slashes("///"), "");
    assert_eq!(trim_trailing_slashes(""), "");
}

#[test]
fn slashes_at_the_ends_are_seen() {
    assert!(starts_with_slash("/jot"));
    assert!(!starts_with_slash("jot/"));
    assert!(!starts_with_slash(""));
    assert!(ends_with_slash("jot/"));
    assert!(!ends_with_slash("/jot"));
    assert!(!ends_with_slash(""));
}
