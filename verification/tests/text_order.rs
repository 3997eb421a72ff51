use sonarpad_options::order::{chars_less, insert_sorted_unique};
use sonarpad_options::text::{
    concat_str, contains_str, decimal_string, eq_ignore_ascii_case, i32_to_string, is_blank, parse_trimmed_i32,
    parse_trimmed_u32, replace_str, starts_with_str, string_from_chars, to_ascii_lowercase, to_ascii_uppercase, trim,
};

fn chars(s: &str) -> Vec<char> {
    s.chars().collect()
}

#[test]
fn concat_joins_both_strings() {
    assert_eq!(concat_str("HTTP ", "404"), "HTTP 404");
    assert_eq!(concat_str("", ""), "");
}

#[test]
fn string_from_chars_rebuilds_the_string() {
    let v = chars("Gemini Flash (latest)");
    assert_eq!(string_from_chars(&v), "Gemini Flash (latest)");
    assert_eq!(string_from_chars(&chars("è€😀")), "è€😀");
}

#[test]
fn trim_removes_unicode_white_space() {
    assert_eq!(trim("  gemini-pro \t\n"), "gemini-pro");
    assert_eq!(trim("\u{3000}x\u{00A0}"), "x");
    assert_eq!(trim(""), "");
    assert!(is_blank(" \t "));
    assert!(!is_blank(" a "));
}

#[test]
fn contains_and_starts_with_follow_std() {
    assert!(contains_str("en-US-AvaMultilingualNeural", "Multilingual"));
    assert!(!contains_str("en-US-AvaNeural", "Multilingual"));
    assert!(contains_str("abc", ""));
    assert!(starts_with_str("gemini-2.0-flash", "gemini"));
    assert!(!starts_with_str("gem", "gemini"));
}

#[test]
fn replace_replaces_every_occurrence() {
    assert_eq!(replace_str("models/gemini-pro", "models/", ""), "gemini-pro");
    assert_eq!(replace_str("aXbXc", "X", "--"), "a--b--c");
    assert_eq!(replace_str("aaa", "aa", "b"), "ba");
}

#[test]
fn ascii_case_changes_only_ascii_letters() {
    assert_eq!(to_ascii_lowercase("En-US É"), "en-us É");
    assert_eq!(to_ascii_uppercase("pt-br é"), "PT-BR é");
    assert!(eq_ignore_ascii_case("ComboBox", "COMBOBOX"));
    assert!(!eq_ignore_ascii_case("É", "é"));
}

#[test]
fn numbers_print_in_decimal() {
    assert_eq!(decimal_string(0), "0");
    assert_eq!(decimal_string(2048), "2048");
    assert_eq!(i32_to_string(-250), "-250");
    assert_eq!(i32_to_string(i32::MIN), "-2147483648");
}

#[test]
fn parsing_reads_what_std_reads() {
    assert_eq!(parse_trimmed_u32(" 80 "), Some(80));
    assert_eq!(parse_trimmed_u32("+7"), Some(7));
    assert_eq!(parse_trimmed_u32("-7"), None);
    assert_eq!(parse_trimmed_u32("4294967295"), Some(u32::MAX));
    assert_eq!(parse_trimmed_u32("4294967296"), None);
    assert_eq!(parse_trimmed_u32(""), None);
    assert_eq!(parse_trimmed_u32("1 2"), None);
    assert_eq!(parse_trimmed_i32("-2147483648"), Some(i32::MIN));
    assert_eq!(parse_trimmed_i32("2147483648"), None);
    assert_eq!(parse_trimmed_i32(" -15 "), Some(-15));
}

#[test]
fn printed_numbers_read_back() {
    for n in [0u32, 1, 9, 10, 99, 100, 2048, u32::MAX] {
        assert_eq!(parse_trimmed_u32(&decimal_string(n as usize)), Some(n));
    }
    for n in [i32::MIN, -1000, -1, 0, 1, i32::MAX] {
        assert_eq!(parse_trimmed_i32(&i32_to_string(n)), Some(n));
    }
}

#[test]
fn string_order_is_code_point_order() {
    assert!(chars_less(&chars("a"), &chars("b")));
    assert!(chars_less(&chars("ab"), &chars("abc")));
    assert!(!chars_less(&chars("abc"), &chars("abc")));
    assert!(chars_less(&chars("Z"), &chars("a")));
    assert!(!chars_less(&chars("b"), &chars("a")));
}

#[test]
fn insert_sorted_unique_keeps_order_and_drops_duplicates() {
    let mut list: Vec<String> = Vec::new();
    for item in ["it", "en", "fr", "en", "de", "it"] {
        insert_sorted_unique(&mut list, item.to_string());
    }
    assert_eq!(list, vec!["de", "en", "fr", "it"]);
}
