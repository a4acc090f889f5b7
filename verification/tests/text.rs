use p6m::scopes::ScopeSet;
use p6m::text::{
    chars_of, contains, decimal, ends_with, is_blank, join, list_contains, parse_unsigned,
    replace, signed_decimal, split, starts_with, strip_prefixes, strip_suffixes, text_between,
    text_of,
};

fn words(items: &[&str]) -> Vec<String> {
    items.iter().map(|s| s.to_string()).collect()
}

#[test]
fn chars_and_texts_round_trip() {
    assert_eq!(chars_of("aé😀"), vec!['a', 'é', '😀']);
    assert_eq!(text_of(&vec!['a', 'é', '😀']), "aé😀");
    assert_eq!(text_between(&vec!['a', 'b', 'c', 'd'], 1, 3), "bc");
    assert_eq!(text_between(&vec!['a'], 1, 1), "");
    assert_eq!(p6m::text::concat("ab", "cd"), "abcd");
    assert_eq!(p6m::text::concat("", ""), "");
}

#[test]
fn join_and_split_are_inverse_on_pieces() {
    assert_eq!(join(&words(&["a", "b", "c"]), ", "), "a, b, c");
    assert_eq!(join(&words(&["a"]), ", "), "a");
    assert_eq!(join(&vec![], ", "), "");
    assert_eq!(join(&words(&["", ""]), "-"), "-");
    assert_eq!(split("a b c", ' '), words(&["a", "b", "c"]));
    assert_eq!(split("", ' '), words(&[""]));
    assert_eq!(split(" a  b ", ' '), words(&["", "a", "", "b", ""]));
    assert_eq!(split("nospace", ' '), words(&["nospace"]));
    assert_eq!(split("apps", '/'), words(&["apps"]));
}

#[test]
fn prefixes_suffixes_and_parts() {
    assert!(starts_with("https://meta", "https://"));
    assert!(starts_with("abc", ""));
    assert!(!starts_with("ab", "abc"));
    assert!(!starts_with("xabc", "abc"));
    assert!(ends_with("file.json", ".json"));
    assert!(!ends_with("json", ".json"));
    assert!(ends_with("x", ""));
    assert!(contains("my-example-org", "example"));
    assert!(contains("example", "example"));
    assert!(!contains("exampl", "example"));
    assert!(contains("abc", ""));
    assert!(contains("", ""));
    assert!(!contains("", "a"));
    assert!(list_contains(&words(&["a", "b"]), "b"));
    assert!(!list_contains(&words(&["a", "b"]), "c"));
    assert!(!list_contains(&vec![], ""));
}

#[test]
fn blank_is_nothing_but_white_space() {
    assert!(is_blank(""));
    assert!(is_blank(" \t\r\n"));
    assert!(is_blank("\u{a0}\u{2003}\u{3000}\u{85}\u{1680}\u{2028}\u{2029}\u{202f}\u{205f}"));
    assert!(!is_blank(" a "));
    assert!(!is_blank("\u{200b}"));
    for code in 0u32..0x3100 {
        if let Some(c) = char::from_u32(code) {
            assert_eq!(is_blank(&c.to_string()), c.is_whitespace(), "U+{:04X}", code);
        }
    }
}

#[test]
fn numbers_are_written_and_read_in_decimal() {
    assert_eq!(decimal(0), "0");
    assert_eq!(decimal(7), "7");
    assert_eq!(decimal(10), "10");
    assert_eq!(decimal(1234567890), "1234567890");
    assert_eq!(decimal(u64::MAX), "18446744073709551615");
    assert_eq!(signed_decimal(0), "0");
    assert_eq!(signed_decimal(-1), "-1");
    assert_eq!(signed_decimal(i64::MIN), "-9223372036854775808");
    assert_eq!(signed_decimal(i64::MAX), "9223372036854775807");
    assert_eq!(parse_unsigned("0"), Some(0));
    assert_eq!(parse_unsigned("5"), Some(5));
    assert_eq!(parse_unsigned("+5"), Some(5));
    assert_eq!(parse_unsigned("007"), Some(7));
    assert_eq!(parse_unsigned("18446744073709551615"), Some(u64::MAX));
    assert_eq!(parse_unsigned("18446744073709551616"), None);
    assert_eq!(parse_unsigned("99999999999999999999999"), None);
    assert_eq!(parse_unsigned(""), None);
    assert_eq!(parse_unsigned("+"), None);
    assert_eq!(parse_unsigned("-5"), None);
    assert_eq!(parse_unsigned("5 "), None);
    assert_eq!(parse_unsigned("++5"), None);
    assert_eq!(parse_unsigned("٥"), None);
    for text in ["12", "+0", "1e3", " 1", "0x10", "4294967296"] {
        assert_eq!(parse_unsigned(text), text.parse::<u64>().ok(), "{}", text);
    }
}

#[test]
fn replace_takes_occurrences_from_the_left() {
    assert_eq!(replace("dev-east-auth0", "-auth0", ""), "dev-east");
    assert_eq!(replace("a.b.c", ".", "/"), "a/b/c");
    assert_eq!(replace("aaa", "aa", "b"), "ba");
    assert_eq!(replace("abc", "", "x"), "abc");
    assert_eq!(replace("", "a", "x"), "");
    assert_eq!(replace("https://https://x", "https://", ""), "x");
    assert_eq!(replace("a-b", "-", "_"), "a_b");
    assert_eq!(replace("abab", "ab", "abab"), "abababab");
    assert_eq!(strip_prefixes("ababc", "ab"), "c");
    assert_eq!(strip_prefixes("abc", ""), "abc");
    assert_eq!(strip_prefixes("abab", "ab"), "");
    assert_eq!(strip_suffixes("a///", "/"), "a");
    assert_eq!(strip_suffixes("a/b", "/"), "a/b");
    assert_eq!(strip_suffixes("//", "/"), "");
    assert_eq!(strip_suffixes("abc", ""), "abc");
}

#[test]
fn scope_set_is_sorted_and_unique() {
    let mut scopes = ScopeSet::new();
    assert_eq!(scopes.len(), 0);
    scopes.insert("openid");
    scopes.insert("email");
    scopes.insert("openid");
    scopes.insert("Zebra");
    assert_eq!(scopes.to_vec(), words(&["Zebra", "email", "openid"]));
    assert_eq!(scopes.len(), 3);
    assert_eq!(scopes.get(1), "email");
    let copy = scopes.clone();
    assert_eq!(copy, scopes);
}
