use bun2nix::lockfile::{
    drop_prefix, peek_field, split_once_owned, swap_remove_value, PackageDeserializer,
};
use bun2nix::text::{
    chars_of, contains_sub, find_char, matches_at, rfind_sub, rsplit_after, split_once_str,
    starts_with, str_contains, str_starts_with,
};
use serde_json::Value;

fn text(s: &str) -> Value {
    Value::String(s.to_owned())
}

fn chars(s: &str) -> Vec<char> {
    s.chars().collect()
}

#[test]
fn swap_remove_value_takes_identifier_then_hash() {
    let hash = "sha512-QtuV5OMR8/rdKJs213iwXDpfVvnskPXY/S0ZiFbsTjQZycuqPbMW8Gf/XhLfwE5njW8sxI2WjISURXPlHypMFA==";
    let mut values = vec![
        text("@types/bun@1.2.4"),
        Value::Object(serde_json::Map::new()),
        Value::Array(Vec::new()),
        text(hash),
    ];

    assert_eq!(swap_remove_value(&mut values, 0), "@types/bun@1.2.4");
    assert_eq!(swap_remove_value(&mut values, 0), hash);
    assert_eq!(values, vec![Value::Array(Vec::new()), Value::Object(serde_json::Map::new())]);
}

#[test]
fn swap_remove_value_moves_last_into_place() {
    let mut values = vec![text("a"), text("b"), text("c"), text("d")];
    assert_eq!(swap_remove_value(&mut values, 1), "b");
    assert_eq!(values, vec![text("a"), text("d"), text("c")]);
}

#[test]
fn swap_remove_value_of_last_element_shortens() {
    let mut values = vec![text("a"), text("b")];
    assert_eq!(swap_remove_value(&mut values, 1), "b");
    assert_eq!(values, vec![text("a")]);
}

#[test]
fn swap_remove_value_of_only_element_leaves_empty() {
    let mut values = vec![text("only")];
    assert_eq!(swap_remove_value(&mut values, 0), "only");
    assert!(values.is_empty());
}

#[test]
fn swap_remove_value_taken_text_is_gone() {
    let mut values = vec![text("one"), text("two"), text("three")];
    let taken = swap_remove_value(&mut values, 0);
    assert_eq!(taken, "one");
    assert_eq!(values.len(), 2);
    for value in &values {
        assert_ne!(value.to_string(), "\"one\"");
    }
}

#[test]
fn swap_remove_value_strips_exactly_the_quotes() {
    let mut values = vec![text("")];
    assert_eq!(swap_remove_value(&mut values, 0), "");

    let mut values = vec![text("\"")];
    assert_eq!(swap_remove_value(&mut values, 0), "\\\"");

    let mut values = vec![text("caf\u{e9} \u{2192} th\u{e9}")];
    assert_eq!(swap_remove_value(&mut values, 0), "caf\u{e9} \u{2192} th\u{e9}");
}

#[test]
fn split_once_owned_hello_world() {
    assert_eq!(
        split_once_owned("hello#world".to_owned(), '#'),
        Some(("hello".to_owned(), "world".to_owned()))
    );
}

#[test]
fn split_once_owned_no_separator() {
    assert_eq!(split_once_owned("noseparator".to_owned(), '#'), None);
    assert_eq!(split_once_owned(String::new(), '#'), None);
}

#[test]
fn split_once_owned_cuts_at_first_only() {
    assert_eq!(
        split_once_owned("a#b#c".to_owned(), '#'),
        Some(("a".to_owned(), "b#c".to_owned()))
    );
}

#[test]
fn split_once_owned_delimiter_at_the_ends() {
    assert_eq!(split_once_owned("#".to_owned(), '#'), Some((String::new(), String::new())));
    assert_eq!(split_once_owned("#x".to_owned(), '#'), Some((String::new(), "x".to_owned())));
    assert_eq!(split_once_owned("x#".to_owned(), '#'), Some(("x".to_owned(), String::new())));
}

#[test]
fn split_once_owned_counts_characters_not_bytes() {
    assert_eq!(
        split_once_owned("h\u{e9}llo#w\u{f6}rld".to_owned(), '#'),
        Some(("h\u{e9}llo".to_owned(), "w\u{f6}rld".to_owned()))
    );
    assert_eq!(
        split_once_owned("left\u{2192}right".to_owned(), '\u{2192}'),
        Some(("left".to_owned(), "right".to_owned()))
    );
}

#[test]
fn drop_prefix_hello_world() {
    assert_eq!(drop_prefix("hello:world".to_owned(), "hello:"), "world");
}

#[test]
fn drop_prefix_absent_is_unchanged() {
    assert_eq!(drop_prefix("abc".to_owned(), "hello:"), "abc");
    assert_eq!(drop_prefix("ab".to_owned(), "abc"), "ab");
    assert_eq!(drop_prefix("xhello:".to_owned(), "hello:"), "xhello:");
}

#[test]
fn drop_prefix_drops_once() {
    assert_eq!(drop_prefix("git+git+x".to_owned(), "git+"), "git+x");
}

#[test]
fn drop_prefix_empty_and_whole() {
    assert_eq!(drop_prefix("abc".to_owned(), ""), "abc");
    assert_eq!(drop_prefix("abc".to_owned(), "abc"), "");
    assert_eq!(drop_prefix("\u{e9}t\u{e9}".to_owned(), "\u{e9}"), "t\u{e9}");
}

#[test]
fn drain_after_substring_takes_after_last() {
    assert_eq!(
        PackageDeserializer::drain_after_substring("a@b@c".to_owned(), "@"),
        Some("c".to_owned())
    );
    assert_eq!(
        PackageDeserializer::drain_after_substring("pkg@file:./local/path".to_owned(), "file:"),
        Some("./local/path".to_owned())
    );
    assert_eq!(
        PackageDeserializer::drain_after_substring("file:a/file:b".to_owned(), "file:"),
        Some("b".to_owned())
    );
}

#[test]
fn drain_after_substring_absent() {
    assert_eq!(PackageDeserializer::drain_after_substring("abc".to_owned(), "@"), None);
    assert_eq!(PackageDeserializer::drain_after_substring(String::new(), "@"), None);
    assert_eq!(PackageDeserializer::drain_after_substring("fil:".to_owned(), "file:"), None);
}

#[test]
fn drain_after_substring_at_the_end_and_empty() {
    assert_eq!(
        PackageDeserializer::drain_after_substring("abc@".to_owned(), "@"),
        Some(String::new())
    );
    assert_eq!(
        PackageDeserializer::drain_after_substring("abc".to_owned(), ""),
        Some(String::new())
    );
    assert_eq!(
        PackageDeserializer::drain_after_substring("aaa".to_owned(), "aa"),
        Some(String::new())
    );
}

#[test]
fn chars_of_keeps_every_character() {
    assert_eq!(chars_of(""), Vec::<char>::new());
    assert_eq!(chars_of("a\u{e9}\u{2192}z"), vec!['a', '\u{e9}', '\u{2192}', 'z']);
}

#[test]
fn find_char_gives_first_position() {
    assert_eq!(find_char(&chars("a#b#c"), '#'), Some(1));
    assert_eq!(find_char(&chars("#"), '#'), Some(0));
    assert_eq!(find_char(&chars("abc"), '#'), None);
    assert_eq!(find_char(&chars("\u{e9}\u{e9}#"), '#'), Some(2));
}

#[test]
fn matches_at_compares_the_window() {
    let hay = chars("pkg@file:x");
    assert!(matches_at(&hay, &chars("file:"), 4));
    assert!(!matches_at(&hay, &chars("file:"), 3));
    assert!(!matches_at(&hay, &chars("file:"), 6));
    assert!(!matches_at(&hay, &chars("file:"), 100));
    assert!(matches_at(&hay, &chars(""), 10));
    assert!(!matches_at(&hay, &chars(""), 11));
}

#[test]
fn rfind_sub_gives_last_position() {
    assert_eq!(rfind_sub(&chars("a@b@c"), &chars("@")), Some(3));
    assert_eq!(rfind_sub(&chars("abab"), &chars("ab")), Some(2));
    assert_eq!(rfind_sub(&chars("abc"), &chars("abcd")), None);
    assert_eq!(rfind_sub(&chars("abc"), &chars("x")), None);
    assert_eq!(rfind_sub(&chars("abc"), &chars("")), Some(3));
    assert_eq!(rfind_sub(&chars("abc"), &chars("abc")), Some(0));
}

#[test]
fn contains_and_starts_with_on_characters() {
    assert!(contains_sub(&chars("sha512-abc"), &chars("sha512-")));
    assert!(!contains_sub(&chars("sha256-abc"), &chars("sha512-")));
    assert!(starts_with(&chars("http://x"), &chars("http")));
    assert!(!starts_with(&chars("xhttp://x"), &chars("http")));
    assert!(!starts_with(&chars("htt"), &chars("http")));
}

#[test]
fn str_helpers_agree_with_std() {
    assert_eq!(split_once_str("a/b/c", '/'), "a/b/c".split_once('/'));
    assert_eq!(split_once_str("abc", '/'), None);
    assert_eq!(rsplit_after("a@b@c", "@"), Some("c"));
    assert_eq!(rsplit_after("abc", "@"), None);
    assert!(str_starts_with("github:o/r", "github:"));
    assert!(!str_starts_with("git+x", "github:"));
    assert!(str_contains("./http-server", "http"));
    assert!(!str_contains("./local/path", "http"));
}

#[test]
fn peek_field_reads_strings_only() {
    assert_eq!(peek_field(&text("@types/bun@1.2.4")), Some("@types/bun@1.2.4".to_owned()));
    assert_eq!(peek_field(&text("")), Some(String::new()));
    assert_eq!(peek_field(&Value::Null), None);
    assert_eq!(peek_field(&Value::Bool(false)), None);
    assert_eq!(peek_field(&Value::from(7)), None);
    assert_eq!(peek_field(&Value::from(-12)), None);
    assert_eq!(peek_field(&Value::Array(Vec::new())), None);
    assert_eq!(peek_field(&Value::Array(vec![text("a")])), None);
    assert_eq!(peek_field(&Value::Object(serde_json::Map::new())), None);
}

#[test]
fn peek_field_agrees_with_the_take() {
    let mut values = vec![text("one"), text("t\"wo"), text("three")];
    for index in [2, 0, 0] {
        let peeked = peek_field(&values[index]);
        assert_eq!(peeked, Some(swap_remove_value(&mut values, index)));
    }
    assert!(values.is_empty());
}
