use zene::json::{insert, Json};
use zene::text::{
    bytes_within, contains, decimal_text, join, lines_of, not_after, same_text, signed_text,
    sorted_texts, split_on, starts_with, to_ascii_lower, trim,
};

#[test]
fn trimming_removes_unicode_white_space() {
    assert_eq!(trim("\u{2003} a b\u{a0}\n"), "a b");
    assert_eq!(trim(" \t"), "");
    assert_eq!(trim("\u{200b}x"), "\u{200b}x");
}

#[test]
fn lines_end_with_line_feeds() {
    assert_eq!(lines_of("a\r\nb\n\nc"), ["a", "b", "", "c"]);
    assert_eq!(lines_of("a\rb\r"), ["a\rb\r"]);
    assert!(lines_of("").is_empty());
    assert_eq!(lines_of("\n"), [""]);
}

#[test]
fn numbers_are_written_in_decimal() {
    assert_eq!(decimal_text(0), "0");
    assert_eq!(decimal_text(u64::MAX), u64::MAX.to_string());
    assert_eq!(signed_text(i64::MIN), i64::MIN.to_string());
    assert_eq!(signed_text(-1), "-1");
    assert_eq!(signed_text(7), "7");
}

#[test]
fn texts_are_ordered_by_code_point() {
    let mut expected: Vec<String> = ["b", "a", "ä", "aa", "B", ""]
        .iter()
        .map(|s| s.to_string())
        .collect();
    let sorted = sorted_texts(expected.clone());
    expected.sort();
    assert_eq!(sorted, expected);
    assert!(not_after("a", "a"));
    assert!(not_after("a", "ab"));
    assert!(!not_after("b", "ab"));
}

#[test]
fn parts_are_found_and_joined() {
    assert!(contains("abc", "bc"));
    assert!(contains("abc", ""));
    assert!(!contains("abc", "cb"));
    assert!(starts_with("abc", "ab"));
    assert!(!starts_with("a", "ab"));
    assert!(same_text("x", "x"));
    assert_eq!(split_on("a//b", '/'), ["a", "", "b"]);
    assert_eq!(join(&vec!["a".into(), "b".into()], ", "), "a, b");
    assert_eq!(to_ascii_lower("AÄz"), "aÄz");
    assert_eq!(bytes_within("äb", 3), Some(3));
    assert_eq!(bytes_within("äb", 2), None);
}

#[test]
fn inserted_members_replace_or_follow() {
    let mut members = vec![("a".to_string(), Json::Uint(1))];
    insert(&mut members, "b", Json::Uint(2));
    insert(&mut members, "a", Json::Uint(3));
    let object = Json::Object(members);
    assert_eq!(object.get("a").unwrap().as_u64(), Some(3));
    assert_eq!(object.get("b").unwrap().as_u64(), Some(2));
    assert!(object.get("c").is_none());
    assert_eq!(object.copy().get("a").unwrap().as_u64(), Some(3));
    assert_eq!(Json::Bool(true).as_bool(), Some(true));
    assert_eq!(Json::Null.as_str(), None);
}
