use ai_gui::json::{single_member, Json, JsonNumber};
use ai_gui::settings::Settings;
use ai_gui::text::{
    contains_str, ends_with, i64_to_text, join, lines, parse_u16, starts_with, strip_prefix, strip_suffix, trim,
    u64_to_text,
};

#[test]
fn trimming_and_affixes() {
    assert_eq!(trim("  a b \t\n"), "a b");
    assert_eq!(trim("\u{3000}全角\u{3000}"), "全角");
    assert_eq!(trim(""), "");
    assert_eq!(strip_prefix("~/x", "~/"), Some("x".to_string()));
    assert_eq!(strip_prefix("x", "~/"), None);
    assert_eq!(strip_suffix("a/run", "/run"), Some("a".to_string()));
    assert!(starts_with("SCREENSHOT:x", "SCREENSHOT:"));
    assert!(ends_with("a.json", ".json"));
    assert!(!ends_with("json", ".json"));
    assert!(contains_str("hello world", "o w"));
    assert!(contains_str("abc", ""));
    assert!(!contains_str("abc", "abcd"));
}

#[test]
fn line_splitting_follows_str_lines() {
    let ls: Vec<String> = lines("a\r\nb\n\nc\r").into_iter().map(|l| l.into_iter().collect()).collect();
    assert_eq!(ls, vec!["a", "b", "", "c\r"]);
    assert!(lines("").is_empty());
    assert_eq!(lines("x\n").len(), 1);
}

#[test]
fn numbers() {
    assert_eq!(u64_to_text(0), "0");
    assert_eq!(u64_to_text(18446744073709551615), "18446744073709551615");
    assert_eq!(i64_to_text(-9223372036854775808), "-9223372036854775808");
    assert_eq!(i64_to_text(-1), "-1");
    assert_eq!(parse_u16("22"), Some(22));
    assert_eq!(parse_u16("+22"), Some(22));
    assert_eq!(parse_u16("65535"), Some(65535));
    assert_eq!(parse_u16("65536"), None);
    assert_eq!(parse_u16(""), None);
    assert_eq!(parse_u16("2x"), None);
}

#[test]
fn joining() {
    assert_eq!(join(&["a".to_string(), "b".to_string()], ", "), "a, b");
    assert_eq!(join(&[], ", "), "");
}

#[test]
fn settings_read_what_was_written() {
    let mut s = Settings::new();
    assert!(s.is_empty());
    s.insert("K".to_string(), "1".to_string());
    s.insert("K".to_string(), "2".to_string());
    assert_eq!(s.get("K"), Some(&"2".to_string()));
    assert_eq!(s.len(), 1);
    s.entry_or_default("K".to_string());
    assert_eq!(s.get("K"), Some(&"2".to_string()));
    s.entry_or_default("L".to_string());
    assert_eq!(s.get("L"), Some(&String::new()));
    assert_eq!(s.entries().len(), 2);
}

#[test]
fn json_lookups() {
    let v = Json::Object(vec![
        ("a".to_string(), Json::Str("x".to_string())),
        ("n".to_string(), Json::Number(JsonNumber::PosInt(5))),
        ("neg".to_string(), Json::Number(JsonNumber::NegInt(-5))),
        ("b".to_string(), Json::Bool(true)),
        ("list".to_string(), Json::Array(vec![Json::Str("p".to_string()), Json::Null, Json::Str("q".to_string())])),
    ]);
    assert_eq!(v.str_field("a"), Some("x".to_string()));
    assert_eq!(v.str_field("n"), None);
    assert_eq!(v.u64_field("n"), Some(5));
    assert_eq!(v.u64_field("neg"), None);
    assert_eq!(v.bool_field("b"), Some(true));
    assert_eq!(v.string_items("list"), Some(vec!["p".to_string(), "q".to_string()]));
    assert_eq!(v.string_items("a"), None);
    assert!(Json::Null.get("a").is_none());
    match single_member("output", Json::Str("o".to_string())) {
        Json::Object(m) => assert_eq!(m.len(), 1),
        _ => panic!("expected an object"),
    }
}
