use pdp::server::models::JsonValue;
use pdp::strmap::StrMap;
use pdp::text::{
    concat2, contains_str, is_whitespace, join, parse_u32, sort_dedup, sort_strings, split_char,
    split_whitespace, starts_with, str_eq, str_lt, trim, u64_to_decimal,
};

fn strings(v: &[&str]) -> Vec<String> {
    v.iter().map(|s| s.to_string()).collect()
}

#[test]
fn decimals() {
    assert_eq!(u64_to_decimal(0), "0");
    assert_eq!(u64_to_decimal(7001), "7001");
    assert_eq!(u64_to_decimal(u64::MAX), "18446744073709551615");
    assert_eq!(parse_u32("42"), Some(42));
    assert_eq!(parse_u32("4294967295"), Some(u32::MAX));
    assert_eq!(parse_u32("4294967296"), None);
    assert_eq!(parse_u32(""), None);
    assert_eq!(parse_u32("-1"), None);
    assert_eq!(parse_u32("+5"), Some(5));
}

#[test]
fn comparisons() {
    assert!(str_eq("abc", "abc"));
    assert!(!str_eq("abc", "abd"));
    assert!(str_lt("abc", "abd"));
    assert!(str_lt("ab", "abc"));
    assert!(!str_lt("b", "abc"));
    assert!(!str_lt("a", "a"));
    assert!(starts_with("max-age=3", "max-age="));
    assert!(!starts_with("max", "max-age="));
    assert!(contains_str(&strings(&["a", "b"]), "b"));
    assert!(!contains_str(&strings(&["a", "b"]), "c"));
}

#[test]
fn splitting_and_joining() {
    assert_eq!(split_char("a,b,,c", ','), strings(&["a", "b", "", "c"]));
    assert_eq!(split_char("", ','), strings(&[""]));
    assert_eq!(split_whitespace("  read  write\tdelete "), strings(&["read", "write", "delete"]));
    assert_eq!(split_whitespace("   "), Vec::<String>::new());
    assert_eq!(join(&strings(&["a", "b", "c"]), ", "), "a, b, c");
    assert_eq!(join(&Vec::new(), ", "), "");
    assert_eq!(trim("  x y \n"), "x y");
    assert!(is_whitespace('\t'));
    assert!(!is_whitespace('x'));
    assert_eq!(concat2("ab", "cd"), "abcd");
}

#[test]
fn sorting() {
    assert_eq!(sort_strings(strings(&["b", "a", "c", "a"])), strings(&["a", "a", "b", "c"]));
    assert_eq!(sort_dedup(&strings(&["b", "a", "c", "a"])), strings(&["a", "b", "c"]));
}

#[test]
fn string_maps() {
    let mut m: StrMap<String> = StrMap::new();
    assert!(m.is_empty());
    m.insert("a".to_string(), "1".to_string());
    m.insert("b".to_string(), "2".to_string());
    m.insert("a".to_string(), "3".to_string());
    assert_eq!(m.len(), 2);
    assert_eq!(m.get("a").map(|s| s.as_str()), Some("3"));
    assert!(m.contains_key("b"));
    assert_eq!(m.remove("b"), Some("2".to_string()));
    assert_eq!(m.remove("b"), None);
    let mut other: StrMap<String> = StrMap::new();
    other.insert("a".to_string(), "9".to_string());
    other.insert("z".to_string(), "26".to_string());
    m.extend_from(&other);
    assert_eq!(m.get("a").map(|s| s.as_str()), Some("9"));
    assert_eq!(m.get("z").map(|s| s.as_str()), Some("26"));
    assert_eq!(m.len(), 2);
}

#[test]
fn json_values_render_as_compact_json() {
    assert_eq!(JsonValue::Str("a\"b".to_string()).to_json_text(), "\"a\\\"b\"");
    assert_eq!(JsonValue::Null.to_json_text(), "null");
    assert_eq!(JsonValue::Bool(true).to_json_text(), "true");
    assert_eq!(JsonValue::Number("12".to_string()).to_json_text(), "12");
    assert_eq!(JsonValue::Object("{\"k\":1}".to_string()).to_json_text(), "{\"k\":1}");
}

#[test]
fn json_strings_escape_control_characters() {
    let s = JsonValue::Str("a\\b\n\t\r\u{8}\u{c}\u{1f}/é".to_string());
    assert_eq!(s.to_json_text(), "\"a\\\\b\\n\\t\\r\\b\\f\\u001f/é\"");
    assert_eq!(JsonValue::Str(String::new()).to_json_text(), "\"\"");
}
