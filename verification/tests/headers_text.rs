use agent_browser_cli::headers::{parse_headers, HeaderError};
use agent_browser_cli::json::{data_from_parse, request_data};
use agent_browser_cli::text::{is_whitespace_char, trim_text};
use serde_json::Value;

fn args(list: &[&str]) -> Vec<String> {
    list.iter().map(|s| s.to_string()).collect()
}

#[test]
fn headers_split_at_equals_then_colon() {
    let map = parse_headers(&args(&["Content-Type=application/json", "X-Token: abc "])).ok().unwrap();
    assert_eq!(map.len(), 2);
    assert_eq!(map.get("Content-Type"), Some(&Value::String("application/json".to_string())));
    assert_eq!(map.get("X-Token"), Some(&Value::String("abc".to_string())));
}

#[test]
fn headers_prefer_equals_over_earlier_colon() {
    let map = parse_headers(&args(&["a:b=c"])).ok().unwrap();
    assert_eq!(map.get("a:b"), Some(&Value::String("c".to_string())));
}

#[test]
fn later_header_replaces_earlier() {
    let map = parse_headers(&args(&["K=1", " K = 2 "])).ok().unwrap();
    assert_eq!(map.len(), 1);
    assert_eq!(map.get("K"), Some(&Value::String("2".to_string())));
}

#[test]
fn empty_header_list_gives_empty_object() {
    assert!(parse_headers(&[]).ok().unwrap().is_empty());
}

#[test]
fn header_without_separator_is_refused() {
    match parse_headers(&args(&["A=1", "broken", " =x"])) {
        Err(HeaderError::MissingSeparator(h)) => assert_eq!(h, "broken"),
        _ => panic!("expected a missing separator"),
    }
    let e = parse_headers(&args(&["broken"])).err().unwrap();
    assert_eq!(e.message(), "header 必须使用 KEY=VALUE 或 KEY:VALUE 格式: broken");
}

#[test]
fn header_with_empty_name_is_refused() {
    let e = parse_headers(&args(&["  =value"])).err().unwrap();
    assert!(matches!(e, HeaderError::EmptyName));
    assert_eq!(e.message(), "header 名称不能为空");
}

#[test]
fn header_value_may_be_empty() {
    let map = parse_headers(&args(&["X="])).ok().unwrap();
    assert_eq!(map.get("X"), Some(&Value::String(String::new())));
}

#[test]
fn trim_matches_std() {
    for s in ["  a b  ", "\t\n x\u{3000}", "", "   ", "\u{a0}y\u{2028}", "z"] {
        assert_eq!(trim_text(s), s.trim());
    }
}

#[test]
fn whitespace_matches_std() {
    for c in ['\t', '\n', '\u{b}', '\u{c}', '\r', ' ', '\u{85}', '\u{a0}', '\u{1680}', '\u{2000}', '\u{200a}', '\u{2028}', '\u{2029}', '\u{202f}', '\u{205f}', '\u{3000}', 'a', '\u{200b}', '\u{feff}', '_'] {
        assert_eq!(is_whitespace_char(c), c.is_whitespace(), "{:?}", c);
    }
}

#[test]
fn request_data_parses_json_or_keeps_text() {
    let v = request_data(Some("{\"sku\":\"A-100\",\"quantity\":1}".to_string())).unwrap();
    assert_eq!(v["sku"], Value::String("A-100".to_string()));
    assert_eq!(v["quantity"], Value::from(1));
    assert_eq!(request_data(Some("plain text".to_string())), Some(Value::String("plain text".to_string())));
    assert_eq!(request_data(Some("42".to_string())), Some(Value::from(42)));
    assert_eq!(request_data(None), None);
    assert_eq!(data_from_parse(None, "x".to_string()), Value::String("x".to_string()));
    assert_eq!(data_from_parse(Some(Value::Bool(true)), "true".to_string()), Value::Bool(true));
}
