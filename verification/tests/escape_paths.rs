use agent_browser_cli::escape::query_escape;
use agent_browser_cli::paths::{run_lookup_command, tabs_path, tabtree_path, LookupTarget};

#[test]
fn escape_keeps_unreserved_characters() {
    assert_eq!(query_escape("AZaz09-_.~"), "AZaz09-_.~");
}

#[test]
fn escape_encodes_reserved_ascii() {
    assert_eq!(query_escape("a b&c=d/e?f#g+h%"), "a%20b%26c%3Dd%2Fe%3Ff%23g%2Bh%25");
}

#[test]
fn escape_encodes_utf8_bytes_upper_case() {
    assert_eq!(query_escape("é"), "%C3%A9");
    assert_eq!(query_escape("标签"), "%E6%A0%87%E7%AD%BE");
}

#[test]
fn escape_of_empty_is_empty() {
    assert_eq!(query_escape(""), "");
}

#[test]
fn escaped_text_decodes_back() {
    let input = "key=v&x y/é";
    let escaped = query_escape(input);
    assert!(escaped.chars().all(|c| c.is_ascii_alphanumeric() || "-_.~%".contains(c)));
    let bytes = escaped.as_bytes();
    let mut decoded = Vec::new();
    let mut i = 0;
    while i < bytes.len() {
        if bytes[i] == b'%' {
            let hex = std::str::from_utf8(&bytes[i + 1..i + 3]).unwrap();
            decoded.push(u8::from_str_radix(hex, 16).unwrap());
            i += 3;
        } else {
            decoded.push(bytes[i]);
            i += 1;
        }
    }
    assert_eq!(decoded, input.as_bytes());
}

#[test]
fn tabs_path_without_parameters() {
    assert_eq!(tabs_path(None, None), "/tabs");
}

#[test]
fn tabs_path_with_parameters() {
    assert_eq!(tabs_path(Some("chrome"), Some("Work 1")), "/tabs?browser=chrome&profile=Work%201");
    assert_eq!(tabs_path(None, Some("p")), "/tabs?profile=p");
}

#[test]
fn tabtree_path_with_full() {
    assert_eq!(tabtree_path(None, None, None, false), "/tabtree");
    assert_eq!(tabtree_path(None, None, None, true), "/tabtree?full=true");
    assert_eq!(
        tabtree_path(Some("t&1"), Some("b"), None, true),
        "/tabtree?tab=t%261&browser=b&full=true"
    );
}

#[test]
fn lookup_paths() {
    let tab = LookupTarget::Tab { tab: "a/b".to_string(), browser: None, profile: Some("x y".to_string()) };
    assert_eq!(run_lookup_command(&tab), "/lookup/tab/a%2Fb?profile=x%20y");
    let tab = LookupTarget::Tab { tab: "7".to_string(), browser: None, profile: None };
    assert_eq!(run_lookup_command(&tab), "/lookup/tab/7");
    assert_eq!(run_lookup_command(&LookupTarget::Browser("Chrome Beta".to_string())), "/lookup/browser/Chrome%20Beta");
    assert_eq!(run_lookup_command(&LookupTarget::Profile("默认".to_string())), "/lookup/profile/%E9%BB%98%E8%AE%A4");
}

#[test]
fn query_parameters_cannot_be_injected() {
    let path = tabs_path(Some("a&profile=evil"), Some("x=y"));
    let query = path.split_once('?').unwrap().1;
    let parts: Vec<&str> = query.split('&').collect();
    assert_eq!(parts, vec!["browser=a%26profile%3Devil", "profile=x%3Dy"]);
    let tree = tabtree_path(Some("1&2"), None, None, true);
    let parts: Vec<&str> = tree.split_once('?').unwrap().1.split('&').collect();
    assert_eq!(parts, vec!["tab=1%262", "full=true"]);
}
