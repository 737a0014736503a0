use agent_browser_cli::escape::query_escape;
use agent_browser_cli::json::json_output;
use agent_browser_cli::locate::{bundled_node_path, runtime_script_candidates, skill_source_candidates};
use agent_browser_cli::routes::{pw_failure, set_cookie_sharing, set_daemon_print_background, set_print_background, set_headless, set_raw_javascript, test_run_dirs, PwCall};
use agent_browser_cli::rpc::{daemon_reply, RpcError};
use agent_browser_cli::status::{assess_status, health_report_of, StatusSummary};
use agent_browser_cli::skill::skill_locations;
use serde_json::Value;

#[test]
fn skill_goes_to_main_dir_and_agent_dirs() {
    let l = skill_locations("/home/u");
    assert_eq!(l.main_target, "/home/u/.agents/skills/agent-browser-cli");
    let parents: Vec<&str> = l.links.iter().map(|(p, _)| p.as_str()).collect();
    assert_eq!(
        parents,
        vec![
            "/home/u/.codex/skills",
            "/home/u/.config/agents/skills",
            "/home/u/.cursor/skills",
            "/home/u/.gemini/skills",
        ]
    );
    assert_eq!(l.links[1].1, "/home/u/.config/agents/skills/agent-browser-cli");
    assert_eq!(l.links[3].1, "/home/u/.gemini/skills/agent-browser-cli");
}

#[test]
fn runtime_candidates_in_order() {
    let c = runtime_script_candidates(Some("/opt/pkg"), Some("/work"), Some("/a/b/cli"));
    assert_eq!(
        c,
        vec![
            "/opt/pkg/runtime/playwright/src/runtime.mjs",
            "/opt/runtime/playwright/src/runtime.mjs",
            "/work/runtime/playwright/src/runtime.mjs",
            "/a/b/cli/runtime/playwright/src/runtime.mjs",
            "/a/b/runtime/playwright/src/runtime.mjs",
            "/a/runtime/playwright/src/runtime.mjs",
            "/runtime/playwright/src/runtime.mjs",
        ]
    );
    assert!(runtime_script_candidates(None, None, None).is_empty());
}

#[test]
fn runtime_candidates_take_eight_ancestors() {
    let c = runtime_script_candidates(None, None, Some("/1/2/3/4/5/6/7/8/9/cli"));
    assert_eq!(c.len(), 8);
    assert_eq!(c[0], "/1/2/3/4/5/6/7/8/9/cli/runtime/playwright/src/runtime.mjs");
    assert_eq!(c[7], "/1/2/3/runtime/playwright/src/runtime.mjs");
}

#[test]
fn skill_candidates_in_order() {
    let c = skill_source_candidates(Some("/opt/pkg"), Some("/a/cli"), Some("/work"));
    assert_eq!(
        c,
        vec![
            "/opt/pkg/skills/agent-browser-cli",
            "/a/cli/skills/agent-browser-cli",
            "/a/skills/agent-browser-cli",
            "/skills/agent-browser-cli",
            "/work/skills/agent-browser-cli",
        ]
    );
}

#[test]
fn bundled_node_lies_two_levels_above_the_script() {
    assert_eq!(
        bundled_node_path("/opt/pkg/runtime/playwright/src/runtime.mjs", false),
        "/opt/pkg/runtime/playwright/node/bin/node"
    );
    assert_eq!(bundled_node_path("runtime.mjs", false), "./node/bin/node");
    assert_eq!(bundled_node_path("/r/p/s.mjs", true), "/r/node/node.exe");
}

#[test]
fn switches_follow_the_flags() {
    let mut m: serde_json::Map<String, Value> = serde_json::Map::new();
    set_headless(&mut m, false);
    set_raw_javascript(&mut m, false);
    set_cookie_sharing(&mut m, false);
    assert_eq!(m.get("headless"), Some(&Value::Bool(true)));
    assert_eq!(m.get("allowRawJavascript"), Some(&Value::Bool(false)));
    assert_eq!(m.get("shareBrowserCookies"), Some(&Value::Bool(true)));
    set_headless(&mut m, true);
    set_raw_javascript(&mut m, true);
    set_cookie_sharing(&mut m, true);
    assert_eq!(m.get("headless"), Some(&Value::Bool(false)));
    assert_eq!(m.get("allowRawJavascript"), Some(&Value::Bool(true)));
    assert_eq!(m.get("shareBrowserCookies"), Some(&Value::Bool(false)));
}

#[test]
fn json_is_printed_indented() {
    let v: Value = serde_json::from_str("{\"b\":1,\"a\":[true]}").unwrap();
    assert_eq!(json_output(&v), "{\n  \"a\": [\n    true\n  ],\n  \"b\": 1\n}");
    assert_eq!(json_output(&Value::Null), "null");
}

#[test]
fn escaped_length_counts_three_per_reserved_byte() {
    assert_eq!(query_escape("a é").len(), 1 + 3 + 6);
    assert_eq!(query_escape("").len(), 0);
}

#[test]
fn escaping_changes_exactly_texts_with_reserved_characters() {
    assert_eq!(query_escape("Plain-text_1.0~"), "Plain-text_1.0~");
    assert_ne!(query_escape("with space"), "with space");
    assert_ne!(query_escape("ü"), "ü");
}

fn doc(text: &str) -> Value {
    serde_json::from_str(text).unwrap()
}

#[test]
fn daemon_reply_is_read_from_the_document() {
    assert_eq!(daemon_reply(&doc("{\"ok\":true,\"result\":[1]}")).ok().unwrap(), doc("[1]"));
    let e = daemon_reply(&doc("{\"ok\":false,\"error\":\"nope\"}")).err().unwrap();
    assert_eq!(e.message(), "nope");
    let e = daemon_reply(&doc("{\"ok\":\"yes\",\"result\":1}")).err().unwrap();
    assert_eq!(e.message(), "Playwright runtime 调用失败");
    assert!(matches!(daemon_reply(&doc("{\"ok\":true}")), Err(RpcError::MissingResult)));
}

#[test]
fn health_report_is_read_at_its_places() {
    let r = health_report_of(Some(doc(
        "{\"running\":true,\"ready\":true,\"ports\":{\"extension\":{\"matched\":true,\"listening\":9222}},\
         \"connection\":{\"extension_connected\":true,\"active_tabs\":2}}",
    )));
    assert_eq!(r.running, Some(true));
    assert_eq!(r.extension_listening, Some(9222));
    assert_eq!(r.active_tabs, Some(2));
    assert_eq!(assess_status(&r), StatusSummary::Ready);
    let r = health_report_of(Some(doc("{\"running\":\"yes\",\"ports\":[1]}")));
    assert_eq!(r.running, None);
    assert_eq!(r.extension_matched, None);
    let r = health_report_of(None);
    assert_eq!(assess_status(&r), StatusSummary::DaemonNotRunning);
}

#[test]
fn failed_test_run_is_reported() {
    assert_eq!(
        pw_failure(PwCall::Test, &doc("{\"ok\":false,\"exitCode\":1}")).unwrap(),
        "Playwright 测试失败，exitCode=1"
    );
    assert_eq!(
        pw_failure(PwCall::Test, &doc("{\"ok\":false}")).unwrap(),
        "Playwright 测试失败，exitCode=unknown"
    );
    assert_eq!(
        pw_failure(PwCall::Test, &doc("{\"ok\":false,\"exitCode\":\"x\"}")).unwrap(),
        "Playwright 测试失败，exitCode=\"x\""
    );
    assert!(pw_failure(PwCall::Test, &doc("{\"ok\":true}")).is_none());
    assert!(pw_failure(PwCall::Doctor, &doc("{\"ok\":false}")).is_none());
}

#[test]
fn test_dirs_resolve_against_the_caller() {
    let d = test_run_dirs("/home/u/proj", Some("e2e"), Some("/tmp/report"));
    assert_eq!(d.cwd, "/home/u/proj/e2e");
    assert_eq!(d.report_dir, Some("/tmp/report".to_string()));
    let d = test_run_dirs("/home/u/proj", None, Some("out"));
    assert_eq!(d.cwd, "/home/u/proj");
    assert_eq!(d.report_dir, Some("/home/u/proj/out".to_string()));
    let d = test_run_dirs("/w", Some("/abs"), None);
    assert_eq!(d.cwd, "/abs");
    assert_eq!(d.report_dir, None);
}

#[test]
fn pdf_backgrounds_print_unless_turned_off() {
    let mut m: serde_json::Map<String, Value> = serde_json::Map::new();
    set_print_background(&mut m, false);
    set_daemon_print_background(&mut m, true);
    assert_eq!(m.get("printBackground"), Some(&Value::Bool(true)));
    assert_eq!(m.get("print_background"), Some(&Value::Bool(false)));
    set_print_background(&mut m, true);
    assert_eq!(m.get("printBackground"), Some(&Value::Bool(false)));
}
