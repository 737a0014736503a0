use agent_browser_cli::locate::{
    resolve_node_binary, resolve_runtime_script, resolve_skill_source, PathProbe, RuntimeScriptError,
};
use agent_browser_cli::rpc::{
    daemon_call_result, reply_from_line, request_id_text, RpcError, RpcReply, RpcSession, ShutdownReport, ShutdownStep,
};
use serde_json::Value;

fn probe(path: &str, is_file: bool) -> PathProbe {
    PathProbe { path: path.to_string(), is_file }
}

#[test]
fn explicit_missing_runtime_is_reported() {
    let error = resolve_runtime_script(Some(probe("/definitely/missing/runtime.mjs", false)), &vec![])
        .err()
        .unwrap()
        .message();
    assert!(error.contains("指向的文件不存在"));
    assert!(error.contains("AGENT_BROWSER_PLAYWRIGHT_RUNTIME"));
    assert!(error.contains("/definitely/missing/runtime.mjs"));
}

#[test]
fn explicit_runtime_is_used_without_looking_further() {
    let r = resolve_runtime_script(Some(probe("/x/runtime.mjs", true)), &vec![probe("/y", true)]);
    assert_eq!(r.ok().unwrap(), "/x/runtime.mjs");
}

#[test]
fn first_existing_candidate_is_chosen() {
    let c = vec![probe("/a", false), probe("/b", true), probe("/c", true)];
    assert_eq!(resolve_runtime_script(None, &c).ok().unwrap(), "/b");
    let none = vec![probe("/a", false)];
    let e = resolve_runtime_script(None, &none).err().unwrap();
    assert!(matches!(e, RuntimeScriptError::NotFound));
    assert_eq!(
        e.message(),
        "找不到 Playwright runtime；设置 AGENT_BROWSER_PLAYWRIGHT_RUNTIME 或安装包含 runtime/playwright 的完整包"
    );
}

#[test]
fn node_binary_choice() {
    assert_eq!(resolve_node_binary(Some("/opt/node".to_string()), probe("/b/node", true)), "/opt/node");
    assert_eq!(resolve_node_binary(None, probe("/b/node", true)), "/b/node");
    assert_eq!(resolve_node_binary(None, probe("/b/node", false)), "node");
}

#[test]
fn skill_source_choice() {
    assert_eq!(resolve_skill_source(&vec![probe("/s1", false), probe("/s2", true)]).ok().unwrap(), "/s2");
    assert_eq!(resolve_skill_source(&vec![]).err().unwrap(), "找不到内置 skill 目录 skills/agent-browser-cli");
}

#[test]
fn request_ids_are_decimal() {
    assert_eq!(request_id_text(0), "0");
    assert_eq!(request_id_text(7), "7");
    assert_eq!(request_id_text(1234567890), "1234567890");
    assert_eq!(request_id_text(u64::MAX), u64::MAX.to_string());
}

fn reply(id: Option<&str>, error: Option<Option<&str>>, result: Option<Value>) -> RpcReply {
    RpcReply {
        id: id.map(|s| s.to_string()),
        error: error.map(|e| e.map(|m| m.to_string())),
        result,
    }
}

#[test]
fn session_starts_once_and_counts_ids() {
    let mut s = RpcSession::new();
    assert!(s.needs_start());
    assert_eq!(s.begin_call(), None);
    assert_eq!(s.begin_call(), None);
    s.mark_started();
    assert!(!s.needs_start());
    assert_eq!(s.begin_call().unwrap(), 1);
    assert_eq!(s.begin_call().unwrap(), 2);
}

#[test]
fn matching_reply_gives_result() {
    let mut s = RpcSession::new();
    s.mark_started();
    let id = s.begin_call().unwrap();
    let r = s.finish_call(id, reply(Some("1"), None, Some(Value::Bool(true))));
    assert_eq!(r.ok().unwrap(), Value::Bool(true));
    assert!(!s.needs_start());
}

#[test]
fn wrong_id_gives_up_the_process() {
    let mut s = RpcSession::new();
    s.mark_started();
    let id = s.begin_call().unwrap();
    let e = s.finish_call(id, reply(Some("2"), None, Some(Value::Null))).err().unwrap();
    assert!(matches!(e, RpcError::IdMismatch));
    assert_eq!(e.message(), "Playwright runtime 响应 ID 不匹配");
    assert!(s.needs_start());
    let mut s = RpcSession::new();
    s.mark_started();
    let id = s.begin_call().unwrap();
    assert!(matches!(s.finish_call(id, reply(None, None, None)), Err(RpcError::IdMismatch)));
}

#[test]
fn reported_error_keeps_the_process() {
    let mut s = RpcSession::new();
    s.mark_started();
    let id = s.begin_call().unwrap();
    let e = s.finish_call(id, reply(Some("1"), Some(Some("boom")), Some(Value::Null))).err().unwrap();
    assert_eq!(e.message(), "boom");
    assert!(!s.needs_start());
    let id = s.begin_call().unwrap();
    let e = s.finish_call(id, reply(Some("2"), Some(None), None)).err().unwrap();
    assert_eq!(e.message(), "Playwright runtime 调用失败");
}

#[test]
fn reply_without_result_is_an_error() {
    let mut s = RpcSession::new();
    s.mark_started();
    let id = s.begin_call().unwrap();
    let e = s.finish_call(id, reply(Some("1"), None, None)).err().unwrap();
    assert_eq!(e.message(), "Playwright runtime 响应缺少 result");
}

#[test]
fn transport_failure_restarts_next_time() {
    let mut s = RpcSession::new();
    s.mark_started();
    let _ = s.begin_call().unwrap();
    s.transport_failed();
    assert!(s.needs_start());
    assert_eq!(s.begin_call(), None);
    s.mark_started();
    assert_eq!(s.begin_call(), Some(2));
}

#[test]
fn shutdown_without_process() {
    let mut s = RpcSession::new();
    match s.begin_shutdown() {
        ShutdownStep::Idle(r) => assert_eq!(r, ShutdownReport { was_running: false, graceful: None }),
        ShutdownStep::Send(_) => panic!("nothing to shut down"),
    }
}

#[test]
fn shutdown_with_process() {
    let mut s = RpcSession::new();
    s.mark_started();
    let _ = s.begin_call().unwrap();
    match s.begin_shutdown() {
        ShutdownStep::Send(id) => assert_eq!(id, 2),
        ShutdownStep::Idle(_) => panic!("a process is up"),
    }
    let r = s.finish_shutdown(false);
    assert_eq!(r, ShutdownReport { was_running: true, graceful: Some(false) });
    assert!(s.needs_start());
}

#[test]
fn daemon_reply_checks() {
    assert_eq!(daemon_call_result(Some(true), None, Some(Value::from(3))).ok().unwrap(), Value::from(3));
    assert_eq!(daemon_call_result(Some(false), Some("bad".to_string()), None).err().unwrap().message(), "bad");
    assert_eq!(
        daemon_call_result(None, None, Some(Value::Null)).err().unwrap().message(),
        "Playwright runtime 调用失败"
    );
    assert_eq!(
        daemon_call_result(Some(true), None, None).err().unwrap().message(),
        "Playwright runtime 响应缺少 result"
    );
}

#[test]
fn reply_line_is_read() {
    let r = reply_from_line("  {\"id\":\"7\",\"result\":{\"a\":1}}\n").unwrap();
    assert_eq!(r.id, Some("7".to_string()));
    assert_eq!(r.error, None);
    assert_eq!(r.result, Some(serde_json::from_str::<Value>("{\"a\":1}").unwrap()));
    let r = reply_from_line("{\"id\":7,\"error\":{\"message\":\"boom\"}}").unwrap();
    assert_eq!(r.id, None);
    assert_eq!(r.error, Some(Some("boom".to_string())));
    assert_eq!(r.result, None);
    let r = reply_from_line("{\"id\":\"1\",\"error\":{\"code\":3},\"result\":null}").unwrap();
    assert_eq!(r.error, Some(None));
    assert_eq!(r.result, Some(Value::Null));
    let r = reply_from_line("[1,2]").unwrap();
    assert_eq!(r.id, None);
    assert_eq!(r.error, None);
    assert_eq!(r.result, None);
}

#[test]
fn invalid_reply_line_is_refused() {
    assert!(reply_from_line("not json").is_none());
    assert!(reply_from_line("").is_none());
    assert!(reply_from_line("{\"id\":").is_none());
}

#[test]
fn reply_line_judged_end_to_end() {
    let mut s = RpcSession::new();
    s.mark_started();
    let id = s.begin_call().unwrap();
    let r = s.finish_call(id, reply_from_line("{\"jsonrpc\":\"2.0\",\"id\":\"1\",\"result\":\"ok\"}").unwrap());
    assert_eq!(r.ok().unwrap(), Value::String("ok".to_string()));
    let id = s.begin_call().unwrap();
    let r = s.finish_call(id, reply_from_line("{\"id\":\"9\",\"result\":1}").unwrap());
    assert!(matches!(r, Err(RpcError::IdMismatch)));
    assert!(s.needs_start());
}
