//! Which daemon endpoint, and which runtime method, each command uses.
use vstd::prelude::*;
use vstd::string::*;
use crate::json::{
    bool_in, get_bool_in, json_compact, json_compact_text, json_flags, json_get_member, json_map_insert_bool,
    json_member, json_members, JsonObject,
};
use crate::fspath::{resolve_against, resolved_against};

verus! {

/// The base URL of the daemon's HTTP API.
pub open spec fn daemon_base() -> Seq<char> {
    "http://127.0.0.1:18767"@
}

/// The URL of a daemon endpoint: the API base followed by the path.
pub fn daemon_url(path: &str) -> (url: String)
    ensures
        url@ == daemon_base() + path@,
{
    let mut url = "http://127.0.0.1:18767".to_owned();
    url.append(path);
    url
}

/// The actions of the network monitor.
#[derive(PartialEq, Eq, Structural, Clone, Copy, Debug)]
pub enum NetworkAction {
    Start,
    List,
    Detail,
    Clear,
    Stop,
}

/// The actions of the console monitor.
#[derive(PartialEq, Eq, Structural, Clone, Copy, Debug)]
pub enum ConsoleAction {
    Start,
    List,
    Clear,
    Stop,
}

/// The endpoint of a network action.
pub open spec fn network_path(a: NetworkAction) -> Seq<char> {
    match a {
        NetworkAction::Start => "/network/start"@,
        NetworkAction::List => "/network/list"@,
        NetworkAction::Detail => "/network/detail"@,
        NetworkAction::Clear => "/network/clear"@,
        NetworkAction::Stop => "/network/stop"@,
    }
}

/// The endpoint of a console action.
pub open spec fn console_path(a: ConsoleAction) -> Seq<char> {
    match a {
        ConsoleAction::Start => "/console/start"@,
        ConsoleAction::List => "/console/list"@,
        ConsoleAction::Clear => "/console/clear"@,
        ConsoleAction::Stop => "/console/stop"@,
    }
}

/// The daemon endpoint of a network action: `/network/<action>`.
pub fn network_endpoint(action: NetworkAction) -> (path: &'static str)
    ensures
        path@ == network_path(action),
{
    match action {
        NetworkAction::Start => "/network/start",
        NetworkAction::List => "/network/list",
        NetworkAction::Detail => "/network/detail",
        NetworkAction::Clear => "/network/clear",
        NetworkAction::Stop => "/network/stop",
    }
}

/// The daemon endpoint of a console action: `/console/<action>`.
pub fn console_endpoint(action: ConsoleAction) -> (path: &'static str)
    ensures
        path@ == console_path(action),
{
    match action {
        ConsoleAction::Start => "/console/start",
        ConsoleAction::List => "/console/list",
        ConsoleAction::Clear => "/console/clear",
        ConsoleAction::Stop => "/console/stop",
    }
}

/// The calls of the Playwright engine.
#[derive(PartialEq, Eq, Structural, Clone, Copy, Debug)]
pub enum PwCall {
    Doctor,
    SessionCreate,
    SessionList,
    SessionClose,
    SessionCloseAll,
    Open,
    Content,
    Scan,
    Snapshot,
    Click,
    Fill,
    Press,
    Exec,
    Screenshot,
    Pdf,
    TraceStart,
    TraceStop,
    Request,
    Test,
}

/// The runtime method of a call.
pub open spec fn pw_method_name(c: PwCall) -> Seq<char> {
    match c {
        PwCall::Doctor => "runtime.health"@,
        PwCall::SessionCreate => "session.create"@,
        PwCall::SessionList => "session.list"@,
        PwCall::SessionClose => "session.close"@,
        PwCall::SessionCloseAll => "session.closeAll"@,
        PwCall::Open => "page.open"@,
        PwCall::Content => "page.setContent"@,
        PwCall::Scan => "page.scan"@,
        PwCall::Snapshot => "page.snapshot"@,
        PwCall::Click => "page.click"@,
        PwCall::Fill => "page.fill"@,
        PwCall::Press => "page.press"@,
        PwCall::Exec => "page.evaluate"@,
        PwCall::Screenshot => "page.screenshot"@,
        PwCall::Pdf => "page.pdf"@,
        PwCall::TraceStart => "trace.start"@,
        PwCall::TraceStop => "trace.stop"@,
        PwCall::Request => "request.fetch"@,
        PwCall::Test => "test.run"@,
    }
}

/// The runtime method that a Playwright call invokes.
pub fn pw_method(call: PwCall) -> (method: &'static str)
    ensures
        method@ == pw_method_name(call),
{
    match call {
        PwCall::Doctor => "runtime.health",
        PwCall::SessionCreate => "session.create",
        PwCall::SessionList => "session.list",
        PwCall::SessionClose => "session.close",
        PwCall::SessionCloseAll => "session.closeAll",
        PwCall::Open => "page.open",
        PwCall::Content => "page.setContent",
        PwCall::Scan => "page.scan",
        PwCall::Snapshot => "page.snapshot",
        PwCall::Click => "page.click",
        PwCall::Fill => "page.fill",
        PwCall::Press => "page.press",
        PwCall::Exec => "page.evaluate",
        PwCall::Screenshot => "page.screenshot",
        PwCall::Pdf => "page.pdf",
        PwCall::TraceStart => "trace.start",
        PwCall::TraceStop => "trace.stop",
        PwCall::Request => "request.fetch",
        PwCall::Test => "test.run",
    }
}

/// Only a test run fails the command when its result reports `ok: false`.
pub fn pw_fails_when_false(call: PwCall) -> (b: bool)
    ensures
        b == (call == PwCall::Test),
{
    match call {
        PwCall::Test => true,
        _ => false,
    }
}

/// The command fails after the call when the call is one that fails on a
/// false result and the result's `ok` is `false`.
pub fn pw_result_failed(call: PwCall, ok: Option<bool>) -> (failed: bool)
    ensures
        failed == (call == PwCall::Test && ok == Some(false)),
{
    pw_fails_when_false(call) && match ok {
        Some(b) => !b,
        None => false,
    }
}

/// The message of a failed test run.
pub open spec fn test_failure_message(exit_code: Option<Seq<char>>) -> Seq<char> {
    "Playwright 测试失败，exitCode="@ + match exit_code {
        Some(c) => c,
        None => "unknown"@,
    }
}

/// The message of a failed test run, with its exit code as JSON text, or
/// `unknown` when the result has none.
pub fn pw_test_failure_message(exit_code: Option<&str>) -> (text: String)
    ensures
        text@ == test_failure_message(
            match exit_code {
                Some(c) => Some(c@),
                None => None,
            },
        ),
{
    let mut text = "Playwright 测试失败，exitCode=".to_owned();
    match exit_code {
        Some(c) => text.append(c),
        None => text.append("unknown"),
    }
    text
}

/// The browser of a new session runs headless unless a headed one is
/// asked for: the `headless` member of the request is set to `!headed`.
pub fn set_headless(params: &mut JsonObject, headed: bool)
    ensures
        json_flags(*final(params)) == json_flags(*old(params)).insert("headless"@, !headed),
        json_members(*final(params)) == json_members(*old(params)).insert("headless"@, None),
{
    json_map_insert_bool(params, "headless".to_owned(), !headed);
}

/// Raw JavaScript runs only when that one call allows it: the
/// `allowRawJavascript` member of the request is set to `allow`.
pub fn set_raw_javascript(params: &mut JsonObject, allow: bool)
    ensures
        json_flags(*final(params)) == json_flags(*old(params)).insert("allowRawJavascript"@, allow),
        json_members(*final(params)) == json_members(*old(params)).insert(
            "allowRawJavascript"@,
            None,
        ),
{
    json_map_insert_bool(params, "allowRawJavascript".to_owned(), allow);
}

/// A request shares the browser's cookies unless isolated cookies are asked
/// for: the `shareBrowserCookies` member is set to `!isolated`.
pub fn set_cookie_sharing(params: &mut JsonObject, isolated: bool)
    ensures
        json_flags(*final(params)) == json_flags(*old(params)).insert(
            "shareBrowserCookies"@,
            !isolated,
        ),
        json_members(*final(params)) == json_members(*old(params)).insert(
            "shareBrowserCookies"@,
            None,
        ),
{
    json_map_insert_bool(params, "shareBrowserCookies".to_owned(), !isolated);
}

/// A PDF of the runtime prints backgrounds unless that is turned off: the
/// `printBackground` member of the request is set to
/// `!no_print_background`.
pub fn set_print_background(params: &mut JsonObject, no_print_background: bool)
    ensures
        json_flags(*final(params)) == json_flags(*old(params)).insert(
            "printBackground"@,
            !no_print_background,
        ),
        json_members(*final(params)) == json_members(*old(params)).insert(
            "printBackground"@,
            None,
        ),
{
    json_map_insert_bool(params, "printBackground".to_owned(), !no_print_background);
}

/// A PDF saved by the daemon prints backgrounds unless that is turned off:
/// the `print_background` member of the request is set to
/// `!no_print_background`.
pub fn set_daemon_print_background(params: &mut JsonObject, no_print_background: bool)
    ensures
        json_flags(*final(params)) == json_flags(*old(params)).insert(
            "print_background"@,
            !no_print_background,
        ),
        json_members(*final(params)) == json_members(*old(params)).insert(
            "print_background"@,
            None,
        ),
{
    json_map_insert_bool(params, "print_background".to_owned(), !no_print_background);
}

/// The directories of a test run: the working directory of the tests (the
/// one given, else the caller's) and the report directory, when given, each
/// taken relative to the caller's working directory.
pub struct TestDirs {
    /// Where the tests run.
    pub cwd: String,
    /// Where the report goes.
    pub report_dir: Option<String>,
}

/// Resolves the directories of a test run against the caller's working
/// directory `caller_cwd`.
pub fn test_run_dirs(caller_cwd: &str, cwd: Option<&str>, report_dir: Option<&str>) -> (dirs: TestDirs)
    ensures
        dirs.cwd@ == resolved_against(
            caller_cwd@,
            match cwd {
                Some(c) => c@,
                None => caller_cwd@,
            },
        ),
        match report_dir {
            Some(r) => dirs.report_dir is Some && dirs.report_dir->0@ == resolved_against(
                caller_cwd@,
                r@,
            ),
            None => dirs.report_dir is None,
        },
{
    let test_cwd = match cwd {
        Some(c) => resolve_against(caller_cwd, c),
        None => resolve_against(caller_cwd, caller_cwd),
    };
    let report = match report_dir {
        Some(r) => Some(resolve_against(caller_cwd, r)),
        None => None,
    };
    TestDirs { cwd: test_cwd, report_dir: report }
}

/// The message with which a call's result makes the command fail, if it
/// does: a test run whose `ok` is `false`, its `exitCode` given as JSON
/// text.
pub open spec fn pw_failure_of(call: PwCall, value: serde_json::Value) -> Option<Seq<char>> {
    if call == PwCall::Test && bool_in(json_member(value, "ok"@)) == Some(false) {
        Some(
            test_failure_message(
                match json_member(value, "exitCode"@) {
                    Some(e) => Some(json_compact(e)),
                    None => None,
                },
            ),
        )
    } else {
        None
    }
}

/// The message with which a call's result makes the command fail, `None`
/// when it does not.
pub fn pw_failure(call: PwCall, value: &serde_json::Value) -> (failure: Option<String>)
    ensures
        match failure {
            Some(m) => pw_failure_of(call, *value) == Some(m@),
            None => pw_failure_of(call, *value) is None,
        },
{
    let ok = get_bool_in(&json_get_member(value, "ok"));
    if !pw_result_failed(call, ok) {
        return None;
    }
    let exit_code: Option<String> = match json_get_member(value, "exitCode") {
        Some(e) => Some(json_compact_text(&e)),
        None => None,
    };
    let message = match &exit_code {
        Some(c) => pw_test_failure_message(Some(c.as_str())),
        None => pw_test_failure_message(None),
    };
    Some(message)
}

/// The call whose runtime method a name is, told apart by the name's
/// length, its first character and its seventh.
pub open spec fn method_call(name: Seq<char>) -> Option<PwCall>
    recommends
        name.len() >= 8,
{
    if name.len() == 14 && name[0] == 'r' && name[6] == 'e' {
        Some(PwCall::Doctor)
    } else if name.len() == 14 && name[0] == 's' && name[6] == 'n' {
        Some(PwCall::SessionCreate)
    } else if name.len() == 12 && name[0] == 's' && name[6] == 'n' {
        Some(PwCall::SessionList)
    } else if name.len() == 13 && name[0] == 's' && name[6] == 'n' {
        Some(PwCall::SessionClose)
    } else if name.len() == 16 && name[0] == 's' && name[6] == 'n' {
        Some(PwCall::SessionCloseAll)
    } else if name.len() == 9 && name[0] == 'p' && name[6] == 'p' {
        Some(PwCall::Open)
    } else if name.len() == 15 && name[0] == 'p' && name[6] == 'e' {
        Some(PwCall::Content)
    } else if name.len() == 9 && name[0] == 'p' && name[6] == 'c' {
        Some(PwCall::Scan)
    } else if name.len() == 13 && name[0] == 'p' && name[6] == 'n' {
        Some(PwCall::Snapshot)
    } else if name.len() == 10 && name[0] == 'p' && name[6] == 'l' {
        Some(PwCall::Click)
    } else if name.len() == 9 && name[0] == 'p' && name[6] == 'i' {
        Some(PwCall::Fill)
    } else if name.len() == 10 && name[0] == 'p' && name[6] == 'r' {
        Some(PwCall::Press)
    } else if name.len() == 13 && name[0] == 'p' && name[6] == 'v' {
        Some(PwCall::Exec)
    } else if name.len() == 15 && name[0] == 'p' && name[6] == 'c' {
        Some(PwCall::Screenshot)
    } else if name.len() == 8 && name[0] == 'p' && name[6] == 'd' {
        Some(PwCall::Pdf)
    } else if name.len() == 11 && name[0] == 't' && name[6] == 's' {
        Some(PwCall::TraceStart)
    } else if name.len() == 10 && name[0] == 't' && name[6] == 's' {
        Some(PwCall::TraceStop)
    } else if name.len() == 13 && name[0] == 'r' && name[6] == 't' {
        Some(PwCall::Request)
    } else if name.len() == 8 && name[0] == 't' && name[6] == 'u' {
        Some(PwCall::Test)
    } else {
        None
    }
}

/// A runtime method name tells which call it belongs to, so distinct calls
/// invoke distinct methods and no command reaches the method of another;
/// closing one session invokes `session.close`, which differs from closing
/// every session.
pub proof fn lemma_pw_methods_distinct(a: PwCall, b: PwCall)
    ensures
        method_call(pw_method_name(a)) == Some(a),
        a != b ==> pw_method_name(a) != pw_method_name(b),
        pw_method_name(PwCall::SessionClose) == "session.close"@,
        pw_method_name(PwCall::SessionCloseAll) == "session.closeAll"@,
{
    reveal_strlit("runtime.health");
    reveal_strlit("session.create");
    reveal_strlit("session.list");
    reveal_strlit("session.close");
    reveal_strlit("session.closeAll");
    reveal_strlit("page.open");
    reveal_strlit("page.setContent");
    reveal_strlit("page.scan");
    reveal_strlit("page.snapshot");
    reveal_strlit("page.click");
    reveal_strlit("page.fill");
    reveal_strlit("page.press");
    reveal_strlit("page.evaluate");
    reveal_strlit("page.screenshot");
    reveal_strlit("page.pdf");
    reveal_strlit("trace.start");
    reveal_strlit("trace.stop");
    reveal_strlit("request.fetch");
    reveal_strlit("test.run");
    assert(method_call(pw_method_name(b)) == Some(b));
}

/// The network action a network endpoint belongs to.
pub open spec fn network_action_of(path: Seq<char>) -> Option<NetworkAction>
    recommends
        path.len() >= 10,
{
    if path.len() == 14 && path[9] == 's' {
        Some(NetworkAction::Start)
    } else if path.len() == 13 && path[9] == 'l' {
        Some(NetworkAction::List)
    } else if path.len() == 15 && path[9] == 'd' {
        Some(NetworkAction::Detail)
    } else if path.len() == 14 && path[9] == 'c' {
        Some(NetworkAction::Clear)
    } else if path.len() == 13 && path[9] == 's' {
        Some(NetworkAction::Stop)
    } else {
        None
    }
}

/// The console action a console endpoint belongs to.
pub open spec fn console_action_of(path: Seq<char>) -> Option<ConsoleAction>
    recommends
        path.len() >= 10,
{
    if path.len() == 14 && path[9] == 's' {
        Some(ConsoleAction::Start)
    } else if path.len() == 13 && path[9] == 'l' {
        Some(ConsoleAction::List)
    } else if path.len() == 14 && path[9] == 'c' {
        Some(ConsoleAction::Clear)
    } else if path.len() == 13 && path[9] == 's' {
        Some(ConsoleAction::Stop)
    } else {
        None
    }
}

/// Every network endpoint lies under `/network/` and every console
/// endpoint under `/console/`; an endpoint tells which action it belongs
/// to, so distinct actions reach distinct endpoints.
pub proof fn lemma_endpoints_distinct(
    n1: NetworkAction,
    n2: NetworkAction,
    c1: ConsoleAction,
    c2: ConsoleAction,
)
    ensures
        network_path(n1).take(9) == "/network/"@,
        console_path(c1).take(9) == "/console/"@,
        network_action_of(network_path(n1)) == Some(n1),
        console_action_of(console_path(c1)) == Some(c1),
        n1 != n2 ==> network_path(n1) != network_path(n2),
        c1 != c2 ==> console_path(c1) != console_path(c2),
{
    reveal_strlit("/network/");
    reveal_strlit("/network/start");
    reveal_strlit("/network/list");
    reveal_strlit("/network/detail");
    reveal_strlit("/network/clear");
    reveal_strlit("/network/stop");
    reveal_strlit("/console/");
    reveal_strlit("/console/start");
    reveal_strlit("/console/list");
    reveal_strlit("/console/clear");
    reveal_strlit("/console/stop");
    assert(network_path(n1).take(9) =~= "/network/"@);
    assert(console_path(c1).take(9) =~= "/console/"@);
    assert(network_action_of(network_path(n2)) == Some(n2));
    assert(console_action_of(console_path(c2)) == Some(c2));
}

/// Only a test run whose result says `ok: false` makes the command fail,
/// and its message names the run's exit code, or `unknown`.
pub proof fn lemma_pw_failure_only_failed_tests(call: PwCall, value: serde_json::Value)
    ensures
        (pw_failure_of(call, value) is Some) == (call == PwCall::Test && bool_in(
            json_member(value, "ok"@),
        ) == Some(false)),
        pw_failure_of(call, value) is Some ==> pw_failure_of(call, value)->0 == "Playwright 测试失败，exitCode="@
            + match json_member(value, "exitCode"@) {
            Some(e) => json_compact(e),
            None => "unknown"@,
        },
{
}

} // verus!
