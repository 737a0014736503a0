//! The daemon status: from the health report of the daemon to one verdict
//! with a code and an explanation for the user.
use vstd::prelude::*;
use crate::json::{bool_in, get_bool_in, get_member_in, get_u64_in, member_in, u64_in};

verus! {

/// The fields of the daemon's health report that the status reads, each
/// `None` where the report lacks it or holds a value of another type.
pub struct HealthReport {
    /// `running`
    pub running: Option<bool>,
    /// `ready`
    pub ready: Option<bool>,
    /// `ports.extension.matched`
    pub extension_matched: Option<bool>,
    /// `ports.extension.listening`, as an unsigned integer
    pub extension_listening: Option<u64>,
    /// `connection.extension_connected`
    pub extension_connected: Option<bool>,
    /// `connection.active_tabs`, as an unsigned integer
    pub active_tabs: Option<u64>,
}

/// The health report that the daemon's answer gives: each field read at
/// its place in the document, `None` when the daemon did not answer.
pub open spec fn health_of(value: Option<serde_json::Value>) -> HealthReport {
    let ports_ext = member_in(member_in(value, "ports"@), "extension"@);
    let connection = member_in(value, "connection"@);
    HealthReport {
        running: bool_in(member_in(value, "running"@)),
        ready: bool_in(member_in(value, "ready"@)),
        extension_matched: bool_in(member_in(ports_ext, "matched"@)),
        extension_listening: u64_in(member_in(ports_ext, "listening"@)),
        extension_connected: bool_in(member_in(connection, "extension_connected"@)),
        active_tabs: u64_in(member_in(connection, "active_tabs"@)),
    }
}

/// Reads the health report out of the daemon's answer to `/health`:
/// `running`, `ready`, `ports.extension.matched`,
/// `ports.extension.listening`, `connection.extension_connected` and
/// `connection.active_tabs`.
pub fn health_report_of(value: Option<serde_json::Value>) -> (report: HealthReport)
    ensures
        report == health_of(value),
{
    let ports = get_member_in(&value, "ports");
    let ports_ext = get_member_in(&ports, "extension");
    let connection = get_member_in(&value, "connection");
    let running = get_bool_in(&get_member_in(&value, "running"));
    let ready = get_bool_in(&get_member_in(&value, "ready"));
    let extension_matched = get_bool_in(&get_member_in(&ports_ext, "matched"));
    let extension_listening = get_u64_in(&get_member_in(&ports_ext, "listening"));
    let extension_connected = get_bool_in(&get_member_in(&connection, "extension_connected"));
    let active_tabs = get_u64_in(&get_member_in(&connection, "active_tabs"));
    HealthReport {
        running,
        ready,
        extension_matched,
        extension_listening,
        extension_connected,
        active_tabs,
    }
}

/// A flag of the report, absent counting as `false`.
pub open spec fn flag(v: Option<bool>) -> bool {
    match v {
        Some(b) => b,
        None => false,
    }
}

/// A count of the report, absent counting as zero.
pub open spec fn count(v: Option<u64>) -> u64 {
    match v {
        Some(n) => n,
        None => 0,
    }
}

/// The verdict on the daemon's state, first failing condition first.
#[derive(PartialEq, Eq, Structural, Clone, Copy, Debug)]
pub enum StatusSummary {
    /// The daemon does not run.
    DaemonNotRunning,
    /// The daemon listens on another extension port than the one configured.
    PortMismatch,
    /// The browser extension is not connected.
    ExtensionNotConnected,
    /// No ordinary web page tab is available, or the daemon is not ready.
    NoActiveTabs,
    /// Everything is in place.
    Ready,
}

/// The verdict for a health report.
pub open spec fn status_summary(report: HealthReport) -> StatusSummary {
    if !flag(report.running) {
        StatusSummary::DaemonNotRunning
    } else if !flag(report.extension_matched) {
        StatusSummary::PortMismatch
    } else if !flag(report.extension_connected) {
        StatusSummary::ExtensionNotConnected
    } else if count(report.active_tabs) == 0 || !flag(report.ready) {
        StatusSummary::NoActiveTabs
    } else {
        StatusSummary::Ready
    }
}

/// The machine-readable code of a verdict.
pub open spec fn summary_code(s: StatusSummary) -> Seq<char> {
    match s {
        StatusSummary::DaemonNotRunning => "daemon_not_running"@,
        StatusSummary::PortMismatch => "port_mismatch"@,
        StatusSummary::ExtensionNotConnected => "extension_not_connected"@,
        StatusSummary::NoActiveTabs => "no_active_tabs"@,
        StatusSummary::Ready => "ready"@,
    }
}

/// The explanation of a verdict.
pub open spec fn summary_message(s: StatusSummary) -> Seq<char> {
    match s {
        StatusSummary::DaemonNotRunning => "daemon 未运行；执行 tabs/open/exec/scan 会自动启动，或运行 agent-browser-cli restart 手动启动"@,
        StatusSummary::PortMismatch => "CLI 配置的插件端口和 daemon 实际监听端口不一致；运行 agent-browser-cli restart 让配置生效"@,
        StatusSummary::ExtensionNotConnected => "浏览器插件未连接；确认 Chrome 已打开、插件已启用，且插件端口和 CLI 配置一致"@,
        StatusSummary::NoActiveTabs => "没有可用的普通网页标签页；请在 Chrome 打开一个 http/https 页面后重试"@,
        StatusSummary::Ready => "daemon、插件连接和浏览器标签页均可用"@,
    }
}

impl StatusSummary {
    /// Whether the verdict is healthy: only `Ready` is.
    pub fn healthy(&self) -> (b: bool)
        ensures
            b == (*self == StatusSummary::Ready),
    {
        match self {
            StatusSummary::Ready => true,
            _ => false,
        }
    }

    /// The machine-readable code of the verdict.
    pub fn code(&self) -> (text: &'static str)
        ensures
            text@ == summary_code(*self),
    {
        match self {
            StatusSummary::DaemonNotRunning => "daemon_not_running",
            StatusSummary::PortMismatch => "port_mismatch",
            StatusSummary::ExtensionNotConnected => "extension_not_connected",
            StatusSummary::NoActiveTabs => "no_active_tabs",
            StatusSummary::Ready => "ready",
        }
    }

    /// The explanation of the verdict for the user.
    pub fn message(&self) -> (text: &'static str)
        ensures
            text@ == summary_message(*self),
    {
        match self {
            StatusSummary::DaemonNotRunning => "daemon 未运行；执行 tabs/open/exec/scan 会自动启动，或运行 agent-browser-cli restart 手动启动",
            StatusSummary::PortMismatch => "CLI 配置的插件端口和 daemon 实际监听端口不一致；运行 agent-browser-cli restart 让配置生效",
            StatusSummary::ExtensionNotConnected => "浏览器插件未连接；确认 Chrome 已打开、插件已启用，且插件端口和 CLI 配置一致",
            StatusSummary::NoActiveTabs => "没有可用的普通网页标签页；请在 Chrome 打开一个 http/https 页面后重试",
            StatusSummary::Ready => "daemon、插件连接和浏览器标签页均可用",
        }
    }
}

/// The verdict on a health report: the daemon must run, listen on the
/// configured extension port, have the extension connected, be ready and
/// have at least one active tab; the first condition that fails names the
/// verdict.
pub fn assess_status(report: &HealthReport) -> (s: StatusSummary)
    ensures
        s == status_summary(*report),
        !flag(report.running) ==> s == StatusSummary::DaemonNotRunning,
        flag(report.running) && !flag(report.extension_matched) ==> s == StatusSummary::PortMismatch,
        flag(report.running) && flag(report.extension_matched) && !flag(report.extension_connected)
            ==> s == StatusSummary::ExtensionNotConnected,
        flag(report.running) && flag(report.extension_matched) && flag(report.extension_connected)
            && (count(report.active_tabs) == 0 || !flag(report.ready)) ==> s
            == StatusSummary::NoActiveTabs,
        (s == StatusSummary::Ready) == (flag(report.running) && flag(report.ready) && flag(
            report.extension_matched,
        ) && flag(report.extension_connected) && count(report.active_tabs) > 0),
{
    let running = match report.running { Some(b) => b, None => false };
    let ready = match report.ready { Some(b) => b, None => false };
    let matched = match report.extension_matched { Some(b) => b, None => false };
    let connected = match report.extension_connected { Some(b) => b, None => false };
    let tabs = match report.active_tabs { Some(n) => n, None => 0 };
    if !running {
        StatusSummary::DaemonNotRunning
    } else if !matched {
        StatusSummary::PortMismatch
    } else if !connected {
        StatusSummary::ExtensionNotConnected
    } else if tabs == 0 || !ready {
        StatusSummary::NoActiveTabs
    } else {
        StatusSummary::Ready
    }
}

/// A report is healthy exactly when the daemon runs and is ready, the
/// extension port matches, the extension is connected and at least one tab
/// is active.
pub proof fn lemma_status_ready_iff(report: HealthReport)
    ensures
        (status_summary(report) == StatusSummary::Ready) <==> (flag(report.running) && flag(
            report.ready,
        ) && flag(report.extension_matched) && flag(report.extension_connected) && count(
            report.active_tabs,
        ) > 0),
{
}

/// The verdict names the first condition that fails, in a fixed order:
/// the daemon runs, then its extension port matches, then the extension is
/// connected, then a tab is active and the daemon is ready. A later
/// condition never hides an earlier one, and readiness only matters once
/// the extension is connected.
pub proof fn lemma_status_first_failing(report: HealthReport)
    ensures
        !flag(report.running) ==> status_summary(report) == StatusSummary::DaemonNotRunning,
        flag(report.running) && !flag(report.extension_matched) ==> status_summary(report)
            == StatusSummary::PortMismatch,
        flag(report.running) && flag(report.extension_matched) && !flag(
            report.extension_connected,
        ) ==> status_summary(report) == StatusSummary::ExtensionNotConnected,
        flag(report.running) && flag(report.extension_matched) && flag(report.extension_connected)
            && (count(report.active_tabs) == 0 || !flag(report.ready)) ==> status_summary(report)
            == StatusSummary::NoActiveTabs,
        status_summary(report) == StatusSummary::NoActiveTabs ==> flag(report.running) && flag(
            report.extension_matched,
        ) && flag(report.extension_connected),
        status_summary(report) == StatusSummary::PortMismatch ==> flag(report.running),
        status_summary(report) == StatusSummary::ExtensionNotConnected ==> flag(report.running)
            && flag(report.extension_matched),
{
}

/// Distinct verdicts have distinct codes, so a code names its verdict.
pub proof fn lemma_summary_codes_distinct(a: StatusSummary, b: StatusSummary)
    ensures
        a != b ==> summary_code(a) != summary_code(b),
        summary_code(StatusSummary::Ready) == "ready"@,
{
    reveal_strlit("daemon_not_running");
    reveal_strlit("port_mismatch");
    reveal_strlit("extension_not_connected");
    reveal_strlit("no_active_tabs");
    reveal_strlit("ready");
    assert(summary_code(a).len() != summary_code(b).len() || a == b);
}

/// A daemon that does not answer reports nothing, and is judged not
/// running.
pub proof fn lemma_no_answer_not_running()
    ensures
        health_of(None) == (HealthReport {
            running: None,
            ready: None,
            extension_matched: None,
            extension_listening: None,
            extension_connected: None,
            active_tabs: None,
        }),
        status_summary(health_of(None)) == StatusSummary::DaemonNotRunning,
{
}

} // verus!
