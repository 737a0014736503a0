//! The diagnosis of the local installation: which checks pass, and the hint
//! given for the extension port.
use vstd::prelude::*;
use crate::status::{count, flag, HealthReport};

verus! {

/// The port of the daemon's HTTP API.
pub const API_PORT: u16 = 18767;

/// What the diagnosis found out before judging.
pub struct DoctorInputs {
    /// The running program is a file.
    pub exe_ok: bool,
    /// The configured extension port, `None` when the configuration could
    /// not be read.
    pub configured_port: Option<u16>,
    /// The daemon's API port accepts connections.
    pub api_reachable: bool,
    /// The daemon's health report; every field `None` when it did not answer.
    pub health: HealthReport,
    /// The extension port that the diagnosis probed accepts connections
    /// (`false` when there was no port to probe).
    pub extension_port_ok: bool,
    /// The extension port assumed when none is configured.
    pub default_extension_port: u16,
}

/// The hint given on the extension-port check.
#[derive(PartialEq, Eq, Structural, Clone, Copy, Debug)]
pub enum PortHint {
    /// The configured extension port is the API port.
    Conflict,
    /// The daemon listens on another port than the configured one.
    Mismatch,
    /// Nothing listens on the extension port.
    NotListening,
    /// No hint.
    NoHint,
}

/// The extension port the daemon reports to listen on, when it fits a port.
pub open spec fn listening_port(health: HealthReport) -> Option<u16> {
    match health.extension_listening {
        Some(p) => if p <= 65535 {
            Some(p as u16)
        } else {
            None
        },
        None => None,
    }
}

/// The port whose listening the diagnosis probes: the one the daemon
/// reports, else the configured one.
pub open spec fn port_to_probe(listening: Option<u16>, configured: Option<u16>) -> Option<u16> {
    match listening {
        Some(p) => Some(p),
        None => configured,
    }
}

/// The hint on the extension port, first applicable case first.
pub open spec fn port_hint(
    configured: Option<u16>,
    listening: Option<u16>,
    extension_port_ok: bool,
    port_conflict: bool,
) -> PortHint {
    if port_conflict {
        PortHint::Conflict
    } else if configured is Some && listening is Some && configured != listening {
        PortHint::Mismatch
    } else if !extension_port_ok {
        PortHint::NotListening
    } else {
        PortHint::NoHint
    }
}

/// The judged diagnosis.
pub struct DoctorAssessment {
    /// The check of the program itself.
    pub cli_ok: bool,
    /// The check of the API port.
    pub api_ok: bool,
    /// The check of the configuration.
    pub config_ok: bool,
    /// The port the daemon reports to listen on for the extension.
    pub listening_port: Option<u16>,
    /// The configured extension port is the API port.
    pub port_conflict: bool,
    /// The configured and the listening extension ports are known and equal.
    pub port_matched: bool,
    /// The check of the extension port.
    pub extension_port_ok: bool,
    /// The hint of the extension-port check.
    pub port_hint: PortHint,
    /// The check of the daemon's health: it runs.
    pub running: bool,
    /// The daemon is ready.
    pub ready: bool,
    /// The check of the extension connection.
    pub extension_connected: bool,
    /// The number of active tabs.
    pub active_tabs: u64,
    /// The check of the active tabs: there is at least one.
    pub active_tabs_ok: bool,
    /// The port named in the hint on the extension connection.
    pub hint_port: u16,
    /// Every check passes.
    pub ok: bool,
}

/// The diagnosis that the inputs give.
pub open spec fn doctor_spec(i: DoctorInputs) -> DoctorAssessment {
    let listening = listening_port(i.health);
    let conflict = i.configured_port == Some(API_PORT);
    let matched = i.configured_port is Some && listening is Some && i.configured_port == listening;
    let ext_ok = i.extension_port_ok && !conflict;
    let running = flag(i.health.running);
    let connected = flag(i.health.extension_connected);
    let tabs = count(i.health.active_tabs);
    DoctorAssessment {
        cli_ok: i.exe_ok,
        api_ok: i.api_reachable,
        config_ok: i.configured_port is Some,
        listening_port: listening,
        port_conflict: conflict,
        port_matched: matched,
        extension_port_ok: ext_ok,
        port_hint: port_hint(i.configured_port, listening, i.extension_port_ok, conflict),
        running: running,
        ready: flag(i.health.ready),
        extension_connected: connected,
        active_tabs: tabs,
        active_tabs_ok: tabs > 0,
        hint_port: match i.configured_port {
            Some(p) => p,
            None => i.default_extension_port,
        },
        ok: i.exe_ok && i.api_reachable && i.configured_port is Some && ext_ok && running
            && connected && tabs > 0,
    }
}

/// The extension port that the daemon's report gives, when it fits a port.
pub fn doctor_listening_port(health: &HealthReport) -> (port: Option<u16>)
    ensures
        port == listening_port(*health),
{
    match health.extension_listening {
        Some(p) => if p <= 65535 {
            Some(p as u16)
        } else {
            None
        },
        None => None,
    }
}

/// The port whose listening the diagnosis probes, if any: the extension port
/// the daemon reports, else the configured one.
pub fn doctor_port_to_probe(health: &HealthReport, configured: Option<u16>) -> (port: Option<u16>)
    ensures
        port == port_to_probe(listening_port(*health), configured),
{
    match doctor_listening_port(health) {
        Some(p) => Some(p),
        None => configured,
    }
}

/// The hint on the extension port: a conflict with the API port first, then
/// a configured port that differs from the listening one, then a port that
/// does not listen; otherwise none.
pub fn extension_port_hint(
    configured: Option<u16>,
    listening: Option<u16>,
    extension_port_ok: bool,
    port_conflict: bool,
) -> (hint: PortHint)
    ensures
        hint == port_hint(configured, listening, extension_port_ok, port_conflict),
{
    let differ = match (configured, listening) {
        (Some(c), Some(l)) => c != l,
        _ => false,
    };
    if port_conflict {
        PortHint::Conflict
    } else if differ {
        PortHint::Mismatch
    } else if !extension_port_ok {
        PortHint::NotListening
    } else {
        PortHint::NoHint
    }
}

/// Judges the diagnosis: the program, the API port, the configuration, the
/// extension port (listening, and not the API port), the daemon running,
/// the extension connected and at least one active tab must all pass for
/// the whole to pass; the availability of file URLs is optional and always
/// passes.
pub fn doctor_assess(inputs: &DoctorInputs) -> (a: DoctorAssessment)
    ensures
        a == doctor_spec(*inputs),
{
    let listening = doctor_listening_port(&inputs.health);
    let conflict = match inputs.configured_port {
        Some(p) => p == API_PORT,
        None => false,
    };
    let matched = match (inputs.configured_port, listening) {
        (Some(c), Some(l)) => c == l,
        _ => false,
    };
    let ext_ok = inputs.extension_port_ok && !conflict;
    let hint = extension_port_hint(
        inputs.configured_port,
        listening,
        inputs.extension_port_ok,
        conflict,
    );
    let running = match inputs.health.running { Some(b) => b, None => false };
    let ready = match inputs.health.ready { Some(b) => b, None => false };
    let connected = match inputs.health.extension_connected { Some(b) => b, None => false };
    let tabs = match inputs.health.active_tabs { Some(n) => n, None => 0 };
    let hint_port = match inputs.configured_port {
        Some(p) => p,
        None => inputs.default_extension_port,
    };
    let config_ok = inputs.configured_port.is_some();
    DoctorAssessment {
        cli_ok: inputs.exe_ok,
        api_ok: inputs.api_reachable,
        config_ok: config_ok,
        listening_port: listening,
        port_conflict: conflict,
        port_matched: matched,
        extension_port_ok: ext_ok,
        port_hint: hint,
        running: running,
        ready: ready,
        extension_connected: connected,
        active_tabs: tabs,
        active_tabs_ok: tabs > 0,
        hint_port: hint_port,
        ok: inputs.exe_ok && inputs.api_reachable && config_ok && ext_ok && running && connected
            && tabs > 0,
    }
}

/// The text of a port hint.
pub open spec fn port_hint_message(h: PortHint) -> Option<Seq<char>> {
    match h {
        PortHint::Conflict => Some("插件端口不能和 API 端口 18767 相同；运行 agent-browser-cli set-extension-port <port> 修改"@),
        PortHint::Mismatch => Some("CLI 配置和 daemon 实际监听端口不一致；运行 agent-browser-cli restart 让配置生效"@),
        PortHint::NotListening => Some("当前插件端口未监听；daemon 未启动或 WebSocket 端口启动失败"@),
        PortHint::NoHint => None,
    }
}

impl PortHint {
    /// The text of the hint, `None` for no hint.
    pub fn message(&self) -> (text: Option<&'static str>)
        ensures
            match text {
                Some(t) => port_hint_message(*self) == Some(t@),
                None => port_hint_message(*self) is None,
            },
    {
        match self {
            PortHint::Conflict => Some("插件端口不能和 API 端口 18767 相同；运行 agent-browser-cli set-extension-port <port> 修改"),
            PortHint::Mismatch => Some("CLI 配置和 daemon 实际监听端口不一致；运行 agent-browser-cli restart 让配置生效"),
            PortHint::NotListening => Some("当前插件端口未监听；daemon 未启动或 WebSocket 端口启动失败"),
            PortHint::NoHint => None,
        }
    }
}

/// A diagnosis passes only when the daemon's status verdict is healthy
/// apart from readiness and the port match: it runs, the extension is
/// connected and a tab is active.
pub proof fn lemma_doctor_ok_needs_live_daemon(i: DoctorInputs)
    ensures
        doctor_spec(i).ok ==> flag(i.health.running) && flag(i.health.extension_connected) && count(
            i.health.active_tabs,
        ) > 0 && i.configured_port is Some && i.configured_port != Some(API_PORT),
{
}

/// What each check of the diagnosis reads from the inputs, and that the
/// diagnosis passes exactly when every check passes: the program, the API
/// port, a readable configuration, an extension port that listens and is
/// not the API port 18767, a running daemon, a connected extension and at
/// least one active tab. Readiness and the port match are reported but
/// decide nothing.
pub proof fn lemma_doctor_checks(i: DoctorInputs)
    ensures
        ({
            let a = doctor_spec(i);
            let tabs: u64 = match i.health.active_tabs {
                Some(n) => n,
                None => 0,
            };
            &&& a.cli_ok == i.exe_ok
            &&& a.api_ok == i.api_reachable
            &&& a.config_ok == (i.configured_port is Some)
            &&& a.port_conflict == (i.configured_port == Some(18767u16))
            &&& a.extension_port_ok == (i.extension_port_ok && i.configured_port != Some(
                18767u16,
            ))
            &&& a.running == (i.health.running == Some(true))
            &&& a.ready == (i.health.ready == Some(true))
            &&& a.extension_connected == (i.health.extension_connected == Some(true))
            &&& a.active_tabs == tabs
            &&& a.active_tabs_ok == (tabs > 0)
            &&& a.active_tabs_ok == (tabs >= 1)
            &&& a.ok == (i.exe_ok && i.api_reachable && i.configured_port is Some
                && i.extension_port_ok && i.configured_port != Some(18767u16) && i.health.running
                == Some(true) && i.health.extension_connected == Some(true) && tabs > 0)
            &&& a.ok == (a.cli_ok && a.api_ok && a.config_ok && a.extension_port_ok && a.running
                && a.extension_connected && a.active_tabs_ok)
            &&& a.hint_port == match i.configured_port {
                Some(p) => p,
                None => i.default_extension_port,
            }
        }),
{
}

/// The listening port is the one the daemon reports when it fits a port;
/// the port probed is that one, else the configured one; the two ports
/// match only when both are known and equal.
pub proof fn lemma_doctor_ports(i: DoctorInputs)
    ensures
        ({
            let a = doctor_spec(i);
            &&& match i.health.extension_listening {
                Some(p) => if p <= 65535 {
                    a.listening_port == Some(p as u16)
                } else {
                    a.listening_port is None
                },
                None => a.listening_port is None,
            }
            &&& a.port_matched == (i.configured_port is Some && a.listening_port
                == i.configured_port)
            &&& port_to_probe(a.listening_port, i.configured_port) == if a.listening_port
                is Some {
                a.listening_port
            } else {
                i.configured_port
            }
        }),
{
}

/// The hint on the extension port names the first problem, in order: the
/// configured port is the API port, the configured and listening ports
/// differ, the port does not listen; with none of these there is no hint.
pub proof fn lemma_port_hint_order(
    configured: Option<u16>,
    listening: Option<u16>,
    extension_port_ok: bool,
    conflict: bool,
)
    ensures
        ({
            let h = port_hint(configured, listening, extension_port_ok, conflict);
            let differ = configured is Some && listening is Some && configured != listening;
            &&& (h == PortHint::Conflict) == conflict
            &&& (h == PortHint::Mismatch) == (!conflict && differ)
            &&& (h == PortHint::NotListening) == (!conflict && !differ && !extension_port_ok)
            &&& (h == PortHint::NoHint) == (!conflict && !differ && extension_port_ok)
        }),
{
}

} // verus!
