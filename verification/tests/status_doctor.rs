use agent_browser_cli::doctor::{
    doctor_assess, doctor_port_to_probe, extension_port_hint, DoctorInputs, PortHint, API_PORT,
};
use agent_browser_cli::status::{assess_status, HealthReport, StatusSummary};

fn health(running: bool, ready: bool, matched: bool, connected: bool, tabs: u64) -> HealthReport {
    HealthReport {
        running: Some(running),
        ready: Some(ready),
        extension_matched: Some(matched),
        extension_listening: Some(18768),
        extension_connected: Some(connected),
        active_tabs: Some(tabs),
    }
}

fn empty_health() -> HealthReport {
    HealthReport {
        running: None,
        ready: None,
        extension_matched: None,
        extension_listening: None,
        extension_connected: None,
        active_tabs: None,
    }
}

#[test]
fn status_verdicts_in_order() {
    assert_eq!(assess_status(&empty_health()), StatusSummary::DaemonNotRunning);
    assert_eq!(assess_status(&health(false, true, true, true, 3)), StatusSummary::DaemonNotRunning);
    assert_eq!(assess_status(&health(true, true, false, false, 3)), StatusSummary::PortMismatch);
    assert_eq!(assess_status(&health(true, true, true, false, 3)), StatusSummary::ExtensionNotConnected);
    assert_eq!(assess_status(&health(true, true, true, true, 0)), StatusSummary::NoActiveTabs);
    assert_eq!(assess_status(&health(true, false, true, true, 2)), StatusSummary::NoActiveTabs);
    assert_eq!(assess_status(&health(true, true, true, true, 2)), StatusSummary::Ready);
}

#[test]
fn status_texts() {
    assert!(StatusSummary::Ready.healthy());
    assert!(!StatusSummary::NoActiveTabs.healthy());
    assert_eq!(StatusSummary::PortMismatch.code(), "port_mismatch");
    assert_eq!(StatusSummary::Ready.message(), "daemon、插件连接和浏览器标签页均可用");
    assert_eq!(
        StatusSummary::DaemonNotRunning.message(),
        "daemon 未运行；执行 tabs/open/exec/scan 会自动启动，或运行 agent-browser-cli restart 手动启动"
    );
}

#[test]
fn port_hints_in_order() {
    assert_eq!(extension_port_hint(Some(API_PORT), Some(1), false, true), PortHint::Conflict);
    assert_eq!(extension_port_hint(Some(1), Some(2), false, false), PortHint::Mismatch);
    assert_eq!(extension_port_hint(Some(1), None, false, false), PortHint::NotListening);
    assert_eq!(extension_port_hint(Some(1), Some(1), true, false), PortHint::NoHint);
    assert_eq!(PortHint::NoHint.message(), None);
    assert_eq!(
        PortHint::Conflict.message(),
        Some("插件端口不能和 API 端口 18767 相同；运行 agent-browser-cli set-extension-port <port> 修改")
    );
}

#[test]
fn probe_prefers_listening_port() {
    assert_eq!(doctor_port_to_probe(&health(true, true, true, true, 1), Some(9)), Some(18768));
    assert_eq!(doctor_port_to_probe(&empty_health(), Some(9)), Some(9));
    let mut h = empty_health();
    h.extension_listening = Some(70000);
    assert_eq!(doctor_port_to_probe(&h, None), None);
}

#[test]
fn doctor_all_good() {
    let a = doctor_assess(&DoctorInputs {
        exe_ok: true,
        configured_port: Some(18768),
        api_reachable: true,
        health: health(true, true, true, true, 2),
        extension_port_ok: true,
        default_extension_port: 18765,
    });
    assert!(a.ok);
    assert!(a.port_matched);
    assert_eq!(a.port_hint, PortHint::NoHint);
    assert_eq!(a.listening_port, Some(18768));
    assert_eq!(a.hint_port, 18768);
}

#[test]
fn doctor_without_daemon_or_config() {
    let a = doctor_assess(&DoctorInputs {
        exe_ok: true,
        configured_port: None,
        api_reachable: false,
        health: empty_health(),
        extension_port_ok: false,
        default_extension_port: 18765,
    });
    assert!(!a.ok);
    assert!(!a.config_ok);
    assert!(!a.running);
    assert_eq!(a.active_tabs, 0);
    assert!(!a.active_tabs_ok);
    assert_eq!(a.hint_port, 18765);
    assert_eq!(a.port_hint, PortHint::NotListening);
}

#[test]
fn doctor_conflicting_port_fails() {
    let a = doctor_assess(&DoctorInputs {
        exe_ok: true,
        configured_port: Some(API_PORT),
        api_reachable: true,
        health: health(true, true, true, true, 2),
        extension_port_ok: true,
        default_extension_port: 18765,
    });
    assert!(a.port_conflict);
    assert!(!a.extension_port_ok);
    assert!(!a.ok);
    assert_eq!(a.port_hint, PortHint::Conflict);
}
