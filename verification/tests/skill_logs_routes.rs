use agent_browser_cli::logs::{log_lines, tail_lines};
use agent_browser_cli::routes::{
    console_endpoint, daemon_url, network_endpoint, pw_fails_when_false, pw_method, pw_result_failed,
    pw_test_failure_message, ConsoleAction, NetworkAction, PwCall,
};
use agent_browser_cli::skill::{
    confirm_install_answer, install_next_step, links_to_write, plan_line, plan_skill_install, InstallStep,
    LinkTarget, SkillAction,
};

#[test]
fn skill_plan_steps() {
    let links = vec![LinkTarget::ParentMissing, LinkTarget::Absent, LinkTarget::Symlink, LinkTarget::OtherEntity];
    let plan = plan_skill_install(false, &links);
    let actions: Vec<SkillAction> = plan.iter().map(|s| s.action).collect();
    assert_eq!(
        actions,
        vec![
            SkillAction::CreateMain,
            SkillAction::SkipMissingParent,
            SkillAction::CreateSymlink,
            SkillAction::UpdateSymlink,
            SkillAction::SkipExistingEntity
        ]
    );
    let writes: Vec<bool> = plan.iter().map(|s| s.will_write).collect();
    assert_eq!(writes, vec![true, false, true, true, false]);
    assert_eq!(links_to_write(&plan), vec![2, 3]);
    assert_eq!(plan_skill_install(true, &vec![])[0].action, SkillAction::UpdateMain);
}

#[test]
fn skill_plan_texts() {
    let plan = plan_skill_install(true, &vec![LinkTarget::OtherEntity]);
    assert_eq!(SkillAction::UpdateMain.code(), "update_main");
    let note = plan[0].action.note("/pkg/skills/agent-browser-cli", "/h/.agents/skills/agent-browser-cli");
    assert_eq!(note, "复制内置 skill 目录: /pkg/skills/agent-browser-cli");
    assert_eq!(SkillAction::CreateSymlink.note("s", "/m"), "创建软链接到 /m");
    assert_eq!(
        plan_line(&plan[1], "/h/.codex/skills/agent-browser-cli", "n"),
        "- [skip] skip_existing_entity -> /h/.codex/skills/agent-browser-cli (n)"
    );
    assert_eq!(plan_line(&plan[0], "/m", "x"), "- [write] update_main -> /m (x)");
}

#[test]
fn install_flow() {
    assert_eq!(install_next_step(true, true), InstallStep::Finish);
    assert_eq!(install_next_step(false, true), InstallStep::Install);
    assert_eq!(install_next_step(false, false), InstallStep::Confirm);
    assert!(confirm_install_answer("yes\n"));
    assert!(confirm_install_answer("  yes "));
    assert!(!confirm_install_answer("y"));
    assert!(!confirm_install_answer("YES"));
}

#[test]
fn lines_match_std() {
    for s in ["", "a", "a\n", "a\nb", "a\r\nb\r\n", "\n\n", "x\r", "a\rb\n", "\r\n", "one\ntwo\n\nthree"] {
        let expected: Vec<String> = s.lines().map(|l| l.to_string()).collect();
        assert_eq!(log_lines(s), expected, "{:?}", s);
    }
}

#[test]
fn tail_keeps_last_lines() {
    let content = "1\n2\n3\n4\n";
    assert_eq!(tail_lines(content, 2), vec!["3", "4"]);
    assert_eq!(tail_lines(content, 10), vec!["1", "2", "3", "4"]);
    assert!(tail_lines(content, 0).is_empty());
    assert!(tail_lines("", 5).is_empty());
}

#[test]
fn endpoints_and_methods() {
    assert_eq!(daemon_url("/health"), "http://127.0.0.1:18767/health");
    assert_eq!(network_endpoint(NetworkAction::Detail), "/network/detail");
    assert_eq!(console_endpoint(ConsoleAction::Clear), "/console/clear");
    assert_eq!(pw_method(PwCall::SessionCloseAll), "session.closeAll");
    assert_eq!(pw_method(PwCall::Exec), "page.evaluate");
    assert_eq!(pw_method(PwCall::Test), "test.run");
    assert!(pw_fails_when_false(PwCall::Test));
    assert!(!pw_fails_when_false(PwCall::Request));
    assert!(pw_result_failed(PwCall::Test, Some(false)));
    assert!(!pw_result_failed(PwCall::Test, None));
    assert!(!pw_result_failed(PwCall::Open, Some(false)));
    assert_eq!(pw_test_failure_message(Some("1")), "Playwright 测试失败，exitCode=1");
    assert_eq!(pw_test_failure_message(None), "Playwright 测试失败，exitCode=unknown");
}
