use std::cell::{Cell, RefCell};

use zene::permission::{
    approve_tool_call, choice_from_line, policy_denied, policy_denied_with_git_push, prompt_question,
    resolve_broker_answer, resolve_permission, session_approval_key, ApprovalRequest, NoPrompter,
    PermissionGate, PermissionMode, PermissionPrompter, PermissionRule, PermissionStep,
    PolicyDecision, PromptChoice, PromptError, RuleAction, ToolPermission,
};

struct Scripted<'a> {
    calls: &'a Cell<usize>,
    choice: PromptChoice,
}

impl PermissionPrompter for Scripted<'_> {
    fn prompt(&mut self, _tool: &str, _args: &str) -> Result<PromptChoice, PromptError> {
        self.calls.set(self.calls.get() + 1);
        Ok(self.choice)
    }
}

struct Failing;

impl PermissionPrompter for Failing {
    fn prompt(&mut self, _tool: &str, _args: &str) -> Result<PromptChoice, PromptError> {
        Err(PromptError::Failed("closed".to_string()))
    }
}

struct Recording<'a> {
    seen: &'a RefCell<Vec<(String, String)>>,
}

impl PermissionPrompter for Recording<'_> {
    fn prompt(&mut self, tool: &str, args: &str) -> Result<PromptChoice, PromptError> {
        self.seen.borrow_mut().push((tool.to_string(), args.to_string()));
        Ok(PromptChoice::AllowOnce)
    }
}

fn asking(mode: PermissionMode, calls: &Cell<usize>, choice: PromptChoice) -> PermissionGate<Scripted<'_>> {
    PermissionGate::with_prompter(mode, Scripted { calls, choice }, false)
}

#[test]
fn yolo_skips_prompt() {
    let calls = Cell::new(0);
    let mut gate = asking(PermissionMode::Yolo, &calls, PromptChoice::Deny);
    assert!(gate
        .check("Write", r#"{"path":"a.txt","content":"x"}"#)
        .unwrap());
    assert_eq!(calls.get(), 0);
}

#[test]
fn accept_edits_auto_allows_write_but_asks_bash() {
    let calls = Cell::new(0);
    let mut gate = asking(PermissionMode::AcceptEdits, &calls, PromptChoice::AllowOnce);
    assert!(gate
        .check("Write", r#"{"path":"a.txt","content":"x"}"#)
        .unwrap());
    assert_eq!(calls.get(), 0);
    assert!(gate.check("Bash", r#"{"command":"ls"}"#).unwrap());
    assert_eq!(calls.get(), 1);
}

#[test]
fn auto_allow_bash_skips_bash_prompt() {
    let calls = Cell::new(0);
    let mut gate =
        asking(PermissionMode::Default, &calls, PromptChoice::Deny).with_auto_allow_bash(true);
    assert!(gate.check("Bash", r#"{"command":"ls"}"#).unwrap());
    assert_eq!(calls.get(), 0);
    assert!(!gate
        .check("Write", r#"{"path":"a.txt","content":"x"}"#)
        .unwrap());
    assert_eq!(calls.get(), 1);
}

#[test]
fn dont_ask_denies_gated_tools() {
    let mut gate = PermissionGate::new(PermissionMode::DontAsk, false);
    assert!(!gate.check("Bash", r#"{"command":"ls"}"#).unwrap());
    assert!(gate.check("Read", r#"{"path":"a.txt"}"#).unwrap());
}

#[test]
fn deny_rule_beats_bypass() {
    let mut gate =
        PermissionGate::new(PermissionMode::BypassPermissions, false).with_rules(vec![
            PermissionRule {
                pattern: "Bash".into(),
                action: RuleAction::Deny,
            },
        ]);
    assert!(!gate.check("Bash", r#"{"command":"ls"}"#).unwrap());
    assert!(gate
        .check("Write", r#"{"path":"a.txt","content":"x"}"#)
        .unwrap());
}

#[test]
fn allow_rule_skips_prompt() {
    let calls = Cell::new(0);
    let mut gate = asking(PermissionMode::Default, &calls, PromptChoice::Deny).with_rules(vec![
        PermissionRule {
            pattern: "mcp__*".into(),
            action: RuleAction::Allow,
        },
    ]);
    assert!(gate.check("mcp__git__status", r#"{"repo":"."}"#).unwrap());
    assert_eq!(calls.get(), 0);
}

#[test]
fn manual_prompts_and_session_approve() {
    let calls = Cell::new(0);
    let mut gate = asking(PermissionMode::Manual, &calls, PromptChoice::AllowSession);
    let args = r#"{"path":"src/foo.rs","content":"x"}"#;
    assert!(gate.check("Write", args).unwrap());
    assert!(gate.check("Write", args).unwrap());
    assert_eq!(calls.get(), 1);
}

#[test]
fn manual_deny_returns_false() {
    let calls = Cell::new(0);
    let mut gate = asking(PermissionMode::Manual, &calls, PromptChoice::Deny);
    assert!(!gate.check("Bash", r#"{"command":"rm -rf /"}"#).unwrap());
}

#[test]
fn mcp_tools_require_confirmation() {
    assert!(PermissionGate::<NoPrompter>::requires_confirmation("mcp__git__status"));
}

#[test]
fn only_gated_tools_require_confirmation() {
    for tool in ["Write", "Edit", "Bash"] {
        assert!(PermissionGate::<NoPrompter>::requires_confirmation(tool));
    }
    for tool in ["Read", "Grep", "mcp_git", ""] {
        assert!(!PermissionGate::<NoPrompter>::requires_confirmation(tool));
    }
}

#[test]
fn policy_denies_node_modules_and_git_writes() {
    let mut gate = PermissionGate::new(PermissionMode::Yolo, false);
    assert!(!gate
        .check(
            "Write",
            r#"{"path":"node_modules/pkg/index.js","content":"x"}"#
        )
        .unwrap());
    assert!(!gate
        .check(
            "Edit",
            r#"{"path":"foo/.git/config","old_string":"a","new_string":"b"}"#
        )
        .unwrap());
    assert!(gate
        .check("Write", r#"{"path":"src/main.rs","content":"x"}"#)
        .unwrap());
}

#[test]
fn protected_paths_are_found_whatever_the_separator() {
    let gate = PermissionGate::new(PermissionMode::Yolo, false);
    for path in [r".\\.git\\config", "././node_modules/x", "a/b/.git"] {
        let args = format!(r#"{{"path":"{path}"}}"#);
        assert_eq!(gate.evaluate("Write", &args), PolicyDecision::Deny);
    }
    for path in ["a/.github/x", "my_node_modules/x", ".gitignore"] {
        let args = format!(r#"{{"path":"{path}"}}"#);
        assert_eq!(gate.evaluate("Write", &args), PolicyDecision::Allow);
    }
}

#[test]
fn policy_denied_message_is_specific() {
    let msg = PermissionGate::<NoPrompter>::permission_denied_message(
        "Write",
        r#"{"path":"node_modules/x"}"#,
        false,
    );
    assert!(msg.contains("node_modules"));
}

#[test]
fn denied_message_falls_back_to_the_user() {
    assert_eq!(
        PermissionGate::<NoPrompter>::permission_denied_message("Bash", "{}", false),
        "Tool `Bash` was denied by the user."
    );
    assert_eq!(
        <PermissionGate<NoPrompter> as ToolPermission>::denied_message("Edit"),
        "Tool `Edit` was denied by the user."
    );
}

#[test]
fn git_push_protection_blocks_git_push_and_gh() {
    let push = policy_denied_with_git_push("Bash", r#"{"command":"git push origin HEAD"}"#, true);
    assert!(push.unwrap().contains("git push"));
    let gh = policy_denied_with_git_push("Bash", r#"{"command":"gh pr create"}"#, true);
    assert!(gh.unwrap().contains("`gh`"));
    assert!(policy_denied_with_git_push("Bash", r#"{"command":"git status"}"#, true).is_none());
    assert!(policy_denied_with_git_push("Bash", r#"{"command":"git push"}"#, false).is_none());

    let mut gate = PermissionGate::new(PermissionMode::Yolo, false).with_deny_git_push(true);
    assert_eq!(
        gate.evaluate("Bash", r#"{"command":"git push"}"#),
        PolicyDecision::Deny
    );
    gate.set_deny_git_push(false);
    assert_eq!(
        gate.evaluate("Bash", r#"{"command":"git push"}"#),
        PolicyDecision::Allow
    );
}

#[test]
fn cloud_runs_refuse_pushes() {
    assert!(policy_denied("Bash", r#"{"command":"git push"}"#, true).is_some());
    assert!(policy_denied("Bash", r#"{"command":"git push"}"#, false).is_none());
    let gate = PermissionGate::new(PermissionMode::Yolo, true);
    assert!(gate.deny_git_push());
    assert!(gate.policy_denied("Bash", r#"{"command":"git push"}"#).is_some());
}

#[test]
fn session_key_format() {
    assert_eq!(
        session_approval_key("Write", r#"{"path":"a/b.rs"}"#).as_deref(),
        Some("Write:a/b.rs")
    );
    assert_eq!(
        session_approval_key("Bash", r#"{"command":"ls"}"#).as_deref(),
        Some("Bash:ls")
    );
}

#[test]
fn session_keys_of_other_calls() {
    assert_eq!(session_approval_key("Read", r#"{"path":"a"}"#), None);
    assert_eq!(session_approval_key("Bash", "not json"), None);
    assert_eq!(session_approval_key("Bash", r#"{"path":"a"}"#), None);
    assert_eq!(session_approval_key("Bash", r#"{"command":7}"#), None);
    assert_eq!(
        session_approval_key("mcp__git__log", "{}").as_deref(),
        Some("mcp__git__log:{}")
    );
    assert_eq!(session_approval_key("mcp__git__log", "{"), None);
}

#[test]
fn parse_aliases() {
    assert_eq!(
        PermissionMode::parse("yolo"),
        PermissionMode::BypassPermissions
    );
    assert_eq!(
        PermissionMode::parse("accept_edits"),
        PermissionMode::AcceptEdits
    );
    assert_eq!(PermissionMode::parse("dont_ask"), PermissionMode::DontAsk);
    assert_eq!(PermissionMode::parse("manual"), PermissionMode::Default);
}

#[test]
fn mode_names_ignore_case_and_space() {
    assert_eq!(
        PermissionMode::parse("  ByPass "),
        PermissionMode::BypassPermissions
    );
    assert_eq!(PermissionMode::parse("DONT-ASK"), PermissionMode::DontAsk);
    assert_eq!(PermissionMode::parse("nonsense"), PermissionMode::Default);
    for mode in [
        PermissionMode::Default,
        PermissionMode::AcceptEdits,
        PermissionMode::DontAsk,
        PermissionMode::BypassPermissions,
    ] {
        assert_eq!(PermissionMode::parse(mode.as_str()), mode);
    }
    assert_eq!(PermissionMode::Yolo.as_str(), "bypass");
    assert_eq!(PermissionMode::default(), PermissionMode::Default);
}

#[test]
fn evaluate_is_pure_and_does_not_prompt() {
    let calls = Cell::new(0);
    let gate = asking(PermissionMode::Default, &calls, PromptChoice::Deny);
    assert_eq!(
        gate.evaluate("Read", r#"{"path":"a.txt"}"#),
        PolicyDecision::Allow
    );
    assert_eq!(
        gate.evaluate("Write", r#"{"path":"a.txt","content":"x"}"#),
        PolicyDecision::Ask
    );
    assert_eq!(
        gate.evaluate("Write", r#"{"path":"node_modules/x","content":"x"}"#),
        PolicyDecision::Deny
    );
    assert_eq!(calls.get(), 0);
}

fn request(tool: &str, arguments: &str) -> ApprovalRequest {
    ApprovalRequest {
        request_id: "req".into(),
        tool_name: tool.into(),
        arguments: arguments.into(),
        tool_call_id: None,
    }
}

#[test]
fn resolve_permission_uses_broker_for_ask() {
    let calls = Cell::new(0);
    let mut gate = asking(PermissionMode::Default, &calls, PromptChoice::AllowOnce);
    let request = request("Bash", r#"{"command":"ls"}"#);
    assert_eq!(
        resolve_permission(&gate, true, &request),
        PermissionStep::AskBroker
    );
    let allowed = resolve_broker_answer(&mut gate, &request, Ok(PromptChoice::Deny)).unwrap();
    assert!(!allowed);
    assert_eq!(calls.get(), 0);
}

#[test]
fn resolve_permission_records_session_approval() {
    let mut gate = PermissionGate::new(PermissionMode::Default, false);
    let request = request("Write", r#"{"path":"src/foo.rs","content":"x"}"#);
    assert_eq!(
        resolve_permission(&gate, true, &request),
        PermissionStep::AskBroker
    );
    assert!(resolve_broker_answer(&mut gate, &request, Ok(PromptChoice::AllowSession)).unwrap());
    assert_eq!(
        gate.evaluate("Write", r#"{"path":"src/foo.rs","content":"x"}"#),
        PolicyDecision::Allow
    );
}

#[test]
fn resolve_permission_without_broker_asks_the_gate() {
    let gate = PermissionGate::new(PermissionMode::Default, false);
    let asked = request("Bash", r#"{"command":"ls"}"#);
    assert_eq!(
        resolve_permission(&gate, false, &asked),
        PermissionStep::AskGate
    );
    let ungated = request("Read", "{}");
    assert_eq!(
        resolve_permission(&gate, true, &ungated),
        PermissionStep::Resolved(true)
    );
    let refused = request("Write", r#"{"path":".git/x"}"#);
    assert_eq!(
        resolve_permission(&gate, true, &refused),
        PermissionStep::Resolved(false)
    );
}

#[test]
fn broker_failure_changes_nothing() {
    let mut gate = PermissionGate::new(PermissionMode::Default, false);
    let request = request("Bash", r#"{"command":"ls"}"#);
    let error = PromptError::Failed("gone".to_string());
    assert!(resolve_broker_answer(&mut gate, &request, Err(error)).is_err());
    assert_eq!(
        gate.evaluate("Bash", r#"{"command":"ls"}"#),
        PolicyDecision::Ask
    );
}

#[test]
fn prompt_failures_are_handed_on() {
    let mut gate = PermissionGate::with_prompter(PermissionMode::Default, Failing, false);
    match gate.approve_tool_call("Bash", "{}") {
        Err(PromptError::Failed(reason)) => assert_eq!(reason, "closed"),
        _ => panic!("the prompter fails"),
    }
    assert!(approve_tool_call(&mut gate, "Read", "{}").unwrap());
    let mut nobody = PermissionGate::new(PermissionMode::Default, false);
    assert!(matches!(
        nobody.check("Bash", "{}"),
        Err(PromptError::Unavailable)
    ));
}

#[test]
fn prompts_show_a_preview_of_the_arguments() {
    let seen = RefCell::new(Vec::new());
    let mut gate =
        PermissionGate::with_prompter(PermissionMode::Default, Recording { seen: &seen }, false);
    let long = "ä".repeat(121);
    gate.check("Bash", &long).unwrap();
    gate.check("Bash", &"b".repeat(120)).unwrap();
    let seen = seen.borrow();
    assert_eq!(seen[0].1, format!("{}...", "ä".repeat(120)));
    assert_eq!(seen[1].1, "b".repeat(120));
    assert_eq!(seen[0].0, "Bash");
}

#[test]
fn first_matching_rule_decides() {
    let rule = |pattern: &str, action| PermissionRule {
        pattern: pattern.into(),
        action,
    };
    let gate = PermissionGate::new(PermissionMode::BypassPermissions, false).with_rules(vec![
        rule("mcp__git__*", RuleAction::Ask),
        rule("mcp__*", RuleAction::Allow),
        rule("*", RuleAction::Deny),
    ]);
    assert_eq!(gate.evaluate("mcp__git__log", "{}"), PolicyDecision::Ask);
    assert_eq!(gate.evaluate("mcp__fs__read", "{}"), PolicyDecision::Allow);
    assert_eq!(gate.evaluate("Read", "{}"), PolicyDecision::Deny);
}

#[test]
fn session_approval_covers_the_same_call_only() {
    let mut gate = PermissionGate::new(PermissionMode::Default, false);
    assert!(gate.apply_choice("Bash", r#"{"command":"ls"}"#, PromptChoice::AllowSession));
    assert_eq!(
        gate.evaluate("Bash", r#"{"command":"ls"}"#),
        PolicyDecision::Allow
    );
    assert_eq!(
        gate.evaluate("Bash", r#"{"command":"pwd"}"#),
        PolicyDecision::Ask
    );
    assert!(gate.apply_choice("Bash", r#"{"command":"pwd"}"#, PromptChoice::AllowOnce));
    assert_eq!(
        gate.evaluate("Bash", r#"{"command":"pwd"}"#),
        PolicyDecision::Ask
    );
}

#[test]
fn inherited_policy_keeps_the_own_mode() {
    let mut parent = PermissionGate::new(PermissionMode::BypassPermissions, true)
        .with_auto_allow_bash(true)
        .with_rules(vec![PermissionRule {
            pattern: "Edit".into(),
            action: RuleAction::Deny,
        }]);
    parent.apply_choice("Write", r#"{"path":"a"}"#, PromptChoice::AllowSession);
    let mut child = PermissionGate::new(PermissionMode::Default, false);
    child.inherit_policy_from(&parent);
    assert_eq!(child.mode(), PermissionMode::Default);
    assert!(child.auto_allow_bash());
    assert!(child.deny_git_push());
    assert_eq!(child.evaluate("Edit", "{}"), PolicyDecision::Deny);
    assert_eq!(
        child.evaluate("Write", r#"{"path":"a"}"#),
        PolicyDecision::Allow
    );
    assert_eq!(
        child.evaluate("Write", r#"{"path":"b"}"#),
        PolicyDecision::Ask
    );
}

#[test]
fn typed_answers_stand_for_choices() {
    assert_eq!(choice_from_line(" Yes\n"), PromptChoice::AllowOnce);
    assert_eq!(choice_from_line("y"), PromptChoice::AllowOnce);
    assert_eq!(choice_from_line("A"), PromptChoice::AllowSession);
    assert_eq!(choice_from_line("always"), PromptChoice::AllowSession);
    assert_eq!(choice_from_line(""), PromptChoice::Deny);
    assert_eq!(choice_from_line("yep"), PromptChoice::Deny);
    assert_eq!(
        prompt_question("Bash", "ls"),
        "\nAllow Bash(ls)? [y]es / [n]o / [a]pprove for session: "
    );
}
