use zene::agent::{
    context_report, fallback_explain, names_anthropic, rewind_target, Agent, ModelSettings, ReportFacts,
};
use zene::agent_builder::{
    hook_specs_from_entries, mcp_connected, memory_prefix, permission_rules_from_config,
    set_permission_gate, AgentBuilder, AgentSettings, BuildEnvironment, HookEntry, McpAttach,
    RuleEntry, SandboxSettings, SessionStorePlan,
};
use zene::agent_events::{
    execution_checkpoints_from_agent_event, prompt_after_hooks, prompt_conclusion, prompt_opening,
    record_entry_from_agent_event, terminal_checkpoint, AgentEvent, EventScope,
    ExecutionCheckpointState, PromptEffect, RecordEntry, TerminalState,
};
use zene::builtin_tools::{AgentProfile, BuiltinTool, SubagentProfile};
use zene::context_engine::{
    ContextEngine, PrefixCacheExplain, ProjectionExplain, StepContext,
};
use zene::hooks::{EventFilter, HookRunner};
use zene::json::Json;
use zene::llm::{ContextDelivery, Message, Role, ToolCall, ToolDefinition};
use zene::permission::{PermissionGate, PermissionMode, PolicyDecision, RuleAction};
use zene::prepare_step::{plan_filter, prepare_step_context, tool_definitions_for_llm};
use zene::subagent::{
    ensure_subagent_system_message, parent_depth, resolve_subagent_sandbox, step_result,
    subagent_request, subagent_system_prompt, SubagentSandbox, SubagentTurn,
};
use zene::turn_loop::{
    PreparedContext, ToolBatchOutcome, TurnAction, TurnEngine, TurnEvent, TurnStatus,
};
use zene::turn_state::{is_cancelled, QueueMode, StepId, TurnError, TurnId};

fn settings() -> AgentSettings {
    AgentSettings {
        include_workspace_context: true,
        agent_profile: AgentProfile::Full,
        context_window_tokens: 128_000,
        auto_allow_bash: true,
        permission_rules: vec![
            RuleEntry {
                pattern: "Edit".into(),
                action: " DENY ".into(),
            },
            RuleEntry {
                pattern: "Write".into(),
                action: "sometimes".into(),
            },
            RuleEntry {
                pattern: "Bash".into(),
                action: "ask".into(),
            },
        ],
    }
}

fn sandbox() -> SandboxSettings {
    SandboxSettings {
        workdir: "/work".into(),
        enforced: false,
    }
}

fn builder() -> AgentBuilder<EventFilter> {
    Agent::builder(
        settings(),
        sandbox(),
        "session".into(),
        PermissionMode::Default,
    )
}

fn environment() -> BuildEnvironment {
    BuildEnvironment {
        hooks: Some(vec![HookEntry {
            event: "PreToolUse".into(),
            command: "true".into(),
        }]),
        external_session_id: None,
        cellz_url: None,
        cloud_run: false,
        cloud_publish: false,
    }
}

fn names(tools: Option<Vec<BuiltinTool>>) -> Vec<&'static str> {
    tools.unwrap().iter().map(|tool| tool.name()).collect()
}

#[test]
fn test_agent_minimal_facade() {
    let builder: AgentBuilder<EventFilter> =
        Agent::minimal(settings(), sandbox(), "session".into(), PermissionMode::Default);
    let plan = builder
        .config(settings())
        .bypass_permissions()
        .build(environment());
    let tools = names(plan.tools);
    assert!(tools.contains(&"Read"));
    assert!(tools.contains(&"Grep"));
    assert!(tools.contains(&"Glob"));
    assert!(!tools.contains(&"Bash"));
    assert!(!tools.contains(&"Write"));
    assert!(!tools.contains(&"Edit"));
}

#[test]
fn test_agent_core_facade() {
    let builder: AgentBuilder<EventFilter> =
        Agent::core_agent(settings(), sandbox(), "session".into(), PermissionMode::Default);
    let plan = builder
        .config(settings())
        .bypass_permissions()
        .build(environment());
    let tools = names(plan.tools);
    assert!(tools.contains(&"Read"));
    assert!(tools.contains(&"Grep"));
    assert!(tools.contains(&"Glob"));
    assert!(tools.contains(&"Bash"));
    assert!(tools.contains(&"Write"));
    assert!(tools.contains(&"Edit"));
    assert!(!tools.contains(&"Task"));
    assert!(!tools.contains(&"TodoWrite"));
}

#[test]
fn test_agent_builder_defaults() {
    let plan = builder().without_mcp().build(environment());
    assert_eq!(plan.mcp, McpAttach::Skip);
    let agent = Agent::new();
    assert_eq!(agent.current_session_mode(), "default");
    assert!(!agent.is_plan_mode_active());
}

#[test]
fn defaults_come_from_the_configuration() {
    let plan = builder().build(environment());
    assert!(plan.include_workspace);
    assert_eq!(plan.mcp, McpAttach::Auto);
    assert!(!plan.hooks.is_empty());
    assert_eq!(plan.context.water().context_window_tokens, 128_000);
    assert!(matches!(plan.session_store, SessionStorePlan::File));
    assert_eq!(plan.session_id, "session");
    assert!(!plan.given.client);
    let gate = plan.permission.unwrap();
    assert!(!gate.auto_allow_bash());
    assert!(!gate.deny_git_push());
    assert_eq!(gate.evaluate("Edit", "{}"), PolicyDecision::Deny);
    assert_eq!(gate.evaluate("Bash", "{}"), PolicyDecision::Ask);
    assert!(names(plan.tools).contains(&"Task"));
}

#[test]
fn overrides_beat_the_configuration() {
    let mut env = environment();
    env.external_session_id = Some("found".into());
    env.cellz_url = Some("http://cellz".into());
    env.cloud_run = true;
    let plan = builder()
        .sandbox(SandboxSettings {
            workdir: "/other".into(),
            enforced: true,
        })
        .include_workspace_context(false)
        .external_session_id("given".into())
        .deny_git_push(false)
        .load_hooks_from_config(false)
        .permission_mode(PermissionMode::AcceptEdits)
        .session("another".into())
        .build(env);
    assert!(!plan.include_workspace);
    assert!(plan.hooks.is_empty());
    assert_eq!(plan.context.session_id_for("s"), "given");
    assert_eq!(plan.session_id, "another");
    match plan.session_store {
        SessionStorePlan::Remote(url) => assert_eq!(url, "http://cellz"),
        _ => panic!("an address is set"),
    }
    let gate = plan.permission.unwrap();
    assert!(gate.auto_allow_bash());
    assert!(!gate.deny_git_push());
    assert_eq!(gate.mode(), PermissionMode::AcceptEdits);
}

#[test]
fn given_parts_are_taken() {
    let mut env = environment();
    env.external_session_id = Some("found".into());
    env.cellz_url = Some("".into());
    env.hooks = None;
    let mut engine = ContextEngine::new(7);
    engine.bump_epoch("x", 1);
    let plan = builder()
        .tools()
        .mcp()
        .context_engine(engine)
        .hooks(HookRunner::new(vec![]))
        .extension_hook(EventFilter { events: None })
        .extension_hooks(vec![EventFilter { events: None }])
        .client()
        .permission()
        .plan_mode()
        .plan_approval()
        .todos()
        .ask_user()
        .background_tasks()
        .record_writer()
        .model_executor()
        .approval_broker()
        .build(env);
    assert!(plan.tools.is_none());
    assert_eq!(plan.mcp, McpAttach::Inject);
    assert_eq!(plan.context.epoch(), 1);
    assert_eq!(plan.context.session_id_for("s"), "found");
    assert!(!plan.hooks.is_empty());
    assert!(plan.permission.is_none());
    assert!(matches!(plan.session_store, SessionStorePlan::File));
    assert!(plan.given.client && plan.given.todos && plan.given.approval_broker);
    assert!(!plan.given.session_store);
    let plan = builder().session_store().mcp().mcp_auto().build(environment());
    assert!(matches!(plan.session_store, SessionStorePlan::Given));
    assert_eq!(plan.mcp, McpAttach::Auto);
}

#[test]
fn mcp_tools_join_a_replaced_registry_only_on_request() {
    let plan = builder().tools().build(environment());
    assert!(plan.tools.is_none());
    assert_eq!(plan.mcp, McpAttach::Auto);
    assert!(!plan.merge_mcp_tools);
    assert_eq!(mcp_connected(plan.merge_mcp_tools, 3, false), (false, true));
    assert!(builder().tools().mcp_auto().build(environment()).merge_mcp_tools);
    assert!(builder().mcp_auto().tools().build(environment()).merge_mcp_tools);
    assert!(!builder().mcp_auto().without_mcp().tools().build(environment()).merge_mcp_tools);
    assert!(builder().build(environment()).merge_mcp_tools);
    assert!(!builder().mcp().build(environment()).merge_mcp_tools);
    assert!(!builder().without_mcp().build(environment()).merge_mcp_tools);
}

#[test]
fn configured_hooks_join_given_ones_only_on_request() {
    let given = builder().hooks(HookRunner::new(vec![]));
    assert!(given.build(environment()).hooks.is_empty());
    let both = builder().hooks(HookRunner::new(vec![])).load_hooks_from_config(true);
    assert!(!both.build(environment()).hooks.is_empty());
    let later = builder().load_hooks_from_config(true).hooks(HookRunner::new(vec![]));
    assert!(later.build(environment()).hooks.is_empty());
    let mut env = environment();
    env.hooks = None;
    let unread = builder().hooks(HookRunner::new(vec![])).load_hooks_from_config(true);
    assert!(unread.build(env).hooks.is_empty());
}

#[test]
fn toolsets_can_be_chosen_later() {
    assert_eq!(names(builder().core_tools().build(environment()).tools).len(), 6);
    assert_eq!(names(builder().minimal_tools().build(environment()).tools).len(), 3);
}

#[test]
fn unknown_rule_actions_are_left_out() {
    let rules = permission_rules_from_config(&settings());
    assert_eq!(rules.len(), 2);
    assert_eq!(rules[0].pattern, "Edit");
    assert_eq!(rules[0].action, RuleAction::Deny);
    assert_eq!(rules[1].action, RuleAction::Ask);
    let specs = hook_specs_from_entries(&vec![HookEntry {
        event: "e".into(),
        command: "c".into(),
    }]);
    assert_eq!((specs[0].event.as_str(), specs[0].command.as_str()), ("e", "c"));
}

#[test]
fn replaced_gates_are_linked_to_the_sandbox() {
    let mut gate = PermissionGate::new(PermissionMode::BypassPermissions, false);
    let sandbox = SandboxSettings {
        workdir: "/w".into(),
        enforced: true,
    };
    set_permission_gate(&mut gate, &settings(), &sandbox);
    assert!(gate.auto_allow_bash());
    assert_eq!(gate.evaluate("Edit", "{}"), PolicyDecision::Deny);
    assert_eq!(gate.mode(), PermissionMode::BypassPermissions);
}

#[test]
fn memory_follows_the_system_message() {
    let system = Message::system("base");
    assert_eq!(
        memory_prefix(false, Some(&system), Some("notes".into())).as_deref(),
        Some("base\n\nnotes")
    );
    assert_eq!(memory_prefix(true, Some(&system), Some("notes".into())), None);
    assert_eq!(memory_prefix(false, Some(&system), None), None);
    assert_eq!(memory_prefix(false, None, Some("notes".into())), None);
    let user = Message::user("u");
    assert_eq!(memory_prefix(false, Some(&user), Some("notes".into())), None);
    assert_eq!(mcp_connected(true, 0, true), (false, false));
    assert_eq!(mcp_connected(true, 2, false), (true, true));
    assert_eq!(mcp_connected(false, 2, false), (false, true));
}

#[test]
fn session_modes_have_aliases() {
    let mut agent = Agent::new();
    let change = agent.set_session_mode("architect").unwrap();
    assert_eq!(change.mode_id, "plan");
    assert!(change.changed);
    assert!(agent.is_plan_mode_active());
    assert!(!agent.set_session_mode("plan").unwrap().changed);
    assert_eq!(
        agent.set_session_mode("turbo").unwrap_err(),
        "unknown session mode: turbo"
    );
    assert_eq!(agent.current_session_mode(), "plan");
    assert!(!agent.is_tool_allowed(false));
    assert!(agent.is_tool_allowed(true));
    for alias in ["agent", "code", "ask", "default"] {
        assert_eq!(agent.set_session_mode(alias).unwrap().mode_id, "default");
    }
    assert!(agent.is_tool_allowed(false));
    assert!(agent.enter_plan_mode());
    assert!(agent.leave_plan_mode());
    assert!(!agent.leave_plan_mode());
}

#[test]
fn messages_are_queued_for_a_running_turn_only() {
    let mut agent = Agent::new();
    let refused = "no turn in progress; use prompt() to start a new turn";
    assert_eq!(agent.steer("x").unwrap_err(), refused);
    assert_eq!(agent.follow_up("x").unwrap_err(), refused);
    agent.begin_turn().unwrap();
    assert!(matches!(agent.begin_turn(), Err(TurnError::AgentBusy)));
    assert!(agent.is_turn_active());
    assert_eq!(
        agent.queue_steer("  ").unwrap_err(),
        "steer message cannot be empty"
    );
    assert_eq!(
        agent.follow_up("").unwrap_err(),
        "follow-up message cannot be empty"
    );
    agent.queue_steer(" a ").unwrap();
    agent.follow_up("b").unwrap();
    agent.follow_up(" c").unwrap();
    assert_eq!(agent.pending_steer_count(), 1);
    assert_eq!(agent.inject_pending_follow_up(), ["b"]);
    agent.set_follow_up_mode(QueueMode::All);
    agent.follow_up("d").unwrap();
    assert_eq!(agent.inject_pending_follow_up(), ["c", "d"]);
    assert!(agent.inject_pending_follow_up().is_empty());
    agent.set_steering_mode(QueueMode::All);
    agent.clear_queues();
    assert_eq!(agent.pending_steer_count(), 0);
    assert_eq!(agent.pending_follow_up_count(), 0);
    let (turn, step) = agent.tool_scope();
    assert_eq!(turn.unwrap().len(), 36);
    assert!(step.is_none());
    agent.end_turn();
    assert_eq!(agent.tool_scope(), (None, None));
}

#[test]
fn agent_flags() {
    let mut agent = Agent::new();
    assert!(!agent.runtime_approval_waiters());
    agent.enable_runtime_approval_waiters();
    assert!(agent.runtime_approval_waiters());
    agent.set_resume_existing_turn(true);
    assert_eq!(
        rewind_target(None, None).unwrap_err(),
        "no compaction checkpoint available to rewind"
    );
    assert_eq!(rewind_target(None, Some("l".into())).unwrap(), "l");
    assert_eq!(
        rewind_target(Some("i".into()), Some("l".into())).unwrap(),
        "i"
    );
}

#[test]
fn switching_models_routes_the_connection() {
    let mut model = ModelSettings {
        provider: "openai".into(),
        model: "a".into(),
        base_url: "http://o".into(),
        anthropic_base_url: None,
        api_key: None,
        anthropic_api_key: None,
    };
    model.switch_model("b", None, Some("http://p".into()), Some("k".into()));
    assert_eq!(model.model, "b");
    assert_eq!(model.base_url, "http://p");
    assert_eq!(model.api_key.as_deref(), Some("k"));
    assert!(model.anthropic_base_url.is_none());
    model.switch_model(
        "c",
        Some(" Anthropic ".into()),
        Some("http://q".into()),
        Some("l".into()),
    );
    assert!(names_anthropic("anthropic"));
    assert!(!names_anthropic("Anthropic"));
    assert_eq!(model.provider, " Anthropic ");
    assert_eq!(model.base_url, "http://p");
    assert_eq!(model.anthropic_base_url.as_deref(), Some("http://q"));
    assert_eq!(model.anthropic_api_key.as_deref(), Some("l"));
    assert_eq!(model.api_key.as_deref(), Some("k"));
}

fn explain() -> ProjectionExplain {
    ProjectionExplain {
        source_message_count: 3,
        projected_message_count: 2,
        source_event_count: 9,
        active_event_count: 8,
        cache_drift_detected: false,
        used_materialized_fallback: false,
        fallback_reason: None,
        active_branch_id: Some("main".into()),
        active_path_start_sequence: Some(4),
        injected: vec!["a".into(), "b".into()],
        retained_message_count: 2,
        retained_turn_count: 1,
        dropped_event_count: 1,
        truncated_message_count: 0,
        compaction_event_ids: vec![],
        tool_output_provenance: vec![],
        retained_turn_ids: vec![],
        injected_sources: vec![],
        delivery: ContextDelivery::Full,
        delivery_tail_start: None,
        estimate_tokens: 77,
        context_epoch: 0,
        prefix_cache: PrefixCacheExplain {
            prefix_end: 1,
            body_end: 2,
            tail_decoration_count: 0,
            prefix_fingerprint: None,
            break_kind: "none".into(),
            cached_tokens: Some(5),
            gateway_hit_tokens: None,
            anchor_aligned: None,
            unchanged_reprocessed_est: None,
        },
    }
}

#[test]
fn context_reports_are_exact() {
    let mut engine = ContextEngine::new(0);
    let facts = ReportFacts {
        usage_percent: 12,
        effective_tokens: 34,
        threshold_percent: 80,
        threshold_tokens: 100,
        message_count: 3,
        model: "m".into(),
        delivery: "full".into(),
        full_delivery: "full".into(),
        delta_delivery: "delta".into(),
        memory_root: None,
    };
    let report = context_report(&facts, &engine, &explain());
    let lines: Vec<&str> = report.lines().collect();
    assert_eq!(
        lines,
        [
            "context: 12% (34 / 1 tokens)",
            "auto-compact at 80% (100 tokens)",
            "sources: usage=- estimate=-",
            "messages: 3",
            "model: m",
            "context_epoch: 0",
            "delivery: full (gateway_prefix_len=0)",
            "projection: source_messages=3 projected_messages=2 source_events=9 active_events=8",
            "projection_path: branch=main start_sequence=4",
            "projection_fallback: used=false reason=- cache_drift=false",
            "projection_decorations: injected=a,b delivery=full tail_start=- estimate_tokens=77",
            "prefix_cache: break=none prefix_end=1 tail=0 cached=5 gateway_hit=- reprocessed_est=-",
            "memory: disabled",
        ]
    );
    engine.set_auto_compact_suppressed(true);
    engine.note_prefire_started();
    engine.restore_water_from_session(9);
    let facts = ReportFacts {
        memory_root: Some("/m".into()),
        ..facts
    };
    let told = fallback_explain(explain(), "gone");
    let report = context_report(&facts, &engine, &told);
    assert!(report.contains("\nsources: usage=9 estimate=9\n"));
    assert!(report
        .contains("\nprojection_fallback: used=true reason=strict_projection_error: gone cache_drift=false\n"));
    assert!(report.ends_with(
        "\nauto-compact: suppressed (last summarize failed; use /compact to retry)\nprefire: pass1 in flight\nmemory: /m (ZENE_MEMORY)"
    ));
    engine.note_prefire_ended(true);
    assert!(context_report(&facts, &engine, &told)
        .contains("prefire: NOTE₁ cached (two-pass ready)"));
}

#[test]
fn checkpoint_projection_preserves_turn_step_and_tool_scope() {
    let turn_id = TurnId::new();
    let step_id = StepId::new();
    let turn_text = turn_id.text();
    let step_text = step_id.text();
    let tool_id = "call-1";
    let checkpoints = execution_checkpoints_from_agent_event(
        &AgentEvent::ToolCall {
            id: tool_id.into(),
            name: "Read".into(),
            arguments: "{}".into(),
        },
        Some(turn_id),
        Some(step_id),
        0,
    );
    assert_eq!(checkpoints.len(), 1);
    let checkpoint = &checkpoints[0];
    assert_eq!(checkpoint.turn_id, turn_text);
    assert_eq!(checkpoint.step_id.as_deref(), Some(step_text.as_str()));
    assert_eq!(checkpoint.tool_call_id.as_deref(), Some(tool_id));
    assert_eq!(checkpoint.state, ExecutionCheckpointState::ToolStarted);
    assert!(checkpoint.idempotency_key.contains(tool_id));
    assert!(checkpoint.idempotency_key.contains(&turn_text));
    assert!(checkpoint.idempotency_key.contains(&step_text));
}

#[test]
fn non_boundary_stream_events_do_not_create_execution_checkpoints() {
    let checkpoints = execution_checkpoints_from_agent_event(
        &AgentEvent::TextDelta { delta: "hi".into() },
        None,
        None,
        0,
    );
    assert!(checkpoints.is_empty());
}

#[test]
fn event_scope_follows_turns_and_steps() {
    let mut scope = EventScope::new();
    let turn_id = TurnId::new();
    let step_id = StepId::new();
    let told = scope.merge_event(&AgentEvent::TurnStart { turn_id }, 1);
    assert!(told.entry.is_none());
    assert_eq!(told.checkpoints.len(), 1);
    assert_eq!(
        told.checkpoints[0].idempotency_key,
        format!("{}/turn/started", turn_id.text())
    );
    scope.merge_event(
        &AgentEvent::StepBegin {
            turn_id,
            step_id,
            step: 1,
        },
        2,
    );
    assert!(scope.step.is_some());
    let call = AgentEvent::ToolCall {
        id: "c".into(),
        name: "Read".into(),
        arguments: "{}".into(),
    };
    let told = scope.merge_event(&call, 3);
    assert!(told.checkpoints.is_empty());
    assert!(matches!(told.entry, Some(RecordEntry::ToolCall { ts: 3, .. })));
    let told = scope.merge_event(
        &AgentEvent::Error {
            message: "x".into(),
        },
        4,
    );
    assert_eq!(
        told.checkpoints[0].idempotency_key,
        format!("error/{}/{}/x", turn_id.text(), step_id.text())
    );
    scope.merge_event(&AgentEvent::TurnEnd { turn_id, steps: 1 }, 5);
    assert!(scope.step.is_none());
    assert!(scope.turn.is_some());
    let orphan = execution_checkpoints_from_agent_event(&call, None, None, 0);
    assert_eq!(
        orphan[0].idempotency_key,
        "tool/unknown/unknown/c/started"
    );
    assert!(record_entry_from_agent_event(
        &AgentEvent::LifecycleEvent {
            event: "e".into(),
            payload: "{}".into()
        },
        0
    )
    .is_none());
}

#[test]
fn prompts_open_and_conclude_in_order() {
    let turn_id = TurnId::new();
    let opening = prompt_opening(turn_id, "hi");
    assert!(matches!(&opening[0], PromptEffect::RecordPrompt { prompt, .. } if prompt == "hi"));
    assert!(matches!(opening[3], PromptEffect::RunBeforeStartHooks));
    let blocked = prompt_after_hooks(turn_id, Some("no".into()));
    assert!(matches!(
        &blocked[3],
        PromptEffect::Return { result: Err(message) } if message == "agent start blocked by hook: no"
    ));
    assert!(matches!(
        prompt_after_hooks(turn_id, None)[1],
        PromptEffect::RunTurn
    ));
    let failed = prompt_conclusion(turn_id, 2, false, Err("boom".into()));
    assert_eq!(failed.len(), 6);
    assert!(matches!(
        failed[2],
        PromptEffect::RecordTurnEnded {
            status: "failed",
            steps: 2,
            ..
        }
    ));
    let aborted = prompt_conclusion(turn_id, 2, false, Err("turn aborted".into()));
    assert_eq!(aborted.len(), 5);
    assert!(matches!(
        aborted[1],
        PromptEffect::RecordTurnEnded {
            status: "cancelled",
            ..
        }
    ));
    let late = prompt_conclusion(turn_id, 2, true, Ok("done".into()));
    assert!(matches!(
        late[1],
        PromptEffect::RecordTurnEnded {
            status: "completed",
            ..
        }
    ));
    assert!(matches!(
        late[2],
        PromptEffect::AppendTerminalCheckpoint {
            state: TerminalState::Cancelled
        }
    ));
    let checkpoint = terminal_checkpoint(turn_id, TerminalState::Completed, 3, 9);
    assert_eq!(
        checkpoint.idempotency_key,
        format!("{}/turn/completed", turn_id.text())
    );
    assert_eq!(checkpoint.context_epoch, Some(3));
}

fn definition(name: &str) -> ToolDefinition {
    ToolDefinition {
        name: name.into(),
        description: String::new(),
        parameters: Json::Null,
    }
}

/// The tools of an agent, and which of them are visible. Under the filter of the plan
/// mode those that change something are hidden.
fn catalog(plan_filter: bool) -> (Vec<ToolDefinition>, Vec<bool>) {
    let names = ["Read", "Write", "Edit", "Bash", "Grep", "Glob"];
    let marks = if plan_filter {
        vec![true, false, false, false, true, true]
    } else {
        vec![true; 6]
    };
    (names.into_iter().map(definition).collect(), marks)
}

#[test]
fn plan_mode_hides_write_tools_from_catalog_defs() {
    let (tools, visible) = catalog(true);
    let active = tool_definitions_for_llm(tools, &visible);
    let names: Vec<_> = active.iter().map(|t| t.name.as_str()).collect();
    assert!(names.contains(&"Read"));
    assert!(!names
        .iter()
        .any(|n| *n == "Write" || *n == "Edit" || *n == "Bash"));
}

#[test]
fn inactive_plan_mode_keeps_write_tools() {
    let (tools, visible) = catalog(false);
    let defs = tool_definitions_for_llm(tools, &visible);
    let names: Vec<_> = defs.iter().map(|t| t.name.as_str()).collect();
    assert!(names.contains(&"Write"));
    assert!(names.contains(&"Bash"));
}

#[test]
fn tool_policy_without_plan_mode_skips_filter_even_when_active_flag_set() {
    let (policy_plan_mode, plan_mode_active) = (false, true);
    let (tools, visible) = catalog(plan_filter(policy_plan_mode, plan_mode_active));
    let defs = tool_definitions_for_llm(tools, &visible);
    assert!(defs.iter().any(|t| t.name == "Write"));
}

#[test]
fn hidden_tools_stay_out_of_the_request() {
    let shown = tool_definitions_for_llm(
        vec![definition("Read"), definition("Write"), definition("Grep")],
        &vec![true, false, true],
    );
    let names: Vec<&str> = shown.iter().map(|d| d.name.as_str()).collect();
    assert_eq!(names, ["Read", "Grep"]);
    assert!(plan_filter(true, true));
    assert!(!plan_filter(false, true));
    assert!(!plan_filter(true, false));
}

#[test]
fn prepared_steps_carry_the_epoch() {
    let engine = ContextEngine::new(10);
    let step = || StepContext {
        messages: vec![Message::user("x")],
        metadata: engine.metadata("s"),
        estimate_tokens: 4,
    };
    let context = prepare_step_context(false, step(), vec![]).unwrap();
    assert_eq!(context.context_epoch, Some(0));
    assert_eq!(context.estimate_tokens, Some(4));
    assert_eq!(context.metadata.unwrap().session_id, "s");
    assert!(matches!(
        prepare_step_context(true, step(), vec![]),
        Err(TurnError::Aborted)
    ));
}

#[test]
fn subagent_prompts_name_the_directory() {
    assert_eq!(
        subagent_system_prompt(SubagentProfile::Explore, "/w"),
        "You are an explore subagent for Zene. Investigate the codebase using read-only tools (Read, Grep, Glob). Report findings concisely. Working directory: `/w`."
    );
    assert_eq!(
        subagent_system_prompt(SubagentProfile::Coder, "/w"),
        "You are a coder subagent for Zene. Read and modify code as requested using the available tools. Working directory: `/w`."
    );
    assert!(matches!(
        resolve_subagent_sandbox(None),
        Ok(SubagentSandbox::Parent)
    ));
    assert!(matches!(
        resolve_subagent_sandbox(Some(("/d".into(), true))),
        Ok(SubagentSandbox::ScopedTo(_))
    ));
    assert_eq!(
        resolve_subagent_sandbox(Some(("/f".into(), false))).unwrap_err(),
        "Task cwd is not a directory: /f"
    );
    assert_eq!(parent_depth(None), 0);
    assert_eq!(parent_depth(Some(2)), 2);
}

#[test]
fn subagent_uses_shared_turn_engine_step_budget() {
    let mut turn = SubagentTurn::new(SubagentProfile::Explore, "/w", false);
    let mut scripted = vec![Message::assistant_with_tools(
        None,
        vec![ToolCall {
            id: "call_glob".into(),
            name: "Glob".into(),
            arguments: r#"{"pattern":"**/*.rs"}"#.into(),
        }],
    )];
    let mut active = None;
    let mut engine = TurnEngine::new();
    let mut action = TurnAction::PrepareTurn;
    let outcome = loop {
        let event = match action {
            TurnAction::PrepareTurn => {
                active = Some(turn.prepare_turn("Inspect Rust files"));
                TurnEvent::Prepared { max_steps: 1 }
            }
            TurnAction::CheckCancelled => TurnEvent::CancelChecked {
                cancelled: is_cancelled(None),
            },
            TurnAction::BeginStep => {
                active.as_mut().unwrap().next_step_id();
                TurnEvent::StepBegan
            }
            TurnAction::PrepareContext => {
                let context = turn.assemble_context(false, vec![definition("Glob")]).unwrap();
                TurnEvent::ContextReady { context }
            }
            TurnAction::RunModel { context } => {
                assert_eq!(context.messages.len(), 2);
                assert_eq!(
                    context.messages[1].content.as_deref(),
                    Some("Inspect Rust files")
                );
                assert_eq!(context.tools[0].name, "Glob");
                TurnEvent::ModelReplied {
                    step: step_result(scripted.remove(0), None),
                }
            }
            TurnAction::PushAssistant { message } => {
                turn.push_assistant(message);
                TurnEvent::AssistantPushed
            }
            TurnAction::RunTools { calls } => {
                assert_eq!(calls[0].name, "Glob");
                turn.push_assistant(Message::tool_result("call_glob", "Glob", "src/lib.rs"));
                TurnEvent::ToolsRan {
                    outcome: ToolBatchOutcome::Continue,
                }
            }
            TurnAction::InjectSteer => TurnEvent::SteerInjected {
                injected: turn.inject_steer(),
            },
            TurnAction::CloseIncomplete {
                max_steps,
                mut final_text,
            } => {
                turn.on_incomplete_turn(max_steps, &mut final_text);
                TurnEvent::IncompleteClosed { final_text }
            }
            TurnAction::ReadSteps => TurnEvent::StepsRead {
                active: active.as_ref().map(|turn| turn.step),
            },
            TurnAction::FinishTurn => TurnEvent::Finished,
            TurnAction::Done { outcome } => break outcome,
            _ => panic!("incomplete subagent should return a notice"),
        };
        action = engine.advance(event);
    };
    assert!(outcome.final_text.contains("Reached max_turns (1)"));
    assert_eq!(outcome.status, TurnStatus::Incomplete);
    assert_eq!(outcome.steps, 1);
    let context = turn.assemble_context(false, vec![]).unwrap();
    assert_eq!(context.messages.len(), 5);
}

#[test]
fn subagent_conversations_keep_what_was_said() {
    let mut turn = SubagentTurn::new(SubagentProfile::Explore, "/w", false);
    turn.prepare_turn("Inspect Rust files");
    assert!(!turn.inject_steer());
    let mut text = String::new();
    turn.on_incomplete_turn(1, &mut text);
    assert!(text.contains("Reached max_turns (1)"));
    let mut said = "so far".to_string();
    turn.on_incomplete_turn(2, &mut said);
    assert!(said.starts_with("so far\n\n[notice] Reached max_turns (2)"));
    let context = turn.assemble_context(false, vec![definition("Glob")]).unwrap();
    let roles: Vec<Role> = context.messages.iter().map(|m| m.role).collect();
    assert_eq!(
        roles,
        [Role::System, Role::User, Role::Assistant, Role::Assistant]
    );
    assert_eq!(context.tools.len(), 1);
    assert!(context.context_epoch.is_none());
    assert!(matches!(
        turn.assemble_context(true, vec![]),
        Err(TurnError::Aborted)
    ));
    turn.compacted(vec![Message::user("u"), Message::system("s")]);
    let context = turn.assemble_context(false, vec![]).unwrap();
    assert_eq!(context.messages[0].content.as_deref(), Some("s"));
}

#[test]
fn one_system_message_leads_a_compacted_conversation() {
    let mut messages = vec![
        Message::user("a"),
        Message::system("s1"),
        Message::user("b"),
        Message::system("s2"),
    ];
    ensure_subagent_system_message(&mut messages);
    let texts: Vec<&str> = messages
        .iter()
        .map(|m| m.content.as_deref().unwrap())
        .collect();
    assert_eq!(texts, ["s1", "a", "b"]);
    let mut led = vec![Message::system("s1"), Message::system("s2")];
    ensure_subagent_system_message(&mut led);
    assert_eq!(led.len(), 2);
    let mut none = vec![Message::user("a")];
    ensure_subagent_system_message(&mut none);
    assert_eq!(none.len(), 1);
}

#[test]
fn subagent_requests_do_not_stream() {
    let context = PreparedContext {
        messages: vec![Message::user("x")],
        ..PreparedContext::default()
    };
    let request = subagent_request("m", context, Some("high".into()));
    assert!(!request.stream);
    assert!(request.context.is_none());
    assert_eq!(request.reasoning_effort.as_deref(), Some("high"));
    assert!(!step_result(Message::assistant("x"), None).had_tool_calls);
    assert!(!step_result(Message::assistant_with_tools(None, vec![]), None).had_tool_calls);
}
