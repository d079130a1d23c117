use zene::acp_loop::{ServerAction, ServerEvent};
use zene::acp_server::{
    dispatch, dispatch_error_code, dispatch_reply, invalid_cwd, prompt_reply, queue_mode_param,
    requested_cwd, response_id_text, response_outcome, session_param, text_param,
    tool_names_param, AcpError, AcpMethod, AcpServer, ConfigStep, ErrorCode, PromptOutcome,
    PromptStep, QueuedPrompt,
};
use zene::acp_updates::{
    approval_decision, approval_tool_call_id, ask_tool_call_id, ask_user_request, attach_meta,
    handle_incoming, permission_request, project_runtime_event, prompt_answer,
    read_ask_user_answer, read_permission_choice, recovery_info_metadata, replayed_update,
    session_answer, session_list_answer, AskUserOption, Incoming, MessageClass, RuntimeEvent,
    RuntimeEventKind, SessionListing, SessionUpdate,
};
use zene::actor::{ApprovalDecision, RuntimeRecoveryInfo};
use zene::json::Json;
use zene::llm::TokenUsage;
use zene::permission::{PermissionMode, PromptChoice};
use zene::turn_state::{QueueMode, TurnId};

fn object(members: Vec<(&str, Json)>) -> Json {
    Json::Object(
        members
            .into_iter()
            .map(|(key, value)| (key.to_string(), value))
            .collect(),
    )
}

fn string(value: &str) -> Json {
    Json::Str(value.to_string())
}

fn recovery() -> RuntimeRecoveryInfo {
    RuntimeRecoveryInfo {
        disposition: "clean".into(),
        has_incomplete_execution: false,
        active_turn_count: 0,
        active_tool_count: 0,
        safe_resume_allowed: false,
        automatic_resume: false,
        reason: "no incomplete execution".into(),
    }
}

fn server() -> AcpServer {
    let mut server = AcpServer::new(false);
    server.insert_session("s1", PermissionMode::Default);
    server.insert_session("s2", PermissionMode::Yolo);
    server
}

fn params(session: &str) -> Json {
    object(vec![("sessionId", string(session))])
}

#[test]
fn recovery_metadata_declares_no_automatic_resume() {
    let metadata = recovery_info_metadata(&recovery());
    assert_eq!(metadata.get_str("disposition").as_deref(), Some("clean"));
    assert_eq!(
        metadata.get("hasIncompleteExecution").unwrap().as_bool(),
        Some(false)
    );
    assert_eq!(
        metadata.get("automaticResume").unwrap().as_bool(),
        Some(false)
    );
}

#[test]
fn approval_decision_maps_permission_choice() {
    assert_eq!(
        approval_decision(PromptChoice::AllowOnce),
        ApprovalDecision::AllowOnce
    );
    assert_eq!(
        approval_decision(PromptChoice::AllowSession),
        ApprovalDecision::AllowSession
    );
    assert_eq!(approval_decision(PromptChoice::Deny), ApprovalDecision::Deny);
}

#[test]
fn methods_are_dispatched_by_name() {
    assert_eq!(dispatch("initialize").unwrap(), AcpMethod::Initialize);
    assert_eq!(
        dispatch("session/set_follow_up_mode").unwrap(),
        AcpMethod::SetFollowUpMode
    );
    let unknown = dispatch("session/fly").unwrap_err();
    assert_eq!(unknown.message(), "method not found: session/fly");
    assert_eq!(dispatch_error_code(&unknown), ErrorCode::MethodNotFound);
    let prompt = dispatch("session/prompt").unwrap_err();
    assert_eq!(dispatch_error_code(&prompt), ErrorCode::ApplicationError);
}

#[test]
fn errors_have_codes_and_reports() {
    for text in [
        "sessionId required",
        "empty prompt",
        "invalid cwd: x",
        "unsupported protocolVersion 2",
        "unknown sessionId: s",
        "unknown session mode: x",
        "session already has an active prompt",
    ] {
        assert_eq!(
            dispatch_error_code(&AcpError::failed(text)),
            ErrorCode::InvalidParams
        );
    }
    assert_eq!(
        dispatch_error_code(&AcpError::failed("method not found: x")),
        ErrorCode::MethodNotFound
    );
    let wrapped = AcpError::Wrapped {
        context: "load session".into(),
        cause: "id required".into(),
    };
    assert_eq!(dispatch_error_code(&wrapped), ErrorCode::ApplicationError);
    let (code, text) = dispatch_reply(Err(wrapped)).unwrap_err();
    assert_eq!(code, ErrorCode::ApplicationError);
    assert_eq!(text, "load session: id required");
    assert!(dispatch_reply(Ok(Json::Null)).is_ok());
}

#[test]
fn prompts_are_answered_whatever_happens() {
    assert!(prompt_reply(PromptOutcome::Answered(Json::Null)).is_ok());
    let (code, text) = prompt_reply(PromptOutcome::Dropped).unwrap_err();
    assert_eq!(code, ErrorCode::ApplicationError);
    assert_eq!(text, "prompt worker dropped");
    let (code, _) =
        prompt_reply(PromptOutcome::Failed(AcpError::failed("empty prompt"))).unwrap_err();
    assert_eq!(code, ErrorCode::InvalidParams);
    let answer = prompt_answer(Ok("done".into())).unwrap();
    assert_eq!(answer.get_str("stopReason").unwrap(), "end_turn");
    let answer = prompt_answer(Err("turn cancelled".into())).unwrap();
    assert_eq!(answer.get_str("stopReason").unwrap(), "cancelled");
    let answer = prompt_answer(Err("turn aborted".into())).unwrap();
    assert_eq!(answer.get_str("stopReason").unwrap(), "cancelled");
    assert_eq!(prompt_answer(Err("boom".into())).unwrap_err(), "boom");
}

#[test]
fn initialize_reads_capabilities() {
    let mut server = AcpServer::new(true);
    let asked = object(vec![
        ("protocolVersion", Json::Uint(1)),
        (
            "clientCapabilities",
            object(vec![
                ("fs", object(vec![("readTextFile", Json::Bool(true))])),
                ("terminal", Json::Bool(true)),
            ]),
        ),
    ]);
    let answer = server.initialize(&asked, "0.1").unwrap();
    assert_eq!(answer.get("protocolVersion").unwrap().as_u64(), Some(1));
    assert_eq!(
        answer.get("agentInfo").unwrap().get_str("version").unwrap(),
        "0.1"
    );
    let caps = server.client_capabilities();
    assert!(caps.fs_read && !caps.fs_write && caps.terminal);
    let plan = server.session_plan(PermissionMode::DontAsk, true);
    assert_eq!(plan.permission_mode, PermissionMode::BypassPermissions);
    assert!(plan.remote_fs && plan.remote_terminal && !plan.remote_fs_write);
    assert!(!plan.ask_approvals && plan.automatic_recovery);
    let wrong = object(vec![("protocolVersion", Json::Uint(2))]);
    assert_eq!(
        server.initialize(&wrong, "0.1").unwrap_err().message(),
        "unsupported protocolVersion 2; zene acp speaks 1"
    );
    assert!(server.client_capabilities().fs_read);
}

#[test]
fn requests_name_open_sessions() {
    let mut server = server();
    assert_eq!(server.open_session(&params("s1")).unwrap(), "s1");
    assert_eq!(
        server.open_session(&Json::Null).unwrap_err().message(),
        "sessionId required"
    );
    assert_eq!(
        server.open_session(&params("s9")).unwrap_err().message(),
        "unknown sessionId: s9"
    );
    assert_eq!(server.permission_mode("s1").unwrap(), "default");
    assert_eq!(server.permission_mode("s2").unwrap(), "bypass");
    assert_eq!(server.handle_session_close(&params("s1")).unwrap(), "s1");
    assert!(server.handle_session_close(&params("s1")).is_err());
    assert_eq!(server.permission_mode("s1"), None);
    assert!(server.open_session(&params("s2")).is_ok());
}

#[test]
fn session_requests_are_read() {
    let server = server();
    let mode = object(vec![("sessionId", string("s1")), ("modeId", string("plan"))]);
    assert_eq!(
        server.handle_session_set_mode(&mode).unwrap(),
        ("s1".to_string(), "plan".to_string())
    );
    assert_eq!(
        server
            .handle_session_set_mode(&params("s1"))
            .unwrap_err()
            .message(),
        "modeId required"
    );
    let tools = object(vec![
        ("sessionId", string("s1")),
        ("tools", Json::Array(vec![string("Read")])),
    ]);
    assert_eq!(
        server.handle_session_tool_activation(&tools).unwrap().1,
        ["Read"]
    );
    assert_eq!(
        server
            .handle_session_tool_activation(&params("s1"))
            .unwrap_err()
            .message(),
        "toolNames array required"
    );
    let text = object(vec![("sessionId", string("s1")), ("text", string(" "))]);
    assert_eq!(
        server.handle_session_text(&text, "block".into()).unwrap().1,
        "block"
    );
    assert_eq!(
        server
            .handle_session_text(&text, "".into())
            .unwrap_err()
            .message(),
        "text required"
    );
    let queue = object(vec![("sessionId", string("s1")), ("mode", string("all"))]);
    assert_eq!(
        server.handle_set_queue_mode(&queue).unwrap().1,
        QueueMode::All
    );
}

#[test]
fn parameters_are_checked() {
    assert_eq!(
        queue_mode_param(&object(vec![("mode", string("one-at-a-time"))])).unwrap(),
        QueueMode::OneAtATime
    );
    assert_eq!(
        queue_mode_param(&Json::Null).unwrap_err().message(),
        "mode must be one-at-a-time or all"
    );
    let mixed = object(vec![(
        "toolNames",
        Json::Array(vec![string("Read"), Json::Null]),
    )]);
    assert_eq!(
        tool_names_param(&mixed).unwrap_err().message(),
        "toolNames must contain strings"
    );
    assert_eq!(
        session_param(&Json::Null).unwrap_err().message(),
        "sessionId required"
    );
    assert_eq!(
        text_param(&object(vec![("text", string("a"))]), "b".into()).unwrap(),
        "a"
    );
    assert_eq!(
        requested_cwd(&object(vec![("cwd", string("/c"))]), "/w"),
        "/c"
    );
    assert_eq!(requested_cwd(&Json::Null, "/w"), "/w");
    assert_eq!(invalid_cwd("/x").message(), "invalid cwd: /x");
}

#[test]
fn configuration_options_change_sessions() {
    let mut server = server();
    let option = |key: &str, value: Json| {
        object(vec![
            ("sessionId", string("s1")),
            ("key", string(key)),
            ("value", value),
        ])
    };
    let (step, answer) = server
        .handle_session_set_config_option(&option("mode", string("plan")))
        .unwrap();
    assert!(matches!(step, ConfigStep::SetMode { mode_id, .. } if mode_id == "plan"));
    assert_eq!(answer.get_str("key").unwrap(), "mode");
    let (step, _) = server
        .handle_session_set_config_option(&option("permissionMode", string("dont_ask")))
        .unwrap();
    assert!(matches!(step, ConfigStep::PermissionMode));
    assert_eq!(server.permission_mode("s1").unwrap(), "dont_ask");
    let (step, _) = server
        .handle_session_set_config_option(&option("theme", Json::Uint(3)))
        .unwrap();
    assert!(matches!(step, ConfigStep::Ignored));
    assert_eq!(
        server
            .handle_session_set_config_option(&option("mode", Json::Null))
            .unwrap_err()
            .message(),
        "mode must be a string"
    );
    assert_eq!(
        server
            .handle_session_set_config_option(&option("permission_mode", Json::Null))
            .unwrap_err()
            .message(),
        "permission_mode must be a string"
    );
    assert_eq!(
        server
            .handle_session_set_config_option(&params("s1"))
            .unwrap_err()
            .message(),
        "config key or name required"
    );
    let keyed = object(vec![("sessionId", string("s1")), ("name", string("mode"))]);
    assert_eq!(
        server
            .handle_session_set_config_option(&keyed)
            .unwrap_err()
            .message(),
        "config value required"
    );
}

#[test]
fn prompts_start_only_in_idle_sessions() {
    let mut server = server();
    let step = server
        .enqueue_or_start_prompt(&Json::Uint(7), &params("s1"), "hi".into())
        .unwrap();
    assert!(matches!(
        step,
        PromptStep::Start { session_id, text } if session_id == "s1" && text == "hi"
    ));
    assert!(server.has_active());
    assert_eq!(
        server
            .enqueue_or_start_prompt(&Json::Uint(8), &params("s1"), "x".into())
            .unwrap_err()
            .message(),
        "streamingBehavior is required when session is busy"
    );
    let with = |behavior: &str| {
        object(vec![
            ("sessionId", string("s1")),
            ("streamingBehavior", string(behavior)),
        ])
    };
    assert!(matches!(
        server
            .enqueue_or_start_prompt(&Json::Uint(8), &with("steer"), "x".into())
            .unwrap(),
        PromptStep::Steer { .. }
    ));
    assert!(matches!(
        server
            .enqueue_or_start_prompt(&Json::Uint(8), &with("followUp"), "x".into())
            .unwrap(),
        PromptStep::FollowUp { .. }
    ));
    assert_eq!(
        server
            .enqueue_or_start_prompt(&Json::Uint(8), &with("shout"), "x".into())
            .unwrap_err()
            .message(),
        "unsupported streamingBehavior: shout"
    );
    assert_eq!(
        server
            .enqueue_or_start_prompt(&Json::Uint(8), &params("s2"), " ".into())
            .unwrap_err()
            .message(),
        "empty prompt"
    );
    let done = server.prompt_finished().unwrap();
    assert_eq!(done.session_id, "s1");
    assert_eq!(done.rpc_id.as_u64(), Some(7));
    assert!(!server.has_active());
    assert!(server.prompt_finished().is_none());
    assert!(matches!(
        server
            .enqueue_or_start_prompt(&Json::Uint(9), &params("s1"), "again".into())
            .unwrap(),
        PromptStep::Start { .. }
    ));
}

fn waiting(id: u64, text: &str) -> QueuedPrompt {
    QueuedPrompt {
        rpc_id: Json::Uint(id),
        text: text.into(),
    }
}

#[test]
fn queued_prompts_are_rejected_or_started_in_order() {
    let mut server = server();
    assert!(server.queue_prompt("s1", waiting(1, " ")));
    assert!(server.queue_prompt("s1", waiting(2, "go")));
    assert!(server.queue_prompt("s1", waiting(3, "then")));
    assert!(!server.queue_prompt("s9", waiting(4, "x")));
    let step = server.maybe_start_queued_prompt("s1");
    assert_eq!(step.rejected.len(), 1);
    assert_eq!(step.rejected[0].as_u64(), Some(1));
    assert_eq!(step.start.as_deref(), Some("go"));
    assert!(server.has_active());
    let answer = server.handle_session_clear_queue(&params("s1")).unwrap();
    assert_eq!(answer.get("clearedCount").unwrap().as_u64(), Some(1));
    assert!(matches!(
        answer.get("cleared"),
        Some(Json::Array(ids)) if ids[0].as_u64() == Some(3)
    ));
    let step = server.maybe_start_queued_prompt("s2");
    assert!(step.rejected.is_empty() && step.start.is_none());
    assert!(server.queue_prompt("s2", waiting(5, "x")));
    assert!(server.cancel_session("s2"));
    assert!(!server.cancel_session("s9"));
    assert!(server.maybe_start_queued_prompt("s2").start.is_none());
}

#[test]
fn servers_run_until_input_and_prompt_are_over() {
    let mut server = server();
    assert!(server.is_running() && server.input_open());
    server
        .enqueue_or_start_prompt(&Json::Uint(1), &params("s1"), "hi".into())
        .unwrap();
    server.set_pending_tool("s1", Some("call".into()));
    assert_eq!(server.input_closed().as_deref(), Some("s1"));
    assert!(server.is_running() && !server.input_open());
    server.prompt_finished();
    assert!(!server.is_running());
    assert_eq!(server.input_closed(), None);
}

#[test]
fn incoming_messages_are_classified() {
    let cancel = object(vec![
        ("method", string("session/cancel")),
        ("params", params("s1")),
    ]);
    assert!(matches!(
        handle_incoming(&cancel, MessageClass::Notification),
        Incoming::Cancel { session_id } if session_id == "s1"
    ));
    assert!(matches!(
        handle_incoming(&cancel, MessageClass::Other),
        Incoming::Ignored
    ));
    let prompt = object(vec![
        ("id", Json::Uint(3)),
        ("method", string("session/prompt")),
    ]);
    assert!(matches!(
        handle_incoming(&prompt, MessageClass::Request),
        Incoming::Prompt { rpc_id: Json::Uint(3), params: Json::Null }
    ));
    let other = object(vec![("id", Json::Uint(3)), ("method", string("x"))]);
    assert!(matches!(
        handle_incoming(&other, MessageClass::Request),
        Incoming::Request { method, .. } if method == "x"
    ));
    assert!(matches!(
        handle_incoming(&other, MessageClass::Notification),
        Incoming::Ignored
    ));
}

#[test]
fn responses_are_matched_by_id() {
    let with_id = |id: Json| object(vec![("id", id)]);
    assert_eq!(response_id_text(&with_id(Json::Uint(7))).unwrap(), "7");
    assert_eq!(response_id_text(&with_id(Json::Int(-7))).unwrap(), "-7");
    assert_eq!(response_id_text(&with_id(string("a"))).unwrap(), "a");
    assert_eq!(response_id_text(&with_id(Json::Null)), None);
    let failed = object(vec![("error", string("e")), ("result", string("r"))]);
    assert_eq!(response_outcome(&failed).unwrap_err().as_str(), Some("e"));
    let done = object(vec![("result", string("r"))]);
    assert_eq!(response_outcome(&done).unwrap().as_str(), Some("r"));
    assert!(matches!(response_outcome(&Json::Null), Ok(Json::Null)));
}

#[test]
fn permission_requests_are_answered() {
    let request = permission_request("s", "default", "Run ls", "execute", "call", "ls", None);
    let call = request.get("toolCall").unwrap();
    assert_eq!(call.get_str("toolCallId").unwrap(), "call");
    assert_eq!(
        call.get("rawInput").unwrap().get_str("preview").unwrap(),
        "ls"
    );
    assert!(matches!(request.get("options"), Some(Json::Array(o)) if o.len() == 3));
    let answer = |id: &str| {
        object(vec![(
            "outcome",
            object(vec![("optionId", string(id))]),
        )])
    };
    assert_eq!(
        read_permission_choice(&answer("allow-always")),
        PromptChoice::AllowSession
    );
    assert_eq!(
        read_permission_choice(&object(vec![("optionId", string("allow-once"))])),
        PromptChoice::AllowOnce
    );
    assert_eq!(
        read_permission_choice(&answer("reject-once")),
        PromptChoice::Deny
    );
    assert_eq!(read_permission_choice(&Json::Null), PromptChoice::Deny);
    assert_eq!(
        approval_tool_call_id(Some("a".into()), Some("b".into())),
        "a"
    );
    assert_eq!(approval_tool_call_id(None, Some("b".into())), "b");
    assert_eq!(approval_tool_call_id(None, None).len(), 36);
}

#[test]
fn users_pick_or_type_answers() {
    let options = vec![
        AskUserOption {
            label: "Red".into(),
            description: Some("warm".into()),
        },
        AskUserOption {
            label: "Blue".into(),
            description: None,
        },
    ];
    let request = ask_user_request("s", "ask_1", "Colour?", &options);
    match request.get("options") {
        Some(Json::Array(entries)) => {
            assert_eq!(entries.len(), 3);
            assert_eq!(entries[1].get_str("optionId").unwrap(), "ask-1");
            assert_eq!(entries[0].get_str("description").unwrap(), "warm");
            assert_eq!(entries[2].get_str("optionId").unwrap(), "free-text");
        }
        _ => panic!("options are listed"),
    }
    let answer = |id: &str| {
        object(vec![(
            "outcome",
            object(vec![("optionId", string(id)), ("answer", string("typed"))]),
        )])
    };
    assert_eq!(read_ask_user_answer(&answer("ask-1"), &options), "Blue");
    assert_eq!(read_ask_user_answer(&answer("ask-7"), &options), "ask-7");
    assert_eq!(read_ask_user_answer(&answer("free-text"), &options), "typed");
    assert_eq!(read_ask_user_answer(&answer("deny"), &options), "");
    assert_eq!(read_ask_user_answer(&Json::Null, &options), "");
    let id = ask_tool_call_id();
    assert!(id.starts_with("ask_"));
    assert_eq!(id.len(), 36);
}

#[test]
fn answers_carry_metadata() {
    let answer = session_answer("s", Json::Null, &recovery());
    assert_eq!(
        answer
            .get("_meta")
            .unwrap()
            .get("recovery")
            .unwrap()
            .get_str("disposition")
            .unwrap(),
        "clean"
    );
    let update = object(vec![
        ("kind", string("x")),
        ("_meta", object(vec![("a", Json::Uint(1))])),
    ]);
    let update = attach_meta(update, object(vec![("a", Json::Uint(2)), ("b", Json::Null)]));
    let meta = update.get("_meta").unwrap();
    assert_eq!(meta.get("a").unwrap().as_u64(), Some(2));
    assert!(matches!(meta.get("b"), Some(Json::Null)));
    let replayed = replayed_update(update);
    assert_eq!(
        replayed
            .get("_meta")
            .unwrap()
            .get("isReplay")
            .unwrap()
            .as_bool(),
        Some(true)
    );
    assert!(replayed.get("_meta").unwrap().get("a").is_none());
    assert!(matches!(replayed_update(Json::Null), Json::Null));
    let listing = session_list_answer(&vec![SessionListing {
        id: "i".into(),
        workdir: "/w".into(),
        title: None,
        updated_at: "now".into(),
    }]);
    match listing.get("sessions") {
        Some(Json::Array(items)) => {
            assert_eq!(items[0].get_str("sessionId").unwrap(), "i");
            assert_eq!(items[0].get_str("cwd").unwrap(), "/w");
            assert!(matches!(items[0].get("title"), Some(Json::Null)));
        }
        _ => panic!("sessions are listed"),
    }
}

#[test]
fn events_become_updates() {
    let event = |kind| RuntimeEvent {
        sequence: 4,
        turn_id: None,
        kind,
    };
    let shown = project_runtime_event(
        &event(RuntimeEventKind::ToolCall {
            id: "c".into(),
            name: "TodoWrite".into(),
            arguments: "{}".into(),
        }),
        "p",
    );
    assert_eq!(shown.pending_tool, Some(Some("c".to_string())));
    assert!(shown.plan.is_some());
    assert_eq!(shown.meta.get_str("eventId").unwrap(), "p-4");
    let shown = project_runtime_event(
        &event(RuntimeEventKind::ToolResult {
            id: "c".into(),
            content: "x".into(),
            is_error: false,
            duration_ms: Some(5),
        }),
        "p",
    );
    assert_eq!(shown.pending_tool, Some(None));
    assert_eq!(shown.meta.get("durationMs").unwrap().as_u64(), Some(5));
    let shown = project_runtime_event(
        &event(RuntimeEventKind::UsageUpdate {
            usage: TokenUsage {
                prompt_tokens: 1,
                completion_tokens: 2,
                cached_tokens: None,
                gateway_hit_tokens: None,
                gateway_anchor_aligned: None,
            },
            context_tokens: 3,
            context_window: 0,
            context_percent: 4,
            context_epoch: 5,
        }),
        "p",
    );
    assert!(matches!(
        shown.update,
        Some(SessionUpdate::Usage {
            context_window: 1,
            context_tokens: 3,
            ..
        })
    ));
    let shown = project_runtime_event(
        &event(RuntimeEventKind::ProjectionReady {
            ready: object(vec![("contextEpoch", Json::Uint(3))]),
        }),
        "p",
    );
    match shown.update {
        Some(SessionUpdate::ProjectionReady { ready }) => {
            assert_eq!(ready.get("contextEpoch").unwrap().as_u64(), Some(3))
        }
        _ => panic!("the projection is told"),
    }
    let shown = project_runtime_event(
        &event(RuntimeEventKind::LifecycleEvent {
            event: "before_agent_start".into(),
            payload: "{\"a\":1}".into(),
        }),
        "p",
    );
    match shown.update {
        Some(SessionUpdate::Lifecycle { event, payload }) => {
            assert_eq!((event.as_str(), payload.as_str()), ("before_agent_start", "{\"a\":1}"))
        }
        _ => panic!("the lifecycle is told"),
    }
    let turn_id = TurnId::new();
    let shown = project_runtime_event(
        &RuntimeEvent {
            sequence: 1,
            turn_id: Some(turn_id),
            kind: RuntimeEventKind::TurnEnded { steps: 2 },
        },
        "p",
    );
    match shown.update {
        Some(SessionUpdate::TurnEnded { steps: 2, turn_id: Some(text) }) => {
            assert_eq!(text, turn_id.text())
        }
        _ => panic!("the end is told"),
    }
    assert!(project_runtime_event(&event(RuntimeEventKind::SteerInput), "p")
        .update
        .is_none());
}

fn request(method: &str, id: u64, params: Json) -> ServerEvent {
    ServerEvent::Message {
        message: object(vec![
            ("id", Json::Uint(id)),
            ("method", string(method)),
            ("params", params),
        ]),
        class: MessageClass::Request,
        prompt_text: "hello".into(),
    }
}

#[test]
fn every_request_leads_to_one_action() {
    let mut server = server();
    let actions = server.advance(request("initialize", 1, Json::Null));
    assert_eq!(actions.len(), 1);
    assert!(matches!(
        &actions[0],
        ServerAction::Handle {
            method: AcpMethod::Initialize,
            ..
        }
    ));
    let actions = server.advance(request("session/fly", 2, Json::Null));
    assert!(matches!(
        &actions[..],
        [ServerAction::Reply { rpc_id: Json::Uint(2), result: Err((ErrorCode::MethodNotFound, text)) }]
            if text == "method not found: session/fly"
    ));
    let actions = server.advance(request("session/prompt", 3, Json::Null));
    assert!(matches!(
        &actions[..],
        [ServerAction::Reply { result: Err((ErrorCode::InvalidParams, text)), .. }]
            if text == "sessionId required"
    ));
    let actions = server.advance(request("session/prompt", 4, params("s1")));
    assert!(matches!(
        &actions[..],
        [ServerAction::RunPrompt { session_id, text }] if session_id == "s1" && text == "hello"
    ));
    let steer = object(vec![
        ("sessionId", string("s1")),
        ("streamingBehavior", string("steer")),
    ]);
    let actions = server.advance(request("session/prompt", 5, steer));
    assert!(matches!(
        &actions[..],
        [ServerAction::Steer { rpc_id: Json::Uint(5), .. }]
    ));
}

#[test]
fn cancelling_the_active_session_cancels_it_again() {
    let mut server = server();
    server.advance(request("session/prompt", 1, params("s1")));
    let cancel = |session: &str| ServerEvent::Message {
        message: object(vec![
            ("method", string("session/cancel")),
            ("params", params(session)),
        ]),
        class: MessageClass::Notification,
        prompt_text: String::new(),
    };
    assert_eq!(server.advance(cancel("s1")).len(), 2);
    assert_eq!(server.advance(cancel("s2")).len(), 1);
    assert!(server.advance(cancel("s9")).is_empty());
}

#[test]
fn ended_prompts_are_answered_before_the_next_starts() {
    let mut server = server();
    server.advance(request("session/prompt", 1, params("s1")));
    assert!(server.queue_prompt("s1", waiting(2, "")));
    assert!(server.queue_prompt("s1", waiting(3, "next")));
    let actions = server.advance(ServerEvent::PromptEnded(PromptOutcome::Answered(Json::Null)));
    assert_eq!(actions.len(), 3);
    assert!(matches!(
        &actions[0],
        ServerAction::Reply { rpc_id: Json::Uint(1), result: Ok(Json::Null) }
    ));
    assert!(matches!(
        &actions[1],
        ServerAction::Reply { rpc_id: Json::Uint(2), result: Err((ErrorCode::InvalidParams, text)) }
            if text == "empty prompt"
    ));
    assert!(matches!(
        &actions[2],
        ServerAction::RunPrompt { text, .. } if text == "next"
    ));
    assert!(server.is_active_in("s1"));
}

#[test]
fn the_loop_ends_when_nothing_is_left() {
    let mut server = server();
    server.advance(request("session/prompt", 1, params("s1")));
    let actions = server.advance(ServerEvent::InputClosed);
    assert!(matches!(&actions[..], [ServerAction::CancelRuntime { .. }]));
    let actions = server.advance(ServerEvent::PromptEnded(PromptOutcome::Dropped));
    assert!(matches!(
        &actions[..],
        [ServerAction::Reply { .. }, ServerAction::Shutdown]
    ));
    let mut idle = AcpServer::new(false);
    assert!(matches!(
        &idle.advance(ServerEvent::InputClosed)[..],
        [ServerAction::Shutdown]
    ));
}
