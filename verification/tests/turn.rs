use zene::llm::{Message, TokenUsage, ToolCall};
use zene::turn_loop::{
    PreparedContext, StepResult, ToolBatchOutcome, TurnAction, TurnEngine, TurnEvent, TurnOutcome,
    TurnPhase, TurnStatus,
};
use zene::turn_state::{
    aborted_error, agent_busy_error, begin_turn, end_turn, fresh_simple_id, is_cancelled,
    max_turns_notice, steer_requires_active_turn, FollowUpBuffer, QueueMode, SessionId, StepId,
    SteerBuffer, ToolCallId, TurnError, TurnId, TurnState,
};

struct FakeRuntime {
    active: Option<TurnState>,
    model_calls: usize,
    tool_outcome: ToolBatchOutcome,
    max_steps: u32,
    steer_calls: usize,
    calls_tools_first: bool,
    seen_user: Option<String>,
    pushed: Vec<Message>,
    tools_run: Vec<String>,
    cancelled: bool,
    follow_ups: usize,
    fail_model: bool,
}

fn runtime(tool_outcome: ToolBatchOutcome, max_steps: u32) -> FakeRuntime {
    FakeRuntime {
        active: None,
        model_calls: 0,
        tool_outcome,
        max_steps,
        steer_calls: 0,
        calls_tools_first: true,
        seen_user: None,
        pushed: Vec::new(),
        tools_run: Vec::new(),
        cancelled: false,
        follow_ups: 0,
        fail_model: false,
    }
}

impl FakeRuntime {
    fn run_model(&mut self, context: PreparedContext) -> StepResult {
        let call = self.model_calls;
        self.model_calls += 1;
        assert_eq!(context.context_epoch, Some(7));
        assert_eq!(context.estimate_tokens, Some(12));
        self.seen_user = context
            .messages
            .first()
            .and_then(|message| message.content.clone());
        if call == 0 && self.calls_tools_first {
            StepResult {
                message: Message::assistant_with_tools(
                    None,
                    vec![ToolCall {
                        id: "call_1".into(),
                        name: "Terminal".into(),
                        arguments: "{}".into(),
                    }],
                ),
                usage: None,
                had_tool_calls: true,
            }
        } else if call == 0 {
            StepResult {
                message: Message::assistant("direct"),
                usage: None,
                had_tool_calls: false,
            }
        } else {
            StepResult {
                message: Message::assistant("final"),
                usage: None,
                had_tool_calls: false,
            }
        }
    }

    fn run(&mut self) -> Result<TurnOutcome, TurnError> {
        let mut engine = TurnEngine::new();
        let mut action = TurnAction::PrepareTurn;
        loop {
            let event = match action {
                TurnAction::PrepareTurn => {
                    self.active = Some(TurnState::begin());
                    TurnEvent::Prepared {
                        max_steps: self.max_steps,
                    }
                }
                TurnAction::CheckCancelled => TurnEvent::CancelChecked {
                    cancelled: self.cancelled,
                },
                TurnAction::BeginStep => {
                    if let Some(turn) = self.active.as_mut() {
                        turn.next_step_id();
                    }
                    TurnEvent::StepBegan
                }
                TurnAction::PrepareContext => {
                    TurnEvent::ContextReady {
                        context: PreparedContext {
                            messages: vec![Message::user("from-assembler")],
                            tools: Vec::new(),
                            context_epoch: Some(7),
                            metadata: None,
                            estimate_tokens: Some(12),
                        },
                    }
                }
                TurnAction::RunModel { context } => {
                    if self.fail_model {
                        TurnEvent::Failed {
                            message: "provider down".into(),
                        }
                    } else {
                        TurnEvent::ModelReplied {
                            step: self.run_model(context),
                        }
                    }
                }
                TurnAction::ReportUsage { .. } => TurnEvent::UsageReported,
                TurnAction::PushAssistant { message } => {
                    self.pushed.push(message);
                    TurnEvent::AssistantPushed
                }
                TurnAction::RunTools { calls } => {
                    self.tools_run
                        .extend(calls.into_iter().map(|call| call.name));
                    TurnEvent::ToolsRan {
                        outcome: self.tool_outcome,
                    }
                }
                TurnAction::InjectSteer => {
                    self.steer_calls += 1;
                    TurnEvent::SteerInjected { injected: false }
                }
                TurnAction::InjectFollowUp => {
                    let injected = self.follow_ups > 0;
                    if injected {
                        self.follow_ups -= 1;
                    }
                    TurnEvent::FollowUpInjected { injected }
                }
                TurnAction::CloseIncomplete { final_text, .. } => {
                    TurnEvent::IncompleteClosed { final_text }
                }
                TurnAction::ReadSteps => TurnEvent::StepsRead {
                    active: self.active.as_ref().map(|turn| turn.step),
                },
                TurnAction::FinishTurn => {
                    self.active = None;
                    TurnEvent::Finished
                }
                TurnAction::Done { outcome } => return Ok(outcome),
                TurnAction::Fail { error } => return Err(error),
            };
            action = engine.advance(event);
        }
    }
}

/// A turn with a budget of one step, whose model is running.
fn at_model() -> TurnEngine {
    let mut engine = TurnEngine::new();
    engine.advance(TurnEvent::Prepared { max_steps: 1 });
    engine.advance(TurnEvent::CancelChecked { cancelled: false });
    engine.advance(TurnEvent::StepBegan);
    engine.advance(TurnEvent::ContextReady {
        context: PreparedContext::default(),
    });
    engine
}

#[test]
fn engine_accepts_direct_ports_without_legacy_runtime() {
    let mut ports = runtime(ToolBatchOutcome::Continue, 4);
    ports.calls_tools_first = false;
    let outcome = ports.run().expect("turn completes");
    assert_eq!(outcome.final_text, "direct");
    assert_eq!(outcome.status, TurnStatus::Completed);
    assert_eq!(outcome.steps, 1);
    assert_eq!(ports.model_calls, 1);
    assert_eq!(ports.seen_user.as_deref(), Some("from-assembler"));
}

#[test]
fn an_answer_calls_tools_only_where_it_names_them() {
    let unnamed = StepResult {
        message: Message::assistant("x"),
        usage: None,
        had_tool_calls: true,
    };
    let mut engine = at_model();
    match engine.advance(TurnEvent::ModelReplied { step: unnamed }) {
        TurnAction::PushAssistant { message } => assert_eq!(message.content.as_deref(), Some("x")),
        _ => panic!("the answer joins the session"),
    }
    assert!(matches!(
        engine.advance(TurnEvent::AssistantPushed),
        TurnAction::InjectSteer
    ));
}

#[test]
fn terminate_tool_batch_skips_follow_up_model_call() {
    let mut runtime = runtime(ToolBatchOutcome::Terminate, 4);
    let result = runtime.run().expect("turn completes").final_text;
    assert_eq!(result, "");
    assert_eq!(runtime.model_calls, 1);
}

#[test]
fn terminate_tool_batch_does_not_drain_pending_steer() {
    let mut runtime = runtime(ToolBatchOutcome::Terminate, 4);
    let outcome = runtime.run().expect("turn completes");
    assert_eq!(outcome.status, TurnStatus::Terminated);
    assert_eq!(runtime.steer_calls, 0);
}

#[test]
fn continue_tool_batch_preserves_follow_up_model_call() {
    let mut runtime = runtime(ToolBatchOutcome::Continue, 4);
    let outcome = runtime.run().expect("turn completes");
    assert_eq!(outcome.final_text, "final");
    assert_eq!(outcome.status, TurnStatus::Completed);
    assert_eq!(outcome.steps, 2);
    assert_eq!(runtime.model_calls, 2);
    assert_eq!(runtime.tools_run, ["Terminal"]);
    assert_eq!(runtime.pushed.len(), 2);
    assert_eq!(runtime.pushed[1].content.as_deref(), Some("final"));
}

#[test]
fn engine_reports_terminated_status() {
    let mut runtime = runtime(ToolBatchOutcome::Terminate, 4);
    let outcome = runtime.run().expect("turn completes");
    assert_eq!(outcome.status, TurnStatus::Terminated);
    assert_eq!(outcome.steps, 1);
}

#[test]
fn engine_reports_incomplete_status_when_step_budget_is_exhausted() {
    let mut runtime = runtime(ToolBatchOutcome::Continue, 1);
    let outcome = runtime.run().expect("turn completes");
    assert_eq!(outcome.status, TurnStatus::Incomplete);
    assert_eq!(outcome.steps, 1);
}

#[test]
fn without_a_budget_follow_ups_go_on() {
    let mut runtime = runtime(ToolBatchOutcome::Continue, 0);
    runtime.follow_ups = 5;
    let outcome = runtime.run().expect("turn completes");
    assert_eq!(outcome.status, TurnStatus::Completed);
    assert_eq!(runtime.model_calls, 7);
    assert_eq!(outcome.steps, 7);
}

#[test]
fn cancellation_aborts_before_the_model_is_called() {
    let mut runtime = runtime(ToolBatchOutcome::Continue, 4);
    runtime.cancelled = true;
    let error = runtime.run().unwrap_err();
    assert!(matches!(error, TurnError::Aborted));
    assert_eq!(error.message(), aborted_error().message());
    assert_eq!(runtime.model_calls, 0);
}

#[test]
fn port_failures_end_the_turn() {
    let mut runtime = runtime(ToolBatchOutcome::Continue, 4);
    runtime.fail_model = true;
    assert_eq!(runtime.run().unwrap_err().message(), "provider down");
}

#[test]
fn steps_fall_back_to_the_engine_count() {
    let mut engine = TurnEngine::new();
    assert_eq!(engine.phase(), TurnPhase::Preparing);
    engine.advance(TurnEvent::Prepared { max_steps: 1 });
    assert_eq!(engine.steps_done(), 1);
    engine.advance(TurnEvent::CancelChecked { cancelled: false });
    engine.advance(TurnEvent::StepBegan);
    engine.advance(TurnEvent::ContextReady {
        context: PreparedContext::default(),
    });
    let usage = TokenUsage {
        prompt_tokens: 3,
        completion_tokens: 4,
        cached_tokens: None,
        gateway_hit_tokens: None,
        gateway_anchor_aligned: None,
    };
    let replied = engine.advance(TurnEvent::ModelReplied {
        step: StepResult {
            message: Message::assistant("done"),
            usage: Some(usage),
            had_tool_calls: false,
        },
    });
    assert!(matches!(replied, TurnAction::ReportUsage { usage: told } if told == usage));
    engine.advance(TurnEvent::UsageReported);
    engine.advance(TurnEvent::AssistantPushed);
    engine.advance(TurnEvent::SteerInjected { injected: false });
    engine.advance(TurnEvent::FollowUpInjected { injected: false });
    engine.advance(TurnEvent::StepsRead { active: None });
    match engine.advance(TurnEvent::Finished) {
        TurnAction::Done { outcome } => {
            assert_eq!(outcome.steps, 1);
            assert_eq!(outcome.final_text, "done");
        }
        _ => panic!("the turn is over"),
    }
}

#[test]
fn injected_steer_discards_the_answer_as_final_text() {
    let mut engine = at_model();
    engine.advance(TurnEvent::ModelReplied {
        step: StepResult {
            message: Message::assistant("early"),
            usage: None,
            had_tool_calls: false,
        },
    });
    engine.advance(TurnEvent::AssistantPushed);
    match engine.advance(TurnEvent::SteerInjected { injected: true }) {
        TurnAction::CloseIncomplete {
            max_steps,
            final_text,
        } => {
            assert_eq!(max_steps, 1);
            assert_eq!(final_text, "");
        }
        _ => panic!("the budget is used up"),
    }
}

#[test]
fn rejects_second_active_turn() {
    let mut active = None;
    begin_turn(&mut active).expect("first turn");
    let err = begin_turn(&mut active).unwrap_err();
    assert!(err.message().contains("agent busy"));
    end_turn(&mut active);
    begin_turn(&mut active).expect("turn after end");
}

#[test]
fn steer_buffer_fifo() {
    let mut buf = SteerBuffer::default();
    buf.push("first".into());
    buf.push("second".into());
    assert_eq!(buf.len(), 2);
    assert_eq!(buf.take_all(), vec!["first"]);
    let drained = buf.take_all();
    assert_eq!(drained, vec!["second"]);
    assert!(buf.is_empty());
}

#[test]
fn queue_modes_control_drain_size() {
    let mut steer = SteerBuffer::default();
    steer.push("first".into());
    steer.push("second".into());
    assert_eq!(steer.take_all(), vec!["first"]);
    steer.set_mode(QueueMode::All);
    assert_eq!(steer.take_all(), vec!["second"]);

    let mut follow_up = FollowUpBuffer::default();
    follow_up.push("first".into());
    follow_up.push("second".into());
    follow_up.set_mode(QueueMode::All);
    assert_eq!(follow_up.take_all(), vec!["first", "second"]);
}

#[test]
fn drained_and_cleared_buffers_are_empty() {
    let mut steer = SteerBuffer::default();
    steer.set_mode(QueueMode::All);
    assert!(steer.take_all().is_empty());
    steer.push("x".into());
    steer.clear();
    assert_eq!(steer.len(), 0);
    let mut follow_up = FollowUpBuffer::default();
    follow_up.push("a".into());
    assert_eq!(follow_up.len(), 1);
    assert_eq!(follow_up.take_all(), vec!["a"]);
    follow_up.push("b".into());
    follow_up.clear();
    assert!(follow_up.is_empty());
}

#[test]
fn identifiers_are_random_uuids() {
    let turn = TurnId::new();
    let text = turn.text();
    assert_eq!(text.len(), 36);
    assert_eq!(uuid::Uuid::parse_str(&text).unwrap().to_string(), text);
    assert_eq!(uuid::Uuid::parse_str(&text).unwrap().get_version_num(), 4);
    assert_ne!(TurnId::new().text(), text);
    assert_ne!(StepId::new().text(), StepId::new().text());
    let simple = fresh_simple_id();
    assert_eq!(
        uuid::Uuid::parse_str(&simple).unwrap().simple().to_string(),
        simple
    );
    assert_eq!(SessionId::from_string("s-1".into()).as_str(), "s-1");
    assert_eq!(ToolCallId::from_string("t".into()).as_str(), "t");
    assert_eq!(SessionId::new().as_str().len(), 36);
    assert_eq!(ToolCallId::new().as_str().len(), 36);
}

#[test]
fn steps_are_counted_and_named() {
    let mut turn = TurnState::begin();
    assert_eq!(turn.step, 0);
    assert!(turn.step_id.is_none());
    let first = turn.next_step_id();
    assert_eq!(turn.step, 1);
    assert_eq!(turn.step_id.unwrap().text(), first.text());
    turn.next_step_id();
    assert_eq!(turn.step, 2);
}

#[test]
fn turn_errors_have_their_messages() {
    assert!(agent_busy_error().message().contains("agent busy"));
    assert_eq!(
        steer_requires_active_turn().message(),
        "no turn in progress; use prompt() to start a new turn"
    );
    assert!(aborted_error().message().contains("aborted"));
    assert_eq!(
        TurnError::Failed("because".into()).message(),
        "because"
    );
    assert_eq!(
        max_turns_notice(12),
        "[notice] Reached max_turns (12) without a final answer. Send a follow-up to continue, or raise max turns / use Unlimited."
    );
}

#[test]
fn cancellation_follows_the_token() {
    assert!(!is_cancelled(None));
    let token = tokio_util::sync::CancellationToken::new();
    assert!(!is_cancelled(Some(&token)));
    token.cancel();
    assert!(is_cancelled(Some(&token)));
}
