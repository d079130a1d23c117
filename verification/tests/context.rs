use zene::agent_events::RecordEntry;
use zene::context_engine::{
    conversation_start, prefire_launches, prefire_note, projection_unavailable, ContextEngine,
    AssembledOutbound, ContextEvent, ContextObservation, ContextUsageUpdate, ContextWaterLevel,
    PrefixLayout, SessionView, StepContext,
};
use zene::context_projection::{
    compaction_event_ids, projection_injected_labels, projection_injected_sources,
    projection_tool_output_provenance, projection_truncated_message_count, retained_turn_ids,
    SessionEvent,
};
use zene::context_run::{
    Announced, CompactionResult, ContextRun, RunAction, RunEvent, SessionFacts,
};
use zene::context_step::{Assembly, PrepareAction, PrepareEvent, PrepareStepResult};
use zene::llm::{ContextDelivery, Message, TokenUsage};
use zene::model_executor::OverflowRetryState;
use zene::prepare_step::compaction_entry;

const FACTS: SessionFacts = SessionFacts {
    message_count: 4,
    compaction_cycle: 0,
};

fn compaction() -> CompactionResult {
    CompactionResult {
        reason: "manual".into(),
        compacted_count: 3,
        tokens_before: 900,
        tokens_after: 100,
        has_segment: false,
    }
}

fn usage(cached: Option<u64>) -> TokenUsage {
    TokenUsage {
        prompt_tokens: 100,
        completion_tokens: 5,
        cached_tokens: cached,
        gateway_hit_tokens: None,
        gateway_anchor_aligned: None,
    }
}

fn update(context_percent: u8) -> ContextUsageUpdate {
    ContextUsageUpdate {
        context_tokens: 100,
        context_window: 1000,
        context_percent,
    }
}

fn layout() -> PrefixLayout {
    PrefixLayout {
        prefix_end: 1,
        body_end: 2,
        tail_decoration_count: 0,
        prefix_fingerprint: Some("fp".into()),
        break_kind: "none".into(),
    }
}

fn view() -> SessionView {
    SessionView {
        message_count: 2,
        active_events: vec![
            SessionEvent::TurnStarted {
                turn_id: "t1".into(),
            },
            SessionEvent::CompactionApplied { id: "c1".into() },
            SessionEvent::ToolCall {
                turn_id: Some("t2".into()),
            },
            SessionEvent::Other,
            SessionEvent::TurnEnded {
                turn_id: "t1".into(),
            },
        ],
        source_event_count: 7,
        cache_drift_detected: false,
        used_materialized_fallback: false,
        fallback_reason: None,
        active_branch_id: None,
        active_path_start_sequence: Some(3),
    }
}

fn step(engine: &ContextEngine, messages: Vec<Message>) -> StepContext {
    StepContext {
        messages,
        metadata: engine.metadata("session"),
        estimate_tokens: 9,
    }
}

#[test]
fn detects_tool_truncation_and_handle_markers() {
    let messages = vec![
        Message::tool_result(
            "call-1",
            "Read",
            "preview\n\n[truncated 42 bytes; full output saved to /tmp/out.txt.]",
        ),
        Message::tool_result(
            "call-2",
            "Bash",
            "[zene-tool-output path=\"/tmp/handle.txt\" bytes=100]",
        ),
    ];
    let provenance = projection_tool_output_provenance(&messages);
    assert_eq!(provenance.len(), 2);
    assert_eq!(provenance[0].kind, "truncated");
    assert_eq!(
        provenance[0].handle_reference.as_deref(),
        Some("/tmp/out.txt")
    );
    assert_eq!(provenance[1].kind, "handle");
    assert_eq!(
        provenance[1].handle_reference.as_deref(),
        Some("/tmp/handle.txt")
    );
    assert_eq!(provenance[0].tool_call_id.as_deref(), Some("call-1"));
    assert_eq!(provenance[1].message_index, 1);
}

#[test]
fn classifies_injected_sources() {
    let messages = vec![
        Message::compaction_summary("summary"),
        Message::user("<system-reminder>\n<memory-context>memory</memory-context>\nActive todos\n</system-reminder>"),
    ];
    let sources = projection_injected_sources(&messages, &vec![false, true]);
    assert_eq!(sources[0].source, "compaction_event");
    assert_eq!(sources[1].source, "memory");
    assert_eq!(sources[2].source, "todos");
}

#[test]
fn decorations_are_labelled_once() {
    let messages = vec![
        Message::compaction_summary("summary"),
        Message::user("reminder"),
        Message::user("another"),
    ];
    let labels = projection_injected_labels(&messages, &vec![false, true, true]);
    assert_eq!(labels.len(), 2);
    assert!(projection_injected_labels(&vec![Message::user("x")], &vec![false]).is_empty());
}

#[test]
fn plain_tool_output_has_no_provenance() {
    let messages = vec![
        Message::tool_result("c", "Read", "all of it"),
        Message::user("[truncated 42 bytes; full output saved to /tmp/out.txt.]"),
    ];
    assert!(projection_tool_output_provenance(&messages).is_empty());
    assert_eq!(
        projection_truncated_message_count(&vec![Message::user("short")]),
        0
    );
}

#[test]
fn turns_are_listed_in_path_order() {
    assert_eq!(retained_turn_ids(&view().active_events), ["t1", "t2"]);
    assert_eq!(compaction_event_ids(&view().active_events), ["c1"]);
}

#[test]
fn projections_are_explained() {
    let mut engine = ContextEngine::new(1000);
    let water = *engine.water();
    engine
        .record_step_usage(&usage(Some(40)), water, None, update(10))
        .unwrap();
    let step = step(&engine, vec![Message::system("abcd"), Message::user("hi")]);
    let explain =
        engine.explain_projection_for_step(&view(), &step, &vec![false, false], &layout());
    assert_eq!(explain.source_message_count, 2);
    assert_eq!(explain.projected_message_count, 2);
    assert_eq!(explain.active_event_count, 5);
    assert_eq!(explain.dropped_event_count, 2);
    assert_eq!(explain.retained_turn_count, 2);
    assert_eq!(explain.estimate_tokens, 9);
    assert_eq!(explain.prefix_cache.cached_tokens, Some(40));
    engine.remember_projection(&step, &explain);
    assert_eq!(engine.last_prefix_fingerprint().as_deref(), Some("fp"));
    assert_eq!(
        projection_unavailable("no events"),
        "event-backed context projection unavailable: no events"
    );
}

#[test]
fn outbound_views_are_assembled_and_remembered() {
    let outbound = || AssembledOutbound {
        messages: vec![Message::system("abcd"), Message::user("hi")],
        prefix_hash: Some("h".into()),
        delivery: ContextDelivery::Delta,
        tail_start: Some(1),
    };
    let plain = vec![false, false];
    let mut engine = ContextEngine::new(1000);
    engine.bump_epoch("compaction", 2);
    let told = engine
        .try_explain_projection(None, "s", &view(), outbound(), 9, &plain, &layout())
        .unwrap();
    assert_eq!(told.context_epoch, 1);
    assert_eq!(told.delivery_tail_start, Some(1));
    assert_eq!(engine.last_epoch_bump_reason(), Some("compaction"));
    let refused =
        engine.try_assemble_step(Some("gone"), "s", &view(), outbound(), 9, &plain, &layout());
    assert_eq!(
        refused.unwrap_err(),
        "event-backed context projection unavailable: gone"
    );
    assert_eq!(engine.last_prefix_fingerprint(), None);
    let step = engine
        .try_assemble_step(None, "s", &view(), outbound(), 9, &plain, &layout())
        .unwrap();
    assert_eq!(step.metadata.prefix_hash.as_deref(), Some("h"));
    assert_eq!(step.metadata.delivery, ContextDelivery::Delta);
    assert_eq!(engine.last_prefix_fingerprint().as_deref(), Some("fp"));
    assert_eq!(engine.last_epoch_bump_reason(), None);
}

#[test]
fn requests_are_linked_to_the_session() {
    let mut engine = ContextEngine::new(1000);
    assert_eq!(engine.metadata("s").session_id, "s");
    engine.set_external_session_id(Some("run".into()));
    let meta = engine.metadata("s");
    assert_eq!(meta.session_id, "run");
    assert_eq!(meta.delivery, ContextDelivery::Full);
    let outbound =
        engine.metadata_for_outbound("s", Some("h".into()), ContextDelivery::Delta, Some(3));
    assert_eq!(outbound.prefix_hash.as_deref(), Some("h"));
    assert_eq!(outbound.delivery, ContextDelivery::Delta);
    assert_eq!(outbound.tail_start, Some(3));
}

#[test]
fn system_prefix_changes_start_an_epoch() {
    let mut engine = ContextEngine::new(1000);
    let event = engine.on_system_prefix_changed("system_prefix");
    assert!(matches!(
        event,
        ContextEvent::EpochBumped {
            old: 0,
            new: 1,
            reason: "system_prefix"
        }
    ));
    assert_eq!(engine.epoch(), 1);
    assert_eq!(engine.last_epoch_bump_reason(), Some("system_prefix"));
    assert!(engine.take_pending_publish(5));
    assert!(!engine.take_pending_publish(6));
    assert_eq!(engine.gateway_prefix_len(), 5);
}

#[test]
fn water_follows_usage_and_estimates() {
    let mut engine = ContextEngine::new(1000);
    let seen = engine.observe(700, 2000, false, true);
    assert_eq!(seen.estimated_tokens, 700);
    assert_eq!(engine.water().context_window_tokens, 2000);
    assert_eq!(engine.water().last_estimate_tokens, Some(700));
    assert_eq!(engine.water().last_prompt_tokens, None);
    engine.restore_water_from_session(300);
    assert_eq!(engine.water().last_prompt_tokens, Some(300));
    engine.set_window(50);
    assert_eq!(engine.water().context_window_tokens, 50);
    let water = ContextWaterLevel {
        last_prompt_tokens: Some(100),
        ..*engine.water()
    };
    let told = engine.record_step_usage(&usage(None), water, None, update(200));
    assert_eq!(told.unwrap().context_percent, 200);
    assert_eq!(engine.water().last_prompt_tokens, Some(100));
    let refused = engine.record_step_usage(&usage(None), water, Some("no events"), update(1));
    assert_eq!(
        refused.unwrap_err(),
        "event-backed context projection unavailable: no events"
    );
}

#[test]
fn suppression_ignores_a_full_window() {
    let mut engine = ContextEngine::new(1000);
    let seen = engine.observe(1100, 1000, true, false);
    assert!(seen.preflight_overflow);
    assert!(seen.should_compact);
    engine.set_auto_compact_suppressed(true);
    let seen = engine.observe(1100, 1000, true, false);
    assert!(!seen.preflight_overflow);
    assert!(!seen.should_compact);
    assert!(engine.observe(1100, 1000, true, true).should_compact);
}

#[test]
fn early_summaries_need_enough_messages() {
    let mut engine = ContextEngine::new(1000);
    let mut messages = vec![Message::system("s")];
    for _ in 0..8 {
        messages.push(Message::user("x"));
    }
    assert_eq!(conversation_start(&messages), 1);
    assert_eq!(engine.prefire_body(true, true, &messages), Some(1));
    assert_eq!(engine.prefire_body(false, true, &messages), None);
    assert_eq!(engine.prefire_body(true, false, &messages), None);
    messages.pop();
    assert_eq!(engine.prefire_body(true, true, &messages), None);
    messages.push(Message::user("x"));
    engine.note_prefire_started();
    assert!(engine.prefire_in_flight());
    assert_eq!(engine.prefire_body(true, true, &messages), None);
    engine.note_prefire_ended(true);
    assert!(engine.prefire_has_cache());
    assert_eq!(engine.prefire_body(true, true, &messages), None);
    engine.clear_prefire();
    assert!(!engine.prefire_has_cache());
    assert_eq!(engine.prefire_body(true, true, &messages), Some(1));
    assert!(prefire_launches(3, 8, false));
    assert!(!prefire_launches(0, 8, false));
    assert!(!prefire_launches(8, 8, false));
    assert!(!prefire_launches(3, 8, true));
    assert_eq!(prefire_note(" \n".into()), None);
    assert_eq!(prefire_note(" a".into()).as_deref(), Some(" a"));
}

fn observation(should_compact: bool) -> ContextObservation {
    ContextObservation {
        estimated_tokens: 900,
        should_compact,
        preflight_overflow: false,
    }
}

#[test]
fn light_contexts_are_left_alone() {
    let mut engine = ContextEngine::new(1000);
    let (mut run, action) = ContextRun::commit(&mut engine, &observation(false), true, FACTS);
    assert!(matches!(action, RunAction::PublishPrefix { epoch: 0 }));
    let action = run.advance(&mut engine, RunEvent::Published, FACTS);
    assert!(matches!(action, RunAction::ConsiderPrefire));
    let action = run.advance(
        &mut engine,
        RunEvent::PrefireConsidered { started: true },
        FACTS,
    );
    assert!(matches!(
        action,
        RunAction::Done {
            compaction: None,
            retry: false
        }
    ));
    assert!(engine.prefire_in_flight());
    assert_eq!(engine.epoch(), 0);
}

#[test]
fn compaction_moves_the_epoch_between_two_checkpoints() {
    let mut engine = ContextEngine::new(1000);
    engine.note_prefire_started();
    let (mut run, action) = ContextRun::compact_forced(&engine, Some("keep the API".into()), FACTS);
    assert!(matches!(action, RunAction::AwaitPrefire));
    let action = run.advance(
        &mut engine,
        RunEvent::PrefireAwaited { cached: true },
        FACTS,
    );
    assert!(matches!(
        action,
        RunAction::CheckMemory {
            already_flushed: false
        }
    ));
    assert!(engine.prefire_has_cache());
    let action = run.advance(
        &mut engine,
        RunEvent::MemoryChecked {
            should_flush: true,
            blank: false,
        },
        FACTS,
    );
    assert!(matches!(action, RunAction::FlushMemory));
    let action = run.advance(&mut engine, RunEvent::MemoryFlushed { accepted: true }, FACTS);
    assert!(engine.memory_already_flushed(0));
    assert!(matches!(action, RunAction::Checkpoint { .. }));
    let action = run.advance(&mut engine, RunEvent::Checkpointed, FACTS);
    match action {
        RunAction::Compact {
            reason,
            force_summarize,
            user_hint,
        } => {
            assert_eq!(reason, "manual");
            assert!(force_summarize);
            assert_eq!(user_hint.as_deref(), Some("keep the API"));
        }
        _ => panic!("the context is compacted"),
    }
    let action = run.advance(
        &mut engine,
        RunEvent::Compacted { result: compaction() },
        FACTS,
    );
    assert!(matches!(action, RunAction::ClearPrefire));
    let action = run.advance(&mut engine, RunEvent::PrefireCleared, FACTS);
    assert!(!engine.prefire_has_cache());
    assert!(matches!(action, RunAction::PublishPrefix { epoch: 1 }));
    let action = run.advance(&mut engine, RunEvent::Published, FACTS);
    assert!(matches!(action, RunAction::SyncWater));
    let action = run.advance(&mut engine, RunEvent::Estimated { tokens: 10 }, FACTS);
    assert!(matches!(action, RunAction::Checkpoint { .. }));
    let action = run.advance(&mut engine, RunEvent::Checkpointed, FACTS);
    assert!(matches!(action, RunAction::EnsureSystemMessage));
    let action = run.advance(&mut engine, RunEvent::SystemEnsured, FACTS);
    assert!(matches!(
        action,
        RunAction::Done {
            compaction: Some(CompactionResult {
                compacted_count: 3,
                tokens_before: 900,
                tokens_after: 100,
                ..
            }),
            ..
        }
    ));
    let trace = run.trace();
    assert!(matches!(trace.last(), Some(Announced::PostCheckpoint)));
    assert!(trace
        .iter()
        .any(|told| matches!(told, Announced::PreCheckpoint)));
    assert_eq!(engine.epoch(), 1);
    assert_eq!(engine.water().last_estimate_tokens, Some(10));
}

#[test]
fn failed_compaction_suppresses_the_next() {
    let mut engine = ContextEngine::new(1000);
    let (mut run, _) = ContextRun::compact_forced(&engine, None, FACTS);
    run.advance(
        &mut engine,
        RunEvent::PrefireAwaited { cached: false },
        FACTS,
    );
    run.advance(
        &mut engine,
        RunEvent::MemoryChecked {
            should_flush: false,
            blank: true,
        },
        FACTS,
    );
    run.advance(&mut engine, RunEvent::Checkpointed, FACTS);
    run.advance(
        &mut engine,
        RunEvent::CompactionFailed {
            message: "no model".into(),
        },
        FACTS,
    );
    match run.advance(&mut engine, RunEvent::PrefireCleared, FACTS) {
        RunAction::Fail { message } => assert_eq!(message, "no model"),
        _ => panic!("the compaction failed"),
    }
    assert!(engine.water().auto_compact_suppressed);
    assert_eq!(engine.epoch(), 0);
}

#[test]
fn overflow_is_truncated_then_summarized_then_given_up() {
    let mut engine = ContextEngine::new(1000);
    let tried = OverflowRetryState::default();
    engine.set_step_tail_decorations(vec!["old".into()]);
    let hooks = Some((vec!["a".into()], vec!["b".into()]));
    let (mut run, action) = ContextRun::handle_overflow(&mut engine, hooks, &tried, FACTS);
    assert_eq!(engine.tail_sections(), ["a", "b"]);
    assert!(matches!(
        action,
        RunAction::TruncateSteps { steps_first: true }
    ));
    let action = run.advance(&mut engine, RunEvent::Truncated { applied: true }, FACTS);
    assert!(matches!(action, RunAction::EnsureSystemMessage));
    let action = run.advance(&mut engine, RunEvent::SystemEnsured, FACTS);
    assert!(matches!(
        action,
        RunAction::Done {
            compaction: None,
            retry: true
        }
    ));
    assert_eq!(run.overflow_state().flags(), (true, false));

    let (run, action) = ContextRun::handle_overflow(&mut engine, None, &run.overflow_state(), FACTS);
    assert!(matches!(action, RunAction::AwaitPrefire));
    assert_eq!(run.overflow_state().flags(), (true, true));

    let (_, action) = ContextRun::handle_overflow(&mut engine, None, &run.overflow_state(), FACTS);
    assert!(matches!(
        action,
        RunAction::Done {
            compaction: None,
            retry: false
        }
    ));
}

#[test]
fn failed_announcements_end_the_run() {
    let mut engine = ContextEngine::new(1000);
    let (mut run, _) = ContextRun::commit(&mut engine, &observation(false), true, FACTS);
    match run.advance(
        &mut engine,
        RunEvent::Failed {
            message: "gateway".into(),
        },
        FACTS,
    ) {
        RunAction::Fail { message } => assert_eq!(message, "gateway"),
        _ => panic!("the announcement failed"),
    }
}

#[test]
fn tail_decorations_are_replaced_by_each_step() {
    let mut engine = ContextEngine::new(1000);
    engine.set_step_tail_decorations(vec!["a".into()]);
    engine.capture_tail_sections(Some((vec!["b".into()], vec!["c".into()])));
    engine.capture_tail_sections(None);
    engine.bump_epoch("compaction", 3);
    assert_eq!(engine.gateway_prefix_len(), 3);
    assert_eq!(engine.session_id_for("s"), "s");
}

fn prepare(engine: &mut ContextEngine, wants_compaction: bool) -> (Vec<&'static str>, PrepareStepResult) {
    let mut order = Vec::new();
    let (mut preparation, mut action) = engine.prepare_step();
    loop {
        let event = match action {
            PrepareAction::CheckEvents => {
                order.push("check");
                PrepareEvent::EventsChecked { unbacked: None }
            }
            PrepareAction::Observe => {
                order.push("observe");
                PrepareEvent::Observed {
                    estimated_tokens: 900,
                    context_window_tokens: 1000,
                    exceeds_window: false,
                    wants_compaction,
                }
            }
            PrepareAction::ReadTail => {
                order.push("tail");
                PrepareEvent::TailRead {
                    hooks: Some((vec!["a".into()], vec!["b".into()])),
                    gateway_configured: false,
                }
            }
            PrepareAction::Commit { action } => {
                order.push("commit");
                PrepareEvent::Committed {
                    event: match action {
                        RunAction::ConsiderPrefire => RunEvent::PrefireConsidered { started: false },
                        RunAction::TruncateSteps { .. } => RunEvent::Truncated { applied: false },
                        RunAction::AwaitPrefire => RunEvent::PrefireAwaited { cached: false },
                        RunAction::CheckMemory { .. } => RunEvent::MemoryChecked {
                            should_flush: false,
                            blank: true,
                        },
                        RunAction::Checkpoint { .. } => RunEvent::Checkpointed,
                        RunAction::Compact { .. } => RunEvent::Compacted { result: compaction() },
                        RunAction::ClearPrefire => RunEvent::PrefireCleared,
                        RunAction::PublishPrefix { .. } => RunEvent::Published,
                        RunAction::SyncWater => RunEvent::Estimated { tokens: 100 },
                        RunAction::EnsureSystemMessage => RunEvent::SystemEnsured,
                        other => panic!("not asked for here: {other:?}"),
                    },
                }
            }
            PrepareAction::Assemble { tail_sections } => {
                order.push("assemble");
                assert_eq!(tail_sections, ["a", "b"]);
                PrepareEvent::Assembled {
                    assembly: Assembly {
                        session_id: "s".into(),
                        view: view(),
                        outbound: AssembledOutbound {
                            messages: vec![Message::system("abcd"), Message::user("hi")],
                            prefix_hash: None,
                            delivery: ContextDelivery::Full,
                            tail_start: None,
                        },
                        estimate_tokens: 9,
                        reminders: vec![false, false],
                        layout: layout(),
                    },
                }
            }
            PrepareAction::Done { result } => return (order, result),
            PrepareAction::Fail { message } => panic!("{message}"),
        };
        action = preparation.advance(engine, event, FACTS);
    }
}

#[test]
fn steps_are_observed_committed_and_projected() {
    let mut engine = ContextEngine::new(1000);
    let (order, result) = prepare(&mut engine, false);
    assert_eq!(order, ["check", "observe", "tail", "commit", "assemble"]);
    assert!(result.compaction.is_none());
    assert!(result.events.is_empty());
    assert_eq!(result.step.metadata.context_epoch, 0);
    assert_eq!(result.step.estimate_tokens, 9);
    assert_eq!(engine.water().last_estimate_tokens, Some(900));
    assert_eq!(engine.tail_sections(), ["a", "b"]);
    assert_eq!(engine.last_prefix_fingerprint().as_deref(), Some("fp"));
}

#[test]
fn projections_show_the_epoch_of_their_own_commit() {
    let mut engine = ContextEngine::new(1000);
    let (order, result) = prepare(&mut engine, true);
    assert_eq!(order[..3], ["check", "observe", "tail"]);
    assert_eq!(order[order.len() - 1], "assemble");
    let entry = compaction_entry(result.compaction.as_ref().unwrap(), 7);
    assert!(matches!(
        entry,
        RecordEntry::Compaction {
            compacted_count: 3,
            tokens_before: Some(900),
            tokens_after: Some(100),
            ts: 7,
            ..
        }
    ));
    assert_eq!(result.step.metadata.context_epoch, 1);
    assert_eq!(result.explain.context_epoch, 1);
    assert_eq!(
        result.events,
        [
            Announced::PreCheckpoint,
            Announced::PublishedPrefix { epoch: 1 },
            Announced::PostCheckpoint,
        ]
    );
    assert_eq!(engine.last_epoch_bump_reason(), None);
}

#[test]
fn unbacked_sessions_and_failed_commits_prepare_no_step() {
    let mut engine = ContextEngine::new(1000);
    let (mut preparation, _) = engine.prepare_step();
    let action = preparation.advance(
        &mut engine,
        PrepareEvent::EventsChecked {
            unbacked: Some("gone".into()),
        },
        FACTS,
    );
    match action {
        PrepareAction::Fail { message } => assert_eq!(
            message,
            "event-backed context projection unavailable: gone"
        ),
        _ => panic!("the events do not back the session"),
    }
    assert_eq!(engine.water().last_estimate_tokens, None);
    let (mut preparation, _) = engine.prepare_step();
    for event in [
        PrepareEvent::EventsChecked { unbacked: None },
        PrepareEvent::Observed {
            estimated_tokens: 5,
            context_window_tokens: 1000,
            exceeds_window: false,
            wants_compaction: false,
        },
        PrepareEvent::TailRead {
            hooks: None,
            gateway_configured: true,
        },
    ] {
        preparation.advance(&mut engine, event, FACTS);
    }
    let action = preparation.advance(
        &mut engine,
        PrepareEvent::Committed {
            event: RunEvent::Failed {
                message: "gateway".into(),
            },
        },
        FACTS,
    );
    assert!(matches!(action, PrepareAction::Fail { message } if message == "gateway"));
}
