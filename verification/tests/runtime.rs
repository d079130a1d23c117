use zene::actor::{
    automatic_candidate, mode_result, prompt_choice, prompt_result, recovery_disposition_name,
    recovery_info, resume_candidate, resume_result, runtime_checkpoint_key, terminal_lifecycle,
    tools_result, Actor, ActorEffect, AgentAnswer, AgentQuestion, ApprovalDecision, ExecutionState,
    RecoveryDisposition, RecoveryView, ResumeCandidate, RuntimeCommand, RuntimeLifecycle,
    RuntimeResponse,
};
use zene::permission::PromptChoice;
use zene::turn_state::{QueueMode, SteerBuffer, TurnId};

fn active_actor() -> Actor {
    let mut actor = Actor::new();
    let effects = actor.handle_idle_command(
        RuntimeCommand::Prompt {
            text: "first".into(),
        },
        1,
    );
    assert!(matches!(
        &effects[0],
        ActorEffect::Start { prompt, resume: false } if prompt.text == "first" && prompt.reply == 1
    ));
    assert!(actor.is_active());
    actor
}

fn refusal(effect: &ActorEffect) -> String {
    match effect {
        ActorEffect::Reply {
            result: Err(message),
            ..
        } => message.clone(),
        _ => panic!("expected a refusal"),
    }
}

fn is_accepted(effect: &ActorEffect) -> bool {
    matches!(
        effect,
        ActorEffect::Reply {
            result: Ok(RuntimeResponse::Accepted),
            ..
        }
    )
}

fn view(candidates: Vec<ResumeCandidate>, implemented: bool) -> RecoveryView {
    RecoveryView {
        disposition: RecoveryDisposition::SafeToResume,
        has_incomplete_execution: true,
        active_turn_count: 1,
        active_tool_count: 2,
        safe_resume_allowed: true,
        automatic_resume_implemented: implemented,
        reason: "one turn is open".into(),
        resume_candidates: candidates,
    }
}

fn candidate() -> ResumeCandidate {
    ResumeCandidate {
        turn_id: "turn-1".into(),
        prompt: "go on".into(),
    }
}

#[test]
fn recovery_disposition_names_are_protocol_stable() {
    let cases = [
        (RecoveryDisposition::Clean, "clean"),
        (RecoveryDisposition::AlreadyCompleted, "already_completed"),
        (RecoveryDisposition::SafeToResume, "safe_to_resume"),
        (
            RecoveryDisposition::RequiresToolInspection,
            "requires_tool_inspection",
        ),
        (
            RecoveryDisposition::RequiresManualIntervention,
            "requires_manual_intervention",
        ),
    ];
    for (disposition, expected) in cases {
        assert_eq!(recovery_disposition_name(disposition), expected);
    }
}

#[test]
fn approval_decisions_map_to_permission_choices() {
    assert_eq!(
        prompt_choice(ApprovalDecision::AllowOnce),
        PromptChoice::AllowOnce
    );
    assert_eq!(
        prompt_choice(ApprovalDecision::AllowSession),
        PromptChoice::AllowSession
    );
    assert_eq!(prompt_choice(ApprovalDecision::Deny), PromptChoice::Deny);
}

#[test]
fn execution_state_separates_runtime_from_cloud_status() {
    let turn_id = TurnId::new();
    let state = ExecutionState::Running { turn_id, step: 2 };
    assert!(matches!(state, ExecutionState::Running { step: 2, .. }));
}

#[test]
fn terminal_lifecycle_classifies_prompt_outcomes() {
    assert!(matches!(
        terminal_lifecycle(false, &Ok("done".into())),
        RuntimeLifecycle::Completed
    ));
    assert!(matches!(
        terminal_lifecycle(true, &Ok("done".into())),
        RuntimeLifecycle::Cancelled
    ));
    assert!(matches!(
        terminal_lifecycle(false, &Err("aborted by caller".into())),
        RuntimeLifecycle::Cancelled
    ));
    match terminal_lifecycle(false, &Err("provider failed".into())) {
        RuntimeLifecycle::Failed { message } => assert_eq!(message, "provider failed"),
        _ => panic!("expected a failure"),
    }
}

#[test]
fn active_cancel_acknowledges_and_cancels_prompt_token() {
    let mut actor = active_actor();
    let mut steer = SteerBuffer::default();
    steer.push("x".into());
    let queued = actor.handle_active_command(
        &mut steer,
        RuntimeCommand::Prompt {
            text: "later".into(),
        },
        2,
    );
    assert!(queued.is_empty());
    actor.handle_active_command(
        &mut steer,
        RuntimeCommand::FollowUp {
            text: " then ".into(),
        },
        3,
    );
    assert_eq!(actor.follow_up_len(), 1);

    let effects = actor.handle_active_command(&mut steer, RuntimeCommand::Cancel, 4);
    assert!(matches!(effects[0], ActorEffect::CancelWaiters));
    assert!(matches!(effects[1], ActorEffect::CancelTurn));
    assert_eq!(refusal(&effects[2]), "turn cancelled");
    assert!(matches!(effects[2], ActorEffect::Reply { reply: 2, .. }));
    assert!(matches!(effects[3], ActorEffect::Reply { reply: 3, .. }));
    assert!(is_accepted(&effects[4]));
    assert!(matches!(effects[4], ActorEffect::Reply { reply: 4, .. }));
    assert_eq!(effects.len(), 5);
    assert_eq!(actor.queued_len(), 0);
    assert_eq!(actor.follow_up_len(), 0);
    assert!(steer.is_empty());
    assert!(actor.is_active());
}

#[test]
fn active_mode_commands_are_rejected_without_mutating_queue() {
    for command in [
        RuntimeCommand::SetMode {
            mode_id: "plan".into(),
        },
        RuntimeCommand::GetMode,
    ] {
        let mut actor = active_actor();
        let effects = actor.handle_active_command(&mut SteerBuffer::default(), command, 2);
        assert_eq!(effects.len(), 1);
        assert!(refusal(&effects[0]).contains("active"));
        assert_eq!(actor.queued_len(), 0);
    }
}

#[test]
fn active_steer_is_buffered_and_empty_steer_is_rejected() {
    let mut actor = active_actor();
    let mut steer = SteerBuffer::default();
    let effects = actor.handle_active_command(
        &mut steer,
        RuntimeCommand::Steer {
            text: "  keep going  ".into(),
        },
        2,
    );
    assert!(is_accepted(&effects[0]));
    assert_eq!(steer.take_all(), vec!["keep going"]);

    let effects =
        actor.handle_active_command(&mut steer, RuntimeCommand::Steer { text: "  ".into() }, 3);
    assert!(refusal(&effects[0]).contains("empty"));
    assert!(steer.is_empty());
}

#[test]
fn active_prompt_queue_rejects_empty_and_preserves_valid_prompt() {
    let mut actor = active_actor();
    let mut steer = SteerBuffer::default();
    let effects =
        actor.handle_active_command(&mut steer, RuntimeCommand::Prompt { text: "  ".into() }, 2);
    assert!(refusal(&effects[0]).contains("empty"));
    assert_eq!(actor.queued_len(), 0);

    actor.handle_active_command(
        &mut steer,
        RuntimeCommand::Prompt {
            text: "next".into(),
        },
        3,
    );
    assert_eq!(actor.queued_len(), 1);
    assert_eq!(actor.next_queued().unwrap(), "next");
}

#[test]
fn active_approval_resolves_registered_waiter() {
    let mut actor = active_actor();
    let effects = actor.handle_active_command(
        &mut SteerBuffer::default(),
        RuntimeCommand::Approval {
            request_id: "req-1".into(),
            decision: ApprovalDecision::AllowOnce,
        },
        2,
    );
    assert!(matches!(
        &effects[0],
        ActorEffect::ResolveApproval { reply: 2, request_id, decision: ApprovalDecision::AllowOnce }
            if request_id == "req-1"
    ));
    assert!(is_accepted(&Actor::approval_resolved(2, "req-1", true)));
}

#[test]
fn active_approval_unknown_request_is_rejected() {
    let mut actor = active_actor();
    let mut effects = actor.handle_active_command(
        &mut SteerBuffer::default(),
        RuntimeCommand::Approval {
            request_id: "missing".into(),
            decision: ApprovalDecision::Deny,
        },
        2,
    );
    assert_eq!(effects.len(), 1);
    let effect = match effects.remove(0) {
        ActorEffect::ResolveApproval {
            reply, request_id, ..
        } => Actor::approval_resolved(reply, &request_id, false),
        _ => panic!("the approval is looked for"),
    };
    assert!(refusal(&effect).contains("no approval request missing is pending"));
    assert!(actor.is_active());
    let mut idle = Actor::new();
    let effects = idle.handle_idle_command(
        RuntimeCommand::Approval {
            request_id: "missing".into(),
            decision: ApprovalDecision::Deny,
        },
        1,
    );
    assert_eq!(
        refusal(&effects[0]),
        "no approval request missing is pending"
    );
}

#[test]
fn idle_commands_are_answered_or_asked() {
    let mut actor = Actor::new();
    for command in [
        RuntimeCommand::Steer { text: "x".into() },
        RuntimeCommand::FollowUp { text: "x".into() },
    ] {
        let effects = actor.handle_idle_command(command, 1);
        assert_eq!(
            refusal(&effects[0]),
            "no turn in progress; use prompt() to start a new turn"
        );
    }
    let effects = actor.handle_idle_command(RuntimeCommand::Prompt { text: " ".into() }, 1);
    assert_eq!(refusal(&effects[0]), "prompt cannot be empty");
    let effects = actor.handle_idle_command(RuntimeCommand::Cancel, 1);
    assert!(is_accepted(&effects[0]));
    let effects = actor.handle_idle_command(
        RuntimeCommand::SetSteeringMode {
            mode: QueueMode::All,
        },
        7,
    );
    assert!(matches!(
        effects[0],
        ActorEffect::Ask {
            reply: 7,
            question: AgentQuestion::SetSteeringMode {
                mode: QueueMode::All
            }
        }
    ));
    assert!(!actor.is_active());
}

#[test]
fn resume_claims_before_it_starts() {
    let mut actor = Actor::new();
    let effects = actor.handle_idle_command(RuntimeCommand::ResumeSafeTurn, 5);
    assert!(matches!(
        effects[0],
        ActorEffect::Ask {
            question: AgentQuestion::RecoverySnapshot,
            ..
        }
    ));
    let effects =
        actor.handle_agent_answer(AgentAnswer::Snapshot(Ok(view(vec![candidate()], true))), 5);
    assert!(matches!(
        &effects[0],
        ActorEffect::Ask { question: AgentQuestion::ClaimResume { candidate }, .. }
            if candidate.turn_id == "turn-1"
    ));
    assert!(!actor.is_active());
    let effects = actor.handle_agent_answer(
        AgentAnswer::Claimed {
            candidate: candidate(),
            claim: Ok(true),
        },
        5,
    );
    assert!(matches!(
        &effects[0],
        ActorEffect::Start { prompt, resume: true } if prompt.text == "go on" && prompt.reply == 5
    ));
    assert!(actor.is_active());
}

#[test]
fn resume_refusals() {
    let mut actor = Actor::new();
    let none = actor.handle_agent_answer(AgentAnswer::Snapshot(Ok(view(vec![], true))), 1);
    assert_eq!(
        refusal(&none[0]),
        "no unique prompt-backed safe resume candidate is available"
    );
    let failed = actor.handle_agent_answer(AgentAnswer::Snapshot(Err("no record".into())), 1);
    assert_eq!(refusal(&failed[0]), "no record");
    let stale = actor.handle_agent_answer(
        AgentAnswer::Claimed {
            candidate: candidate(),
            claim: Ok(false),
        },
        1,
    );
    assert_eq!(
        refusal(&stale[0]),
        "safe resume rejected: candidate is already claimed or stale"
    );
    let fenced = actor.handle_agent_answer(
        AgentAnswer::Claimed {
            candidate: candidate(),
            claim: Err("disk full".into()),
        },
        1,
    );
    assert_eq!(refusal(&fenced[0]), "safe resume fencing failed: disk full");
}

#[test]
fn candidates_need_an_implemented_resume() {
    assert!(resume_candidate(&view(vec![candidate()], false)).is_none());
    assert_eq!(
        resume_candidate(&view(vec![candidate()], true))
            .unwrap()
            .prompt,
        "go on"
    );
    assert!(automatic_candidate(Some(candidate()), Ok(true)).is_some());
    assert!(automatic_candidate(Some(candidate()), Ok(false)).is_none());
    assert!(automatic_candidate(Some(candidate()), Err("x".into())).is_none());
    let info = recovery_info(&view(vec![], true));
    assert_eq!(info.disposition, "safe_to_resume");
    assert_eq!(info.active_tool_count, 2);
    assert!(info.automatic_resume);
    let (actor, effect) = Actor::resuming(candidate(), 9);
    assert!(actor.is_active());
    assert!(matches!(effect, ActorEffect::Start { resume: true, .. }));
}

#[test]
fn ended_turns_are_announced_and_answered() {
    let mut actor = active_actor();
    actor.handle_active_command(
        &mut SteerBuffer::default(),
        RuntimeCommand::FollowUp {
            text: " then ".into(),
        },
        2,
    );
    let effects = actor.turn_finished(false, Ok("done".into()));
    assert!(matches!(
        effects[0],
        ActorEffect::Publish {
            lifecycle: RuntimeLifecycle::Completed
        }
    ));
    assert!(matches!(
        &effects[1],
        ActorEffect::Reply { reply: 1, result: Ok(RuntimeResponse::Prompt { text }) } if text == "done"
    ));
    assert!(matches!(
        &effects[2],
        ActorEffect::Start { prompt, resume: false } if prompt.text == "then" && prompt.reply == 2
    ));
    let effects = actor.turn_finished(false, Err("boom".into()));
    assert_eq!(refusal(&effects[1]), "boom");
    assert_eq!(effects.len(), 2);
    assert!(!actor.is_active());
}

#[test]
fn follow_ups_wait_for_completion() {
    let mut actor = active_actor();
    actor.handle_active_command(
        &mut SteerBuffer::default(),
        RuntimeCommand::FollowUp {
            text: "then".into(),
        },
        2,
    );
    let effects = actor.turn_finished(true, Ok("done".into()));
    assert_eq!(refusal(&effects[1]), "turn cancelled");
    assert_eq!(effects.len(), 2);
    assert_eq!(actor.follow_up_len(), 1);
}

#[test]
fn queued_prompts_start_in_order() {
    let mut actor = active_actor();
    let mut steer = SteerBuffer::default();
    for (text, reply) in [("a", 2), ("b", 3)] {
        actor.handle_active_command(
            &mut steer,
            RuntimeCommand::Prompt { text: text.into() },
            reply,
        );
    }
    actor.turn_finished(false, Ok("one".into()));
    let effects = actor.settle();
    assert!(matches!(
        &effects[0],
        ActorEffect::Start { prompt, .. } if prompt.text == "a"
    ));
    actor.turn_finished(false, Ok("two".into()));
    let effects = actor.settle();
    assert!(matches!(
        &effects[0],
        ActorEffect::Start { prompt, .. } if prompt.text == "b"
    ));
    actor.turn_finished(false, Ok("three".into()));
    assert!(actor.settle().is_empty());
}

#[test]
fn shutdown_refuses_what_is_queued() {
    let mut actor = active_actor();
    let mut steer = SteerBuffer::default();
    actor.handle_active_command(
        &mut steer,
        RuntimeCommand::Prompt {
            text: "later".into(),
        },
        2,
    );
    let effects = actor.handle_active_command(&mut steer, RuntimeCommand::Shutdown, 3);
    assert!(is_accepted(&effects[2]));
    actor.turn_finished(true, Err("aborted".into()));
    let effects = actor.settle();
    assert_eq!(refusal(&effects[0]), "runtime is shutting down");
    assert!(matches!(effects[1], ActorEffect::RecordShutdown));
    assert!(matches!(
        effects[2],
        ActorEffect::Publish {
            lifecycle: RuntimeLifecycle::Shutdown
        }
    ));
    assert!(matches!(effects[3], ActorEffect::ShutdownAgent));
    assert!(matches!(effects[4], ActorEffect::Stop));
}

#[test]
fn closed_commands_cancel_the_active_turn() {
    let mut actor = active_actor();
    let effects = actor.commands_closed();
    assert!(matches!(effects[0], ActorEffect::CancelTurn));
    let mut idle = Actor::new();
    assert!(idle.commands_closed().is_empty());
    assert!(matches!(
        idle.settle().last(),
        Some(ActorEffect::Stop)
    ));
}

#[test]
fn lost_turn_tasks_end_the_runtime() {
    let mut actor = active_actor();
    let effects = actor.turn_task_failed("panicked");
    assert_eq!(refusal(&effects[1]), "runtime turn task failed: panicked");
    assert!(matches!(effects[2], ActorEffect::RecordFailed));
    assert!(matches!(effects[4], ActorEffect::Stop));
}

#[test]
fn mode_answers_are_published() {
    let mut actor = Actor::new();
    let effects = actor.handle_agent_answer(AgentAnswer::ModeSet(Ok("plan".into())), 1);
    assert!(matches!(
        &effects[0],
        ActorEffect::Reply { result: Ok(RuntimeResponse::Mode { mode_id }), .. } if mode_id == "plan"
    ));
    assert!(matches!(
        &effects[1],
        ActorEffect::PublishState { state } if state == "plan"
    ));
    let effects = actor.handle_agent_answer(AgentAnswer::Tools(vec!["Read".into()]), 1);
    assert!(matches!(
        &effects[0],
        ActorEffect::Reply { result: Ok(RuntimeResponse::Tools { names }), .. } if names.len() == 1
    ));
    let effects = actor.handle_agent_answer(AgentAnswer::QueueModeSet, 1);
    assert!(is_accepted(&effects[0]));
}

#[test]
fn responses_of_another_kind_are_errors() {
    assert_eq!(
        prompt_result(RuntimeResponse::Prompt { text: "t".into() }).unwrap(),
        "t"
    );
    assert_eq!(
        prompt_result(RuntimeResponse::Accepted).unwrap_err(),
        "runtime returned an invalid prompt response"
    );
    assert_eq!(
        resume_result(RuntimeResponse::Accepted).unwrap_err(),
        "runtime returned an invalid resume response"
    );
    assert_eq!(
        mode_result(RuntimeResponse::Accepted).unwrap_err(),
        "runtime returned an invalid mode response"
    );
    assert_eq!(
        tools_result(RuntimeResponse::Accepted, true).unwrap_err(),
        "runtime returned an invalid activate tools response"
    );
    assert_eq!(
        tools_result(RuntimeResponse::Accepted, false).unwrap_err(),
        "runtime returned an invalid deactivate tools response"
    );
    assert_eq!(runtime_checkpoint_key("s", None), "runtime/s/shutdown");
    assert_eq!(
        runtime_checkpoint_key("s", Some("turn-task-failed")),
        "runtime/s/turn-task-failed"
    );
}
