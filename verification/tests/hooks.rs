use zene::hooks::{
    EventFilter, HookAction, HookAnswer, HookBlock, HookEvent, HookOutcome, HookRun, HookRunner,
    HookSpec,
};

fn runner(filters: Vec<EventFilter>) -> HookRunner<EventFilter> {
    HookRunner::with_bash(Vec::new(), "/tmp".into()).with_extensions(filters)
}

fn everything() -> EventFilter {
    EventFilter { events: None }
}

fn only(event: HookEvent) -> EventFilter {
    EventFilter {
        events: Some(vec![event]),
    }
}

fn block(reason: &str, terminate: bool) -> HookAnswer {
    HookAnswer::Outcome(HookOutcome::Block(HookBlock {
        reason: reason.into(),
        terminate,
    }))
}

#[test]
fn extension_hook_blocks_and_terminates() {
    let runner = runner(vec![everything()]);
    let (mut run, action) = HookRun::start(&runner, HookEvent::PreToolUse);
    assert!(matches!(action, HookAction::CallExtension(0)));
    match run.advance(&runner, block("blocked tool Write", true)) {
        HookAction::Done(Some(block)) => {
            assert_eq!(block.reason, "blocked tool Write");
            assert!(block.terminate);
        }
        _ => panic!("blocked"),
    }

    let (mut run, _) = HookRun::start(&runner, HookEvent::PreToolUse);
    let action = run.advance(&runner, HookAnswer::Outcome(HookOutcome::Allow));
    assert!(matches!(action, HookAction::PlanCommands));
    let action = run.advance(&runner, HookAnswer::Planned(0));
    assert!(matches!(action, HookAction::Done(None)));
}

#[test]
fn post_tool_use_does_not_block() {
    let runner = runner(vec![everything(), everything()]);
    let (mut run, action) = HookRun::start(&runner, HookEvent::PostToolUse);
    assert!(matches!(action, HookAction::CallExtension(0)));
    let action = run.advance(&runner, block("no", false));
    assert!(matches!(action, HookAction::CallExtension(1)));
    let action = run.advance(&runner, HookAnswer::Failed("broken".into()));
    assert!(matches!(action, HookAction::PlanCommands));
    let action = run.advance(&runner, HookAnswer::Planned(1));
    assert!(matches!(action, HookAction::RunCommand(0)));
    let action = run.advance(&runner, block("blocked", false));
    assert!(matches!(action, HookAction::Done(None)));
}

#[test]
fn commands_run_in_order_until_one_blocks() {
    let runner = runner(vec![]);
    let (mut run, action) = HookRun::start(&runner, HookEvent::PreToolUse);
    assert!(matches!(action, HookAction::PlanCommands));
    let action = run.advance(&runner, HookAnswer::Planned(3));
    assert!(matches!(action, HookAction::RunCommand(0)));
    let action = run.advance(&runner, HookAnswer::Outcome(HookOutcome::Allow));
    assert!(matches!(action, HookAction::RunCommand(1)));
    let action = run.advance(&runner, block("not allowed", false));
    assert!(matches!(
        action,
        HookAction::Done(Some(HookBlock { terminate: false, .. }))
    ));
}

#[test]
fn failures_of_blocking_hooks_are_errors() {
    let runner = runner(vec![everything()]);
    let (mut run, _) = HookRun::start(&runner, HookEvent::BeforeAgentStart);
    match run.advance(&runner, HookAnswer::Failed("broken".into())) {
        HookAction::Fail(message) => assert_eq!(message, "broken"),
        _ => panic!("a blocking hook failed"),
    }
}

#[test]
fn extensions_hear_only_their_events() {
    let runner = runner(vec![
        only(HookEvent::ContextMutate),
        only(HookEvent::PreToolUse),
        everything(),
    ]);
    let (mut run, action) = HookRun::start(&runner, HookEvent::PreToolUse);
    assert!(matches!(action, HookAction::CallExtension(1)));
    let action = run.advance(&runner, HookAnswer::Outcome(HookOutcome::Allow));
    assert!(matches!(action, HookAction::CallExtension(2)));
    let (_, action) = HookRun::start(&runner, HookEvent::SessionBeforeCompact);
    assert!(matches!(action, HookAction::CallExtension(2)));
}

#[test]
fn runners_know_whether_they_are_empty() {
    let mut runner: HookRunner<EventFilter> = HookRunner::new(Vec::new());
    assert!(runner.is_empty());
    runner.extend_specs(vec![HookSpec {
        event: "PreToolUse".into(),
        command: "true".into(),
    }]);
    assert!(!runner.is_empty());
    let mut other: HookRunner<EventFilter> = HookRunner::new(Vec::new());
    other.add_extension(everything());
    assert!(!other.is_empty());
    assert!(!HookRunner::new(Vec::new()).with_extension(everything()).is_empty());
}
