//! Generic multi-step turn state machine.
//!
//! The engine owns orchestration only: it says which port to call next, and is
//! told what the port answered. Context, model, tool, session and event behaviour
//! stays with whoever runs it.
use vstd::prelude::*;

use crate::llm::{
    call_texts, copy_calls, ContextMetadata, Message, MessageText, TokenUsage, ToolCall,
    ToolDefinition,
};
use crate::turn_state::{error_text, TurnError};

verus! {

/// Outcome of one LLM step within a turn.
#[derive(Debug)]
pub struct StepResult {
    pub message: Message,
    pub usage: Option<TokenUsage>,
    pub had_tool_calls: bool,
}

/// Controls whether a completed tool batch should cause another model call.
#[derive(Debug, Clone, Copy, PartialEq, Eq, Structural)]
pub enum ToolBatchOutcome {
    Continue,
    Terminate,
}

/// Stable lifecycle result of a turn.
#[derive(Debug, Clone, Copy, PartialEq, Eq, Structural)]
pub enum TurnStatus {
    /// The model produced a final answer.
    Completed,
    /// A tool batch produced the terminal result for the turn.
    Terminated,
    /// The step budget was exhausted before a final answer.
    Incomplete,
}

/// Result of one turn.
#[derive(Debug, Clone)]
pub struct TurnOutcome {
    pub final_text: String,
    pub status: TurnStatus,
    pub steps: u32,
}

/// Context projected for one model invocation.
#[derive(Debug)]
pub struct PreparedContext {
    pub messages: Vec<Message>,
    pub tools: Vec<ToolDefinition>,
    pub context_epoch: Option<u64>,
    pub metadata: Option<ContextMetadata>,
    pub estimate_tokens: Option<u32>,
}

impl Default for PreparedContext {
    fn default() -> (r: Self)
        ensures
            r.messages@.len() == 0,
            r.tools@.len() == 0,
            r.context_epoch is None,
            r.metadata is None,
            r.estimate_tokens is None,
    {
        PreparedContext {
            messages: Vec::new(),
            tools: Vec::new(),
            context_epoch: None,
            metadata: None,
            estimate_tokens: None,
        }
    }
}

/// What the engine waits for.
#[derive(Debug, Clone, Copy, PartialEq, Eq, Structural)]
pub enum TurnPhase {
    Preparing,
    CheckingCancel,
    BeginningStep,
    PreparingContext,
    RunningModel,
    ReportingUsage,
    PushingForTools,
    RunningTools,
    SteeringAfterTools,
    PushingAnswer,
    SteeringAfterAnswer,
    FollowingUp,
    ClosingIncomplete,
    ReadingSteps,
    Finishing,
    Over,
}

/// What happened outside the engine.
#[derive(Debug)]
pub enum TurnEvent {
    /// The turn was prepared; the step budget is known (0: unlimited).
    Prepared { max_steps: u32 },
    /// Whether cancellation had been requested.
    CancelChecked { cancelled: bool },
    /// The step has its identifier and was announced.
    StepBegan,
    /// The context of the step is ready.
    ContextReady { context: PreparedContext },
    /// The model answered.
    ModelReplied { step: StepResult },
    /// The usage of the step was recorded.
    UsageReported,
    /// The answer was added to the session.
    AssistantPushed,
    /// The tool batch ran.
    ToolsRan { outcome: ToolBatchOutcome },
    /// Whether steer messages were injected.
    SteerInjected { injected: bool },
    /// Whether follow-up messages were injected.
    FollowUpInjected { injected: bool },
    /// The incomplete turn was closed, perhaps with another final text.
    IncompleteClosed { final_text: String },
    /// How many steps the active turn counts, if there is one.
    StepsRead { active: Option<u32> },
    /// The turn was finished.
    Finished,
    /// The port that was called failed.
    Failed { message: String },
}

/// What to do next.
#[derive(Debug)]
pub enum TurnAction {
    PrepareTurn,
    CheckCancelled,
    /// Take the next step identifier and announce the step.
    BeginStep,
    PrepareContext,
    /// Call the model with the context that was prepared.
    RunModel { context: PreparedContext },
    /// Record the usage of the step.
    ReportUsage { usage: TokenUsage },
    /// Add the answer of the model to the session.
    PushAssistant { message: Message },
    /// Run the tools that the answer calls.
    RunTools { calls: Vec<ToolCall> },
    InjectSteer,
    InjectFollowUp,
    CloseIncomplete { max_steps: u32, final_text: String },
    ReadSteps,
    FinishTurn,
    Done { outcome: TurnOutcome },
    Fail { error: TurnError },
}

impl StepResult {
    /// Whether the answer calls tools: it says so, and names the calls.
    pub open spec fn names_calls(&self) -> bool {
        self.had_tool_calls && self.message.tool_calls is Some
    }
}

/// The state of a turn.
pub struct EngineState {
    pub phase: TurnPhase,
    pub max_steps: u32,
    pub steps_done: u32,
    pub status: Option<TurnStatus>,
    pub final_text: Seq<char>,
    /// The last answer of the model.
    pub message: Option<MessageText>,
    /// Whether the answer asks for tools.
    pub calls_tools: bool,
    pub steps: u32,
}

/// The text of the last answer, which becomes the final text unless something is
/// injected.
pub open spec fn answer(s: EngineState) -> Seq<char> {
    match s.message {
        Some(message) => match message.content {
            Some(text) => text,
            None => Seq::empty(),
        },
        None => Seq::empty(),
    }
}

/// Whether a phase waits for an event.
pub open spec fn awaits(phase: TurnPhase, event: TurnEvent) -> bool {
    match event {
        TurnEvent::Prepared { .. } => phase is Preparing,
        TurnEvent::CancelChecked { .. } => phase is CheckingCancel,
        TurnEvent::StepBegan => phase is BeginningStep,
        TurnEvent::ContextReady { .. } => phase is PreparingContext,
        TurnEvent::ModelReplied { .. } => phase is RunningModel,
        TurnEvent::UsageReported => phase is ReportingUsage,
        TurnEvent::AssistantPushed => phase is PushingForTools || phase is PushingAnswer,
        TurnEvent::ToolsRan { .. } => phase is RunningTools,
        TurnEvent::SteerInjected { .. } => phase is SteeringAfterTools || phase is SteeringAfterAnswer,
        TurnEvent::FollowUpInjected { .. } => phase is FollowingUp,
        TurnEvent::IncompleteClosed { .. } => phase is ClosingIncomplete,
        TurnEvent::StepsRead { .. } => phase is ReadingSteps,
        TurnEvent::Finished => phase is Finishing,
        TurnEvent::Failed { .. } => match phase {
            TurnPhase::Preparing | TurnPhase::PreparingContext | TurnPhase::RunningModel
            | TurnPhase::ReportingUsage | TurnPhase::RunningTools | TurnPhase::SteeringAfterTools
            | TurnPhase::SteeringAfterAnswer | TurnPhase::FollowingUp
            | TurnPhase::ClosingIncomplete | TurnPhase::Finishing => true,
            _ => false,
        },
    }
}

/// The state before the next step: a step if the budget allows one, else the close
/// of an incomplete turn.
pub open spec fn next_round(s: EngineState) -> EngineState {
    if s.max_steps > 0 && s.steps_done >= s.max_steps {
        EngineState { phase: TurnPhase::ClosingIncomplete, ..s }
    } else {
        EngineState {
            phase: TurnPhase::CheckingCancel,
            steps_done: if s.steps_done == u32::MAX {
                u32::MAX
            } else {
                (s.steps_done + 1) as u32
            },
            ..s
        }
    }
}

/// The state before the answer is added to the session.
pub open spec fn before_push(s: EngineState) -> EngineState {
    EngineState {
        phase: if s.calls_tools {
            TurnPhase::PushingForTools
        } else {
            TurnPhase::PushingAnswer
        },
        ..s
    }
}

/// The state after an event.
pub open spec fn after(s: EngineState, event: TurnEvent) -> EngineState {
    match event {
        TurnEvent::Prepared { max_steps } => next_round(EngineState { max_steps, ..s }),
        TurnEvent::CancelChecked { cancelled } => EngineState {
            phase: if cancelled {
                TurnPhase::Over
            } else {
                TurnPhase::BeginningStep
            },
            ..s
        },
        TurnEvent::StepBegan => EngineState { phase: TurnPhase::PreparingContext, ..s },
        TurnEvent::ContextReady { .. } => EngineState { phase: TurnPhase::RunningModel, ..s },
        TurnEvent::ModelReplied { step } => {
            let replied = EngineState {
                calls_tools: step.names_calls(),
                message: Some(step.message@),
                ..s
            };
            if step.usage is Some {
                EngineState { phase: TurnPhase::ReportingUsage, ..replied }
            } else {
                before_push(replied)
            }
        },
        TurnEvent::UsageReported => before_push(s),
        TurnEvent::AssistantPushed => EngineState {
            phase: if s.phase is PushingForTools {
                TurnPhase::RunningTools
            } else {
                TurnPhase::SteeringAfterAnswer
            },
            ..s
        },
        TurnEvent::ToolsRan { outcome } => match outcome {
            ToolBatchOutcome::Terminate => EngineState {
                phase: TurnPhase::ReadingSteps,
                status: Some(TurnStatus::Terminated),
                ..s
            },
            ToolBatchOutcome::Continue => EngineState { phase: TurnPhase::SteeringAfterTools, ..s },
        },
        TurnEvent::SteerInjected { injected } => if s.phase is SteeringAfterTools || injected {
            next_round(s)
        } else {
            EngineState { phase: TurnPhase::FollowingUp, final_text: answer(s), ..s }
        },
        TurnEvent::FollowUpInjected { injected } => if injected {
            next_round(s)
        } else {
            EngineState {
                phase: TurnPhase::ReadingSteps,
                status: Some(TurnStatus::Completed),
                ..s
            }
        },
        TurnEvent::IncompleteClosed { final_text } => EngineState {
            phase: TurnPhase::ReadingSteps,
            status: Some(TurnStatus::Incomplete),
            final_text: final_text@,
            ..s
        },
        TurnEvent::StepsRead { active } => EngineState {
            phase: TurnPhase::Finishing,
            steps: match active {
                Some(step) => step,
                None => s.steps_done,
            },
            ..s
        },
        TurnEvent::Finished => EngineState { phase: TurnPhase::Over, ..s },
        TurnEvent::Failed { .. } => EngineState { phase: TurnPhase::Over, ..s },
    }
}

/// Whether an action is the one that a state asks for after an event.
pub open spec fn asked(s: EngineState, event: TurnEvent, action: TurnAction) -> bool {
    match s.phase {
        TurnPhase::Preparing => action is PrepareTurn,
        TurnPhase::CheckingCancel => action is CheckCancelled,
        TurnPhase::BeginningStep => action is BeginStep,
        TurnPhase::PreparingContext => action is PrepareContext,
        TurnPhase::RunningModel => event matches TurnEvent::ContextReady { context } && action == (
        TurnAction::RunModel { context }),
        TurnPhase::ReportingUsage => event matches TurnEvent::ModelReplied { step } && (
        action matches TurnAction::ReportUsage { usage } && step.usage == Some(usage)),
        TurnPhase::PushingForTools | TurnPhase::PushingAnswer => action matches TurnAction::PushAssistant {
            message,
        } && s.message == Some(message@),
        TurnPhase::RunningTools => action matches TurnAction::RunTools { calls }
            && s.message matches Some(message) && message.tool_calls == Some(call_texts(calls@)),
        TurnPhase::SteeringAfterTools | TurnPhase::SteeringAfterAnswer => action is InjectSteer,
        TurnPhase::FollowingUp => action is InjectFollowUp,
        TurnPhase::ClosingIncomplete => action matches TurnAction::CloseIncomplete {
            max_steps,
            final_text,
        } && max_steps == s.max_steps && final_text@ == s.final_text,
        TurnPhase::ReadingSteps => action is ReadSteps,
        TurnPhase::Finishing => action is FinishTurn,
        TurnPhase::Over => match event {
            TurnEvent::Failed { message } => action matches TurnAction::Fail { error } && error_text(
                error,
            ) == message@,
            TurnEvent::CancelChecked { .. } => action == (TurnAction::Fail {
                error: TurnError::Aborted,
            }),
            _ => action matches TurnAction::Done { outcome } && outcome.final_text@ == s.final_text
                && Some(outcome.status) == s.status && outcome.steps == s.steps,
        },
    }
}

/// The state of a turn that has not been prepared.
pub open spec fn initial() -> EngineState {
    EngineState {
        phase: TurnPhase::Preparing,
        max_steps: 0,
        steps_done: 0,
        status: None,
        final_text: Seq::empty(),
        message: None,
        calls_tools: false,
        steps: 0,
    }
}

/// What holds of every state of a turn: the steps keep to their budget, a turn has
/// a status only when it is ending, and an incomplete one has used its budget up.
pub open spec fn sound(s: EngineState) -> bool {
    &&& s.max_steps > 0 ==> s.steps_done <= s.max_steps
    &&& s.phase is ReadingSteps || s.phase is Finishing ==> s.status is Some
    &&& !(s.phase is ReadingSteps || s.phase is Finishing || s.phase is Over) ==> s.status is None
    &&& s.phase is ClosingIncomplete || s.status == Some(TurnStatus::Incomplete) ==> s.max_steps > 0
        && s.steps_done == s.max_steps
    &&& s.status == Some(TurnStatus::Completed) ==> s.final_text == answer(s)
    &&& s.phase is FollowingUp ==> s.final_text == answer(s)
    &&& s.phase is ReportingUsage || s.phase is PushingForTools || s.phase is PushingAnswer
        ==> s.message is Some
    &&& s.phase is PushingForTools ==> s.calls_tools
    &&& s.calls_tools ==> (s.message matches Some(message) && message.tool_calls is Some)
    &&& s.phase is Preparing ==> s.steps_done == 0
}

/// A turn in progress.
pub struct TurnEngine {
    phase: TurnPhase,
    max_steps: u32,
    steps_done: u32,
    status: Option<TurnStatus>,
    final_text: String,
    message: Option<Message>,
    calls_tools: bool,
    steps: u32,
}

impl View for TurnEngine {
    type V = EngineState;

    closed spec fn view(&self) -> EngineState {
        EngineState {
            phase: self.phase,
            max_steps: self.max_steps,
            steps_done: self.steps_done,
            status: self.status,
            final_text: self.final_text@,
            message: match self.message {
                Some(message) => Some(message@),
                None => None,
            },
            calls_tools: self.calls_tools,
            steps: self.steps,
        }
    }
}

impl TurnEngine {
    /// A turn that has not been prepared: its first action is `PrepareTurn`.
    pub fn new() -> (r: Self)
        ensures
            r@ == initial(),
            sound(r@),
    {
        TurnEngine {
            phase: TurnPhase::Preparing,
            max_steps: 0,
            steps_done: 0,
            status: None,
            final_text: String::new(),
            message: None,
            calls_tools: false,
            steps: 0,
        }
    }

    /// What the engine waits for.
    pub fn phase(&self) -> (r: TurnPhase)
        ensures
            r == self@.phase,
    {
        self.phase
    }

    /// How many steps have been started.
    pub fn steps_done(&self) -> (r: u32)
        ensures
            r == self@.steps_done,
    {
        self.steps_done
    }

    fn next_round(&mut self) -> (r: TurnAction)
        ensures
            final(self)@ == next_round(old(self)@),
            match final(self)@.phase {
                TurnPhase::ClosingIncomplete => r matches TurnAction::CloseIncomplete {
                    max_steps,
                    final_text,
                } && max_steps == old(self)@.max_steps && final_text@ == old(self)@.final_text,
                _ => r is CheckCancelled,
            },
    {
        if self.max_steps > 0 && self.steps_done >= self.max_steps {
            self.phase = TurnPhase::ClosingIncomplete;
            return TurnAction::CloseIncomplete {
                max_steps: self.max_steps,
                final_text: self.final_text.clone(),
            };
        }
        self.steps_done = self.steps_done.saturating_add(1);
        self.phase = TurnPhase::CheckingCancel;
        TurnAction::CheckCancelled
    }

    fn before_push(&mut self) -> (r: TurnAction)
        requires
            old(self)@.message is Some,
        ensures
            final(self)@ == before_push(old(self)@),
            r matches TurnAction::PushAssistant { message } && old(self)@.message == Some(message@),
    {
        let message = match &self.message {
            Some(message) => message.copy(),
            None => Message::assistant(""),
        };
        self.phase = if self.calls_tools {
            TurnPhase::PushingForTools
        } else {
            TurnPhase::PushingAnswer
        };
        TurnAction::PushAssistant { message }
    }

    fn named_calls(&self) -> (r: Vec<ToolCall>)
        requires
            self@.message matches Some(message) && message.tool_calls is Some,
        ensures
            self@.message->0.tool_calls == Some(call_texts(r@)),
    {
        match &self.message {
            Some(message) => match &message.tool_calls {
                Some(calls) => copy_calls(calls),
                None => Vec::new(),
            },
            None => Vec::new(),
        }
    }

    /// Takes in what happened and says what to do next.
    pub fn advance(&mut self, event: TurnEvent) -> (r: TurnAction)
        requires
            sound(old(self)@),
            awaits(old(self)@.phase, event),
        ensures
            final(self)@ == after(old(self)@, event),
            sound(final(self)@),
            asked(final(self)@, event, r),
    {
        match event {
            TurnEvent::Prepared { max_steps } => {
                self.max_steps = max_steps;
                self.next_round()
            },
            TurnEvent::CancelChecked { cancelled } => {
                if cancelled {
                    self.phase = TurnPhase::Over;
                    TurnAction::Fail { error: TurnError::Aborted }
                } else {
                    self.phase = TurnPhase::BeginningStep;
                    TurnAction::BeginStep
                }
            },
            TurnEvent::StepBegan => {
                self.phase = TurnPhase::PreparingContext;
                TurnAction::PrepareContext
            },
            TurnEvent::ContextReady { context } => {
                self.phase = TurnPhase::RunningModel;
                TurnAction::RunModel { context }
            },
            TurnEvent::ModelReplied { step } => {
                self.calls_tools = step.had_tool_calls && step.message.tool_calls.is_some();
                self.message = Some(step.message);
                match step.usage {
                    Some(usage) => {
                        self.phase = TurnPhase::ReportingUsage;
                        TurnAction::ReportUsage { usage }
                    },
                    None => self.before_push(),
                }
            },
            TurnEvent::UsageReported => self.before_push(),
            TurnEvent::AssistantPushed => {
                match self.phase {
                    TurnPhase::PushingForTools => {
                        self.phase = TurnPhase::RunningTools;
                        TurnAction::RunTools { calls: self.named_calls() }
                    },
                    _ => {
                        self.phase = TurnPhase::SteeringAfterAnswer;
                        TurnAction::InjectSteer
                    },
                }
            },
            TurnEvent::ToolsRan { outcome } => {
                match outcome {
                    ToolBatchOutcome::Terminate => {
                        self.status = Some(TurnStatus::Terminated);
                        self.phase = TurnPhase::ReadingSteps;
                        TurnAction::ReadSteps
                    },
                    ToolBatchOutcome::Continue => {
                        self.phase = TurnPhase::SteeringAfterTools;
                        TurnAction::InjectSteer
                    },
                }
            },
            TurnEvent::SteerInjected { injected } => {
                let again = match self.phase {
                    TurnPhase::SteeringAfterTools => true,
                    _ => injected,
                };
                if again {
                    self.next_round()
                } else {
                    self.final_text = match &self.message {
                        Some(message) => match &message.content {
                            Some(text) => text.clone(),
                            None => String::new(),
                        },
                        None => String::new(),
                    };
                    self.phase = TurnPhase::FollowingUp;
                    TurnAction::InjectFollowUp
                }
            },
            TurnEvent::FollowUpInjected { injected } => {
                if injected {
                    self.next_round()
                } else {
                    self.status = Some(TurnStatus::Completed);
                    self.phase = TurnPhase::ReadingSteps;
                    TurnAction::ReadSteps
                }
            },
            TurnEvent::IncompleteClosed { final_text } => {
                self.final_text = final_text;
                self.status = Some(TurnStatus::Incomplete);
                self.phase = TurnPhase::ReadingSteps;
                TurnAction::ReadSteps
            },
            TurnEvent::StepsRead { active } => {
                self.steps = match active {
                    Some(step) => step,
                    None => self.steps_done,
                };
                self.phase = TurnPhase::Finishing;
                TurnAction::FinishTurn
            },
            TurnEvent::Finished => {
                self.phase = TurnPhase::Over;
                let status = match self.status {
                    Some(status) => status,
                    None => TurnStatus::Incomplete,
                };
                TurnAction::Done {
                    outcome: TurnOutcome {
                        final_text: self.final_text.clone(),
                        status,
                        steps: self.steps,
                    },
                }
            },
            TurnEvent::Failed { message } => {
                self.phase = TurnPhase::Over;
                TurnAction::Fail { error: TurnError::Failed(message) }
            },
        }
    }
}

/// The state after a run of events.
pub open spec fn after_all(s: EngineState, events: Seq<TurnEvent>) -> EngineState
    decreases events.len(),
{
    if events.len() == 0 {
        s
    } else {
        after(after_all(s, events.drop_last()), events.last())
    }
}

/// Whether each event of a run is one that the engine waits for.
pub open spec fn runs(s: EngineState, events: Seq<TurnEvent>) -> bool
    decreases events.len(),
{
    events.len() > 0 ==> runs(s, events.drop_last()) && awaits(
        after_all(s, events.drop_last()).phase,
        events.last(),
    )
}

/// How often the model was called in a run: once for each context that was ready.
pub open spec fn model_calls(events: Seq<TurnEvent>) -> nat {
    events.filter(|e: TurnEvent| e is ContextReady).len()
}

spec fn step_started(phase: TurnPhase) -> bool {
    phase is CheckingCancel || phase is BeginningStep || phase is PreparingContext
}

proof fn lemma_model_calls(events: Seq<TurnEvent>)
    requires
        runs(initial(), events),
    ensures
        ({
            let s = after_all(initial(), events);
            &&& sound(s)
            &&& s.phase is Preparing ==> model_calls(events) == 0
            &&& s.max_steps > 0 ==> model_calls(events) <= s.steps_done
            &&& s.max_steps > 0 && step_started(s.phase) ==> model_calls(events) < s.steps_done
        }),
    decreases events.len(),
{
    reveal(Seq::filter);
    if events.len() > 0 {
        lemma_model_calls(events.drop_last());
    }
}

/// The model gets exactly the context that was prepared for the step, whatever the turn
/// has come through.
pub proof fn model_gets_the_prepared_context(
    s: EngineState,
    context: PreparedContext,
    action: TurnAction,
)
    requires
        awaits(s.phase, TurnEvent::ContextReady { context }),
        asked(
            after(s, TurnEvent::ContextReady { context }),
            TurnEvent::ContextReady { context },
            action,
        ),
    ensures
        action == (TurnAction::RunModel { context }),
{
}

/// What the model answers is what joins the session, and the tools that run are the ones
/// it called. `s` is the turn while the model runs.
pub proof fn answer_is_kept_as_given(
    s: EngineState,
    step: StepResult,
    push: TurnAction,
    next: TurnAction,
)
    requires
        awaits(s.phase, TurnEvent::ModelReplied { step }),
        ({
            let replied = after(s, TurnEvent::ModelReplied { step });
            let reported = if step.usage is Some {
                after(replied, TurnEvent::UsageReported)
            } else {
                replied
            };
            let event = if step.usage is Some {
                TurnEvent::UsageReported
            } else {
                TurnEvent::ModelReplied { step }
            };
            &&& asked(reported, event, push)
            &&& asked(
                after(reported, TurnEvent::AssistantPushed),
                TurnEvent::AssistantPushed,
                next,
            )
        }),
    ensures
        push matches TurnAction::PushAssistant { message } && message@ == step.message@,
        next is RunTools <==> step.names_calls(),
        next matches TurnAction::RunTools { calls } ==> step.message@.tool_calls == Some(
            call_texts(calls@),
        ),
{
}

/// A turn with a step budget calls the model at most that often.
pub proof fn model_calls_keep_to_budget(events: Seq<TurnEvent>)
    requires
        runs(initial(), events),
        after_all(initial(), events).max_steps > 0,
    ensures
        model_calls(events) <= after_all(initial(), events).max_steps,
{
    lemma_model_calls(events);
}

/// Once a tool batch has terminated the turn, nothing is drained and no model is
/// called any more: the turn only reads its steps and finishes, as terminated.
pub proof fn terminate_ends_the_turn(s: EngineState, event: TurnEvent, action: TurnAction)
    requires
        sound(s),
        awaits(s.phase, event),
        s.status == Some(TurnStatus::Terminated),
        asked(after(s, event), event, action),
    ensures
        after(s, event).status == Some(TurnStatus::Terminated),
        !(action is InjectSteer),
        !(action is InjectFollowUp),
        !(action is RunModel),
        action matches TurnAction::Done { outcome } ==> outcome.status == TurnStatus::Terminated,
{
}

/// A terminating tool batch is followed by no steer drain.
pub proof fn terminate_drains_nothing(s: EngineState, action: TurnAction)
    requires
        s.phase is RunningTools,
        asked(
            after(s, TurnEvent::ToolsRan { outcome: ToolBatchOutcome::Terminate }),
            TurnEvent::ToolsRan { outcome: ToolBatchOutcome::Terminate },
            action,
        ),
    ensures
        action is ReadSteps,
{
}

/// A completed turn ends with the text of the model's last answer, and an
/// incomplete one has used up a budget that is not unlimited.
pub proof fn outcome_tells_how_the_turn_ended(s: EngineState, action: TurnAction)
    requires
        sound(s),
        awaits(s.phase, TurnEvent::Finished),
        asked(after(s, TurnEvent::Finished), TurnEvent::Finished, action),
    ensures
        action matches TurnAction::Done { outcome } && (outcome.status == TurnStatus::Completed
            ==> outcome.final_text@ == answer(s)) && (outcome.status == TurnStatus::Incomplete
            ==> s.max_steps > 0 && s.steps_done == s.max_steps),
{
}

/// A cancelled turn is aborted before its next step, however many steps it has done, and
/// only one that is not cancelled begins a step.
pub proof fn cancellation_stops_every_step(s: EngineState, cancelled: bool, action: TurnAction)
    requires
        s.phase is CheckingCancel,
        asked(
            after(s, TurnEvent::CancelChecked { cancelled }),
            TurnEvent::CancelChecked { cancelled },
            action,
        ),
    ensures
        cancelled ==> after(s, TurnEvent::CancelChecked { cancelled }).phase is Over && action == (
        TurnAction::Fail { error: TurnError::Aborted }),
        !cancelled ==> after(s, TurnEvent::CancelChecked { cancelled }).phase is BeginningStep
            && action is BeginStep,
        after(s, TurnEvent::CancelChecked { cancelled }).final_text == s.final_text,
        after(s, TurnEvent::CancelChecked { cancelled }).steps_done == s.steps_done,
{
}

/// Whatever a turn has come through, the model runs only right after its context was
/// prepared for a step that began right after a check which found no cancellation. A turn
/// whose check found one takes in nothing more.
pub proof fn models_run_only_after_an_uncancelled_check(events: Seq<TurnEvent>, i: int)
    requires
        runs(initial(), events),
        0 <= i < events.len(),
    ensures
        events[i] is ContextReady ==> i >= 3 && events[i - 1] is StepBegan && events[i - 2] == (
        TurnEvent::CancelChecked { cancelled: false }),
        events[i] == (TurnEvent::CancelChecked { cancelled: true }) ==> i == events.len() - 1,
        events[i] is ModelReplied ==> i >= 1 && events[i - 1] is ContextReady,
        events[i] is Failed ==> i == events.len() - 1,
        events[i] is Finished ==> i == events.len() - 1 && i >= 1 && events[i - 1] is StepsRead,
        events[i] is ToolsRan ==> i >= 2 && events[i - 1] is AssistantPushed,
        events[i] is Prepared <==> i == 0 && !(events[0] is Failed),
    decreases events.len(),
{
    let rest = events.drop_last();
    if i < events.len() - 1 {
        models_run_only_after_an_uncancelled_check(rest, i);
        assert(rest[i] == events[i]);
        if i >= 1 {
            assert(rest[i - 1] == events[i - 1]);
        }
        if i >= 2 {
            assert(rest[i - 2] == events[i - 2]);
        }
        lemma_last_event(rest);
        if i == rest.len() - 1 {
            assert(rest.last() == events[i]);
        }
        assert(rest[0] == events[0]);
    } else {
        lemma_last_event(rest);
        if rest.len() > 0 {
            assert(rest.last() == events[i - 1]);
            let earlier = rest.drop_last();
            assert(runs(initial(), rest));
            assert(runs(initial(), earlier));
            lemma_last_event(earlier);
            if earlier.len() > 0 {
                assert(earlier.last() == events[i - 2]);
                assert(runs(initial(), earlier.drop_last()));
                lemma_last_event(earlier.drop_last());
            }
        }
    }
}

proof fn lemma_last_event(events: Seq<TurnEvent>)
    requires
        runs(initial(), events),
    ensures
        ({
            let phase = after_all(initial(), events).phase;
            &&& phase is Preparing <==> events.len() == 0
            &&& phase is BeginningStep ==> events.last() == (TurnEvent::CancelChecked {
                cancelled: false,
            })
            &&& phase is PreparingContext ==> events.last() is StepBegan
            &&& phase is RunningModel ==> events.last() is ContextReady
            &&& phase is RunningTools ==> events.last() is AssistantPushed
            &&& phase is Finishing ==> events.last() is StepsRead
            &&& events.len() > 0 && (events.last() is Failed || events.last() is Finished
                || events.last() == (TurnEvent::CancelChecked { cancelled: true })) ==> phase is Over
        }),
{
}

/// While the step budget lasts, a turn goes on with another step: after each tool batch
/// that does not end it, and after an answer to which something was added. Without a
/// budget it always does. Once the budget is used up, it is closed as incomplete instead,
/// with the text it has.
pub proof fn turns_go_on_while_the_budget_lasts(s: EngineState, event: TurnEvent, action: TurnAction)
    requires
        sound(s),
        awaits(s.phase, event),
        event is SteerInjected && s.phase is SteeringAfterTools || event == (
        TurnEvent::SteerInjected { injected: true }) || event == (TurnEvent::FollowUpInjected {
            injected: true,
        }),
        asked(after(s, event), event, action),
    ensures
        s.max_steps == 0 || s.steps_done < s.max_steps ==> action is CheckCancelled && (s.steps_done
            < u32::MAX ==> after(s, event).steps_done == s.steps_done + 1),
        s.max_steps > 0 && s.steps_done == s.max_steps ==> (
        action matches TurnAction::CloseIncomplete { max_steps, final_text } && max_steps
            == s.max_steps && final_text@ == s.final_text),
        after(s, event).final_text == s.final_text,
        after(s, event).status == s.status,
{
}

/// A prepared turn takes its first step under every budget.
pub proof fn every_turn_takes_a_first_step(max_steps: u32, action: TurnAction)
    requires
        asked(
            after(initial(), TurnEvent::Prepared { max_steps }),
            TurnEvent::Prepared { max_steps },
            action,
        ),
    ensures
        action is CheckCancelled,
        after(initial(), TurnEvent::Prepared { max_steps }).max_steps == max_steps,
        after(initial(), TurnEvent::Prepared { max_steps }).steps_done == 1,
{
}

/// An answer without tool calls, to which nothing is added, completes the turn with its
/// text. Both steer messages and follow-ups are looked for first, in this order.
pub proof fn unanswered_answers_complete_the_turn(
    s: EngineState,
    step: StepResult,
    steer: TurnAction,
    follow: TurnAction,
    read: TurnAction,
)
    requires
        sound(s),
        s.phase is RunningModel,
        !step.had_tool_calls || step.message.tool_calls is None,
        step.usage is None,
        ({
            let pushed = after(
                after(s, TurnEvent::ModelReplied { step }),
                TurnEvent::AssistantPushed,
            );
            let steered = after(pushed, TurnEvent::SteerInjected { injected: false });
            let ended = after(steered, TurnEvent::FollowUpInjected { injected: false });
            &&& asked(pushed, TurnEvent::AssistantPushed, steer)
            &&& asked(steered, TurnEvent::SteerInjected { injected: false }, follow)
            &&& asked(ended, TurnEvent::FollowUpInjected { injected: false }, read)
        }),
    ensures
        steer is InjectSteer,
        follow is InjectFollowUp,
        read is ReadSteps,
        ({
            let pushed = after(
                after(s, TurnEvent::ModelReplied { step }),
                TurnEvent::AssistantPushed,
            );
            let steered = after(pushed, TurnEvent::SteerInjected { injected: false });
            let ended = after(steered, TurnEvent::FollowUpInjected { injected: false });
            &&& ended.status == Some(TurnStatus::Completed)
            &&& ended.final_text == (match step.message.content {
                Some(text) => text@,
                None => Seq::empty(),
            })
        }),
{
}

/// Usage is reported exactly where the model gave it, before the answer joins the session.
pub proof fn usage_is_reported_where_given(s: EngineState, step: StepResult, action: TurnAction)
    requires
        s.phase is RunningModel,
        asked(
            after(s, TurnEvent::ModelReplied { step }),
            TurnEvent::ModelReplied { step },
            action,
        ),
    ensures
        step.usage matches Some(usage) ==> action == (TurnAction::ReportUsage { usage }),
        step.usage is None ==> action is PushAssistant,
{
}

/// A tool batch that ends the turn leads to no further step; after any other one steer
/// messages are looked for.
pub proof fn tool_batches_end_the_turn_or_go_on(
    s: EngineState,
    outcome: ToolBatchOutcome,
    action: TurnAction,
)
    requires
        sound(s),
        s.phase is RunningTools,
        asked(after(s, TurnEvent::ToolsRan { outcome }), TurnEvent::ToolsRan { outcome }, action),
    ensures
        outcome is Terminate ==> action is ReadSteps && after(
            s,
            TurnEvent::ToolsRan { outcome },
        ).status == Some(TurnStatus::Terminated),
        outcome is Continue ==> action is InjectSteer && after(
            s,
            TurnEvent::ToolsRan { outcome },
        ).status is None,
{
}

/// A closed turn tells how it ended: with the text that closing left where its budget was
/// used up, and with the steps that the active turn counts, or else those that were begun.
pub proof fn ended_turns_tell_their_text_and_steps(
    s: EngineState,
    closing: String,
    active: Option<u32>,
    action: TurnAction,
)
    requires
        sound(s),
        s.phase is ClosingIncomplete,
        ({
            let closed = after(s, TurnEvent::IncompleteClosed { final_text: closing });
            let read = after(closed, TurnEvent::StepsRead { active });
            asked(after(read, TurnEvent::Finished), TurnEvent::Finished, action)
        }),
    ensures
        action matches TurnAction::Done { outcome } && outcome.final_text@ == closing@
            && outcome.status == TurnStatus::Incomplete && outcome.steps == (match active {
            Some(n) => n,
            None => s.steps_done,
        }),
{
}

/// Whatever ends a turn, its end is told in the same way: the status and the text that it
/// had, and its steps.
pub proof fn finishing_changes_no_outcome(s: EngineState, active: Option<u32>, action: TurnAction)
    requires
        sound(s),
        s.phase is ReadingSteps,
        ({
            let read = after(s, TurnEvent::StepsRead { active });
            asked(after(read, TurnEvent::Finished), TurnEvent::Finished, action)
        }),
    ensures
        action matches TurnAction::Done { outcome } && outcome.final_text@ == s.final_text && Some(
            outcome.status,
        ) == s.status && outcome.steps == (match active {
            Some(n) => n,
            None => s.steps_done,
        }),
{
}

/// A failing port ends the turn at once, with its message.
pub proof fn failures_end_the_turn(s: EngineState, message: String, action: TurnAction)
    requires
        awaits(s.phase, TurnEvent::Failed { message }),
        asked(
            after(s, TurnEvent::Failed { message }),
            TurnEvent::Failed { message },
            action,
        ),
    ensures
        after(s, TurnEvent::Failed { message }).phase is Over,
        action matches TurnAction::Fail { error } && error_text(error) == message@,
{
}

/// An engine that is told of a cancellation aborts at once, in whichever step it is, and
/// one that is told of none begins the step.
pub proof fn engines_abort_when_cancelled(engine: &mut TurnEngine, cancelled: bool, r: TurnAction)
    requires
        call_ensures(TurnEngine::advance, (engine, TurnEvent::CancelChecked { cancelled }), r),
        old(engine)@.phase is CheckingCancel,
    ensures
        cancelled ==> r == (TurnAction::Fail { error: TurnError::Aborted }) && final(engine)@.phase
            is Over,
        !cancelled ==> r is BeginStep,
{
}

/// An answer joins the conversation as it was given, also where its usage is told first. The
/// tools that it names are then run; where it names none, steer messages are looked for.
pub proof fn answers_lead_to_their_tools(
    s: EngineState,
    step: StepResult,
    pushing: TurnAction,
    next: TurnAction,
)
    requires
        s.phase is RunningModel,
        ({
            let replied = TurnEvent::ModelReplied { step };
            let told = if step.usage is Some {
                after(after(s, replied), TurnEvent::UsageReported)
            } else {
                after(s, replied)
            };
            let by = if step.usage is Some {
                TurnEvent::UsageReported
            } else {
                replied
            };
            &&& asked(told, by, pushing)
            &&& asked(after(told, TurnEvent::AssistantPushed), TurnEvent::AssistantPushed, next)
        }),
    ensures
        pushing matches TurnAction::PushAssistant { message } && message@ == step.message@,
        next is RunTools <==> step.had_tool_calls && step.message.tool_calls is Some,
        next matches TurnAction::RunTools { calls } ==> call_texts(calls@) == call_texts(
            step.message.tool_calls->0@,
        ),
        next is RunTools || next is InjectSteer,
{
}

/// A step goes from its beginning over its context to the model, and an injected follow-up or
/// the lack of one decides how the turn goes on.
pub proof fn steps_run_in_order(s: EngineState, event: TurnEvent, action: TurnAction)
    requires
        sound(s),
        awaits(s.phase, event),
        asked(after(s, event), event, action),
    ensures
        event is StepBegan ==> action is PrepareContext,
        event matches TurnEvent::ContextReady { context } ==> action == (TurnAction::RunModel {
            context,
        }),
        event matches TurnEvent::SteerInjected { injected } ==> (s.phase is SteeringAfterAnswer
            && !injected <==> action is InjectFollowUp),
        event matches TurnEvent::FollowUpInjected { injected } ==> (!injected <==> action
            is ReadSteps),
        event is IncompleteClosed ==> action is ReadSteps,
        event is StepsRead ==> action is FinishTurn,
        event is Finished ==> action is Done,
        action is CloseIncomplete ==> s.steps_done == s.max_steps || event is Prepared,
        action matches TurnAction::CloseIncomplete { max_steps, final_text } ==> final_text@
            == s.final_text,
{
}

/// A new engine has begun nothing.
pub proof fn new_turns_have_begun_nothing(r: TurnEngine)
    requires
        call_ensures(TurnEngine::new, (), r),
    ensures
        r@.phase is Preparing,
        r@.steps_done == 0,
        r@.status is None,
        r@.final_text.len() == 0,
        r@.message is None,
{
}

} // verus!
