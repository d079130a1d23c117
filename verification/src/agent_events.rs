//! Events of a running agent, and what the durable record keeps of them.
use vstd::prelude::*;

use crate::context_engine::{ContextUsageUpdate, ProjectionExplain};
use crate::llm::TokenUsage;
use crate::text::{contains, has_part, has_prefix, has_suffix, opt_text};
use crate::turn_state::{hyphenated, StepId, TurnId};

verus! {

/// What happens while an agent runs.
#[derive(Debug)]
pub enum AgentEvent {
    TurnStart { turn_id: TurnId },
    StepBegin { turn_id: TurnId, step_id: StepId, step: u32 },
    TextDelta { delta: String },
    ThoughtDelta { delta: String },
    ToolCall { id: String, name: String, arguments: String },
    ToolResult { id: String, name: String, content: String, is_error: bool },
    ModeChanged { mode_id: String },
    /// The usage of a step, and the share of the context window that is in use.
    UsageUpdate { usage: TokenUsage, context: ContextUsageUpdate, context_epoch: u64 },
    /// The outbound view of a step is ready.
    ProjectionReady { explain: ProjectionExplain },
    SteerInput { text: String },
    LifecycleEvent { event: String, payload: String },
    Error { message: String },
    TurnEnd { turn_id: TurnId, steps: u32 },
}

/// The state that an execution checkpoint records.
#[derive(Debug, Clone, Copy, PartialEq, Eq, Structural)]
pub enum ExecutionCheckpointState {
    TurnStarted,
    TurnResumed,
    StepStarted,
    ToolStarted,
    ToolCompleted,
    TurnCancelled,
    TurnCompleted,
    Failed,
    RuntimeShutdown,
    RuntimeFailed,
}

/// A checkpoint of the execution. `ts` is the time it was made, in milliseconds.
#[derive(Debug)]
pub struct ExecutionCheckpoint {
    pub turn_id: String,
    pub step_id: Option<String>,
    pub tool_call_id: Option<String>,
    pub state: ExecutionCheckpointState,
    pub idempotency_key: String,
    pub context_epoch: Option<u64>,
    pub model_request_hash: Option<String>,
    pub ts: i64,
}

/// The contents of an [`ExecutionCheckpoint`].
pub struct Checkpoint {
    pub turn_id: Seq<char>,
    pub step_id: Option<Seq<char>>,
    pub tool_call_id: Option<Seq<char>>,
    pub state: ExecutionCheckpointState,
    pub idempotency_key: Seq<char>,
    pub context_epoch: Option<u64>,
    pub model_request_hash: Option<Seq<char>>,
    pub ts: i64,
}

impl View for ExecutionCheckpoint {
    type V = Checkpoint;

    open spec fn view(&self) -> Checkpoint {
        Checkpoint {
            turn_id: self.turn_id@,
            step_id: opt_text(self.step_id),
            tool_call_id: opt_text(self.tool_call_id),
            state: self.state,
            idempotency_key: self.idempotency_key@,
            context_epoch: self.context_epoch,
            model_request_hash: opt_text(self.model_request_hash),
            ts: self.ts,
        }
    }
}

/// The text of a turn, or `unknown`.
pub open spec fn turn_key(turn: Option<TurnId>) -> Seq<char> {
    match turn {
        Some(id) => hyphenated(id@),
        None => "unknown"@,
    }
}

/// The text of a step, or `unknown`.
pub open spec fn step_key(step: Option<StepId>) -> Seq<char> {
    match step {
        Some(id) => hyphenated(id@),
        None => "unknown"@,
    }
}

/// The text of a step, if there is one.
pub open spec fn step_text(step: Option<StepId>) -> Option<Seq<char>> {
    match step {
        Some(id) => Some(hyphenated(id@)),
        None => None,
    }
}

/// The idempotency key of a boundary of a tool call.
pub open spec fn tool_key(
    turn: Option<TurnId>,
    step: Option<StepId>,
    id: Seq<char>,
    boundary: Seq<char>,
) -> Seq<char> {
    "tool/"@ + turn_key(turn) + "/"@ + step_key(step) + "/"@ + id + "/"@ + boundary
}

/// The checkpoint that an event calls for in the current turn and step.
pub open spec fn checkpoint_for(
    event: AgentEvent,
    turn: Option<TurnId>,
    step: Option<StepId>,
    ts: i64,
) -> Option<Checkpoint> {
    match event {
        AgentEvent::TurnStart { turn_id } => Some(
            Checkpoint {
                turn_id: hyphenated(turn_id@),
                step_id: None,
                tool_call_id: None,
                state: ExecutionCheckpointState::TurnStarted,
                idempotency_key: hyphenated(turn_id@) + "/turn/started"@,
                context_epoch: None,
                model_request_hash: None,
                ts,
            },
        ),
        AgentEvent::StepBegin { turn_id, step_id, .. } => Some(
            Checkpoint {
                turn_id: hyphenated(turn_id@),
                step_id: Some(hyphenated(step_id@)),
                tool_call_id: None,
                state: ExecutionCheckpointState::StepStarted,
                idempotency_key: hyphenated(turn_id@) + "/"@ + hyphenated(step_id@) + "/started"@,
                context_epoch: None,
                model_request_hash: None,
                ts,
            },
        ),
        AgentEvent::ToolCall { id, .. } => Some(
            Checkpoint {
                turn_id: turn_key(turn),
                step_id: step_text(step),
                tool_call_id: Some(id@),
                state: ExecutionCheckpointState::ToolStarted,
                idempotency_key: tool_key(turn, step, id@, "started"@),
                context_epoch: None,
                model_request_hash: None,
                ts,
            },
        ),
        AgentEvent::ToolResult { id, .. } => Some(
            Checkpoint {
                turn_id: turn_key(turn),
                step_id: step_text(step),
                tool_call_id: Some(id@),
                state: ExecutionCheckpointState::ToolCompleted,
                idempotency_key: tool_key(turn, step, id@, "completed"@),
                context_epoch: None,
                model_request_hash: None,
                ts,
            },
        ),
        AgentEvent::Error { message } => Some(
            Checkpoint {
                turn_id: turn_key(turn),
                step_id: step_text(step),
                tool_call_id: None,
                state: ExecutionCheckpointState::Failed,
                idempotency_key: "error/"@ + turn_key(turn) + "/"@ + step_key(step) + "/"@
                    + message@,
                context_epoch: None,
                model_request_hash: None,
                ts,
            },
        ),
        _ => None,
    }
}

fn turn_key_text(turn: Option<TurnId>) -> (r: String)
    ensures
        r@ == turn_key(turn),
{
    match turn {
        Some(id) => id.text(),
        None => "unknown".to_string(),
    }
}

fn step_key_text(step: Option<StepId>) -> (r: String)
    ensures
        r@ == step_key(step),
{
    match step {
        Some(id) => id.text(),
        None => "unknown".to_string(),
    }
}

fn step_id_text(step: Option<StepId>) -> (r: Option<String>)
    ensures
        opt_text(r) == step_text(step),
{
    match step {
        Some(id) => Some(id.text()),
        None => None,
    }
}

fn tool_key_text(turn: Option<TurnId>, step: Option<StepId>, id: &str, boundary: &str) -> (r: String)
    ensures
        r@ == tool_key(turn, step, id@, boundary@),
{
    let mut key = "tool/".to_string();
    key.append(turn_key_text(turn).as_str());
    key.append("/");
    key.append(step_key_text(step).as_str());
    key.append("/");
    key.append(id);
    key.append("/");
    key.append(boundary);
    key
}

/// The checkpoints that an event calls for in the current turn and step, at the
/// time `ts`.
pub fn execution_checkpoints_from_agent_event(
    event: &AgentEvent,
    current_turn: Option<TurnId>,
    current_step: Option<StepId>,
    ts: i64,
) -> (r: Vec<ExecutionCheckpoint>)
    ensures
        match checkpoint_for(*event, current_turn, current_step, ts) {
            Some(checkpoint) => r@.len() == 1 && r@[0]@ == checkpoint,
            None => r@.len() == 0,
        },
{
    let mut out: Vec<ExecutionCheckpoint> = Vec::new();
    match event {
        AgentEvent::TurnStart { turn_id } => {
            let mut key = turn_id.text();
            key.append("/turn/started");
            out.push(
                ExecutionCheckpoint {
                    turn_id: turn_id.text(),
                    step_id: None,
                    tool_call_id: None,
                    state: ExecutionCheckpointState::TurnStarted,
                    idempotency_key: key,
                    context_epoch: None,
                    model_request_hash: None,
                    ts,
                },
            );
        },
        AgentEvent::StepBegin { turn_id, step_id, .. } => {
            let mut key = turn_id.text();
            key.append("/");
            key.append(step_id.text().as_str());
            key.append("/started");
            out.push(
                ExecutionCheckpoint {
                    turn_id: turn_id.text(),
                    step_id: Some(step_id.text()),
                    tool_call_id: None,
                    state: ExecutionCheckpointState::StepStarted,
                    idempotency_key: key,
                    context_epoch: None,
                    model_request_hash: None,
                    ts,
                },
            );
        },
        AgentEvent::ToolCall { id, .. } => {
            out.push(
                ExecutionCheckpoint {
                    turn_id: turn_key_text(current_turn),
                    step_id: step_id_text(current_step),
                    tool_call_id: Some(id.clone()),
                    state: ExecutionCheckpointState::ToolStarted,
                    idempotency_key: tool_key_text(
                        current_turn,
                        current_step,
                        id.as_str(),
                        "started",
                    ),
                    context_epoch: None,
                    model_request_hash: None,
                    ts,
                },
            );
        },
        AgentEvent::ToolResult { id, .. } => {
            out.push(
                ExecutionCheckpoint {
                    turn_id: turn_key_text(current_turn),
                    step_id: step_id_text(current_step),
                    tool_call_id: Some(id.clone()),
                    state: ExecutionCheckpointState::ToolCompleted,
                    idempotency_key: tool_key_text(
                        current_turn,
                        current_step,
                        id.as_str(),
                        "completed",
                    ),
                    context_epoch: None,
                    model_request_hash: None,
                    ts,
                },
            );
        },
        AgentEvent::Error { message } => {
            let mut key = "error/".to_string();
            key.append(turn_key_text(current_turn).as_str());
            key.append("/");
            key.append(step_key_text(current_step).as_str());
            key.append("/");
            key.append(message.as_str());
            out.push(
                ExecutionCheckpoint {
                    turn_id: turn_key_text(current_turn),
                    step_id: step_id_text(current_step),
                    tool_call_id: None,
                    state: ExecutionCheckpointState::Failed,
                    idempotency_key: key,
                    context_epoch: None,
                    model_request_hash: None,
                    ts,
                },
            );
        },
        AgentEvent::TurnEnd { .. }
        | AgentEvent::TextDelta { .. }
        | AgentEvent::ThoughtDelta { .. }
        | AgentEvent::ModeChanged { .. }
        | AgentEvent::UsageUpdate { .. }
        | AgentEvent::ProjectionReady { .. }
        | AgentEvent::SteerInput { .. }
        | AgentEvent::LifecycleEvent { .. } => {},
    }
    out
}

/// In one turn and step, two tool calls share a checkpoint key only if they have
/// the same id, and the two boundaries of a call never share one.
pub proof fn tool_keys_tell_calls_apart(
    turn: Option<TurnId>,
    step: Option<StepId>,
    a: Seq<char>,
    b: Seq<char>,
)
    ensures
        tool_key(turn, step, a, "started"@) == tool_key(turn, step, b, "started"@) ==> a == b,
        tool_key(turn, step, a, "completed"@) == tool_key(turn, step, b, "completed"@) ==> a == b,
        tool_key(turn, step, a, "started"@) != tool_key(turn, step, b, "completed"@),
{
    reveal_strlit("started");
    reveal_strlit("completed");
    let lead = "tool/"@ + turn_key(turn) + "/"@ + step_key(step) + "/"@;
    let n = lead.len() as int;
    let sa = tool_key(turn, step, a, "started"@);
    let sb = tool_key(turn, step, b, "started"@);
    let ca = tool_key(turn, step, a, "completed"@);
    let cb = tool_key(turn, step, b, "completed"@);
    reveal_strlit("/");
    assert(sa.subrange(n, sa.len() - 8) == a);
    assert(sb.subrange(n, sb.len() - 8) == b);
    assert(ca.subrange(n, ca.len() - 10) == a);
    assert(cb.subrange(n, cb.len() - 10) == b);
    assert(sa[sa.len() - 2] == 'e' && cb[cb.len() - 2] == 'e');
    assert(sa[sa.len() - 4] == 'r');
    assert(cb[cb.len() - 4] == 'e');
}

/// An entry of the session record.
#[derive(Debug)]
pub enum RecordEntry {
    StepBegin { turn_id: String, step_id: String, step: u32, ts: i64 },
    ToolCall { name: String, arguments: String, ts: i64 },
    ToolResult { name: String, content: String, is_error: bool, ts: i64 },
    TurnEnd { turn_id: String, steps: u32, ts: i64 },
    Error { message: String, ts: i64 },
    /// The context was compacted.
    Compaction {
        reason: String,
        compacted_count: usize,
        tokens_before: Option<u32>,
        tokens_after: Option<u32>,
        ts: i64,
    },
    /// The session went back to a checkpoint.
    Rewound { checkpoint_id: String, target_sequence: Option<u64>, ts: i64 },
}

/// Whether an entry is the one that the record keeps of an event.
pub open spec fn records(event: AgentEvent, ts: i64, entry: Option<RecordEntry>) -> bool {
    match event {
        AgentEvent::StepBegin { turn_id, step_id, step } => entry matches Some(
            RecordEntry::StepBegin { turn_id: t, step_id: s, step: n, ts: at },
        ) && t@ == hyphenated(turn_id@) && s@ == hyphenated(step_id@) && n == step && at == ts,
        AgentEvent::ToolCall { name, arguments, .. } => entry matches Some(
            RecordEntry::ToolCall { name: n, arguments: a, ts: at },
        ) && n@ == name@ && a@ == arguments@ && at == ts,
        AgentEvent::ToolResult { name, content, is_error, .. } => entry matches Some(
            RecordEntry::ToolResult { name: n, content: c, is_error: e, ts: at },
        ) && n@ == name@ && c@ == content@ && e == is_error && at == ts,
        AgentEvent::TurnEnd { turn_id, steps } => entry matches Some(
            RecordEntry::TurnEnd { turn_id: t, steps: n, ts: at },
        ) && t@ == hyphenated(turn_id@) && n == steps && at == ts,
        AgentEvent::Error { message } => entry matches Some(
            RecordEntry::Error { message: m, ts: at },
        ) && m@ == message@ && at == ts,
        _ => entry is None,
    }
}

/// The entry that the record keeps of an event at the time `ts`.
pub fn record_entry_from_agent_event(event: &AgentEvent, ts: i64) -> (r: Option<RecordEntry>)
    ensures
        records(*event, ts, r),
{
    match event {
        AgentEvent::StepBegin { turn_id, step_id, step } => Some(
            RecordEntry::StepBegin {
                turn_id: turn_id.text(),
                step_id: step_id.text(),
                step: *step,
                ts,
            },
        ),
        AgentEvent::ToolCall { name, arguments, .. } => Some(
            RecordEntry::ToolCall { name: name.clone(), arguments: arguments.clone(), ts },
        ),
        AgentEvent::ToolResult { name, content, is_error, .. } => Some(
            RecordEntry::ToolResult {
                name: name.clone(),
                content: content.clone(),
                is_error: *is_error,
                ts,
            },
        ),
        AgentEvent::TurnEnd { turn_id, steps } => Some(
            RecordEntry::TurnEnd { turn_id: turn_id.text(), steps: *steps, ts },
        ),
        AgentEvent::Error { message } => Some(RecordEntry::Error { message: message.clone(), ts }),
        AgentEvent::TurnStart { .. }
        | AgentEvent::TextDelta { .. }
        | AgentEvent::ThoughtDelta { .. }
        | AgentEvent::SteerInput { .. }
        | AgentEvent::ModeChanged { .. }
        | AgentEvent::UsageUpdate { .. }
        | AgentEvent::ProjectionReady { .. }
        | AgentEvent::LifecycleEvent { .. } => None,
    }
}

/// The turn and the step that events belong to.
#[derive(Debug, Clone, Copy, PartialEq, Eq, Structural)]
pub struct EventScope {
    pub turn: Option<TurnId>,
    pub step: Option<StepId>,
}

/// The scope after an event.
pub open spec fn scope_after(scope: EventScope, event: AgentEvent) -> EventScope {
    match event {
        AgentEvent::TurnStart { turn_id } => EventScope { turn: Some(turn_id), step: None },
        AgentEvent::StepBegin { turn_id, step_id, .. } => EventScope {
            turn: Some(turn_id),
            step: Some(step_id),
        },
        AgentEvent::TurnEnd { .. } => EventScope { turn: scope.turn, step: None },
        _ => scope,
    }
}

/// What is written down of an event.
#[derive(Debug)]
pub struct EventRecord {
    pub entry: Option<RecordEntry>,
    pub checkpoints: Vec<ExecutionCheckpoint>,
}

impl EventScope {
    /// The scope before any turn.
    pub fn new() -> (r: Self)
        ensures
            r.turn is None,
            r.step is None,
    {
        EventScope { turn: None, step: None }
    }

    /// Follows an event and says what is written down of it. The boundaries of tool
    /// calls get no checkpoint here: whoever runs the tools writes those, so that a
    /// failure to write can prevent the call.
    pub fn merge_event(&mut self, event: &AgentEvent, ts: i64) -> (r: EventRecord)
        ensures
            *final(self) == scope_after(*old(self), *event),
            records(*event, ts, r.entry),
            if event is ToolCall || event is ToolResult {
                r.checkpoints@.len() == 0
            } else {
                match checkpoint_for(*event, final(self).turn, final(self).step, ts) {
                    Some(checkpoint) => r.checkpoints@.len() == 1 && r.checkpoints@[0]@
                        == checkpoint,
                    None => r.checkpoints@.len() == 0,
                }
            },
    {
        match event {
            AgentEvent::TurnStart { turn_id } => {
                self.turn = Some(*turn_id);
                self.step = None;
            },
            AgentEvent::StepBegin { turn_id, step_id, .. } => {
                self.turn = Some(*turn_id);
                self.step = Some(*step_id);
            },
            AgentEvent::TurnEnd { .. } => {
                self.step = None;
            },
            _ => {},
        }
        let entry = record_entry_from_agent_event(event, ts);
        let tool_boundary = matches!(
            event,
            AgentEvent::ToolCall { .. } | AgentEvent::ToolResult { .. }
        );
        let checkpoints = if tool_boundary {
            Vec::new()
        } else {
            execution_checkpoints_from_agent_event(event, self.turn, self.step, ts)
        };
        EventRecord { entry, checkpoints }
    }
}

/// How a turn ended.
#[derive(Debug, Clone, Copy, PartialEq, Eq, Structural)]
pub enum TerminalState {
    Cancelled,
    Completed,
    Failed,
}

/// How a turn ended: cancelled when that was asked for or the turn says so, else
/// completed or failed by its result.
pub open spec fn terminal_state(
    token_cancelled: bool,
    result: Result<Seq<char>, Seq<char>>,
) -> TerminalState {
    if token_cancelled || (result is Err && has_part(result->Err_0, "aborted"@)) {
        TerminalState::Cancelled
    } else if result is Ok {
        TerminalState::Completed
    } else {
        TerminalState::Failed
    }
}

/// The name of a terminal state.
pub open spec fn terminal_name(state: TerminalState) -> Seq<char> {
    match state {
        TerminalState::Cancelled => "cancelled"@,
        TerminalState::Completed => "completed"@,
        TerminalState::Failed => "failed"@,
    }
}

impl TerminalState {
    /// The name of the state.
    pub fn name(self) -> (r: &'static str)
        ensures
            r@ == terminal_name(self),
    {
        match self {
            TerminalState::Cancelled => "cancelled",
            TerminalState::Completed => "completed",
            TerminalState::Failed => "failed",
        }
    }

    /// The checkpoint state that records it.
    pub fn checkpoint_state(self) -> (r: ExecutionCheckpointState)
        ensures
            r == (match self {
                TerminalState::Cancelled => ExecutionCheckpointState::TurnCancelled,
                TerminalState::Completed => ExecutionCheckpointState::TurnCompleted,
                TerminalState::Failed => ExecutionCheckpointState::Failed,
            }),
    {
        match self {
            TerminalState::Cancelled => ExecutionCheckpointState::TurnCancelled,
            TerminalState::Completed => ExecutionCheckpointState::TurnCompleted,
            TerminalState::Failed => ExecutionCheckpointState::Failed,
        }
    }
}

/// The checkpoint that ends a turn.
pub fn terminal_checkpoint(turn_id: TurnId, state: TerminalState, epoch: u64, ts: i64) -> (r:
    ExecutionCheckpoint)
    ensures
        r@ == (Checkpoint {
            turn_id: hyphenated(turn_id@),
            step_id: None,
            tool_call_id: None,
            state: match state {
                TerminalState::Cancelled => ExecutionCheckpointState::TurnCancelled,
                TerminalState::Completed => ExecutionCheckpointState::TurnCompleted,
                TerminalState::Failed => ExecutionCheckpointState::Failed,
            },
            idempotency_key: hyphenated(turn_id@) + "/turn/"@ + terminal_name(state),
            context_epoch: Some(epoch),
            model_request_hash: None,
            ts,
        }),
{
    let mut key = turn_id.text();
    key.append("/turn/");
    key.append(state.name());
    ExecutionCheckpoint {
        turn_id: turn_id.text(),
        step_id: None,
        tool_call_id: None,
        state: state.checkpoint_state(),
        idempotency_key: key,
        context_epoch: Some(epoch),
        model_request_hash: None,
        ts,
    }
}

/// What the agent does in the course of a prompt.
#[derive(Debug)]
pub enum PromptEffect {
    /// Write the prompt to the record.
    RecordPrompt { turn_id: String, prompt: String },
    /// Record the start of the turn with the session, and link it under the key.
    RecordTurnStarted { turn_id: String, prompt: String, link_key: String },
    /// Publish an event.
    Emit { event: AgentEvent },
    /// Ask the hooks whether the agent may start.
    RunBeforeStartHooks,
    /// Announce that the agent starts.
    AnnounceStart,
    /// Run the turn.
    RunTurn,
    /// Record the end of the turn with the session.
    RecordTurnEnded { turn_id: String, steps: u32, status: &'static str },
    /// Write the checkpoint that ends the turn, with the session and the record.
    AppendTerminalCheckpoint { state: TerminalState },
    /// The agent is free again.
    EndTurn,
    /// The prompt is answered.
    Return { result: Result<String, String> },
}

/// The effects with which a prompt opens: everything up to the hooks.
pub fn prompt_opening(turn_id: TurnId, user_input: &str) -> (r: Vec<PromptEffect>)
    ensures
        r@.len() == 4,
        r@[0] matches PromptEffect::RecordPrompt { turn_id: t, prompt } && t@ == hyphenated(
            turn_id@,
        ) && prompt@ == user_input@,
        r@[1] matches PromptEffect::RecordTurnStarted { turn_id: t, prompt, link_key } && t@
            == hyphenated(turn_id@) && prompt@ == user_input@ && link_key@ == hyphenated(turn_id@)
            + "/turn/started"@,
        r@[2] == (PromptEffect::Emit { event: AgentEvent::TurnStart { turn_id } }),
        r@[3] is RunBeforeStartHooks,
{
    let mut key = turn_id.text();
    key.append("/turn/started");
    let mut out: Vec<PromptEffect> = Vec::new();
    out.push(PromptEffect::RecordPrompt { turn_id: turn_id.text(), prompt: user_input.to_string() });
    out.push(
        PromptEffect::RecordTurnStarted {
            turn_id: turn_id.text(),
            prompt: user_input.to_string(),
            link_key: key,
        },
    );
    out.push(PromptEffect::Emit { event: AgentEvent::TurnStart { turn_id } });
    out.push(PromptEffect::RunBeforeStartHooks);
    out
}

/// The effects once the hooks have answered: the turn is run, or it ends as
/// blocked. A blocked turn stays the active one.
pub fn prompt_after_hooks(turn_id: TurnId, blocked: Option<String>) -> (r: Vec<PromptEffect>)
    ensures
        match blocked {
            None => r@.len() == 2 && r@[0] is AnnounceStart && r@[1] is RunTurn,
            Some(reason) => {
                &&& r@.len() == 4
                &&& r@[0] matches PromptEffect::Emit { event: AgentEvent::Error { message } }
                    && message@ == "Agent start blocked: "@ + reason@
                &&& r@[1] == (PromptEffect::Emit {
                    event: AgentEvent::TurnEnd { turn_id, steps: 0 },
                })
                &&& r@[2] matches PromptEffect::RecordTurnEnded { turn_id: t, steps, status } && t@
                    == hyphenated(turn_id@) && steps == 0 && status@ == "blocked"@
                &&& r@[3] matches PromptEffect::Return { result: Err(message) } && message@
                    == "agent start blocked by hook: "@ + reason@
            },
        },
{
    let mut out: Vec<PromptEffect> = Vec::new();
    match blocked {
        None => {
            out.push(PromptEffect::AnnounceStart);
            out.push(PromptEffect::RunTurn);
        },
        Some(reason) => {
            let mut told = "Agent start blocked: ".to_string();
            told.append(reason.as_str());
            let mut error = "agent start blocked by hook: ".to_string();
            error.append(reason.as_str());
            out.push(PromptEffect::Emit { event: AgentEvent::Error { message: told } });
            out.push(PromptEffect::Emit { event: AgentEvent::TurnEnd { turn_id, steps: 0 } });
            out.push(
                PromptEffect::RecordTurnEnded {
                    turn_id: turn_id.text(),
                    steps: 0,
                    status: "blocked",
                },
            );
            out.push(PromptEffect::Return { result: Err(error) });
        },
    }
    out
}

/// The result of a turn with its texts.
pub open spec fn turn_result(result: Result<String, String>) -> Result<Seq<char>, Seq<char>> {
    match result {
        Ok(text) => Ok(text@),
        Err(message) => Err(message@),
    }
}

/// Whether the end of a turn is announced as an error.
pub open spec fn tells_error(result: Result<Seq<char>, Seq<char>>) -> bool {
    result is Err && !has_part(result->Err_0, "aborted"@)
}

/// The status under which the session records the end of a turn.
pub open spec fn ended_status(
    token_cancelled: bool,
    result: Result<Seq<char>, Seq<char>>,
) -> Seq<char> {
    if result is Ok {
        "completed"@
    } else if terminal_state(token_cancelled, result) is Cancelled {
        "cancelled"@
    } else {
        "failed"@
    }
}

/// The effects with which a prompt ends once its turn has run.
pub fn prompt_conclusion(
    turn_id: TurnId,
    steps: u32,
    token_cancelled: bool,
    result: Result<String, String>,
) -> (r: Vec<PromptEffect>)
    ensures
        ({
            let seen = turn_result(result);
            let shift: int = if tells_error(seen) {
                1
            } else {
                0
            };
            &&& r@.len() == 5 + shift
            &&& tells_error(seen) ==> (r@[0] matches PromptEffect::Emit {
                event: AgentEvent::Error { message },
            } && message@ == seen->Err_0)
            &&& r@[shift] == (PromptEffect::Emit { event: AgentEvent::TurnEnd { turn_id, steps } })
            &&& r@[shift + 1] matches PromptEffect::RecordTurnEnded { turn_id: t, steps: n, status }
                && t@ == hyphenated(turn_id@) && n == steps && status@ == ended_status(
                token_cancelled,
                seen,
            )
            &&& r@[shift + 2] == (PromptEffect::AppendTerminalCheckpoint {
                state: terminal_state(token_cancelled, seen),
            })
            &&& r@[shift + 3] is EndTurn
            &&& r@[shift + 4] == (PromptEffect::Return { result })
        }),
{
    let mut out: Vec<PromptEffect> = Vec::new();
    let mut aborted = false;
    let mut ok = true;
    if let Err(message) = &result {
        ok = false;
        aborted = contains(message.as_str(), "aborted");
        if !aborted {
            out.push(PromptEffect::Emit { event: AgentEvent::Error { message: message.clone() } });
        }
    }
    let state = if token_cancelled || aborted {
        TerminalState::Cancelled
    } else if ok {
        TerminalState::Completed
    } else {
        TerminalState::Failed
    };
    let status = if ok {
        "completed"
    } else if token_cancelled || aborted {
        "cancelled"
    } else {
        "failed"
    };
    out.push(PromptEffect::Emit { event: AgentEvent::TurnEnd { turn_id, steps } });
    out.push(PromptEffect::RecordTurnEnded { turn_id: turn_id.text(), steps, status });
    out.push(PromptEffect::AppendTerminalCheckpoint { state });
    out.push(PromptEffect::EndTurn);
    out.push(PromptEffect::Return { result });
    out
}

/// A cancelled turn is recorded as cancelled whatever it returned. Any other turn is
/// recorded as completed exactly when it gave a result, and as failed exactly when its
/// error is announced.
pub proof fn cancelled_turns_are_not_completed(result: Result<Seq<char>, Seq<char>>)
    ensures
        terminal_state(true, result) is Cancelled,
        terminal_state(false, result) is Completed <==> result is Ok,
        terminal_state(false, result) is Failed <==> tells_error(result),
{
}

/// A checkpoint belongs to the turn and the step it is about, is made at its time, and says
/// what happened: a turn or a step that started, a tool call that started or completed, or a
/// failure. Nothing else is worth one.
pub proof fn checkpoints_say_what_happened(
    event: AgentEvent,
    turn: Option<TurnId>,
    step: Option<StepId>,
    ts: i64,
)
    ensures
        checkpoint_for(event, turn, step, ts) is Some <==> event is TurnStart || event is StepBegin
            || event is ToolCall || event is ToolResult || event is Error,
        checkpoint_for(event, turn, step, ts) matches Some(c) ==> {
            &&& c.ts == ts
            &&& c.context_epoch is None
            &&& event is TurnStart <==> c.state is TurnStarted
            &&& event is StepBegin <==> c.state is StepStarted
            &&& event is ToolCall <==> c.state is ToolStarted
            &&& event is ToolResult <==> c.state is ToolCompleted
            &&& event is Error <==> c.state is Failed
            &&& event matches AgentEvent::TurnStart { turn_id } ==> c.turn_id == hyphenated(turn_id@)
                && c.step_id is None
            &&& event matches AgentEvent::StepBegin { turn_id, step_id, .. } ==> c.turn_id
                == hyphenated(turn_id@) && c.step_id == Some(hyphenated(step_id@))
            &&& event matches AgentEvent::ToolCall { id, .. } ==> c.tool_call_id == Some(id@)
            &&& event matches AgentEvent::ToolResult { id, .. } ==> c.tool_call_id == Some(id@)
            &&& (event is ToolCall || event is ToolResult || event is Error) && turn is Some
                ==> c.turn_id == hyphenated(turn->0@)
            &&& (event is ToolCall || event is ToolResult || event is Error) && step is Some
                ==> c.step_id == Some(hyphenated(step->0@))
        },
{
}

/// The record keeps steps, tool calls, their results, ends of turns and errors as they are
/// told, with their time, and nothing of the other events.
pub proof fn records_keep_what_is_told(
    event: &AgentEvent,
    ts: i64,
    entry: Option<RecordEntry>,
)
    requires
        call_ensures(record_entry_from_agent_event, (event, ts), entry),
    ensures
        entry is Some <==> event is StepBegin || event is ToolCall || event is ToolResult
            || event is TurnEnd || event is Error,
        event matches AgentEvent::ToolCall { name, arguments, .. } ==> (entry matches Some(
            RecordEntry::ToolCall { name: n, arguments: a, ts: at },
        ) && n@ == name@ && a@ == arguments@ && at == ts),
        event matches AgentEvent::ToolResult { name, content, is_error, .. } ==> (
        entry matches Some(RecordEntry::ToolResult { name: n, content: c, is_error: e, ts: at })
            && n@ == name@ && c@ == content@ && e == is_error && at == ts),
        event matches AgentEvent::TurnEnd { steps, .. } ==> (entry matches Some(
            RecordEntry::TurnEnd { steps: n, ts: at, .. },
        ) && n == steps && at == ts),
        event matches AgentEvent::Error { message } ==> (entry matches Some(
            RecordEntry::Error { message: m, ts: at },
        ) && m@ == message@ && at == ts),
        event matches AgentEvent::StepBegin { step, .. } ==> (entry matches Some(
            RecordEntry::StepBegin { step: n, ts: at, .. },
        ) && n == step && at == ts),
{
}

/// Events are recorded under the turn and the step in progress: a turn that starts leaves the
/// step before it, a step that begins is the one in progress, and a turn that ended leaves its
/// step. The boundaries of tool calls get no checkpoint here.
pub proof fn events_are_recorded_in_scope(
    scope: &mut EventScope,
    event: &AgentEvent,
    ts: i64,
    r: EventRecord,
)
    requires
        call_ensures(EventScope::merge_event, (scope, event, ts), r),
    ensures
        event matches AgentEvent::TurnStart { turn_id } ==> final(scope).turn == Some(*turn_id)
            && final(scope).step is None,
        event matches AgentEvent::StepBegin { turn_id, step_id, .. } ==> final(scope).turn == Some(
            *turn_id,
        ) && final(scope).step == Some(*step_id),
        event is TurnEnd ==> final(scope).turn == old(scope).turn && final(scope).step is None,
        !(event is TurnStart || event is StepBegin || event is TurnEnd) ==> *final(scope) == *old(scope),
        event is ToolCall || event is ToolResult ==> r.checkpoints@.len() == 0 && r.entry is Some,
        event is TurnStart || event is StepBegin || event is Error ==> r.checkpoints@.len() == 1,
        event is Error && old(scope).turn is Some ==> r.checkpoints@[0]@.turn_id == hyphenated(
            old(scope).turn->0@,
        ),
        event is TextDelta || event is ThoughtDelta || event is LifecycleEvent ==> r.entry is None
            && r.checkpoints@.len() == 0,
{
}

/// A prompt is written down before anything runs, then announced, and only then the hooks
/// are asked.
pub proof fn prompts_are_recorded_first(turn_id: TurnId, user_input: &str, r: Vec<PromptEffect>)
    requires
        call_ensures(prompt_opening, (turn_id, user_input), r),
    ensures
        r@.len() == 4,
        r@[0] matches PromptEffect::RecordPrompt { turn_id: t, prompt } && t@ == hyphenated(turn_id@)
            && prompt@ == user_input@,
        r@[1] matches PromptEffect::RecordTurnStarted { turn_id: t, prompt, .. } && t@ == hyphenated(
            turn_id@,
        ) && prompt@ == user_input@,
        r@[2] == (PromptEffect::Emit { event: AgentEvent::TurnStart { turn_id } }),
        r@[3] is RunBeforeStartHooks,
{
}

/// A prompt that the hooks let through runs its turn. One that they block does not: its end
/// after no steps is announced and recorded as blocked, and the reason is what it returns.
pub proof fn blocked_prompts_run_no_turn(
    turn_id: TurnId,
    reason: Option<String>,
    r: Vec<PromptEffect>,
)
    requires
        call_ensures(prompt_after_hooks, (turn_id, reason), r),
    ensures
        reason is None ==> r@.len() == 2 && r@[0] is AnnounceStart && r@[1] is RunTurn,
        reason matches Some(why) ==> {
            &&& forall|i: int| 0 <= i < r@.len() ==> !((#[trigger] r@[i]) is RunTurn)
            &&& r@.len() == 4
            &&& r@[1] == (PromptEffect::Emit { event: AgentEvent::TurnEnd { turn_id, steps: 0 } })
            &&& r@[2] matches PromptEffect::RecordTurnEnded { steps, status, .. } && steps == 0
                && status@ == "blocked"@
            &&& r@[3] matches PromptEffect::Return { result: Err(message) } && has_suffix(
                message@,
                why@,
            )
        },
{
    if let Some(why) = reason {
        let message = "agent start blocked by hook: "@ + why@;
        assert(message.subrange(message.len() - why@.len(), message.len() as int) == why@);
    }
}

/// However a turn went, its end is announced and recorded with its steps, its terminal
/// checkpoint is written, the turn is ended, and its result is what the prompt returns. A
/// result is recorded as completed; an error as cancelled where it was aborted or the turn was
/// cancelled, and else as failed, which alone is announced as an error.
pub proof fn ended_prompts_are_recorded(
    turn_id: TurnId,
    steps: u32,
    token_cancelled: bool,
    result: Result<String, String>,
    r: Vec<PromptEffect>,
)
    requires
        call_ensures(prompt_conclusion, (turn_id, steps, token_cancelled, result), r),
    ensures
        ({
            let n = r@.len() as int;
            let aborted = result matches Err(message) && has_part(message@, "aborted"@);
            &&& n >= 5
            &&& r@[n - 1] == (PromptEffect::Return { result })
            &&& r@[n - 2] is EndTurn
            &&& r@[n - 3] == (PromptEffect::AppendTerminalCheckpoint {
                state: if token_cancelled || aborted {
                    TerminalState::Cancelled
                } else if result is Ok {
                    TerminalState::Completed
                } else {
                    TerminalState::Failed
                },
            })
            &&& r@[n - 4] matches PromptEffect::RecordTurnEnded { turn_id: t, steps: s, status } && t@
                == hyphenated(turn_id@) && s == steps && status@ == (if result is Ok {
                "completed"@
            } else if token_cancelled || aborted {
                "cancelled"@
            } else {
                "failed"@
            })
            &&& r@[n - 5] == (PromptEffect::Emit { event: AgentEvent::TurnEnd { turn_id, steps } })
            &&& n == 6 <==> result is Err && !aborted
            &&& n == 5 <==> result is Ok || aborted
            &&& n == 6 ==> (r@[0] matches PromptEffect::Emit {
                event: AgentEvent::Error { message },
            } && message@ == result->Err_0@)
        }),
{
}

/// The checkpoint that ends a turn names the turn, how it ended and its epoch.
pub proof fn terminal_checkpoints_say_how_it_ended(
    turn_id: TurnId,
    state: TerminalState,
    epoch: u64,
    ts: i64,
    r: ExecutionCheckpoint,
)
    requires
        call_ensures(terminal_checkpoint, (turn_id, state, epoch, ts), r),
    ensures
        r.turn_id@ == hyphenated(turn_id@),
        r.context_epoch == Some(epoch),
        r.ts == ts,
        r.step_id is None && r.tool_call_id is None,
        state is Cancelled ==> r.state is TurnCancelled && has_suffix(
            r.idempotency_key@,
            "/turn/"@ + "cancelled"@,
        ),
        state is Completed ==> r.state is TurnCompleted && has_suffix(
            r.idempotency_key@,
            "/turn/"@ + "completed"@,
        ),
        state is Failed ==> r.state is Failed && has_suffix(
            r.idempotency_key@,
            "/turn/"@ + "failed"@,
        ),
        has_prefix(r.idempotency_key@, hyphenated(turn_id@)),
{
    assert(r@.turn_id == r.turn_id@);
    assert(r@.step_id == opt_text(r.step_id));
    assert(r@.tool_call_id == opt_text(r.tool_call_id));
    let key = r.idempotency_key@;
    let ending = "/turn/"@ + terminal_name(state);
    assert(key == hyphenated(turn_id@) + ending);
    assert(key.subrange(key.len() - ending.len(), key.len() as int) == ending);
    assert(key.subrange(0, hyphenated(turn_id@).len() as int) == hyphenated(turn_id@));
}

/// A checkpoint is known again by its key: the turn, the step and the call that it belongs to,
/// and the boundary that it marks.
pub proof fn checkpoints_are_known_by_their_key(
    event: AgentEvent,
    turn: TurnId,
    step: StepId,
    ts: i64,
)
    ensures
        checkpoint_for(event, Some(turn), Some(step), ts) matches Some(c) ==> {
            &&& event matches AgentEvent::TurnStart { turn_id } ==> c.idempotency_key == hyphenated(
                turn_id@,
            ) + "/turn/started"@
            &&& event matches AgentEvent::StepBegin { turn_id, step_id, .. } ==> c.idempotency_key
                == hyphenated(turn_id@) + "/"@ + hyphenated(step_id@) + "/started"@
            &&& event matches AgentEvent::ToolCall { id, .. } ==> c.idempotency_key == "tool/"@
                + hyphenated(turn@) + "/"@ + hyphenated(step@) + "/"@ + id@ + "/"@ + "started"@
            &&& event matches AgentEvent::ToolResult { id, .. } ==> c.idempotency_key == "tool/"@
                + hyphenated(turn@) + "/"@ + hyphenated(step@) + "/"@ + id@ + "/"@ + "completed"@
            &&& event matches AgentEvent::Error { message } ==> c.idempotency_key == "error/"@
                + hyphenated(turn@) + "/"@ + hyphenated(step@) + "/"@ + message@
        },
        turn_key(None) == "unknown"@,
        step_key(None) == "unknown"@,
{
}

/// An event calls for at most one checkpoint.
pub proof fn events_call_for_one_checkpoint(
    event: &AgentEvent,
    turn: Option<TurnId>,
    step: Option<StepId>,
    ts: i64,
    r: Vec<ExecutionCheckpoint>,
)
    requires
        call_ensures(execution_checkpoints_from_agent_event, (event, turn, step, ts), r),
    ensures
        r@.len() == (if event is TurnStart || event is StepBegin || event is ToolCall
            || event is ToolResult || event is Error {
            1int
        } else {
            0int
        }),
        r@.len() > 0 ==> Some(r@[0]@) == checkpoint_for(*event, turn, step, ts),
{
}

} // verus!
