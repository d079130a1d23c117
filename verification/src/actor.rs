//! Runtime actor: the decisions of the long-lived owner of one agent.
//!
//! The actor owns the queues. It is told about commands, answers of the agent and
//! finished turns, and says what to do: reply, start a turn, cancel, record, publish.
use std::collections::VecDeque;

use vstd::multiset::Multiset;
use vstd::prelude::*;

use crate::permission::PromptChoice;
use crate::text::{contains, has_part, occurs_at, opt_text, texts, trim, trimmed};
use crate::turn_state::{QueueMode, SteerBuffer, TurnId};

verus! {

/// A decision on an approval request.
#[derive(Debug, Clone, Copy, PartialEq, Eq, Structural)]
pub enum ApprovalDecision {
    AllowOnce,
    AllowSession,
    Deny,
}

/// The permission choice that an approval decision stands for.
pub fn prompt_choice(decision: ApprovalDecision) -> (r: PromptChoice)
    ensures
        r == (match decision {
            ApprovalDecision::AllowOnce => PromptChoice::AllowOnce,
            ApprovalDecision::AllowSession => PromptChoice::AllowSession,
            ApprovalDecision::Deny => PromptChoice::Deny,
        }),
{
    match decision {
        ApprovalDecision::AllowOnce => PromptChoice::AllowOnce,
        ApprovalDecision::AllowSession => PromptChoice::AllowSession,
        ApprovalDecision::Deny => PromptChoice::Deny,
    }
}

/// What the runtime is doing.
#[derive(Debug, Clone)]
pub enum ExecutionState {
    Idle,
    Starting,
    Running { turn_id: TurnId, step: u32 },
    Shutdown,
}

/// How a turn, or the runtime itself, ended.
#[derive(Debug, Clone)]
pub enum RuntimeLifecycle {
    Completed,
    Cancelled,
    Failed { message: String },
    Shutdown,
}

/// The contents of a [`RuntimeLifecycle`].
pub enum Lifecycle {
    Completed,
    Cancelled,
    Failed { message: Seq<char> },
    Shutdown,
}

impl View for RuntimeLifecycle {
    type V = Lifecycle;

    open spec fn view(&self) -> Lifecycle {
        match self {
            RuntimeLifecycle::Completed => Lifecycle::Completed,
            RuntimeLifecycle::Cancelled => Lifecycle::Cancelled,
            RuntimeLifecycle::Failed { message } => Lifecycle::Failed { message: message@ },
            RuntimeLifecycle::Shutdown => Lifecycle::Shutdown,
        }
    }
}

/// The result of a prompt, or its error message.
pub open spec fn result_text(result: Result<String, String>) -> Result<Seq<char>, Seq<char>> {
    match result {
        Ok(text) => Ok(text@),
        Err(message) => Err(message@),
    }
}

/// How a turn with the given result ended.
pub open spec fn lifecycle_of(cancelled: bool, result: Result<Seq<char>, Seq<char>>) -> Lifecycle {
    if cancelled {
        Lifecycle::Cancelled
    } else {
        match result {
            Ok(_) => Lifecycle::Completed,
            Err(message) => if has_part(message, "aborted"@) {
                Lifecycle::Cancelled
            } else {
                Lifecycle::Failed { message }
            },
        }
    }
}

/// How a turn with the given result ended.
pub fn terminal_lifecycle(cancelled: bool, result: &Result<String, String>) -> (r: RuntimeLifecycle)
    ensures
        r@ == lifecycle_of(cancelled, result_text(*result)),
{
    if cancelled {
        return RuntimeLifecycle::Cancelled;
    }
    match result {
        Ok(_) => RuntimeLifecycle::Completed,
        Err(message) => {
            if contains(message.as_str(), "aborted") {
                RuntimeLifecycle::Cancelled
            } else {
                RuntimeLifecycle::Failed { message: message.clone() }
            }
        },
    }
}

/// What can be done about execution that an earlier runtime left behind.
#[derive(Debug, Clone, Copy, PartialEq, Eq, Structural)]
pub enum RecoveryDisposition {
    Clean,
    AlreadyCompleted,
    SafeToResume,
    RequiresToolInspection,
    RequiresManualIntervention,
}

/// The protocol name of a recovery disposition.
pub open spec fn disposition_name(disposition: RecoveryDisposition) -> Seq<char> {
    match disposition {
        RecoveryDisposition::Clean => "clean"@,
        RecoveryDisposition::AlreadyCompleted => "already_completed"@,
        RecoveryDisposition::SafeToResume => "safe_to_resume"@,
        RecoveryDisposition::RequiresToolInspection => "requires_tool_inspection"@,
        RecoveryDisposition::RequiresManualIntervention => "requires_manual_intervention"@,
    }
}

/// The protocol name of a recovery disposition.
pub fn recovery_disposition_name(disposition: RecoveryDisposition) -> (r: &'static str)
    ensures
        r@ == disposition_name(disposition),
{
    match disposition {
        RecoveryDisposition::Clean => "clean",
        RecoveryDisposition::AlreadyCompleted => "already_completed",
        RecoveryDisposition::SafeToResume => "safe_to_resume",
        RecoveryDisposition::RequiresToolInspection => "requires_tool_inspection",
        RecoveryDisposition::RequiresManualIntervention => "requires_manual_intervention",
    }
}

/// A turn that may be resumed at a model boundary.
#[derive(Debug, Clone)]
pub struct ResumeCandidate {
    pub turn_id: String,
    pub prompt: String,
}

/// What the durable record says about recovery.
#[derive(Debug)]
pub struct RecoveryView {
    pub disposition: RecoveryDisposition,
    pub has_incomplete_execution: bool,
    pub active_turn_count: usize,
    pub active_tool_count: usize,
    pub safe_resume_allowed: bool,
    pub automatic_resume_implemented: bool,
    pub reason: String,
    pub resume_candidates: Vec<ResumeCandidate>,
}

/// What a runtime may do about what an earlier one left behind.
#[derive(Debug)]
pub struct RecoveryPlan {
    pub disposition: RecoveryDisposition,
    pub safe_resume_allowed: bool,
    pub automatic_resume_implemented: bool,
    pub reason: String,
}

impl RecoveryView {
    /// The conservative plan for recovery. It starts nothing.
    pub fn plan(&self) -> (r: RecoveryPlan)
        ensures
            r.disposition == self.disposition,
            r.safe_resume_allowed == self.safe_resume_allowed,
            r.automatic_resume_implemented == self.automatic_resume_implemented,
            r.reason@ == self.reason@,
    {
        RecoveryPlan {
            disposition: self.disposition,
            safe_resume_allowed: self.safe_resume_allowed,
            automatic_resume_implemented: self.automatic_resume_implemented,
            reason: self.reason.clone(),
        }
    }
}

/// What a client is told about recovery.
#[derive(Debug)]
pub struct RuntimeRecoveryInfo {
    pub disposition: String,
    pub has_incomplete_execution: bool,
    pub active_turn_count: usize,
    pub active_tool_count: usize,
    pub safe_resume_allowed: bool,
    pub automatic_resume: bool,
    pub reason: String,
}

/// What a client is told about recovery.
pub fn recovery_info(view: &RecoveryView) -> (r: RuntimeRecoveryInfo)
    ensures
        r.disposition@ == disposition_name(view.disposition),
        r.has_incomplete_execution == view.has_incomplete_execution,
        r.active_turn_count == view.active_turn_count,
        r.active_tool_count == view.active_tool_count,
        r.safe_resume_allowed == view.safe_resume_allowed,
        r.automatic_resume == view.automatic_resume_implemented,
        r.reason@ == view.reason@,
{
    let plan = view.plan();
    RuntimeRecoveryInfo {
        disposition: recovery_disposition_name(plan.disposition).to_string(),
        has_incomplete_execution: view.has_incomplete_execution,
        active_turn_count: view.active_turn_count,
        active_tool_count: view.active_tool_count,
        safe_resume_allowed: plan.safe_resume_allowed,
        automatic_resume: plan.automatic_resume_implemented,
        reason: plan.reason,
    }
}

/// The prompt of the turn that may be resumed without asking: the first candidate,
/// where automatic resume is in order.
pub open spec fn resumable(view: RecoveryView) -> Option<ResumeCandidate> {
    if view.automatic_resume_implemented && view.resume_candidates@.len() > 0 {
        Some(view.resume_candidates@[0])
    } else {
        None
    }
}

/// The turn that may be resumed without asking.
pub fn resume_candidate(view: &RecoveryView) -> (r: Option<ResumeCandidate>)
    ensures
        r is Some <==> resumable(*view) is Some,
        r matches Some(candidate) ==> candidate.turn_id@ == resumable(*view)->0.turn_id@
            && candidate.prompt@ == resumable(*view)->0.prompt@,
{
    if view.automatic_resume_implemented && view.resume_candidates.len() > 0 {
        let first = &view.resume_candidates[0];
        Some(ResumeCandidate { turn_id: first.turn_id.clone(), prompt: first.prompt.clone() })
    } else {
        None
    }
}

/// The turn that a new runtime resumes on its own: the resumable one, if its fence
/// could be claimed.
pub fn automatic_candidate(candidate: Option<ResumeCandidate>, claim: Result<bool, String>) -> (r:
    Option<ResumeCandidate>)
    ensures
        r == (if claim == Ok::<bool, String>(true) {
            candidate
        } else {
            None
        }),
{
    match claim {
        Ok(true) => candidate,
        _ => None,
    }
}

/// The idempotency key of a checkpoint of the runtime itself.
pub fn runtime_checkpoint_key(session_id: &str, detail: Option<&str>) -> (r: String)
    ensures
        r@ == "runtime/"@ + session_id@ + "/"@ + (match detail {
            Some(suffix) => suffix@,
            None => "shutdown"@,
        }),
{
    let suffix = match detail {
        Some(suffix) => suffix,
        None => "shutdown",
    };
    let mut out = "runtime/".to_string();
    out.append(session_id);
    out.append("/");
    out.append(suffix);
    out
}

/// A command to the runtime.
#[derive(Debug)]
pub enum RuntimeCommand {
    Prompt { text: String },
    Steer { text: String },
    FollowUp { text: String },
    SetSteeringMode { mode: QueueMode },
    SetFollowUpMode { mode: QueueMode },
    ResumeSafeTurn,
    Cancel,
    SetMode { mode_id: String },
    GetMode,
    ActivateTools { names: Vec<String> },
    DeactivateTools { names: Vec<String> },
    Approval { request_id: String, decision: ApprovalDecision },
    Shutdown,
}

/// The answer to a command.
#[derive(Debug)]
pub enum RuntimeResponse {
    Accepted,
    Prompt { text: String },
    Mode { mode_id: String },
    Tools { names: Vec<String> },
}

/// The contents of a [`RuntimeResponse`].
pub enum Response {
    Accepted,
    Prompt { text: Seq<char> },
    Mode { mode_id: Seq<char> },
    Tools { names: Seq<Seq<char>> },
}

impl View for RuntimeResponse {
    type V = Response;

    open spec fn view(&self) -> Response {
        match self {
            RuntimeResponse::Accepted => Response::Accepted,
            RuntimeResponse::Prompt { text } => Response::Prompt { text: text@ },
            RuntimeResponse::Mode { mode_id } => Response::Mode { mode_id: mode_id@ },
            RuntimeResponse::Tools { names } => Response::Tools { names: texts(names@) },
        }
    }
}

/// A prompt that waits for its turn. `reply` tells where its answer goes.
#[derive(Debug)]
pub struct PendingPrompt {
    pub text: String,
    pub reply: u64,
}

/// The contents of a [`PendingPrompt`].
pub struct Pending {
    pub text: Seq<char>,
    pub reply: u64,
}

impl View for PendingPrompt {
    type V = Pending;

    open spec fn view(&self) -> Pending {
        Pending { text: self.text@, reply: self.reply }
    }
}

/// The contents of waiting prompts.
pub open spec fn pending_list(prompts: Seq<PendingPrompt>) -> Seq<Pending> {
    Seq::new(prompts.len(), |i: int| prompts[i]@)
}

/// What the actor asks the agent, which it owns while idle.
#[derive(Debug)]
pub enum AgentQuestion {
    RecoverySnapshot,
    ClaimResume { candidate: ResumeCandidate },
    SetSteeringMode { mode: QueueMode },
    SetFollowUpMode { mode: QueueMode },
    SetMode { mode_id: String },
    GetMode,
    ActivateTools { names: Vec<String> },
    DeactivateTools { names: Vec<String> },
}

/// What the agent answers.
#[derive(Debug)]
pub enum AgentAnswer {
    Snapshot(Result<RecoveryView, String>),
    Claimed { candidate: ResumeCandidate, claim: Result<bool, String> },
    QueueModeSet,
    ModeSet(Result<String, String>),
    Mode(String),
    Tools(Vec<String>),
}

/// What the actor wants done.
#[derive(Debug)]
pub enum ActorEffect {
    /// Send the answer of a command.
    Reply { reply: u64, result: Result<RuntimeResponse, String> },
    /// Give the agent to a task that runs the prompt.
    Start { prompt: PendingPrompt, resume: bool },
    /// Ask the agent, and hand back its answer for the same command.
    Ask { reply: u64, question: AgentQuestion },
    /// Resolve a waiting approval, and hand back whether it was there.
    ResolveApproval { reply: u64, request_id: String, decision: ApprovalDecision },
    /// Give up every waiting approval.
    CancelWaiters,
    /// Cancel the active turn.
    CancelTurn,
    /// Announce how a turn, or the runtime, ended.
    Publish { lifecycle: RuntimeLifecycle },
    /// Announce the session mode.
    PublishState { state: String },
    /// Record that the runtime shut down.
    RecordShutdown,
    /// Record that the task of a turn was lost.
    RecordFailed,
    /// Shut the agent down.
    ShutdownAgent,
    /// End the actor.
    Stop,
}

/// The error of an approval for a request that nobody waits for.
pub open spec fn not_pending(request_id: Seq<char>) -> Seq<char> {
    "no approval request "@ + request_id + " is pending"@
}

/// The error of an approval for a request that nobody waits for.
fn not_pending_error(request_id: &str) -> (r: String)
    ensures
        r@ == not_pending(request_id@),
{
    let mut message = "no approval request ".to_string();
    message.append(request_id);
    message.append(" is pending");
    message
}

/// The contents of an [`ActorEffect`].
pub enum Effect {
    Reply { reply: u64, result: Result<Response, Seq<char>> },
    Start { prompt: Pending, resume: bool },
    Ask { reply: u64, question: AgentQuestion },
    ResolveApproval { reply: u64, request_id: Seq<char>, decision: ApprovalDecision },
    CancelWaiters,
    CancelTurn,
    Publish { lifecycle: Lifecycle },
    PublishState { state: Seq<char> },
    RecordShutdown,
    RecordFailed,
    ShutdownAgent,
    Stop,
}

impl View for ActorEffect {
    type V = Effect;

    open spec fn view(&self) -> Effect {
        match self {
            ActorEffect::Reply { reply, result } => Effect::Reply {
                reply: *reply,
                result: match result {
                    Ok(response) => Ok(response@),
                    Err(message) => Err(message@),
                },
            },
            ActorEffect::Start { prompt, resume } => Effect::Start {
                prompt: prompt@,
                resume: *resume,
            },
            ActorEffect::Ask { reply, question } => Effect::Ask {
                reply: *reply,
                question: *question,
            },
            ActorEffect::ResolveApproval { reply, request_id, decision } => Effect::ResolveApproval {
                reply: *reply,
                request_id: request_id@,
                decision: *decision,
            },
            ActorEffect::CancelWaiters => Effect::CancelWaiters,
            ActorEffect::CancelTurn => Effect::CancelTurn,
            ActorEffect::Publish { lifecycle } => Effect::Publish { lifecycle: lifecycle@ },
            ActorEffect::PublishState { state } => Effect::PublishState { state: state@ },
            ActorEffect::RecordShutdown => Effect::RecordShutdown,
            ActorEffect::RecordFailed => Effect::RecordFailed,
            ActorEffect::ShutdownAgent => Effect::ShutdownAgent,
            ActorEffect::Stop => Effect::Stop,
        }
    }
}

/// The contents of a list of effects.
pub open spec fn effect_list(effects: Seq<ActorEffect>) -> Seq<Effect> {
    Seq::new(effects.len(), |i: int| effects[i]@)
}

/// The answer that accepts a command.
pub open spec fn accepted(reply: u64) -> Effect {
    Effect::Reply { reply, result: Ok(Response::Accepted) }
}

/// The answer that refuses a command.
pub open spec fn refused(reply: u64, message: Seq<char>) -> Effect {
    Effect::Reply { reply, result: Err(message) }
}

/// The same refusal for each of the waiting prompts.
pub open spec fn refuse_all(prompts: Seq<Pending>, message: Seq<char>) -> Seq<Effect> {
    Seq::new(prompts.len(), |i: int| refused(prompts[i].reply, message))
}

/// The state of the actor.
pub struct ActorState {
    pub queued: Seq<Pending>,
    pub follow_up: Seq<Pending>,
    /// Where the answer of the active turn goes.
    pub active: Option<u64>,
    pub shutdown_requested: bool,
}

/// A state, the steer messages, and what is to be done.
pub struct Outcome {
    pub state: ActorState,
    pub steer: Seq<Seq<char>>,
    pub effects: Seq<Effect>,
}

/// What an idle actor does with a command.
pub open spec fn idle_command(s: ActorState, command: RuntimeCommand, reply: u64) -> (
    ActorState,
    Seq<Effect>,
) {
    let no_turn = "no turn in progress; use prompt() to start a new turn"@;
    match command {
        RuntimeCommand::ResumeSafeTurn => (
            s,
            seq![Effect::Ask { reply, question: AgentQuestion::RecoverySnapshot }],
        ),
        RuntimeCommand::Prompt { text } => if trimmed(text@).len() == 0 {
            (s, seq![refused(reply, "prompt cannot be empty"@)])
        } else {
            (
                ActorState { active: Some(reply), ..s },
                seq![Effect::Start { prompt: Pending { text: text@, reply }, resume: false }],
            )
        },
        RuntimeCommand::Steer { .. } => (s, seq![refused(reply, no_turn)]),
        RuntimeCommand::FollowUp { .. } => (s, seq![refused(reply, no_turn)]),
        RuntimeCommand::SetSteeringMode { mode } => (
            s,
            seq![Effect::Ask { reply, question: AgentQuestion::SetSteeringMode { mode } }],
        ),
        RuntimeCommand::SetFollowUpMode { mode } => (
            s,
            seq![Effect::Ask { reply, question: AgentQuestion::SetFollowUpMode { mode } }],
        ),
        RuntimeCommand::Cancel => (s, seq![accepted(reply)]),
        RuntimeCommand::SetMode { mode_id } => (
            s,
            seq![Effect::Ask { reply, question: AgentQuestion::SetMode { mode_id } }],
        ),
        RuntimeCommand::GetMode => (
            s,
            seq![Effect::Ask { reply, question: AgentQuestion::GetMode }],
        ),
        RuntimeCommand::ActivateTools { names } => (
            s,
            seq![Effect::Ask { reply, question: AgentQuestion::ActivateTools { names } }],
        ),
        RuntimeCommand::DeactivateTools { names } => (
            s,
            seq![Effect::Ask { reply, question: AgentQuestion::DeactivateTools { names } }],
        ),
        RuntimeCommand::Approval { request_id, .. } => (
            s,
            seq![refused(reply, not_pending(request_id@))],
        ),
        RuntimeCommand::Shutdown => (
            ActorState { shutdown_requested: true, ..s },
            seq![accepted(reply)],
        ),
    }
}

/// What the actor does with an answer of the agent.
pub open spec fn answered(s: ActorState, answer: AgentAnswer, reply: u64) -> (
    ActorState,
    Seq<Effect>,
) {
    match answer {
        AgentAnswer::Snapshot(Err(message)) => (s, seq![refused(reply, message@)]),
        AgentAnswer::Snapshot(Ok(view)) => match resumable(view) {
            // The candidate is claimed before anything is started.
            Some(candidate) => (
                s,
                seq![Effect::Ask { reply, question: AgentQuestion::ClaimResume { candidate } }],
            ),
            None => (
                s,
                seq![
                    refused(reply, "no unique prompt-backed safe resume candidate is available"@),
                ],
            ),
        },
        AgentAnswer::Claimed { candidate, claim } => match claim {
            Ok(true) => (
                ActorState { active: Some(reply), ..s },
                seq![
                    Effect::Start {
                        prompt: Pending { text: candidate.prompt@, reply },
                        resume: true,
                    },
                ],
            ),
            Ok(false) => (
                s,
                seq![
                    refused(reply, "safe resume rejected: candidate is already claimed or stale"@),
                ],
            ),
            Err(message) => (
                s,
                seq![refused(reply, "safe resume fencing failed: "@ + message@)],
            ),
        },
        AgentAnswer::QueueModeSet => (s, seq![accepted(reply)]),
        AgentAnswer::ModeSet(Ok(mode_id)) => (
            s,
            seq![
                Effect::Reply { reply, result: Ok(Response::Mode { mode_id: mode_id@ }) },
                Effect::PublishState { state: mode_id@ },
            ],
        ),
        AgentAnswer::ModeSet(Err(message)) => (s, seq![refused(reply, message@)]),
        AgentAnswer::Mode(mode_id) => (
            s,
            seq![Effect::Reply { reply, result: Ok(Response::Mode { mode_id: mode_id@ }) }],
        ),
        AgentAnswer::Tools(names) => (
            s,
            seq![Effect::Reply { reply, result: Ok(Response::Tools { names: texts(names@) }) }],
        ),
    }
}

/// What the actor does with a command while a turn is active.
pub open spec fn active_command(
    s: ActorState,
    steer: Seq<Seq<char>>,
    command: RuntimeCommand,
    reply: u64,
) -> Outcome {
    let refuse = |message: Seq<char>| Outcome { state: s, steer, effects: seq![refused(reply, message)] };
    match command {
        RuntimeCommand::Prompt { text } => if trimmed(text@).len() == 0 {
            refuse("prompt cannot be empty"@)
        } else {
            Outcome {
                state: ActorState { queued: s.queued.push(Pending { text: text@, reply }), ..s },
                steer,
                effects: Seq::empty(),
            }
        },
        RuntimeCommand::ResumeSafeTurn => refuse("cannot resume while a turn is active"@),
        RuntimeCommand::Steer { text } => if trimmed(text@).len() == 0 {
            refuse("steer message cannot be empty"@)
        } else {
            Outcome {
                state: s,
                steer: steer.push(trimmed(text@)),
                effects: seq![accepted(reply)],
            }
        },
        RuntimeCommand::FollowUp { text } => if trimmed(text@).len() == 0 {
            refuse("follow-up message cannot be empty"@)
        } else {
            Outcome {
                state: ActorState {
                    follow_up: s.follow_up.push(Pending { text: trimmed(text@), reply }),
                    ..s
                },
                steer,
                effects: Seq::empty(),
            }
        },
        RuntimeCommand::SetSteeringMode { .. } => refuse(
            "cannot change queue mode while a turn is active"@,
        ),
        RuntimeCommand::SetFollowUpMode { .. } => refuse(
            "cannot change queue mode while a turn is active"@,
        ),
        RuntimeCommand::Cancel => Outcome {
            state: ActorState { queued: Seq::empty(), follow_up: Seq::empty(), ..s },
            steer: Seq::empty(),
            effects: seq![Effect::CancelWaiters, Effect::CancelTurn] + refuse_all(
                s.queued,
                "turn cancelled"@,
            ) + refuse_all(s.follow_up, "turn cancelled"@) + seq![accepted(reply)],
        },
        RuntimeCommand::SetMode { .. } => refuse(
            "cannot change or read mode while a turn is active"@,
        ),
        RuntimeCommand::ActivateTools { .. } => refuse(
            "cannot change or read mode while a turn is active"@,
        ),
        RuntimeCommand::DeactivateTools { .. } => refuse(
            "cannot change or read mode while a turn is active"@,
        ),
        RuntimeCommand::GetMode => refuse("cannot change or read mode while a turn is active"@),
        RuntimeCommand::Approval { request_id, decision } => Outcome {
            state: s,
            steer,
            effects: seq![Effect::ResolveApproval { reply, request_id: request_id@, decision }],
        },
        RuntimeCommand::Shutdown => Outcome {
            state: ActorState { shutdown_requested: true, ..s },
            steer,
            effects: seq![Effect::CancelWaiters, Effect::CancelTurn, accepted(reply)],
        },
    }
}

/// The answer of a prompt whose turn ended.
pub open spec fn prompt_reply(lifecycle: Lifecycle, result: Result<Seq<char>, Seq<char>>) -> Result<
    Response,
    Seq<char>,
> {
    match lifecycle {
        Lifecycle::Completed => Ok(Response::Prompt { text: result->Ok_0 }),
        Lifecycle::Cancelled => Err("turn cancelled"@),
        Lifecycle::Failed { message } => Err(message),
        Lifecycle::Shutdown => Err("runtime shutdown"@),
    }
}

/// What the actor does when the active turn ended: it announces and answers, and
/// after a completed turn starts the oldest follow-up.
pub open spec fn turn_ended(
    s: ActorState,
    cancelled: bool,
    result: Result<Seq<char>, Seq<char>>,
) -> (ActorState, Seq<Effect>) {
    let lifecycle = lifecycle_of(cancelled, result);
    let told = seq![
        Effect::Publish { lifecycle },
        Effect::Reply { reply: s.active->0, result: prompt_reply(lifecycle, result) },
    ];
    if lifecycle is Completed && s.follow_up.len() > 0 {
        (
            ActorState {
                follow_up: s.follow_up.drop_first(),
                active: Some(s.follow_up[0].reply),
                ..s
            },
            told.push(Effect::Start { prompt: s.follow_up[0], resume: false }),
        )
    } else {
        (ActorState { active: None, ..s }, told)
    }
}

/// What the actor does when the task of the active turn was lost.
pub open spec fn turn_lost(s: ActorState, error: Seq<char>) -> (ActorState, Seq<Effect>) {
    let message = "runtime turn task failed: "@ + error;
    (
        ActorState { active: None, ..s },
        seq![
            Effect::Publish { lifecycle: Lifecycle::Failed { message } },
            refused(s.active->0, message),
            Effect::RecordFailed,
            Effect::Publish { lifecycle: Lifecycle::Shutdown },
            Effect::Stop,
        ],
    )
}

/// What the actor does when nothing is active: shut down if that was asked for,
/// else start the oldest queued prompt, else nothing.
pub open spec fn settled(s: ActorState) -> (ActorState, Seq<Effect>) {
    if s.shutdown_requested {
        (
            ActorState { queued: Seq::empty(), ..s },
            refuse_all(s.queued, "runtime is shutting down"@) + seq![
                Effect::RecordShutdown,
                Effect::Publish { lifecycle: Lifecycle::Shutdown },
                Effect::ShutdownAgent,
                Effect::Stop,
            ],
        )
    } else if s.queued.len() > 0 {
        (
            ActorState { queued: s.queued.drop_first(), active: Some(s.queued[0].reply), ..s },
            seq![Effect::Start { prompt: s.queued[0], resume: false }],
        )
    } else {
        (s, Seq::empty())
    }
}

/// The owner of one agent: its waiting prompts, and where the active one answers.
pub struct Actor {
    queued: VecDeque<PendingPrompt>,
    follow_up: VecDeque<PendingPrompt>,
    active: Option<u64>,
    shutdown_requested: bool,
}

impl View for Actor {
    type V = ActorState;

    closed spec fn view(&self) -> ActorState {
        ActorState {
            queued: pending_list(self.queued@),
            follow_up: pending_list(self.follow_up@),
            active: self.active,
            shutdown_requested: self.shutdown_requested,
        }
    }
}

fn reply_ok(effects: &mut Vec<ActorEffect>, reply: u64, response: RuntimeResponse)
    ensures
        effect_list(final(effects)@) == effect_list(old(effects)@).push(
            Effect::Reply { reply, result: Ok(response@) },
        ),
{
    let ghost before = effect_list(effects@);
    effects.push(ActorEffect::Reply { reply, result: Ok(response) });
    proof {
        assert(effect_list(effects@) == before.push(Effect::Reply { reply, result: Ok(response@) }));
    }
}

fn reply_err(effects: &mut Vec<ActorEffect>, reply: u64, message: &str)
    ensures
        effect_list(final(effects)@) == effect_list(old(effects)@).push(refused(reply, message@)),
{
    let ghost before = effect_list(effects@);
    effects.push(ActorEffect::Reply { reply, result: Err(message.to_string()) });
    proof {
        assert(effect_list(effects@) == before.push(refused(reply, message@)));
    }
}

fn push_effect(effects: &mut Vec<ActorEffect>, effect: ActorEffect)
    ensures
        effect_list(final(effects)@) == effect_list(old(effects)@).push(effect@),
{
    let ghost before = effect_list(effects@);
    effects.push(effect);
    proof {
        assert(effect_list(effects@) == before.push(effect@));
    }
}

/// Answers each waiting prompt with the same refusal and empties the queue.
fn refuse_queue(effects: &mut Vec<ActorEffect>, queue: &mut VecDeque<PendingPrompt>, message: &str)
    ensures
        effect_list(final(effects)@) == effect_list(old(effects)@) + refuse_all(
            pending_list(old(queue)@),
            message@,
        ),
        final(queue)@.len() == 0,
{
    let ghost all = pending_list(queue@);
    let ghost start = effect_list(effects@);
    let ghost mut done: int = 0;
    proof {
        assert(start + refuse_all(all, message@).take(0) == start);
        assert(all.skip(0) == all);
    }
    while queue.len() > 0
        invariant
            0 <= done <= all.len(),
            pending_list(queue@) == all.skip(done),
            queue@.len() == all.len() - done,
            effect_list(effects@) == start + refuse_all(all, message@).take(done),
        decreases queue@.len(),
    {
        let ghost held = queue@;
        if let Some(prompt) = queue.pop_front() {
            proof {
                assert(pending_list(held)[0] == prompt@);
                assert(pending_list(queue@) == pending_list(held).drop_first());
                assert(all.skip(done).drop_first() == all.skip(done + 1));
                let told = refuse_all(all, message@);
                assert(told.take(done + 1) == told.take(done).push(told[done]));
                assert(start + told.take(done + 1) == (start + told.take(done)).push(told[done]));
            }
            reply_err(effects, prompt.reply, message);
            proof {
                done = done + 1;
            }
        }
    }
    proof {
        assert(refuse_all(all, message@).take(done) == refuse_all(all, message@));
    }
}

impl Actor {
    /// An idle actor with nothing waiting.
    pub fn new() -> (r: Self)
        ensures
            r@ == (ActorState {
                queued: Seq::empty(),
                follow_up: Seq::empty(),
                active: None,
                shutdown_requested: false,
            }),
    {
        let r = Actor {
            queued: VecDeque::new(),
            follow_up: VecDeque::new(),
            active: None,
            shutdown_requested: false,
        };
        proof {
            assert(pending_list(r.queued@) == Seq::<Pending>::empty());
            assert(pending_list(r.follow_up@) == Seq::<Pending>::empty());
        }
        r
    }

    /// An actor that starts by resuming a claimed turn. `reply` tells where the
    /// answer of that turn goes.
    pub fn resuming(candidate: ResumeCandidate, reply: u64) -> (r: (Self, ActorEffect))
        ensures
            r.0@ == (ActorState {
                queued: Seq::empty(),
                follow_up: Seq::empty(),
                active: Some(reply),
                shutdown_requested: false,
            }),
            r.1@ == (Effect::Start {
                prompt: Pending { text: candidate.prompt@, reply },
                resume: true,
            }),
    {
        let mut actor = Actor::new();
        actor.active = Some(reply);
        (
            actor,
            ActorEffect::Start {
                prompt: PendingPrompt { text: candidate.prompt, reply },
                resume: true,
            },
        )
    }

    /// Whether a turn is active.
    pub fn is_active(&self) -> (r: bool)
        ensures
            r == self@.active is Some,
    {
        self.active.is_some()
    }

    /// How many prompts wait for their turn.
    pub fn queued_len(&self) -> (r: usize)
        ensures
            r == self@.queued.len(),
    {
        self.queued.len()
    }

    /// How many follow-ups wait for the active turn to complete.
    pub fn follow_up_len(&self) -> (r: usize)
        ensures
            r == self@.follow_up.len(),
    {
        self.follow_up.len()
    }

    /// The text of the oldest queued prompt.
    pub fn next_queued(&self) -> (r: Option<String>)
        ensures
            opt_text(r) == (if self@.queued.len() > 0 {
                Some(self@.queued[0].text)
            } else {
                None
            }),
    {
        if self.queued.len() > 0 {
            Some(self.queued[0].text.clone())
        } else {
            None
        }
    }

    /// What to do when nothing is active.
    pub fn settle(&mut self) -> (r: Vec<ActorEffect>)
        requires
            old(self)@.active is None,
        ensures
            (final(self)@, effect_list(r@)) == settled(old(self)@),
    {
        let mut effects: Vec<ActorEffect> = Vec::new();
        proof {
            assert(effect_list(effects@) == Seq::<Effect>::empty());
        }
        if self.shutdown_requested {
            refuse_queue(&mut effects, &mut self.queued, "runtime is shutting down");
            push_effect(&mut effects, ActorEffect::RecordShutdown);
            push_effect(&mut effects, ActorEffect::Publish { lifecycle: RuntimeLifecycle::Shutdown });
            push_effect(&mut effects, ActorEffect::ShutdownAgent);
            push_effect(&mut effects, ActorEffect::Stop);
            proof {
                assert(self@.queued == Seq::<Pending>::empty());
                assert(effect_list(effects@) == settled(old(self)@).1);
            }
        } else if let Some(prompt) = self.queued.pop_front() {
            self.active = Some(prompt.reply);
            proof {
                assert(prompt@ == old(self)@.queued[0]);
                assert(self@.queued == old(self)@.queued.drop_first());
            }
            push_effect(&mut effects, ActorEffect::Start { prompt, resume: false });
            proof {
                assert(effect_list(effects@) == settled(old(self)@).1);
            }
        }
        effects
    }

    /// What an idle actor does with a command.
    pub fn handle_idle_command(&mut self, command: RuntimeCommand, reply: u64) -> (r: Vec<
        ActorEffect,
    >)
        requires
            old(self)@.active is None,
        ensures
            (final(self)@, effect_list(r@)) == idle_command(old(self)@, command, reply),
    {
        let mut effects: Vec<ActorEffect> = Vec::new();
        proof {
            assert(effect_list(effects@) == Seq::<Effect>::empty());
        }
        match command {
            RuntimeCommand::ResumeSafeTurn => {
                push_effect(
                    &mut effects,
                    ActorEffect::Ask { reply, question: AgentQuestion::RecoverySnapshot },
                );
            },
            RuntimeCommand::Prompt { text } => {
                if trim(text.as_str()).as_str().is_empty() {
                    reply_err(&mut effects, reply, "prompt cannot be empty");
                } else {
                    self.active = Some(reply);
                    push_effect(
                        &mut effects,
                        ActorEffect::Start { prompt: PendingPrompt { text, reply }, resume: false },
                    );
                }
            },
            RuntimeCommand::Steer { .. } => {
                reply_err(
                    &mut effects,
                    reply,
                    "no turn in progress; use prompt() to start a new turn",
                );
            },
            RuntimeCommand::FollowUp { .. } => {
                reply_err(
                    &mut effects,
                    reply,
                    "no turn in progress; use prompt() to start a new turn",
                );
            },
            RuntimeCommand::SetSteeringMode { mode } => {
                push_effect(
                    &mut effects,
                    ActorEffect::Ask { reply, question: AgentQuestion::SetSteeringMode { mode } },
                );
            },
            RuntimeCommand::SetFollowUpMode { mode } => {
                push_effect(
                    &mut effects,
                    ActorEffect::Ask { reply, question: AgentQuestion::SetFollowUpMode { mode } },
                );
            },
            RuntimeCommand::Cancel => {
                reply_ok(&mut effects, reply, RuntimeResponse::Accepted);
            },
            RuntimeCommand::SetMode { mode_id } => {
                push_effect(
                    &mut effects,
                    ActorEffect::Ask { reply, question: AgentQuestion::SetMode { mode_id } },
                );
            },
            RuntimeCommand::GetMode => {
                push_effect(&mut effects, ActorEffect::Ask { reply, question: AgentQuestion::GetMode });
            },
            RuntimeCommand::ActivateTools { names } => {
                push_effect(
                    &mut effects,
                    ActorEffect::Ask { reply, question: AgentQuestion::ActivateTools { names } },
                );
            },
            RuntimeCommand::DeactivateTools { names } => {
                push_effect(
                    &mut effects,
                    ActorEffect::Ask { reply, question: AgentQuestion::DeactivateTools { names } },
                );
            },
            RuntimeCommand::Approval { request_id, decision } => {
                let message = not_pending_error(request_id.as_str());
                reply_err(&mut effects, reply, message.as_str());
            },
            RuntimeCommand::Shutdown => {
                self.shutdown_requested = true;
                reply_ok(&mut effects, reply, RuntimeResponse::Accepted);
            },
        }
        proof {
            assert(effect_list(effects@) == idle_command(old(self)@, command, reply).1);
        }
        effects
    }

    /// What the actor does with an answer of the agent to one of its questions.
    pub fn handle_agent_answer(&mut self, answer: AgentAnswer, reply: u64) -> (r: Vec<ActorEffect>)
        requires
            old(self)@.active is None,
        ensures
            (final(self)@, effect_list(r@)) == answered(old(self)@, answer, reply),
    {
        let mut effects: Vec<ActorEffect> = Vec::new();
        proof {
            assert(effect_list(effects@) == Seq::<Effect>::empty());
        }
        match answer {
            AgentAnswer::Snapshot(Err(message)) => {
                reply_err(&mut effects, reply, message.as_str());
            },
            AgentAnswer::Snapshot(Ok(view)) => {
                let mut candidates = view.resume_candidates;
                if view.automatic_resume_implemented && candidates.len() > 0 {
                    let candidate = candidates.remove(0);
                    push_effect(
                        &mut effects,
                        ActorEffect::Ask {
                            reply,
                            question: AgentQuestion::ClaimResume { candidate },
                        },
                    );
                } else {
                    reply_err(
                        &mut effects,
                        reply,
                        "no unique prompt-backed safe resume candidate is available",
                    );
                }
            },
            AgentAnswer::Claimed { candidate, claim } => {
                match claim {
                    Ok(true) => {
                        self.active = Some(reply);
                        push_effect(
                            &mut effects,
                            ActorEffect::Start {
                                prompt: PendingPrompt { text: candidate.prompt, reply },
                                resume: true,
                            },
                        );
                    },
                    Ok(false) => {
                        reply_err(
                            &mut effects,
                            reply,
                            "safe resume rejected: candidate is already claimed or stale",
                        );
                    },
                    Err(reason) => {
                        let mut message = "safe resume fencing failed: ".to_string();
                        message.append(reason.as_str());
                        reply_err(&mut effects, reply, message.as_str());
                    },
                }
            },
            AgentAnswer::QueueModeSet => {
                reply_ok(&mut effects, reply, RuntimeResponse::Accepted);
            },
            AgentAnswer::ModeSet(Ok(mode_id)) => {
                reply_ok(&mut effects, reply, RuntimeResponse::Mode { mode_id: mode_id.clone() });
                push_effect(&mut effects, ActorEffect::PublishState { state: mode_id });
            },
            AgentAnswer::ModeSet(Err(message)) => {
                reply_err(&mut effects, reply, message.as_str());
            },
            AgentAnswer::Mode(mode_id) => {
                reply_ok(&mut effects, reply, RuntimeResponse::Mode { mode_id });
            },
            AgentAnswer::Tools(names) => {
                reply_ok(&mut effects, reply, RuntimeResponse::Tools { names });
            },
        }
        proof {
            assert(effect_list(effects@) == answered(old(self)@, answer, reply).1);
        }
        effects
    }

    /// What the actor does with a command while a turn is active.
    pub fn handle_active_command(
        &mut self,
        steer_buffer: &mut SteerBuffer,
        command: RuntimeCommand,
        reply: u64,
    ) -> (r: Vec<ActorEffect>)
        requires
            old(self)@.active is Some,
        ensures
            final(self)@ == active_command(old(self)@, old(steer_buffer)@, command, reply).state,
            final(steer_buffer)@ == active_command(
                old(self)@,
                old(steer_buffer)@,
                command,
                reply,
            ).steer,
            final(steer_buffer).queue_mode() == old(steer_buffer).queue_mode(),
            effect_list(r@) == active_command(
                old(self)@,
                old(steer_buffer)@,
                command,
                reply,
            ).effects,
    {
        let mut effects: Vec<ActorEffect> = Vec::new();
        let ghost expected = active_command(self@, steer_buffer@, command, reply);
        proof {
            assert(effect_list(effects@) == Seq::<Effect>::empty());
        }
        match command {
            RuntimeCommand::Prompt { text } => {
                if trim(text.as_str()).as_str().is_empty() {
                    reply_err(&mut effects, reply, "prompt cannot be empty");
                } else {
                    let ghost added = Pending { text: text@, reply };
                    self.queued.push_back(PendingPrompt { text, reply });
                    proof {
                        assert(self@.queued == old(self)@.queued.push(added));
                    }
                }
            },
            RuntimeCommand::ResumeSafeTurn => {
                reply_err(&mut effects, reply, "cannot resume while a turn is active");
            },
            RuntimeCommand::Steer { text } => {
                let text = trim(text.as_str());
                if text.as_str().is_empty() {
                    reply_err(&mut effects, reply, "steer message cannot be empty");
                } else {
                    steer_buffer.push(text);
                    reply_ok(&mut effects, reply, RuntimeResponse::Accepted);
                }
            },
            RuntimeCommand::FollowUp { text } => {
                let text = trim(text.as_str());
                if text.as_str().is_empty() {
                    reply_err(&mut effects, reply, "follow-up message cannot be empty");
                } else {
                    let ghost added = Pending { text: text@, reply };
                    self.follow_up.push_back(PendingPrompt { text, reply });
                    proof {
                        assert(self@.follow_up == old(self)@.follow_up.push(added));
                    }
                }
            },
            RuntimeCommand::SetSteeringMode { .. } | RuntimeCommand::SetFollowUpMode { .. } => {
                reply_err(
                    &mut effects,
                    reply,
                    "cannot change queue mode while a turn is active",
                );
            },
            RuntimeCommand::Cancel => {
                push_effect(&mut effects, ActorEffect::CancelWaiters);
                push_effect(&mut effects, ActorEffect::CancelTurn);
                proof {
                    assert(effect_list(effects@) == seq![Effect::CancelWaiters, Effect::CancelTurn]);
                }
                refuse_queue(&mut effects, &mut self.queued, "turn cancelled");
                refuse_queue(&mut effects, &mut self.follow_up, "turn cancelled");
                steer_buffer.clear();
                reply_ok(&mut effects, reply, RuntimeResponse::Accepted);
                proof {
                    assert(self@.queued == Seq::<Pending>::empty());
                    assert(self@.follow_up == Seq::<Pending>::empty());
                }
            },
            RuntimeCommand::SetMode { .. }
            | RuntimeCommand::ActivateTools { .. }
            | RuntimeCommand::DeactivateTools { .. }
            | RuntimeCommand::GetMode => {
                reply_err(
                    &mut effects,
                    reply,
                    "cannot change or read mode while a turn is active",
                );
            },
            RuntimeCommand::Approval { request_id, decision } => {
                push_effect(&mut effects, ActorEffect::ResolveApproval { reply, request_id, decision });
            },
            RuntimeCommand::Shutdown => {
                self.shutdown_requested = true;
                push_effect(&mut effects, ActorEffect::CancelWaiters);
                push_effect(&mut effects, ActorEffect::CancelTurn);
                reply_ok(&mut effects, reply, RuntimeResponse::Accepted);
            },
        }
        proof {
            assert(effect_list(effects@) == expected.effects);
        }
        effects
    }

    /// The answer to an approval command, once the waiting request was looked for.
    pub fn approval_resolved(reply: u64, request_id: &str, found: bool) -> (r: ActorEffect)
        ensures
            r@ == (if found {
                accepted(reply)
            } else {
                refused(reply, not_pending(request_id@))
            }),
    {
        if found {
            ActorEffect::Reply { reply, result: Ok(RuntimeResponse::Accepted) }
        } else {
            ActorEffect::Reply { reply, result: Err(not_pending_error(request_id)) }
        }
    }

    /// What the actor does when nobody can send commands any more: it shuts down,
    /// and cancels a turn that is active.
    pub fn commands_closed(&mut self) -> (r: Vec<ActorEffect>)
        ensures
            final(self)@ == (ActorState { shutdown_requested: true, ..old(self)@ }),
            effect_list(r@) == (if old(self)@.active is Some {
                seq![Effect::CancelTurn]
            } else {
                Seq::empty()
            }),
    {
        let mut effects: Vec<ActorEffect> = Vec::new();
        if self.active.is_some() {
            effects.push(ActorEffect::CancelTurn);
        }
        self.shutdown_requested = true;
        effects
    }

    /// What the actor does when the active turn ended.
    pub fn turn_finished(&mut self, cancelled: bool, result: Result<String, String>) -> (r: Vec<
        ActorEffect,
    >)
        requires
            old(self)@.active is Some,
        ensures
            (final(self)@, effect_list(r@)) == turn_ended(
                old(self)@,
                cancelled,
                result_text(result),
            ),
    {
        let mut effects: Vec<ActorEffect> = Vec::new();
        let ghost expected = turn_ended(self@, cancelled, result_text(result));
        proof {
            assert(effect_list(effects@) == Seq::<Effect>::empty());
        }
        let reply: u64 = match self.active {
            Some(reply) => reply,
            None => 0,
        };
        self.active = None;
        let lifecycle = terminal_lifecycle(cancelled, &result);
        let mut completed = false;
        let response: Result<RuntimeResponse, String> = match (&lifecycle, result) {
            (RuntimeLifecycle::Completed, Ok(text)) => {
                completed = true;
                Ok(RuntimeResponse::Prompt { text })
            },
            (RuntimeLifecycle::Cancelled, _) => Err("turn cancelled".to_string()),
            (RuntimeLifecycle::Failed { message }, _) => Err(message.clone()),
            (_, _) => Err("runtime shutdown".to_string()),
        };
        push_effect(&mut effects, ActorEffect::Publish { lifecycle });
        push_effect(&mut effects, ActorEffect::Reply { reply, result: response });
        if completed {
            if let Some(prompt) = self.follow_up.pop_front() {
                self.active = Some(prompt.reply);
                proof {
                    assert(prompt@ == old(self)@.follow_up[0]);
                    assert(self@.follow_up == old(self)@.follow_up.drop_first());
                }
                push_effect(&mut effects, ActorEffect::Start { prompt, resume: false });
            }
        }
        proof {
            assert(effect_list(effects@) == expected.1);
            assert(self@ == expected.0);
        }
        effects
    }

    /// What the actor does when the task of the active turn was lost.
    pub fn turn_task_failed(&mut self, error: &str) -> (r: Vec<ActorEffect>)
        requires
            old(self)@.active is Some,
        ensures
            (final(self)@, effect_list(r@)) == turn_lost(old(self)@, error@),
    {
        let mut effects: Vec<ActorEffect> = Vec::new();
        let ghost expected = turn_lost(self@, error@);
        proof {
            assert(effect_list(effects@) == Seq::<Effect>::empty());
        }
        let reply: u64 = match self.active {
            Some(reply) => reply,
            None => 0,
        };
        self.active = None;
        let mut message = "runtime turn task failed: ".to_string();
        message.append(error);
        push_effect(
            &mut effects,
            ActorEffect::Publish { lifecycle: RuntimeLifecycle::Failed { message: message.clone() } },
        );
        reply_err(&mut effects, reply, message.as_str());
        push_effect(&mut effects, ActorEffect::RecordFailed);
        push_effect(&mut effects, ActorEffect::Publish { lifecycle: RuntimeLifecycle::Shutdown });
        push_effect(&mut effects, ActorEffect::Stop);
        proof {
            assert(effect_list(effects@) == expected.1);
        }
        effects
    }
}

/// Where answers are still to go: the waiting prompts and the active one.
pub open spec fn owed(s: ActorState) -> Multiset<u64> {
    let waiting = s.queued.map_values(|p: Pending| p.reply) + s.follow_up.map_values(
        |p: Pending| p.reply,
    );
    match s.active {
        Some(reply) => waiting.push(reply).to_multiset(),
        None => waiting.to_multiset(),
    }
}

/// Where the effects send answers, or hand the command on to be answered later.
pub open spec fn served(effects: Seq<Effect>) -> Multiset<u64>
    decreases effects.len(),
{
    if effects.len() == 0 {
        Multiset::empty()
    } else {
        let rest = served(effects.drop_last());
        match effects.last() {
            Effect::Reply { reply, .. } => rest.insert(reply),
            Effect::Ask { reply, .. } => rest.insert(reply),
            Effect::ResolveApproval { reply, .. } => rest.insert(reply),
            _ => rest,
        }
    }
}

proof fn lemma_served_concat(a: Seq<Effect>, b: Seq<Effect>)
    ensures
        served(a + b) == served(a).add(served(b)),
    decreases b.len(),
{
    if b.len() == 0 {
        assert(a + b == a);
        assert(served(a) == served(a).add(Multiset::empty()));
    } else {
        assert((a + b).drop_last() == a + b.drop_last());
        lemma_served_concat(a, b.drop_last());
        let rest = served(b.drop_last());
        assert forall|r: u64| served(a).add(rest.insert(r)) == #[trigger] served(a).add(rest).insert(
            r,
        ) by {
            assert(served(a).add(rest.insert(r)) =~= served(a).add(rest).insert(r));
        }
    }
}

proof fn lemma_served_refusals(prompts: Seq<Pending>, message: Seq<char>)
    ensures
        served(refuse_all(prompts, message)) == prompts.map_values(
            |p: Pending| p.reply,
        ).to_multiset(),
    decreases prompts.len(),
{
    broadcast use vstd::seq_lib::group_to_multiset_ensures;

    let replies = prompts.map_values(|p: Pending| p.reply);
    if prompts.len() == 0 {
        assert(refuse_all(prompts, message) == Seq::<Effect>::empty());
        assert(replies == Seq::<u64>::empty());
        assert(replies.to_multiset() == Multiset::<u64>::empty());
    } else {
        let front = prompts.drop_last();
        lemma_served_refusals(front, message);
        assert(refuse_all(prompts, message).drop_last() == refuse_all(front, message));
        assert(replies == front.map_values(|p: Pending| p.reply).push(prompts.last().reply));
    }
}

/// While a turn is active, each command is accounted for once: it is answered, or
/// it waits for its turn, and the prompts that a cancel drops are answered too.
pub proof fn active_commands_are_answered_once(
    s: ActorState,
    steer: Seq<Seq<char>>,
    command: RuntimeCommand,
    reply: u64,
)
    requires
        s.active is Some,
    ensures
        ({
            let outcome = active_command(s, steer, command, reply);
            owed(outcome.state).add(served(outcome.effects)) == owed(s).insert(reply)
        }),
{
    broadcast use vstd::seq_lib::group_to_multiset_ensures;

    let outcome = active_command(s, steer, command, reply);
    let fx = outcome.effects;
    let ids = |ps: Seq<Pending>| ps.map_values(|p: Pending| p.reply);
    reveal_with_fuel(served, 4);
    match command {
        RuntimeCommand::Cancel => {
            let head = seq![Effect::CancelWaiters, Effect::CancelTurn];
            let q = refuse_all(s.queued, "turn cancelled"@);
            let f = refuse_all(s.follow_up, "turn cancelled"@);
            let tail = seq![accepted(reply)];
            assert(head.drop_last() == seq![Effect::CancelWaiters]);
            assert(head.drop_last().drop_last() == Seq::<Effect>::empty());
            assert(served(head) == Multiset::<u64>::empty());
            assert(tail.drop_last() == Seq::<Effect>::empty());
            assert(served(tail) == Multiset::<u64>::empty().insert(reply));
            lemma_served_concat(head + q + f, tail);
            lemma_served_concat(head + q, f);
            lemma_served_concat(head, q);
            lemma_served_refusals(s.queued, "turn cancelled"@);
            lemma_served_refusals(s.follow_up, "turn cancelled"@);
            let a = ids(s.queued);
            let b = ids(s.follow_up);
            vstd::seq_lib::lemma_multiset_commutative(a, b);
            assert(owed(s) == (a + b).push(s.active->0).to_multiset());
            let empty = Seq::<Pending>::empty();
            assert(ids(empty) + ids(empty) == Seq::<u64>::empty());
            assert(owed(outcome.state) == Seq::<u64>::empty().push(s.active->0).to_multiset());
            assert(owed(outcome.state).add(served(fx)) =~= owed(s).insert(reply));
        },
        RuntimeCommand::Prompt { text } => {
            if trimmed(text@).len() == 0 {
                assert(fx.drop_last() == Seq::<Effect>::empty());
                assert(owed(outcome.state).add(served(fx)) =~= owed(s).insert(reply));
            } else {
                let a = ids(s.queued);
                let b = ids(s.follow_up);
                assert(ids(outcome.state.queued) == a.push(reply));
                vstd::seq_lib::lemma_multiset_commutative(a, b);
                vstd::seq_lib::lemma_multiset_commutative(a.push(reply), b);
                assert(owed(outcome.state).add(served(fx)) =~= owed(s).insert(reply));
            }
        },
        RuntimeCommand::FollowUp { text } => {
            if trimmed(text@).len() == 0 {
                assert(fx.drop_last() == Seq::<Effect>::empty());
                assert(owed(outcome.state).add(served(fx)) =~= owed(s).insert(reply));
            } else {
                let a = ids(s.queued);
                let b = ids(s.follow_up);
                assert(ids(outcome.state.follow_up) == b.push(reply));
                vstd::seq_lib::lemma_multiset_commutative(a, b);
                vstd::seq_lib::lemma_multiset_commutative(a, b.push(reply));
                assert(owed(outcome.state).add(served(fx)) =~= owed(s).insert(reply));
            }
        },
        RuntimeCommand::Shutdown => {
            assert(fx.drop_last() == seq![Effect::CancelWaiters, Effect::CancelTurn]);
            assert(fx.drop_last().drop_last() == seq![Effect::CancelWaiters]);
            assert(fx.drop_last().drop_last().drop_last() == Seq::<Effect>::empty());
            assert(owed(outcome.state).add(served(fx)) =~= owed(s).insert(reply));
        },
        RuntimeCommand::Steer { text } => {
            assert(fx.drop_last() == Seq::<Effect>::empty());
            assert(owed(outcome.state).add(served(fx)) =~= owed(s).insert(reply));
        },
        _ => {
            assert(fx.drop_last() == Seq::<Effect>::empty());
            assert(owed(outcome.state).add(served(fx)) =~= owed(s).insert(reply));
        },
    }
}

/// An idle actor accounts for each command once: it is answered, handed on to the
/// agent, or becomes the active prompt.
pub proof fn idle_commands_are_answered_once(s: ActorState, command: RuntimeCommand, reply: u64)
    requires
        s.active is None,
    ensures
        ({
            let (next, effects) = idle_command(s, command, reply);
            owed(next).add(served(effects)) == owed(s).insert(reply)
        }),
{
    broadcast use vstd::seq_lib::group_to_multiset_ensures;

    let (next, effects) = idle_command(s, command, reply);
    reveal_with_fuel(served, 2);
    assert(effects.drop_last() == Seq::<Effect>::empty());
    assert(owed(next).add(served(effects)) =~= owed(s).insert(reply));
}

/// A command that was handed on to the agent is accounted for once when the agent has
/// answered: it is answered, handed on again, or becomes the active prompt.
pub proof fn agent_answers_are_passed_on_once(s: ActorState, answer: AgentAnswer, reply: u64)
    requires
        s.active is None,
    ensures
        ({
            let (next, effects) = answered(s, answer, reply);
            owed(next).add(served(effects)) == owed(s).insert(reply)
        }),
{
    broadcast use vstd::seq_lib::group_to_multiset_ensures;

    let (next, effects) = answered(s, answer, reply);
    reveal_with_fuel(served, 3);
    if effects.len() == 2 {
        assert(effects.drop_last().drop_last() == Seq::<Effect>::empty());
    } else {
        assert(effects.drop_last() == Seq::<Effect>::empty());
    }
    assert(owed(next).add(served(effects)) =~= owed(s).insert(reply));
}

/// An actor that settles loses no prompt: the queued ones are refused when it shuts
/// down, and otherwise the oldest of them becomes the active one.
pub proof fn settling_loses_no_prompt(s: ActorState)
    requires
        s.active is None,
    ensures
        owed(settled(s).0).add(served(settled(s).1)) == owed(s),
        s.shutdown_requested ==> settled(s).0.queued.len() == 0,
{
    broadcast use vstd::seq_lib::group_to_multiset_ensures;

    let (next, effects) = settled(s);
    let a = s.queued.map_values(|p: Pending| p.reply);
    let b = s.follow_up.map_values(|p: Pending| p.reply);
    reveal_with_fuel(served, 5);
    if s.shutdown_requested {
        let q = refuse_all(s.queued, "runtime is shutting down"@);
        let tail = seq![
            Effect::RecordShutdown,
            Effect::Publish { lifecycle: Lifecycle::Shutdown },
            Effect::ShutdownAgent,
            Effect::Stop,
        ];
        let third = tail.drop_last();
        let second = third.drop_last();
        let first = second.drop_last();
        assert(first.drop_last() == Seq::<Effect>::empty());
        assert(served(tail) == Multiset::<u64>::empty());
        lemma_served_concat(q, tail);
        lemma_served_refusals(s.queued, "runtime is shutting down"@);
        let none = Seq::<Pending>::empty().map_values(|p: Pending| p.reply);
        assert(none + b == b);
        vstd::seq_lib::lemma_multiset_commutative(a, b);
        assert(owed(next).add(served(effects)) =~= owed(s));
    } else if s.queued.len() > 0 {
        let c = next.queued.map_values(|p: Pending| p.reply);
        let head = s.queued[0].reply;
        assert(effects.drop_last() == Seq::<Effect>::empty());
        assert(a == seq![head] + c);
        assert(seq![head] == Seq::<u64>::empty().push(head));
        vstd::seq_lib::lemma_multiset_commutative(a, b);
        vstd::seq_lib::lemma_multiset_commutative(c, b);
        vstd::seq_lib::lemma_multiset_commutative(seq![head], c);
        assert(owed(next).add(served(effects)) =~= owed(s));
    } else {
        assert(owed(next).add(served(effects)) =~= owed(s));
    }
}

/// When a turn ends, exactly its own prompt is answered; the others keep waiting,
/// or the oldest follow-up becomes the active turn.
pub proof fn ended_turn_answers_its_prompt(
    s: ActorState,
    cancelled: bool,
    result: Result<Seq<char>, Seq<char>>,
)
    requires
        s.active is Some,
    ensures
        ({
            let (next, effects) = turn_ended(s, cancelled, result);
            &&& served(effects) == Multiset::singleton(s.active->0)
            &&& owed(next).add(served(effects)) == owed(s)
        }),
{
    broadcast use vstd::seq_lib::group_to_multiset_ensures;

    let (next, effects) = turn_ended(s, cancelled, result);
    reveal_with_fuel(served, 4);
    let lifecycle = lifecycle_of(cancelled, result);
    let told = seq![
        Effect::Publish { lifecycle },
        Effect::Reply { reply: s.active->0, result: prompt_reply(lifecycle, result) },
    ];
    assert(told.drop_last().drop_last() == Seq::<Effect>::empty());
    assert(served(told) =~= Multiset::singleton(s.active->0));
    let a = s.queued.map_values(|p: Pending| p.reply);
    let b = s.follow_up.map_values(|p: Pending| p.reply);
    if lifecycle is Completed && s.follow_up.len() > 0 {
        assert(effects.drop_last() == told);
        let c = next.follow_up.map_values(|p: Pending| p.reply);
        assert(b == seq![s.follow_up[0].reply] + c);
        vstd::seq_lib::lemma_multiset_commutative(a, b);
        vstd::seq_lib::lemma_multiset_commutative(a, c);
        vstd::seq_lib::lemma_multiset_commutative(seq![s.follow_up[0].reply], c);
        assert(seq![s.follow_up[0].reply] == Seq::<u64>::empty().push(s.follow_up[0].reply));
        assert(owed(next).add(served(effects)) =~= owed(s));
    } else {
        assert(effects == told);
        assert(owed(next).add(served(effects)) =~= owed(s));
    }
}

/// A cancel empties every queue and leaves the active turn to end by itself.
pub proof fn cancel_empties_the_queues(s: ActorState, steer: Seq<Seq<char>>, reply: u64)
    ensures
        ({
            let outcome = active_command(s, steer, RuntimeCommand::Cancel, reply);
            &&& outcome.state.queued.len() == 0
            &&& outcome.state.follow_up.len() == 0
            &&& outcome.steer.len() == 0
            &&& outcome.state.active == s.active
            &&& outcome.effects.contains(Effect::CancelTurn)
            &&& outcome.effects.contains(Effect::CancelWaiters)
        }),
{
    let outcome = active_command(s, steer, RuntimeCommand::Cancel, reply);
    assert(outcome.effects[0] == Effect::CancelWaiters);
    assert(outcome.effects[1] == Effect::CancelTurn);
}

/// A command that is refused while a turn is active changes nothing.
pub proof fn refused_commands_change_nothing(
    s: ActorState,
    steer: Seq<Seq<char>>,
    command: RuntimeCommand,
    reply: u64,
    message: Seq<char>,
)
    requires
        active_command(s, steer, command, reply).effects == seq![refused(reply, message)],
    ensures
        active_command(s, steer, command, reply).state == s,
        active_command(s, steer, command, reply).steer == steer,
{
    let fx = active_command(s, steer, command, reply).effects;
    assert(fx.len() == 1);
    assert(fx[0] == refused(reply, message));
    if command is Cancel {
        assert(fx[0] == Effect::CancelWaiters);
    }
    if command is Shutdown {
        assert(fx[0] == Effect::CancelWaiters);
    }
    if command is Steer {
        assert(accepted(reply) != refused(reply, message));
    }
}

/// Prompts start in the order in which they were queued.
pub proof fn queue_is_first_in_first_out(s: ActorState)
    requires
        s.active is None,
        !s.shutdown_requested,
        s.queued.len() > 0,
    ensures
        settled(s).1 == seq![Effect::Start { prompt: s.queued[0], resume: false }],
        settled(s).0.queued == s.queued.drop_first(),
{
}

/// A follow-up starts only after a completed turn.
pub proof fn follow_up_needs_completion(
    s: ActorState,
    cancelled: bool,
    result: Result<Seq<char>, Seq<char>>,
    prompt: Pending,
)
    requires
        s.active is Some,
        turn_ended(s, cancelled, result).1.contains(Effect::Start { prompt, resume: false }),
    ensures
        lifecycle_of(cancelled, result) is Completed,
        s.follow_up.len() > 0,
        prompt == s.follow_up[0],
{
}

/// What a client makes of the response to a prompt.
pub fn prompt_result(response: RuntimeResponse) -> (r: Result<String, String>)
    ensures
        result_text(r) == (match response@ {
            Response::Prompt { text } => Ok(text),
            _ => Err("runtime returned an invalid prompt response"@),
        }),
{
    match response {
        RuntimeResponse::Prompt { text } => Ok(text),
        _ => Err("runtime returned an invalid prompt response".to_string()),
    }
}

/// What a client makes of the response to a resume.
pub fn resume_result(response: RuntimeResponse) -> (r: Result<String, String>)
    ensures
        result_text(r) == (match response@ {
            Response::Prompt { text } => Ok(text),
            _ => Err("runtime returned an invalid resume response"@),
        }),
{
    match response {
        RuntimeResponse::Prompt { text } => Ok(text),
        _ => Err("runtime returned an invalid resume response".to_string()),
    }
}

/// What a client makes of the response to a mode command.
pub fn mode_result(response: RuntimeResponse) -> (r: Result<String, String>)
    ensures
        result_text(r) == (match response@ {
            Response::Mode { mode_id } => Ok(mode_id),
            _ => Err("runtime returned an invalid mode response"@),
        }),
{
    match response {
        RuntimeResponse::Mode { mode_id } => Ok(mode_id),
        _ => Err("runtime returned an invalid mode response".to_string()),
    }
}

/// What a client makes of the response to an activation or deactivation of tools.
pub fn tools_result(response: RuntimeResponse, activate: bool) -> (r: Result<Vec<String>, String>)
    ensures
        match response@ {
            Response::Tools { names } => r matches Ok(list) && texts(list@) == names,
            _ => r matches Err(message) && message@ == (if activate {
                "runtime returned an invalid activate tools response"@
            } else {
                "runtime returned an invalid deactivate tools response"@
            }),
        },
{
    match response {
        RuntimeResponse::Tools { names } => Ok(names),
        _ => Err(
            (if activate {
                "runtime returned an invalid activate tools response"
            } else {
                "runtime returned an invalid deactivate tools response"
            }).to_string(),
        ),
    }
}

/// An idle actor starts a prompt at once, as it was given, and answers where it was asked
/// when the turn ends; an empty prompt is refused. Nothing else that waits is touched.
pub proof fn idle_prompts_start_at_once(s: ActorState, text: String, reply: u64)
    requires
        s.active is None,
    ensures
        ({
            let (next, effects) = idle_command(s, RuntimeCommand::Prompt { text }, reply);
            &&& trimmed(text@).len() > 0 ==> next.active == Some(reply) && effects == seq![
                Effect::Start { prompt: Pending { text: text@, reply }, resume: false },
            ]
            &&& trimmed(text@).len() == 0 ==> next == s && effects == seq![
                Effect::Reply { reply, result: Err("prompt cannot be empty"@) },
            ]
            &&& next.queued == s.queued
            &&& next.follow_up == s.follow_up
            &&& next.shutdown_requested == s.shutdown_requested
        }),
{
}

/// An idle actor has no turn to steer, follow up or approve for and says so; cancelling is
/// accepted and does nothing; a shutdown is accepted and noted.
pub proof fn idle_actors_have_no_turn(
    s: ActorState,
    text: String,
    request_id: String,
    decision: ApprovalDecision,
    reply: u64,
)
    requires
        s.active is None,
    ensures
        ({
            let no_turn = seq![
                Effect::Reply {
                    reply,
                    result: Err::<Response, Seq<char>>(
                        "no turn in progress; use prompt() to start a new turn"@,
                    ),
                },
            ];
            let yes = seq![
                Effect::Reply { reply, result: Ok::<Response, Seq<char>>(Response::Accepted) },
            ];
            &&& idle_command(s, RuntimeCommand::Steer { text }, reply) == (s, no_turn)
            &&& idle_command(s, RuntimeCommand::FollowUp { text }, reply) == (s, no_turn)
            &&& idle_command(s, RuntimeCommand::Cancel, reply) == (s, yes)
            &&& idle_command(s, RuntimeCommand::Shutdown, reply) == (
                ActorState { shutdown_requested: true, ..s },
                yes,
            )
            &&& idle_command(s, RuntimeCommand::Approval { request_id, decision }, reply) == (
                s,
                seq![
                    Effect::Reply {
                        reply,
                        result: Err::<Response, Seq<char>>(
                            "no approval request "@ + request_id@ + " is pending"@,
                        ),
                    },
                ],
            )
        }),
{
}

/// What concerns the agent itself is put to it while it is idle, as it was asked, and
/// changes nothing by itself.
pub proof fn idle_actors_ask_their_agent(
    s: ActorState,
    mode: QueueMode,
    mode_id: String,
    names: Vec<String>,
    reply: u64,
)
    requires
        s.active is None,
    ensures
        idle_command(s, RuntimeCommand::ResumeSafeTurn, reply) == (
            s,
            seq![Effect::Ask { reply, question: AgentQuestion::RecoverySnapshot }],
        ),
        idle_command(s, RuntimeCommand::SetSteeringMode { mode }, reply) == (
            s,
            seq![Effect::Ask { reply, question: AgentQuestion::SetSteeringMode { mode } }],
        ),
        idle_command(s, RuntimeCommand::SetFollowUpMode { mode }, reply) == (
            s,
            seq![Effect::Ask { reply, question: AgentQuestion::SetFollowUpMode { mode } }],
        ),
        idle_command(s, RuntimeCommand::SetMode { mode_id }, reply) == (
            s,
            seq![Effect::Ask { reply, question: AgentQuestion::SetMode { mode_id } }],
        ),
        idle_command(s, RuntimeCommand::GetMode, reply) == (
            s,
            seq![Effect::Ask { reply, question: AgentQuestion::GetMode }],
        ),
        idle_command(s, RuntimeCommand::ActivateTools { names }, reply) == (
            s,
            seq![Effect::Ask { reply, question: AgentQuestion::ActivateTools { names } }],
        ),
        idle_command(s, RuntimeCommand::DeactivateTools { names }, reply) == (
            s,
            seq![Effect::Ask { reply, question: AgentQuestion::DeactivateTools { names } }],
        ),
{
}

/// A prompt for a busy actor waits behind those that wait already, as it was given, and is
/// not answered yet; an empty one is refused.
pub proof fn prompts_wait_behind_the_active_turn(
    s: ActorState,
    steer: Seq<Seq<char>>,
    text: String,
    reply: u64,
)
    ensures
        ({
            let out = active_command(s, steer, RuntimeCommand::Prompt { text }, reply);
            &&& trimmed(text@).len() > 0 ==> out.state.queued == s.queued.push(
                Pending { text: text@, reply },
            ) && out.effects.len() == 0
            &&& trimmed(text@).len() == 0 ==> out.state == s && out.effects == seq![
                Effect::Reply { reply, result: Err("prompt cannot be empty"@) },
            ]
            &&& out.steer == steer
            &&& out.state.follow_up == s.follow_up
            &&& out.state.active == s.active
            &&& out.state.shutdown_requested == s.shutdown_requested
        }),
{
}

/// A steer message for a busy actor goes behind the others, without the space around it, and
/// is accepted at once; a follow-up waits likewise for the turn to complete. Empty ones are
/// refused.
pub proof fn busy_actors_take_steers_and_follow_ups(
    s: ActorState,
    steer: Seq<Seq<char>>,
    text: String,
    reply: u64,
)
    ensures
        ({
            let out = active_command(s, steer, RuntimeCommand::Steer { text }, reply);
            &&& out.state == s
            &&& trimmed(text@).len() > 0 ==> out.steer == steer.push(trimmed(text@)) && out.effects
                == seq![Effect::Reply { reply, result: Ok(Response::Accepted) }]
            &&& trimmed(text@).len() == 0 ==> out.steer == steer && out.effects == seq![
                Effect::Reply { reply, result: Err("steer message cannot be empty"@) },
            ]
        }),
        ({
            let out = active_command(s, steer, RuntimeCommand::FollowUp { text }, reply);
            &&& out.steer == steer
            &&& out.state.queued == s.queued
            &&& out.state.active == s.active
            &&& trimmed(text@).len() > 0 ==> out.state.follow_up == s.follow_up.push(
                Pending { text: trimmed(text@), reply },
            ) && out.effects.len() == 0
            &&& trimmed(text@).len() == 0 ==> out.state == s && out.effects == seq![
                Effect::Reply { reply, result: Err("follow-up message cannot be empty"@) },
            ]
        }),
{
}

/// Cancelling a busy actor cancels what it waits for and its turn, refuses every prompt that
/// waits, and is then accepted. The turn itself stays active until it has ended.
pub proof fn cancelling_stops_the_turn(s: ActorState, steer: Seq<Seq<char>>, reply: u64)
    ensures
        ({
            let out = active_command(s, steer, RuntimeCommand::Cancel, reply);
            let n = s.queued.len() as int;
            let m = s.follow_up.len() as int;
            &&& out.effects.len() == n + m + 3
            &&& out.effects[0] is CancelWaiters
            &&& out.effects[1] is CancelTurn
            &&& forall|i: int|
                0 <= i < n ==> out.effects[2 + i] == (Effect::Reply {
                    reply: (#[trigger] s.queued[i]).reply,
                    result: Err("turn cancelled"@),
                })
            &&& forall|i: int|
                0 <= i < m ==> out.effects[2 + n + i] == (Effect::Reply {
                    reply: (#[trigger] s.follow_up[i]).reply,
                    result: Err("turn cancelled"@),
                })
            &&& out.effects.last() == (Effect::Reply { reply, result: Ok(Response::Accepted) })
            &&& out.state.queued.len() == 0
            &&& out.state.follow_up.len() == 0
            &&& out.steer.len() == 0
            &&& out.state.active == s.active
            &&& out.state.shutdown_requested == s.shutdown_requested
        }),
{
    let out = active_command(s, steer, RuntimeCommand::Cancel, reply);
    let n = s.queued.len() as int;
    assert forall|i: int| 0 <= i < s.follow_up.len() implies out.effects[2 + n + i] == (
    Effect::Reply {
        reply: (#[trigger] s.follow_up[i]).reply,
        result: Err("turn cancelled"@),
    }) by {
        assert(out.effects[2 + n + i] == refuse_all(s.follow_up, "turn cancelled"@)[i]);
    }
    assert forall|i: int| 0 <= i < n implies out.effects[2 + i] == (Effect::Reply {
        reply: (#[trigger] s.queued[i]).reply,
        result: Err("turn cancelled"@),
    }) by {
        assert(out.effects[2 + i] == refuse_all(s.queued, "turn cancelled"@)[i]);
    }
}

/// Shutting a busy actor down cancels its turn and is accepted; what waits stays until the
/// turn has ended.
pub proof fn shutdown_cancels_the_turn(s: ActorState, steer: Seq<Seq<char>>, reply: u64)
    ensures
        ({
            let out = active_command(s, steer, RuntimeCommand::Shutdown, reply);
            &&& out.effects.len() == 3
            &&& out.effects[0] is CancelWaiters
            &&& out.effects[1] is CancelTurn
            &&& out.effects[2] == (Effect::Reply { reply, result: Ok(Response::Accepted) })
            &&& out.state == (ActorState { shutdown_requested: true, ..s })
            &&& out.steer == steer
        }),
{
}

/// A busy actor changes and reads no mode, resumes nothing, and says so; approvals are looked
/// for under their request.
pub proof fn busy_actors_leave_modes_alone(
    s: ActorState,
    steer: Seq<Seq<char>>,
    mode: QueueMode,
    text: String,
    names: Vec<String>,
    decision: ApprovalDecision,
    reply: u64,
)
    ensures
        ({
            let no = |message: Seq<char>| Outcome {
                state: s,
                steer,
                effects: seq![Effect::Reply { reply, result: Err::<Response, Seq<char>>(message) }],
            };
            let queue = "cannot change queue mode while a turn is active"@;
            let modes = "cannot change or read mode while a turn is active"@;
            &&& active_command(s, steer, RuntimeCommand::SetSteeringMode { mode }, reply) == no(queue)
            &&& active_command(s, steer, RuntimeCommand::SetFollowUpMode { mode }, reply) == no(queue)
            &&& active_command(s, steer, RuntimeCommand::SetMode { mode_id: text }, reply) == no(
                modes,
            )
            &&& active_command(s, steer, RuntimeCommand::GetMode, reply) == no(modes)
            &&& active_command(s, steer, RuntimeCommand::ActivateTools { names }, reply) == no(modes)
            &&& active_command(s, steer, RuntimeCommand::DeactivateTools { names }, reply) == no(
                modes,
            )
            &&& active_command(s, steer, RuntimeCommand::ResumeSafeTurn, reply) == no(
                "cannot resume while a turn is active"@,
            )
        }),
        ({
            let out = active_command(
                s,
                steer,
                RuntimeCommand::Approval { request_id: text, decision },
                reply,
            );
            &&& out.state == s
            &&& out.steer == steer
            &&& out.effects == seq![
                Effect::ResolveApproval { reply, request_id: text@, decision },
            ]
        }),
{
}

/// A turn that was cancelled counts as cancelled, whatever it gave; otherwise a result
/// completes it, an error that speaks of an abort cancels it, and any other error fails it
/// with its message.
pub proof fn ends_of_turns_are_told_apart(cancelled: bool, result: Result<Seq<char>, Seq<char>>)
    ensures
        cancelled ==> lifecycle_of(cancelled, result) is Cancelled,
        !cancelled && result is Ok ==> lifecycle_of(cancelled, result) is Completed,
        !cancelled && (result matches Err(message) && has_part(message, "aborted"@)) ==> lifecycle_of(
            cancelled,
            result,
        ) is Cancelled,
        !cancelled && (result matches Err(message) && !has_part(message, "aborted"@))
            ==> lifecycle_of(cancelled, result) == (Lifecycle::Failed { message: result->Err_0 }),
{
}

/// When the active turn ends, its end is announced and its prompt answered: with the text
/// where it completed, with `turn cancelled` where it was cancelled, and else with the error.
/// Only after a completed turn the oldest follow-up starts; queued prompts are left as they
/// are.
pub proof fn ended_turns_answer_and_go_on(
    s: ActorState,
    cancelled: bool,
    result: Result<Seq<char>, Seq<char>>,
)
    requires
        s.active is Some,
    ensures
        ({
            let (next, effects) = turn_ended(s, cancelled, result);
            let reply = s.active->0;
            let completed = !cancelled && result is Ok;
            &&& effects.len() >= 2
            &&& effects[0] is Publish
            &&& completed ==> effects[0] == (Effect::Publish { lifecycle: Lifecycle::Completed })
                && effects[1] == (Effect::Reply {
                reply,
                result: Ok(Response::Prompt { text: result->Ok_0 }),
            })
            &&& cancelled ==> effects[0] == (Effect::Publish { lifecycle: Lifecycle::Cancelled })
                && effects[1] == (Effect::Reply { reply, result: Err("turn cancelled"@) })
            &&& !cancelled && (result matches Err(message) && !has_part(message, "aborted"@))
                ==> effects[1] == (Effect::Reply { reply, result: Err(result->Err_0) })
            &&& completed && s.follow_up.len() > 0 ==> effects.len() == 3 && effects[2] == (
            Effect::Start { prompt: s.follow_up[0], resume: false }) && next.active == Some(
                s.follow_up[0].reply,
            ) && next.follow_up == s.follow_up.skip(1)
            &&& !(completed && s.follow_up.len() > 0) ==> effects.len() == 2 && next.active is None
                && next.follow_up == s.follow_up
            &&& next.queued == s.queued
            &&& next.shutdown_requested == s.shutdown_requested
        }),
{
    if s.follow_up.len() > 0 {
        assert(s.follow_up.drop_first() == s.follow_up.skip(1));
    }
}

/// A lost turn task is announced and answered as a failure, recorded, and ends the actor.
pub proof fn lost_turns_end_the_actor(s: ActorState, error: Seq<char>)
    requires
        s.active is Some,
    ensures
        ({
            let (next, effects) = turn_lost(s, error);
            let message = "runtime turn task failed: "@ + error;
            &&& next.active is None
            &&& next.queued == s.queued
            &&& next.follow_up == s.follow_up
            &&& effects == seq![
                Effect::Publish { lifecycle: Lifecycle::Failed { message } },
                Effect::Reply { reply: s.active->0, result: Err(message) },
                Effect::RecordFailed,
                Effect::Publish { lifecycle: Lifecycle::Shutdown },
                Effect::Stop,
            ]
        }),
{
}

/// With nothing active, a shutdown that was asked for refuses each queued prompt, is
/// recorded, announced and carried out; otherwise the oldest queued prompt starts, and an
/// actor without one waits.
pub proof fn idle_actors_go_on_with_the_oldest(s: ActorState)
    requires
        s.active is None,
    ensures
        ({
            let (next, effects) = settled(s);
            let n = s.queued.len() as int;
            &&& s.shutdown_requested ==> {
                &&& effects.len() == n + 4
                &&& forall|i: int|
                    0 <= i < n ==> effects[i] == (Effect::Reply {
                        reply: (#[trigger] s.queued[i]).reply,
                        result: Err("runtime is shutting down"@),
                    })
                &&& effects[n] is RecordShutdown
                &&& effects[n + 1] == (Effect::Publish { lifecycle: Lifecycle::Shutdown })
                &&& effects[n + 2] is ShutdownAgent
                &&& effects[n + 3] is Stop
                &&& next.queued.len() == 0
                &&& next.active is None
            }
            &&& !s.shutdown_requested && n > 0 ==> effects == seq![
                Effect::Start { prompt: s.queued[0], resume: false },
            ] && next.active == Some(s.queued[0].reply) && next.queued == s.queued.skip(1)
            &&& !s.shutdown_requested && n == 0 ==> effects.len() == 0 && next == s
            &&& next.follow_up == s.follow_up
            &&& next.shutdown_requested == s.shutdown_requested
        }),
{
    if s.queued.len() > 0 {
        assert(s.queued.drop_first() == s.queued.skip(1));
    }
    let effects = settled(s).1;
    if s.shutdown_requested {
        assert forall|i: int| 0 <= i < s.queued.len() implies effects[i] == (Effect::Reply {
            reply: (#[trigger] s.queued[i]).reply,
            result: Err("runtime is shutting down"@),
        }) by {
            assert(effects[i] == refuse_all(s.queued, "runtime is shutting down"@)[i]);
        }
    }
}

/// A turn is resumed only once its fence was claimed, and then with its own prompt: a record
/// that names a candidate for automatic resume has the first one claimed, and any other
/// answer is refused.
pub proof fn turns_resume_only_when_claimed(
    s: ActorState,
    view: RecoveryView,
    candidate: ResumeCandidate,
    claim: Result<bool, String>,
    reply: u64,
)
    ensures
        ({
            let (next, effects) = answered(s, AgentAnswer::Snapshot(Ok(view)), reply);
            &&& next == s
            &&& effects.len() == 1
            &&& view.automatic_resume_implemented && view.resume_candidates@.len() > 0 ==> effects[0]
                == (Effect::Ask {
                reply,
                question: AgentQuestion::ClaimResume { candidate: view.resume_candidates@[0] },
            })
            &&& !(view.automatic_resume_implemented && view.resume_candidates@.len() > 0)
                ==> effects[0] == (Effect::Reply {
                reply,
                result: Err("no unique prompt-backed safe resume candidate is available"@),
            })
        }),
        ({
            let (next, effects) = answered(s, AgentAnswer::Claimed { candidate, claim }, reply);
            &&& effects.len() == 1
            &&& claim == Ok::<bool, String>(true) ==> next.active == Some(reply) && effects[0] == (
            Effect::Start { prompt: Pending { text: candidate.prompt@, reply }, resume: true })
            &&& claim != Ok::<bool, String>(true) ==> next == s && (
            effects[0] matches Effect::Reply { reply: to, result } && to == reply && result is Err)
            &&& claim matches Err(message) ==> effects[0] == (Effect::Reply {
                reply,
                result: Err("safe resume fencing failed: "@ + message@),
            })
            &&& next.queued == s.queued
            &&& next.follow_up == s.follow_up
        }),
{
}

/// What the agent says of its modes and tools is handed on as it is, and a new mode is
/// announced.
pub proof fn answers_of_the_agent_are_handed_on(
    s: ActorState,
    mode_id: String,
    names: Vec<String>,
    message: String,
    reply: u64,
)
    ensures
        answered(s, AgentAnswer::Mode(mode_id), reply) == (
            s,
            seq![Effect::Reply { reply, result: Ok(Response::Mode { mode_id: mode_id@ }) }],
        ),
        answered(s, AgentAnswer::ModeSet(Ok(mode_id)), reply) == (
            s,
            seq![
                Effect::Reply { reply, result: Ok(Response::Mode { mode_id: mode_id@ }) },
                Effect::PublishState { state: mode_id@ },
            ],
        ),
        answered(s, AgentAnswer::ModeSet(Err(message)), reply) == (
            s,
            seq![Effect::Reply { reply, result: Err(message@) }],
        ),
        answered(s, AgentAnswer::Tools(names), reply) == (
            s,
            seq![Effect::Reply { reply, result: Ok(Response::Tools { names: texts(names@) }) }],
        ),
        answered(s, AgentAnswer::QueueModeSet, reply) == (
            s,
            seq![Effect::Reply { reply, result: Ok(Response::Accepted) }],
        ),
        answered(s, AgentAnswer::Snapshot(Err(message)), reply) == (
            s,
            seq![Effect::Reply { reply, result: Err(message@) }],
        ),
{
}

/// An approval is accepted exactly where its request waits, and else names the request.
pub proof fn approvals_need_a_waiting_request(reply: u64, request_id: &str, found: bool, r: ActorEffect)
    requires
        call_ensures(Actor::approval_resolved, (reply, request_id, found), r),
    ensures
        found ==> r@ == (Effect::Reply { reply, result: Ok(Response::Accepted) }),
        !found ==> (r@ matches Effect::Reply { reply: to, result: Err(message) } && to == reply
            && has_part(message, request_id@)),
{
    if !found {
        let message = not_pending(request_id@);
        let at = "no approval request "@.len() as int;
        assert(message.subrange(at, at + request_id@.len()) == request_id@);
        assert(occurs_at(message, request_id@, at));
    }
}

/// A closed command channel shuts the actor down and cancels its turn, if one is active.
pub proof fn closed_channels_shut_down(actor: &mut Actor, r: Vec<ActorEffect>)
    requires
        call_ensures(Actor::commands_closed, (actor,), r),
    ensures
        final(actor)@.shutdown_requested,
        final(actor)@.queued == old(actor)@.queued,
        final(actor)@.follow_up == old(actor)@.follow_up,
        final(actor)@.active == old(actor)@.active,
        old(actor)@.active is Some <==> effect_list(r@) == seq![Effect::CancelTurn],
        old(actor)@.active is None <==> r@.len() == 0,
{
    assert(effect_list(r@).len() == r@.len());
    assert(seq![Effect::CancelTurn].len() == 1);
}

/// A new actor has nothing waiting; one that resumes a turn has that turn active from the
/// start.
pub proof fn new_actors_have_nothing_waiting(
    fresh: Actor,
    candidate: ResumeCandidate,
    reply: u64,
    resumed: (Actor, ActorEffect),
)
    requires
        call_ensures(Actor::new, (), fresh),
        call_ensures(Actor::resuming, (candidate, reply), resumed),
    ensures
        fresh@.active is None && fresh@.queued.len() == 0 && fresh@.follow_up.len() == 0
            && !fresh@.shutdown_requested,
        resumed.0@.active == Some(reply) && resumed.0@.queued.len() == 0
            && resumed.0@.follow_up.len() == 0 && !resumed.0@.shutdown_requested,
        resumed.1@ matches Effect::Start { prompt, .. } && prompt.text == candidate.prompt@
            && prompt.reply == reply,
{
}

/// A client reads from a response what it asked for, and nothing else passes for it.
pub proof fn responses_are_read_by_kind(
    response: RuntimeResponse,
    activate: bool,
    prompt: Result<String, String>,
    resume: Result<String, String>,
    mode: Result<String, String>,
    tools: Result<Vec<String>, String>,
)
    requires
        call_ensures(prompt_result, (response,), prompt),
        call_ensures(resume_result, (response,), resume),
        call_ensures(mode_result, (response,), mode),
        call_ensures(tools_result, (response, activate), tools),
    ensures
        prompt is Ok <==> response is Prompt,
        resume is Ok <==> response is Prompt,
        mode is Ok <==> response is Mode,
        tools is Ok <==> response is Tools,
        response matches RuntimeResponse::Prompt { text } ==> prompt->Ok_0@ == text@ && resume->Ok_0@
            == text@,
        response matches RuntimeResponse::Mode { mode_id } ==> mode->Ok_0@ == mode_id@,
        response matches RuntimeResponse::Tools { names } ==> texts(tools->Ok_0@) == texts(names@),
{
}

/// A runtime resumes a turn on its own only if its fence was claimed, and it is the first
/// that the record allows to resume.
pub proof fn automatic_resume_needs_a_claim(
    view: &RecoveryView,
    first: Option<ResumeCandidate>,
    claim: Result<bool, String>,
    r: Option<ResumeCandidate>,
)
    requires
        call_ensures(resume_candidate, (view,), first),
        call_ensures(automatic_candidate, (first, claim), r),
    ensures
        first is Some <==> view.automatic_resume_implemented && view.resume_candidates@.len() > 0,
        first matches Some(candidate) ==> candidate.prompt@ == view.resume_candidates@[0].prompt@
            && candidate.turn_id@ == view.resume_candidates@[0].turn_id@,
        claim == Ok::<bool, String>(true) ==> r == first,
        claim != Ok::<bool, String>(true) ==> r is None,
{
}

/// A turn that was cancelled, or whose error says that it was aborted, is told as cancelled; any
/// other one as completed where it gave a result, and as failed with its message where it did
/// not.
pub proof fn ends_are_told_by_their_kind(
    cancelled: bool,
    result: &Result<String, String>,
    r: RuntimeLifecycle,
)
    requires
        call_ensures(terminal_lifecycle, (cancelled, result), r),
    ensures
        r is Cancelled <==> cancelled || (result is Err && has_part(result->Err_0@, "aborted"@)),
        r is Completed <==> !cancelled && result is Ok,
        r is Failed <==> !cancelled && result is Err && !has_part(result->Err_0@, "aborted"@),
        !(r is Shutdown),
        r matches RuntimeLifecycle::Failed { message } ==> message@ == result->Err_0@,
{
}

/// What is asked of an actor is answered from its state: whether a turn runs, how many prompts
/// and follow-ups wait, and which prompt is next.
pub proof fn actors_answer_from_their_state(
    actor: &Actor,
    active: bool,
    queued: usize,
    following: usize,
    next: Option<String>,
)
    requires
        call_ensures(Actor::is_active, (actor,), active),
        call_ensures(Actor::queued_len, (actor,), queued),
        call_ensures(Actor::follow_up_len, (actor,), following),
        call_ensures(Actor::next_queued, (actor,), next),
    ensures
        active <==> actor@.active is Some,
        queued == actor@.queued.len(),
        following == actor@.follow_up.len(),
        next is Some <==> actor@.queued.len() > 0,
        next matches Some(text) ==> text@ == actor@.queued[0].text,
{
}

} // verus!
