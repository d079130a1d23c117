//! The agent: its modes, queues and model settings, and the report on its context.
use vstd::prelude::*;

use crate::context_engine::{ContextEngine, ContextState, ProjectionExplain};
use crate::llm::ContextDelivery;
use crate::text::{
    decimal, decimal_text, has_prefix, has_suffix, join, joined, opt_text, same_text, texts, to_lowercase, trim, trimmed,
    unicode_lowercase,
};
use crate::turn_state::{
    drain_size, error_text, hyphenated, is_version_4, steer_requires_active_turn, FollowUpBuffer, QueueMode, SteerBuffer,
    TurnError, TurnId, TurnState,
};

verus! {

/// How a model is reached.
#[derive(Debug, Clone)]
pub struct ModelSettings {
    pub provider: String,
    pub model: String,
    pub base_url: String,
    pub anthropic_base_url: Option<String>,
    pub api_key: Option<String>,
    pub anthropic_api_key: Option<String>,
}

/// Whether a trimmed, lower-case provider name is that of Anthropic.
pub open spec fn is_anthropic(name: Seq<char>) -> bool {
    name == "anthropic"@
}

/// Whether a trimmed, lower-case provider name is that of Anthropic.
pub fn names_anthropic(name: &str) -> (r: bool)
    ensures
        r == is_anthropic(name@),
{
    same_text(name, "anthropic")
}

/// Whether a change of address or key goes to the settings of Anthropic under the
/// given provider, whatever the case of its name and the space around it.
pub fn uses_anthropic(provider: &str) -> (r: bool)
    ensures
        r == is_anthropic(unicode_lowercase(trimmed(provider@))),
{
    let trimmed_name = trim(provider);
    let name = to_lowercase(trimmed_name.as_str());
    names_anthropic(name.as_str())
}

impl ModelSettings {
    /// Takes over a change of the model. The address and the key go to the settings
    /// of the provider that is then in use.
    pub fn switch_model(
        &mut self,
        model: &str,
        provider: Option<String>,
        base_url: Option<String>,
        api_key: Option<String>,
    )
        ensures
            ({
                let in_use = match provider {
                    Some(p) => p@,
                    None => old(self).provider@,
                };
                let anthropic = is_anthropic(unicode_lowercase(trimmed(in_use)));
                switched(*old(self), *final(self), model@, provider, base_url, api_key, anthropic)
            }),
    {
        if let Some(p) = provider {
            self.provider = p;
        }
        let anthropic = uses_anthropic(self.provider.as_str());
        self.apply_connection(model, base_url, api_key, anthropic);
    }

    /// Takes over the model, the address and the key for a provider that is known to
    /// be Anthropic or not.
    pub fn apply_connection(
        &mut self,
        model: &str,
        base_url: Option<String>,
        api_key: Option<String>,
        anthropic: bool,
    )
        ensures
            switched(*old(self), *final(self), model@, None, base_url, api_key, anthropic),
    {
        self.model = model.to_string();
        if let Some(url) = base_url {
            if anthropic {
                self.anthropic_base_url = Some(url);
            } else {
                self.base_url = url;
            }
        }
        if let Some(key) = api_key {
            if anthropic {
                self.anthropic_api_key = Some(key);
            } else {
                self.api_key = Some(key);
            }
        }
    }
}

/// What a change of the model does to the settings.
pub open spec fn switched(
    before: ModelSettings,
    after: ModelSettings,
    model: Seq<char>,
    provider: Option<String>,
    base_url: Option<String>,
    api_key: Option<String>,
    anthropic: bool,
) -> bool {
    &&& after.model@ == model
    &&& after.provider == (match provider {
        Some(p) => p,
        None => before.provider,
    })
    &&& after.base_url == (match base_url {
        Some(url) => if anthropic {
            before.base_url
        } else {
            url
        },
        None => before.base_url,
    })
    &&& after.anthropic_base_url == (if anthropic && base_url is Some {
        base_url
    } else {
        before.anthropic_base_url
    })
    &&& after.api_key == (if !anthropic && api_key is Some {
        api_key
    } else {
        before.api_key
    })
    &&& after.anthropic_api_key == (if anthropic && api_key is Some {
        api_key
    } else {
        before.anthropic_api_key
    })
}

/// What the agent holds between and during turns.
pub struct Agent {
    plan_mode_active: bool,
    active_turn: Option<TurnState>,
    steer_buffer: SteerBuffer,
    follow_up_buffer: FollowUpBuffer,
    resume_existing_turn: bool,
    runtime_approval_waiters: bool,
}

/// The contents of an [`Agent`].
pub struct AgentState {
    pub plan_mode_active: bool,
    pub active_turn: Option<TurnState>,
    pub steer: Seq<Seq<char>>,
    pub steer_mode: QueueMode,
    pub follow_up: Seq<Seq<char>>,
    pub follow_up_mode: QueueMode,
    pub resume_existing_turn: bool,
    pub runtime_approval_waiters: bool,
}

impl View for Agent {
    type V = AgentState;

    closed spec fn view(&self) -> AgentState {
        AgentState {
            plan_mode_active: self.plan_mode_active,
            active_turn: self.active_turn,
            steer: self.steer_buffer@,
            steer_mode: self.steer_buffer.queue_mode(),
            follow_up: self.follow_up_buffer@,
            follow_up_mode: self.follow_up_buffer.queue_mode(),
            resume_existing_turn: self.resume_existing_turn,
            runtime_approval_waiters: self.runtime_approval_waiters,
        }
    }
}

/// The mode that a mode id asks for: whether it is the plan mode.
pub open spec fn plan_requested(mode_id: Seq<char>) -> Option<bool> {
    if mode_id == "plan"@ || mode_id == "architect"@ {
        Some(true)
    } else if mode_id == "default"@ || mode_id == "agent"@ || mode_id == "code"@ || mode_id
        == "ask"@ {
        Some(false)
    } else {
        None
    }
}

/// The id of the mode of a session.
pub open spec fn mode_id_of(plan: bool) -> Seq<char> {
    if plan {
        "plan"@
    } else {
        "default"@
    }
}

/// A change of the session mode. It is recorded and announced only where something
/// changed.
#[derive(Debug, Clone, Copy)]
pub struct ModeChange {
    pub mode_id: &'static str,
    pub changed: bool,
}

/// What comes of queueing a message for a running turn.
pub open spec fn queue_outcome(active: bool, text: Seq<char>, empty_error: Seq<char>) -> Result<
    Seq<char>,
    Seq<char>,
> {
    if !active {
        Err(error_text(TurnError::NoActiveTurn))
    } else if trimmed(text).len() == 0 {
        Err(empty_error)
    } else {
        Ok(trimmed(text))
    }
}

impl Agent {
    /// An agent without a turn, in the default mode.
    pub fn new() -> (r: Self)
        ensures
            r@ == (AgentState {
                plan_mode_active: false,
                active_turn: None,
                steer: Seq::empty(),
                steer_mode: QueueMode::OneAtATime,
                follow_up: Seq::empty(),
                follow_up_mode: QueueMode::OneAtATime,
                resume_existing_turn: false,
                runtime_approval_waiters: false,
            }),
    {
        Agent {
            plan_mode_active: false,
            active_turn: None,
            steer_buffer: SteerBuffer::default(),
            follow_up_buffer: FollowUpBuffer::default(),
            resume_existing_turn: false,
            runtime_approval_waiters: false,
        }
    }

    pub fn is_plan_mode_active(&self) -> (r: bool)
        ensures
            r == self@.plan_mode_active,
    {
        self.plan_mode_active
    }

    /// Enters the plan mode. Says whether that is a change.
    pub fn enter_plan_mode(&mut self) -> (changed: bool)
        ensures
            changed == !old(self)@.plan_mode_active,
            final(self)@ == (AgentState { plan_mode_active: true, ..old(self)@ }),
    {
        let changed = !self.plan_mode_active;
        self.plan_mode_active = true;
        changed
    }

    /// Leaves the plan mode. Says whether that is a change.
    pub fn leave_plan_mode(&mut self) -> (changed: bool)
        ensures
            changed == old(self)@.plan_mode_active,
            final(self)@ == (AgentState { plan_mode_active: false, ..old(self)@ }),
    {
        let changed = self.plan_mode_active;
        self.plan_mode_active = false;
        changed
    }

    /// Sets the session mode and gives the id of the mode that is then active.
    pub fn set_session_mode(&mut self, mode_id: &str) -> (r: Result<ModeChange, String>)
        ensures
            match plan_requested(mode_id@) {
                Some(plan) => {
                    &&& r matches Ok(change) && change.mode_id@ == mode_id_of(plan)
                        && change.changed == (plan != old(self)@.plan_mode_active)
                    &&& final(self)@ == (AgentState { plan_mode_active: plan, ..old(self)@ })
                },
                None => {
                    &&& r matches Err(message) && message@ == "unknown session mode: "@ + mode_id@
                    &&& final(self)@ == old(self)@
                },
            },
    {
        if same_text(mode_id, "plan") || same_text(mode_id, "architect") {
            let changed = self.enter_plan_mode();
            Ok(ModeChange { mode_id: "plan", changed })
        } else if same_text(mode_id, "default") || same_text(mode_id, "agent") || same_text(
            mode_id,
            "code",
        ) || same_text(mode_id, "ask") {
            let changed = self.leave_plan_mode();
            Ok(ModeChange { mode_id: "default", changed })
        } else {
            let mut message = "unknown session mode: ".to_string();
            message.append(mode_id);
            Err(message)
        }
    }

    /// The id of the session mode.
    pub fn current_session_mode(&self) -> (r: &'static str)
        ensures
            r@ == mode_id_of(self@.plan_mode_active),
    {
        if self.plan_mode_active {
            "plan"
        } else {
            "default"
        }
    }

    /// Whether a tool may run now. `allowed_in_plan` tells whether the plan mode
    /// allows it.
    pub fn is_tool_allowed(&self, allowed_in_plan: bool) -> (r: bool)
        ensures
            r == (!self@.plan_mode_active || allowed_in_plan),
    {
        if !self.plan_mode_active {
            return true;
        }
        allowed_in_plan
    }

    /// Marks the next prompt as the resumption of a turn, without a new user message.
    pub fn set_resume_existing_turn(&mut self, resume: bool)
        ensures
            final(self)@ == (AgentState { resume_existing_turn: resume, ..old(self)@ }),
    {
        self.resume_existing_turn = resume;
    }

    pub fn runtime_approval_waiters(&self) -> (r: bool)
        ensures
            r == self@.runtime_approval_waiters,
    {
        self.runtime_approval_waiters
    }

    /// Lets the runtime own the approval waiters of this session.
    pub fn enable_runtime_approval_waiters(&mut self)
        ensures
            final(self)@ == (AgentState { runtime_approval_waiters: true, ..old(self)@ }),
    {
        self.runtime_approval_waiters = true;
    }

    pub fn is_turn_active(&self) -> (r: bool)
        ensures
            r == self@.active_turn is Some,
    {
        self.active_turn.is_some()
    }

    /// The identity of the turn in progress.
    pub fn active_turn_id(&self) -> (r: Option<TurnId>)
        ensures
            r == (match self@.active_turn {
                Some(turn) => Some(turn.turn_id),
                None => None,
            }),
    {
        match &self.active_turn {
            Some(turn) => Some(turn.turn_id),
            None => None,
        }
    }

    /// How many steps the turn in progress has begun.
    pub fn active_steps(&self) -> (r: u32)
        ensures
            r == (match self@.active_turn {
                Some(turn) => turn.step,
                None => 0u32,
            }),
    {
        match &self.active_turn {
            Some(turn) => turn.step,
            None => 0,
        }
    }

    /// Starts a turn unless one is in progress.
    pub fn begin_turn(&mut self) -> (r: Result<(), TurnError>)
        ensures
            match old(self)@.active_turn {
                Some(_) => r == Err::<(), TurnError>(TurnError::AgentBusy) && final(self)@ == old(self)@,
                None => {
                    &&& r is Ok
                    &&& final(self)@.active_turn matches Some(turn) && is_version_4(turn.turn_id@)
                        && turn.step == 0 && turn.step_id is None
                    &&& final(self)@ == (AgentState {
                        active_turn: final(self)@.active_turn,
                        ..old(self)@
                    })
                },
            },
    {
        crate::turn_state::begin_turn(&mut self.active_turn)
    }

    /// Ends the turn in progress, if there is one.
    pub fn end_turn(&mut self)
        ensures
            final(self)@ == (AgentState { active_turn: None, ..old(self)@ }),
    {
        self.active_turn = None;
    }

    /// The turn and the step that a batch of tools runs under.
    pub fn tool_scope(&self) -> (r: (Option<String>, Option<String>))
        ensures
            match self@.active_turn {
                Some(turn) => {
                    &&& opt_text(r.0) == Some(hyphenated(turn.turn_id@))
                    &&& opt_text(r.1) == (match turn.step_id {
                        Some(step_id) => Some(hyphenated(step_id@)),
                        None => None,
                    })
                },
                None => r.0 is None && r.1 is None,
            },
    {
        match &self.active_turn {
            Some(turn) => {
                let step = match &turn.step_id {
                    Some(step_id) => Some(step_id.text()),
                    None => None,
                };
                (Some(turn.turn_id.text()), step)
            },
            None => (None, None),
        }
    }

    pub fn pending_steer_count(&self) -> (r: usize)
        ensures
            r == self@.steer.len(),
    {
        self.steer_buffer.len()
    }

    pub fn pending_follow_up_count(&self) -> (r: usize)
        ensures
            r == self@.follow_up.len(),
    {
        self.follow_up_buffer.len()
    }

    /// Queues a steering message for the next model call of the running turn.
    pub fn queue_steer(&mut self, text: &str) -> (r: Result<(), String>)
        ensures
            ({
                let outcome = queue_outcome(
                    old(self)@.active_turn is Some,
                    text@,
                    "steer message cannot be empty"@,
                );
                match r {
                    Ok(_) => outcome is Ok && final(self)@ == (AgentState {
                        steer: old(self)@.steer.push(outcome->Ok_0),
                        ..old(self)@
                    }),
                    Err(message) => outcome == Err::<Seq<char>, Seq<char>>(message@) && final(self)@
                        == old(self)@,
                }
            }),
    {
        if !self.is_turn_active() {
            return Err(steer_requires_active_turn().message());
        }
        let text = trim(text);
        if text.as_str().is_empty() {
            return Err("steer message cannot be empty".to_string());
        }
        self.steer_buffer.push(text);
        Ok(())
    }

    /// Queues a steering message for the next model call of the running turn.
    pub fn steer(&mut self, text: &str) -> (r: Result<(), String>)
        ensures
            ({
                let outcome = queue_outcome(
                    old(self)@.active_turn is Some,
                    text@,
                    "steer message cannot be empty"@,
                );
                match r {
                    Ok(_) => outcome is Ok && final(self)@ == (AgentState {
                        steer: old(self)@.steer.push(outcome->Ok_0),
                        ..old(self)@
                    }),
                    Err(message) => outcome == Err::<Seq<char>, Seq<char>>(message@) && final(self)@
                        == old(self)@,
                }
            }),
    {
        self.queue_steer(text)
    }

    /// Queues a message for when the running turn would otherwise settle.
    pub fn follow_up(&mut self, text: &str) -> (r: Result<(), String>)
        ensures
            ({
                let outcome = queue_outcome(
                    old(self)@.active_turn is Some,
                    text@,
                    "follow-up message cannot be empty"@,
                );
                match r {
                    Ok(_) => outcome is Ok && final(self)@ == (AgentState {
                        follow_up: old(self)@.follow_up.push(outcome->Ok_0),
                        ..old(self)@
                    }),
                    Err(message) => outcome == Err::<Seq<char>, Seq<char>>(message@) && final(self)@
                        == old(self)@,
                }
            }),
    {
        if !self.is_turn_active() {
            return Err(steer_requires_active_turn().message());
        }
        let text = trim(text);
        if text.as_str().is_empty() {
            return Err("follow-up message cannot be empty".to_string());
        }
        self.follow_up_buffer.push(text);
        Ok(())
    }

    pub fn set_steering_mode(&mut self, mode: QueueMode)
        ensures
            final(self)@ == (AgentState { steer_mode: mode, ..old(self)@ }),
    {
        self.steer_buffer.set_mode(mode);
    }

    pub fn set_follow_up_mode(&mut self, mode: QueueMode)
        ensures
            final(self)@ == (AgentState { follow_up_mode: mode, ..old(self)@ }),
    {
        self.follow_up_buffer.set_mode(mode);
    }

    /// Drops every queued message.
    pub fn clear_queues(&mut self)
        ensures
            final(self)@ == (AgentState {
                steer: Seq::empty(),
                follow_up: Seq::empty(),
                ..old(self)@
            }),
    {
        self.steer_buffer.clear();
        self.follow_up_buffer.clear();
    }

    /// The follow-up messages that join the conversation now, oldest first; each is
    /// announced and added as a message of the user. Without any the turn settles.
    pub fn inject_pending_follow_up(&mut self) -> (r: Vec<String>)
        ensures
            ({
                let n = if old(self)@.follow_up.len() == 0 {
                    0
                } else {
                    drain_size(old(self)@.follow_up_mode, old(self)@.follow_up.len()) as int
                };
                &&& texts(r@) == old(self)@.follow_up.take(n)
                &&& final(self)@ == (AgentState {
                    follow_up: old(self)@.follow_up.skip(n),
                    ..old(self)@
                })
            }),
    {
        if self.follow_up_buffer.is_empty() {
            let none: Vec<String> = Vec::new();
            proof {
                assert(texts(none@) == self@.follow_up.take(0));
                assert(self@.follow_up.skip(0) == self@.follow_up);
            }
            return none;
        }
        self.follow_up_buffer.take_all()
    }
}

/// A session mode that was set is the one that is read back, under its own name.
pub proof fn session_mode_reads_back(mode_id: Seq<char>)
    ensures
        plan_requested(mode_id) matches Some(plan) ==> plan_requested(mode_id_of(plan)) == Some(plan),
{
    reveal_strlit("plan");
    reveal_strlit("architect");
    reveal_strlit("default");
    assert("default"@.len() != "plan"@.len());
    assert("default"@.len() != "architect"@.len());
}

/// The checkpoint that a rewind goes to.
pub fn rewind_target(checkpoint_id: Option<String>, latest: Option<String>) -> (r: Result<
    String,
    String,
>)
    ensures
        match (checkpoint_id, latest) {
            (Some(id), _) => r == Ok::<String, String>(id),
            (None, Some(id)) => r == Ok::<String, String>(id),
            (None, None) => r matches Err(message) && message@
                == "no compaction checkpoint available to rewind"@,
        },
{
    match checkpoint_id {
        Some(id) => Ok(id),
        None => match latest {
            Some(id) => Ok(id),
            None => Err("no compaction checkpoint available to rewind".to_string()),
        },
    }
}

/// What the report on the context shows beside the projection.
#[derive(Debug)]
pub struct ReportFacts {
    pub usage_percent: u8,
    pub effective_tokens: u32,
    pub threshold_percent: u32,
    pub threshold_tokens: u32,
    pub message_count: usize,
    pub model: String,
    /// The name of the delivery mode that is configured.
    pub delivery: String,
    /// What the two delivery modes of a projection are called.
    pub full_delivery: String,
    pub delta_delivery: String,
    /// Where memory is kept, if it is enabled.
    pub memory_root: Option<String>,
}

/// A number, or a dash.
pub open spec fn number_or_dash(n: Option<nat>) -> Seq<char> {
    match n {
        Some(v) => decimal(v),
        None => "-"@,
    }
}

/// A text, or a dash.
pub open spec fn text_or_dash(t: Option<Seq<char>>) -> Seq<char> {
    match t {
        Some(v) => v,
        None => "-"@,
    }
}

pub open spec fn opt_u32(n: Option<u32>) -> Option<nat> {
    match n {
        Some(v) => Some(v as nat),
        None => None,
    }
}

pub open spec fn opt_u64(n: Option<u64>) -> Option<nat> {
    match n {
        Some(v) => Some(v as nat),
        None => None,
    }
}

pub open spec fn opt_usize(n: Option<usize>) -> Option<nat> {
    match n {
        Some(v) => Some(v as nat),
        None => None,
    }
}

/// The word for a truth value.
pub open spec fn truth_text(b: bool) -> Seq<char> {
    if b {
        "true"@
    } else {
        "false"@
    }
}

fn num(n: Option<u64>) -> (r: String)
    ensures
        r@ == number_or_dash(opt_u64(n)),
{
    match n {
        Some(v) => decimal_text(v),
        None => "-".to_string(),
    }
}

fn widen_u32(n: Option<u32>) -> (r: Option<u64>)
    ensures
        opt_u64(r) == opt_u32(n),
{
    match n {
        Some(v) => Some(v as u64),
        None => None,
    }
}

fn widen_usize(n: Option<usize>) -> (r: Option<u64>)
    ensures
        opt_u64(r) == opt_usize(n),
{
    match n {
        Some(v) => Some(v as u64),
        None => None,
    }
}

fn truth(b: bool) -> (r: &'static str)
    ensures
        r@ == truth_text(b),
{
    if b {
        "true"
    } else {
        "false"
    }
}

fn or_dash(t: &Option<String>) -> (r: String)
    ensures
        r@ == text_or_dash(opt_text(*t)),
{
    match t {
        Some(v) => v.clone(),
        None => "-".to_string(),
    }
}

/// The first lines of the report: pressure, threshold and where the numbers are from.
pub open spec fn pressure_lines(facts: ReportFacts, s: ContextState) -> Seq<Seq<char>> {
    let window: nat = if s.water.context_window_tokens == 0 {
        1
    } else {
        s.water.context_window_tokens as nat
    };
    seq![
        "context: "@ + decimal(facts.usage_percent as nat) + "% ("@ + decimal(
            facts.effective_tokens as nat,
        ) + " / "@ + decimal(window) + " tokens)"@,
        "auto-compact at "@ + decimal(facts.threshold_percent as nat) + "% ("@ + decimal(
            facts.threshold_tokens as nat,
        ) + " tokens)"@,
        "sources: usage="@ + number_or_dash(opt_u32(s.water.last_prompt_tokens)) + " estimate="@
            + number_or_dash(opt_u32(s.water.last_estimate_tokens)),
        "messages: "@ + decimal(facts.message_count as nat),
        "model: "@ + facts.model@,
        "context_epoch: "@ + decimal(s.epoch as nat),
        "delivery: "@ + facts.delivery@ + " (gateway_prefix_len="@ + decimal(
            s.gateway_prefix_len as nat,
        ) + ")"@,
    ]
}

/// The name of a delivery mode.
pub open spec fn delivery_name(facts: ReportFacts, delivery: ContextDelivery) -> Seq<char> {
    match delivery {
        ContextDelivery::Full => facts.full_delivery@,
        ContextDelivery::Delta => facts.delta_delivery@,
    }
}

/// The lines of the report about the projection.
pub open spec fn projection_lines(facts: ReportFacts, x: ProjectionExplain) -> Seq<Seq<char>> {
    let injected = if x.injected@.len() == 0 {
        "-"@
    } else {
        joined(texts(x.injected@), ","@)
    };
    seq![
        "projection: source_messages="@ + decimal(x.source_message_count as nat)
            + " projected_messages="@ + decimal(x.projected_message_count as nat)
            + " source_events="@ + decimal(x.source_event_count as nat) + " active_events="@
            + decimal(x.active_event_count as nat),
        "projection_path: branch="@ + text_or_dash(opt_text(x.active_branch_id))
            + " start_sequence="@ + number_or_dash(opt_u64(x.active_path_start_sequence)),
        "projection_fallback: used="@ + truth_text(x.used_materialized_fallback) + " reason="@
            + text_or_dash(opt_text(x.fallback_reason)) + " cache_drift="@ + truth_text(
            x.cache_drift_detected,
        ),
        "projection_decorations: injected="@ + injected + " delivery="@ + delivery_name(facts, x.delivery)
            + " tail_start="@ + number_or_dash(opt_usize(x.delivery_tail_start))
            + " estimate_tokens="@ + decimal(x.estimate_tokens as nat),
        "prefix_cache: break="@ + x.prefix_cache.break_kind@ + " prefix_end="@ + decimal(
            x.prefix_cache.prefix_end as nat,
        ) + " tail="@ + decimal(x.prefix_cache.tail_decoration_count as nat) + " cached="@
            + number_or_dash(opt_u64(x.prefix_cache.cached_tokens)) + " gateway_hit="@
            + number_or_dash(opt_u64(x.prefix_cache.gateway_hit_tokens)) + " reprocessed_est="@
            + number_or_dash(opt_u64(x.prefix_cache.unchanged_reprocessed_est)),
    ]
}

/// The last lines of the report: suppression, the early summary pass, memory.
pub open spec fn closing_lines(facts: ReportFacts, s: ContextState) -> Seq<Seq<char>> {
    let none = Seq::<Seq<char>>::empty();
    (if s.water.auto_compact_suppressed {
        seq!["auto-compact: suppressed (last summarize failed; use /compact to retry)"@]
    } else {
        none
    }) + (if s.prefire is Cached {
        seq!["prefire: NOTE₁ cached (two-pass ready)"@]
    } else if s.prefire is InFlight {
        seq!["prefire: pass1 in flight"@]
    } else {
        none
    }) + seq![
        match facts.memory_root {
            Some(root) => "memory: "@ + root@ + " (ZENE_MEMORY)"@,
            None => "memory: disabled"@,
        },
    ]
}

fn push_line(lines: &mut Vec<String>, line: String)
    ensures
        texts(final(lines)@) == texts(old(lines)@).push(line@),
{
    let ghost before = texts(lines@);
    let ghost added = line@;
    lines.push(line);
    proof {
        assert(texts(lines@) == before.push(added));
    }
}

fn pressure_report(facts: &ReportFacts, context: &ContextEngine) -> (r: Vec<String>)
    ensures
        texts(r@) == pressure_lines(*facts, context@),
{
    let mut lines: Vec<String> = Vec::new();
    proof {
        assert(texts(lines@) == Seq::<Seq<char>>::empty());
    }
    let water = context.water();
    let window: u32 = if water.context_window_tokens == 0 {
        1
    } else {
        water.context_window_tokens
    };
    let mut line = "context: ".to_string();
    line.append(decimal_text(facts.usage_percent as u64).as_str());
    line.append("% (");
    line.append(decimal_text(facts.effective_tokens as u64).as_str());
    line.append(" / ");
    line.append(decimal_text(window as u64).as_str());
    line.append(" tokens)");
    push_line(&mut lines, line);
    let mut line = "auto-compact at ".to_string();
    line.append(decimal_text(facts.threshold_percent as u64).as_str());
    line.append("% (");
    line.append(decimal_text(facts.threshold_tokens as u64).as_str());
    line.append(" tokens)");
    push_line(&mut lines, line);
    let mut line = "sources: usage=".to_string();
    line.append(num(widen_u32(water.last_prompt_tokens)).as_str());
    line.append(" estimate=");
    line.append(num(widen_u32(water.last_estimate_tokens)).as_str());
    push_line(&mut lines, line);
    let mut line = "messages: ".to_string();
    line.append(decimal_text(facts.message_count as u64).as_str());
    push_line(&mut lines, line);
    let mut line = "model: ".to_string();
    line.append(facts.model.as_str());
    push_line(&mut lines, line);
    let mut line = "context_epoch: ".to_string();
    line.append(decimal_text(context.epoch()).as_str());
    push_line(&mut lines, line);
    let mut line = "delivery: ".to_string();
    line.append(facts.delivery.as_str());
    line.append(" (gateway_prefix_len=");
    line.append(decimal_text(context.gateway_prefix_len() as u64).as_str());
    line.append(")");
    push_line(&mut lines, line);
    proof {
        assert(texts(lines@) == pressure_lines(*facts, context@));
    }
    lines
}

fn projection_report(facts: &ReportFacts, x: &ProjectionExplain) -> (r: Vec<String>)
    ensures
        texts(r@) == projection_lines(*facts, *x),
{
    let mut lines: Vec<String> = Vec::new();
    proof {
        assert(texts(lines@) == Seq::<Seq<char>>::empty());
    }
    let mut line = "projection: source_messages=".to_string();
    line.append(decimal_text(x.source_message_count as u64).as_str());
    line.append(" projected_messages=");
    line.append(decimal_text(x.projected_message_count as u64).as_str());
    line.append(" source_events=");
    line.append(decimal_text(x.source_event_count as u64).as_str());
    line.append(" active_events=");
    line.append(decimal_text(x.active_event_count as u64).as_str());
    push_line(&mut lines, line);
    let mut line = "projection_path: branch=".to_string();
    line.append(or_dash(&x.active_branch_id).as_str());
    line.append(" start_sequence=");
    line.append(num(x.active_path_start_sequence).as_str());
    push_line(&mut lines, line);
    let mut line = "projection_fallback: used=".to_string();
    line.append(truth(x.used_materialized_fallback));
    line.append(" reason=");
    line.append(or_dash(&x.fallback_reason).as_str());
    line.append(" cache_drift=");
    line.append(truth(x.cache_drift_detected));
    push_line(&mut lines, line);
    let mut line = "projection_decorations: injected=".to_string();
    if x.injected.is_empty() {
        line.append("-");
    } else {
        line.append(join(&x.injected, ",").as_str());
    }
    line.append(" delivery=");
    match x.delivery {
        ContextDelivery::Full => line.append(facts.full_delivery.as_str()),
        ContextDelivery::Delta => line.append(facts.delta_delivery.as_str()),
    }
    line.append(" tail_start=");
    line.append(num(widen_usize(x.delivery_tail_start)).as_str());
    line.append(" estimate_tokens=");
    line.append(decimal_text(x.estimate_tokens as u64).as_str());
    push_line(&mut lines, line);
    let mut line = "prefix_cache: break=".to_string();
    line.append(x.prefix_cache.break_kind.as_str());
    line.append(" prefix_end=");
    line.append(decimal_text(x.prefix_cache.prefix_end as u64).as_str());
    line.append(" tail=");
    line.append(decimal_text(x.prefix_cache.tail_decoration_count as u64).as_str());
    line.append(" cached=");
    line.append(num(x.prefix_cache.cached_tokens).as_str());
    line.append(" gateway_hit=");
    line.append(num(x.prefix_cache.gateway_hit_tokens).as_str());
    line.append(" reprocessed_est=");
    line.append(num(x.prefix_cache.unchanged_reprocessed_est).as_str());
    push_line(&mut lines, line);
    proof {
        assert(texts(lines@) == projection_lines(*facts, *x));
    }
    lines
}

/// Human-readable report on the context.
pub fn context_report(facts: &ReportFacts, context: &ContextEngine, explain: &ProjectionExplain) -> (r:
    String)
    ensures
        r@ == joined(
            pressure_lines(*facts, context@) + projection_lines(*facts, *explain) + closing_lines(*facts, context@),
            "\n"@,
        ),
{
    let mut lines = pressure_report(facts, context);
    let mut projection = projection_report(facts, explain);
    let ghost first = texts(lines@);
    let ghost second = texts(projection@);
    lines.append(&mut projection);
    proof {
        assert(texts(lines@) == first + second);
    }
    if context.water().auto_compact_suppressed {
        push_line(
            &mut lines,
            "auto-compact: suppressed (last summarize failed; use /compact to retry)".to_string(),
        );
    }
    if context.prefire_has_cache() {
        push_line(&mut lines, "prefire: NOTE₁ cached (two-pass ready)".to_string());
    } else if context.prefire_in_flight() {
        push_line(&mut lines, "prefire: pass1 in flight".to_string());
    }
    match &facts.memory_root {
        Some(root) => {
            let mut line = "memory: ".to_string();
            line.append(root.as_str());
            line.append(" (ZENE_MEMORY)");
            push_line(&mut lines, line);
        },
        None => {
            push_line(&mut lines, "memory: disabled".to_string());
        },
    }
    proof {
        assert(texts(lines@) == first + second + closing_lines(*facts, context@));
    }
    join(&lines, "\n")
}

/// The explanation that stands in for one that the events of the session do not
/// back.
pub fn fallback_explain(explain: ProjectionExplain, error: &str) -> (r: ProjectionExplain)
    ensures
        r.fallback_reason matches Some(reason) && reason@ == "strict_projection_error: "@ + error@,
        r.used_materialized_fallback,
        r == (ProjectionExplain {
            fallback_reason: r.fallback_reason,
            used_materialized_fallback: true,
            ..explain
        }),
{
    let mut explain = explain;
    let mut reason = "strict_projection_error: ".to_string();
    reason.append(error);
    explain.fallback_reason = Some(reason);
    explain.used_materialized_fallback = true;
    explain
}

/// The ids `plan` and `architect` ask for the plan mode, and `default`, `agent`, `code` and
/// `ask` for the default one; no other id asks for a mode.
pub proof fn mode_ids_ask_for_their_mode(mode_id: Seq<char>)
    ensures
        plan_requested(mode_id) == Some(true) <==> mode_id == "plan"@ || mode_id == "architect"@,
        plan_requested(mode_id) == Some(false) <==> mode_id == "default"@ || mode_id == "agent"@
            || mode_id == "code"@ || mode_id == "ask"@,
{
    reveal_strlit("plan");
    reveal_strlit("architect");
    reveal_strlit("default");
    reveal_strlit("agent");
    reveal_strlit("code");
    reveal_strlit("ask");
    assert("plan"@[0] == 'p' && "default"@[0] == 'd' && "code"@[0] == 'c');
    assert("architect"@[1] == 'r' && "agent"@[1] == 'g' && "ask"@[1] == 's');
    assert("architect"@[0] == 'a');
}

/// Setting a session mode enters or leaves the plan mode, tells under which id the session
/// then goes and whether that is a change; an id that asks for no mode is refused and changes
/// nothing. The queues and the turn are not touched.
pub proof fn session_modes_are_set_as_asked(
    agent: &mut Agent,
    mode_id: &str,
    r: Result<ModeChange, String>,
)
    requires
        call_ensures(Agent::set_session_mode, (agent, mode_id), r),
    ensures
        mode_id@ == "plan"@ || mode_id@ == "architect"@ ==> final(agent)@.plan_mode_active && (
        r matches Ok(change) && change.mode_id@ == "plan"@ && change.changed == !old(agent)@.plan_mode_active),
        mode_id@ == "default"@ || mode_id@ == "agent"@ || mode_id@ == "code"@ || mode_id@ == "ask"@
            ==> !final(agent)@.plan_mode_active && (r matches Ok(change) && change.mode_id@
            == "default"@ && change.changed == old(agent)@.plan_mode_active),
        r is Err ==> final(agent)@ == old(agent)@,
        r is Err <==> plan_requested(mode_id@) is None,
        final(agent)@.active_turn == old(agent)@.active_turn,
        final(agent)@.steer == old(agent)@.steer,
        final(agent)@.follow_up == old(agent)@.follow_up,
{
    mode_ids_ask_for_their_mode(mode_id@);
}

/// In the plan mode only what it allows may run, and outside of it everything.
pub proof fn plan_mode_restricts_tools(agent: &Agent, allowed_in_plan: bool, r: bool, id: &'static str)
    requires
        call_ensures(Agent::is_tool_allowed, (agent, allowed_in_plan), r),
        call_ensures(Agent::current_session_mode, (agent,), id),
    ensures
        agent@.plan_mode_active ==> r == allowed_in_plan && id@ == "plan"@,
        !agent@.plan_mode_active ==> r && id@ == "default"@,
{
}

/// Entering and leaving the plan mode tell whether that was a change, and touch nothing else.
pub proof fn plan_mode_is_entered_and_left(agent: &mut Agent, r: bool, other: &mut Agent, s: bool)
    requires
        call_ensures(Agent::enter_plan_mode, (agent,), r),
        call_ensures(Agent::leave_plan_mode, (other,), s),
    ensures
        final(agent)@.plan_mode_active,
        r == !old(agent)@.plan_mode_active,
        final(agent)@.active_turn == old(agent)@.active_turn,
        final(agent)@.follow_up == old(agent)@.follow_up,
        !final(other)@.plan_mode_active,
        s == old(other)@.plan_mode_active,
        final(other)@.steer == old(other)@.steer,
{
}

/// A message can be queued only for a turn in progress, and only if it says something; it
/// then goes behind the others, without the space around it. A refused one changes nothing.
pub proof fn messages_are_queued_for_a_turn(
    agent: &mut Agent,
    text: &str,
    r: Result<(), String>,
    other: &mut Agent,
    s: Result<(), String>,
)
    requires
        call_ensures(Agent::queue_steer, (agent, text), r),
        call_ensures(Agent::follow_up, (other, text), s),
    ensures
        r is Ok <==> old(agent)@.active_turn is Some && trimmed(text@).len() > 0,
        r is Ok ==> final(agent)@.steer == old(agent)@.steer.push(trimmed(text@)) && final(agent)@.follow_up
            == old(agent)@.follow_up,
        r is Err ==> final(agent)@ == old(agent)@,
        s is Ok <==> old(other)@.active_turn is Some && trimmed(text@).len() > 0,
        s is Ok ==> final(other)@.follow_up == old(other)@.follow_up.push(trimmed(text@)) && final(other)@.steer == old(other)@.steer,
        s is Err ==> final(other)@ == old(other)@,
        old(agent)@.active_turn is None ==> (r matches Err(message) && message@
            == "no turn in progress; use prompt() to start a new turn"@),
        old(agent)@.active_turn is Some && trimmed(text@).len() == 0 ==> (r matches Err(message)
            && message@ == "steer message cannot be empty"@),
{
}

/// Follow-ups join the conversation oldest first, one at a time or all together as the mode
/// says; what joins and what stays make up what waited, and without any nothing joins.
pub proof fn follow_ups_join_oldest_first(agent: &mut Agent, r: Vec<String>)
    requires
        call_ensures(Agent::inject_pending_follow_up, (agent,), r),
    ensures
        texts(r@) + final(agent)@.follow_up == old(agent)@.follow_up,
        old(agent)@.follow_up.len() > 0 && old(agent)@.follow_up_mode is OneAtATime ==> r@.len() == 1,
        old(agent)@.follow_up_mode is All ==> final(agent)@.follow_up.len() == 0,
        old(agent)@.follow_up.len() == 0 <==> r@.len() == 0,
        final(agent)@.steer == old(agent)@.steer,
        final(agent)@.active_turn == old(agent)@.active_turn,
{
    let n = if old(agent)@.follow_up.len() == 0 {
        0
    } else {
        drain_size(old(agent)@.follow_up_mode, old(agent)@.follow_up.len()) as int
    };
    assert(old(agent)@.follow_up.take(n) + old(agent)@.follow_up.skip(n) == old(agent)@.follow_up);
    assert(texts(r@).len() == r@.len());
}

/// A turn begins only where none is active, and then at step 0; a turn that ended is active
/// no more. Neither touches the queues.
pub proof fn turns_begin_and_end(
    agent: &mut Agent,
    r: Result<(), TurnError>,
    other: &mut Agent,
    queried: &Agent,
    steps: u32,
)
    requires
        call_ensures(Agent::begin_turn, (agent,), r),
        call_ensures(Agent::end_turn, (other,), ()),
        call_ensures(Agent::active_steps, (queried,), steps),
    ensures
        r is Ok <==> old(agent)@.active_turn is None,
        r is Ok ==> (final(agent)@.active_turn matches Some(turn) && turn.step == 0),
        r is Err ==> final(agent)@ == old(agent)@,
        final(agent)@.steer == old(agent)@.steer,
        final(agent)@.follow_up == old(agent)@.follow_up,
        final(other)@.active_turn is None,
        final(other)@.steer == old(other)@.steer,
        queried@.active_turn matches Some(turn) ==> steps == turn.step,
        queried@.active_turn is None ==> steps == 0,
{
}

/// Clearing the queues drops steer messages and follow-ups alike.
pub proof fn cleared_queues_are_empty(agent: &mut Agent)
    requires
        call_ensures(Agent::clear_queues, (agent,), ()),
    ensures
        final(agent)@.steer.len() == 0,
        final(agent)@.follow_up.len() == 0,
        final(agent)@.active_turn == old(agent)@.active_turn,
        final(agent)@.plan_mode_active == old(agent)@.plan_mode_active,
{
}

/// A change of the model names the model and the provider that is then in use, and puts the
/// address and the key where that provider looks for them; the other provider's stay.
pub proof fn changed_models_keep_the_other_connection(
    before: ModelSettings,
    after: ModelSettings,
    model: Seq<char>,
    provider: Option<String>,
    base_url: Option<String>,
    api_key: Option<String>,
    anthropic: bool,
)
    requires
        switched(before, after, model, provider, base_url, api_key, anthropic),
    ensures
        after.model@ == model,
        provider matches Some(p) ==> after.provider == p,
        provider is None ==> after.provider == before.provider,
        anthropic ==> after.base_url == before.base_url && after.api_key == before.api_key,
        !anthropic ==> after.anthropic_base_url == before.anthropic_base_url
            && after.anthropic_api_key == before.anthropic_api_key,
        base_url matches Some(url) ==> (if anthropic {
            after.anthropic_base_url == Some(url)
        } else {
            after.base_url == url
        }),
        api_key is Some ==> (if anthropic {
            after.anthropic_api_key == api_key
        } else {
            after.api_key == api_key
        }),
        base_url is None ==> after.base_url == before.base_url && after.anthropic_base_url
            == before.anthropic_base_url,
        api_key is None ==> after.api_key == before.api_key && after.anthropic_api_key
            == before.anthropic_api_key,
{
}

/// A rewind goes to the checkpoint that was named, else to the latest, and fails without
/// either.
pub proof fn rewinds_prefer_the_named_checkpoint(
    named: Option<String>,
    latest: Option<String>,
    r: Result<String, String>,
)
    requires
        call_ensures(rewind_target, (named, latest), r),
    ensures
        named matches Some(id) ==> r == Ok::<String, String>(id),
        named is None && latest is Some ==> r == Ok::<String, String>(latest->0),
        r is Err <==> named is None && latest is None,
{
}

/// The report on the context tells the size against the window, the threshold, where the
/// numbers are from, the messages, the model and the epoch; it says that automatic compaction
/// is off exactly where it is.
pub proof fn reports_tell_what_is_known(facts: ReportFacts, s: ContextState)
    ensures
        ({
            let lines = pressure_lines(facts, s);
            &&& lines.len() == 7
            &&& s.water.context_window_tokens > 0 ==> lines[0] == "context: "@ + decimal(
                facts.usage_percent as nat,
            ) + "% ("@ + decimal(facts.effective_tokens as nat) + " / "@ + decimal(
                s.water.context_window_tokens as nat,
            ) + " tokens)"@
            &&& has_prefix(
                lines[1],
                "auto-compact at "@ + decimal(facts.threshold_percent as nat) + "% ("@ + decimal(
                    facts.threshold_tokens as nat,
                ),
            )
            &&& lines[3] == "messages: "@ + decimal(facts.message_count as nat)
            &&& lines[4] == "model: "@ + facts.model@
            &&& lines[5] == "context_epoch: "@ + decimal(s.epoch as nat)
            &&& s.water.last_prompt_tokens matches Some(used) ==> has_prefix(
                lines[2],
                "sources: usage="@ + decimal(used as nat),
            )
            &&& s.water.last_estimate_tokens matches Some(estimate) ==> has_suffix(
                lines[2],
                " estimate="@ + decimal(estimate as nat),
            )
        }),
        ({
            let lines = closing_lines(facts, s);
            &&& s.water.auto_compact_suppressed <==> lines.contains(
                "auto-compact: suppressed (last summarize failed; use /compact to retry)"@,
            )
            &&& facts.memory_root is None <==> lines.last() == "memory: disabled"@
        }),
{
    let lines = pressure_lines(facts, s);
    let start = "auto-compact at "@ + decimal(facts.threshold_percent as nat) + "% ("@ + decimal(
        facts.threshold_tokens as nat,
    );
    assert(lines[1].subrange(0, start.len() as int) == start);
    if let Some(used) = s.water.last_prompt_tokens {
        let first = "sources: usage="@ + decimal(used as nat);
        assert(lines[2].subrange(0, first.len() as int) == first);
    }
    if let Some(estimate) = s.water.last_estimate_tokens {
        let last = " estimate="@ + decimal(estimate as nat);
        assert(lines[2].subrange(lines[2].len() - last.len(), lines[2].len() as int) == last);
    }
    let closing = closing_lines(facts, s);
    let off = "auto-compact: suppressed (last summarize failed; use /compact to retry)"@;
    reveal_strlit("auto-compact: suppressed (last summarize failed; use /compact to retry)");
    reveal_strlit("prefire: NOTE₁ cached (two-pass ready)");
    reveal_strlit("prefire: pass1 in flight");
    reveal_strlit("memory: ");
    reveal_strlit("memory: disabled");
    reveal_strlit(" (ZENE_MEMORY)");
    assert(off[0] == 'a');
    if s.water.auto_compact_suppressed {
        assert(closing[0] == off);
    } else {
        assert forall|i: int| 0 <= i < closing.len() implies closing[i] != off by {
            assert(closing[i][0] != 'a');
        }
    }
    if let Some(root) = facts.memory_root {
        let line = "memory: "@ + root@ + " (ZENE_MEMORY)"@;
        assert(closing.last() == line);
        assert(line.last() == ')');
        assert("memory: disabled"@.last() == 'd');
    }
}

/// The report tells what the projection was made from, where its path starts, whether it fell
/// back and why, and what was added to it.
pub proof fn reports_tell_of_the_projection(facts: ReportFacts, x: ProjectionExplain)
    ensures
        ({
            let lines = projection_lines(facts, x);
            &&& lines.len() == 5
            &&& lines[0] == "projection: source_messages="@ + decimal(x.source_message_count as nat)
                + " projected_messages="@ + decimal(x.projected_message_count as nat)
                + " source_events="@ + decimal(x.source_event_count as nat) + " active_events="@
                + decimal(x.active_event_count as nat)
            &&& x.active_branch_id is Some && x.active_path_start_sequence is Some ==> lines[1]
                == "projection_path: branch="@ + x.active_branch_id->0@ + " start_sequence="@
                + decimal(x.active_path_start_sequence->0 as nat)
            &&& x.active_branch_id is None && x.active_path_start_sequence is None ==> lines[1]
                == "projection_path: branch="@ + "-"@ + " start_sequence="@ + "-"@
            &&& x.used_materialized_fallback && x.fallback_reason is Some && x.cache_drift_detected
                ==> lines[2] == "projection_fallback: used="@ + "true"@ + " reason="@
                + x.fallback_reason->0@ + " cache_drift="@ + "true"@
            &&& !x.used_materialized_fallback && x.fallback_reason is None && !x.cache_drift_detected
                ==> lines[2] == "projection_fallback: used="@ + "false"@ + " reason="@ + "-"@
                + " cache_drift="@ + "false"@
            &&& x.injected@.len() == 0 && x.delivery is Full && x.delivery_tail_start is None
                ==> lines[3] == "projection_decorations: injected="@ + "-"@ + " delivery="@
                + facts.full_delivery@ + " tail_start="@ + "-"@ + " estimate_tokens="@ + decimal(
                x.estimate_tokens as nat,
            )
            &&& x.injected@.len() > 0 && x.delivery is Delta && x.delivery_tail_start is Some
                ==> lines[3] == "projection_decorations: injected="@ + joined(
                texts(x.injected@),
                ","@,
            ) + " delivery="@ + facts.delta_delivery@ + " tail_start="@ + decimal(
                x.delivery_tail_start->0 as nat,
            ) + " estimate_tokens="@ + decimal(x.estimate_tokens as nat)
            &&& x.prefix_cache.cached_tokens is Some && x.prefix_cache.gateway_hit_tokens is Some
                && x.prefix_cache.unchanged_reprocessed_est is Some ==> lines[4]
                == "prefix_cache: break="@ + x.prefix_cache.break_kind@ + " prefix_end="@ + decimal(
                x.prefix_cache.prefix_end as nat,
            ) + " tail="@ + decimal(x.prefix_cache.tail_decoration_count as nat) + " cached="@
                + decimal(x.prefix_cache.cached_tokens->0 as nat) + " gateway_hit="@ + decimal(
                x.prefix_cache.gateway_hit_tokens->0 as nat,
            ) + " reprocessed_est="@ + decimal(
                x.prefix_cache.unchanged_reprocessed_est->0 as nat,
            )
        }),
{
}

/// The lines of the report stand in order: pressure, projection, and what else is to be known.
pub proof fn reports_keep_their_order(
    facts: &ReportFacts,
    context: &ContextEngine,
    explain: &ProjectionExplain,
    r: String,
)
    requires
        call_ensures(context_report, (facts, context, explain), r),
    ensures
        r@ == joined(
            pressure_lines(*facts, context@) + projection_lines(*facts, *explain) + closing_lines(
                *facts,
                context@,
            ),
            "\n"@,
        ),
        pressure_lines(*facts, context@)[6] == "delivery: "@ + facts.delivery@
            + " (gateway_prefix_len="@ + decimal(context@.gateway_prefix_len as nat) + ")"@,
{
}

/// The report tells of an early summary that is ready or being made, and of nothing where there
/// is none.
pub proof fn reports_tell_of_early_summaries(facts: ReportFacts, s: ContextState)
    ensures
        closing_lines(facts, s).contains("prefire: NOTE₁ cached (two-pass ready)"@)
            <== s.prefire is Cached,
        closing_lines(facts, s).contains("prefire: pass1 in flight"@) <== s.prefire is InFlight,
        closing_lines(facts, s).len() == (if s.water.auto_compact_suppressed {
            2int
        } else {
            1int
        }) + (if s.prefire is Cached || s.prefire is InFlight {
            1int
        } else {
            0int
        }),
        facts.memory_root matches Some(root) ==> closing_lines(facts, s).last() == "memory: "@
            + root@ + " (ZENE_MEMORY)"@,
{
    let lines = closing_lines(facts, s);
    let k: int = if s.water.auto_compact_suppressed {
        1
    } else {
        0
    };
    if s.prefire is Cached {
        assert(lines[k] == "prefire: NOTE₁ cached (two-pass ready)"@);
    }
    if s.prefire is InFlight {
        assert(lines[k] == "prefire: pass1 in flight"@);
    }
}

/// Anthropic is known by its name, whatever its case and the space around it.
pub proof fn anthropic_is_known_by_its_name(provider: &str, r: bool)
    requires
        call_ensures(uses_anthropic, (provider,), r),
    ensures
        r <==> unicode_lowercase(trimmed(provider@)) == "anthropic"@,
{
}

/// A steering message joins those that wait where a turn runs and the message says something,
/// and is refused otherwise.
pub proof fn steering_needs_a_turn_and_a_text(agent: &mut Agent, text: &str, r: Result<(), String>)
    requires
        call_ensures(Agent::steer, (agent, text), r),
    ensures
        r is Ok <==> old(agent)@.active_turn is Some && trimmed(text@).len() > 0,
        r is Ok ==> final(agent)@ == (AgentState {
            steer: old(agent)@.steer.push(trimmed(text@)),
            ..old(agent)@
        }),
        r is Err ==> final(agent)@ == old(agent)@,
{
}

/// How messages leave their queues is set for each queue on its own, and nothing else changes by
/// that.
pub proof fn queue_modes_are_set_apart(
    steering: &mut Agent,
    following: &mut Agent,
    resuming: &mut Agent,
    mode: QueueMode,
    resume: bool,
)
    requires
        call_ensures(Agent::set_steering_mode, (steering, mode), ()),
        call_ensures(Agent::set_follow_up_mode, (following, mode), ()),
        call_ensures(Agent::set_resume_existing_turn, (resuming, resume), ()),
    ensures
        final(steering)@ == (AgentState { steer_mode: mode, ..old(steering)@ }),
        final(following)@ == (AgentState { follow_up_mode: mode, ..old(following)@ }),
        final(resuming)@ == (AgentState { resume_existing_turn: resume, ..old(resuming)@ }),
{
}

/// What is asked of an agent is answered from its state.
pub proof fn agents_answer_from_their_state(
    agent: &Agent,
    active: bool,
    steering: usize,
    following: usize,
    planning: bool,
)
    requires
        call_ensures(Agent::is_turn_active, (agent,), active),
        call_ensures(Agent::pending_steer_count, (agent,), steering),
        call_ensures(Agent::pending_follow_up_count, (agent,), following),
        call_ensures(Agent::is_plan_mode_active, (agent,), planning),
    ensures
        active <==> agent@.active_turn is Some,
        steering == agent@.steer.len(),
        following == agent@.follow_up.len(),
        planning == agent@.plan_mode_active,
{
}

} // verus!
