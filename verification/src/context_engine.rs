//! Context orchestration: pressure, compaction, memory, prefire and epoch.
//!
//! The engine holds what is known about the context of one session. An operation
//! on it (the commit before a step, a forced compaction, the handling of an
//! overflow) is a [`ContextRun`]: it says what to do next, and is told what came
//! of it.
use vstd::prelude::*;

use crate::context_projection::{
    compaction_event_ids, compactions_of, injected_list, injections, labels,
    projection_injected_labels, projection_injected_sources, projection_tool_output_provenance,
    projection_truncated_message_count, provenance_list, provenances, reduced_count,
    retained_turn_ids, turns_of, InjectedSource, SessionEvent, ToolOutputProvenance,
};
use crate::llm::{
    message_texts, ContextDelivery, ContextMetadata, Message, MessageText, Role, TokenUsage,
};
use crate::text::{chars_of, copy_opt, copy_texts, opt_text, texts, trim, trimmed};

verus! {

/// What is known about the pressure on the context window.
#[derive(Debug, Clone, Copy, PartialEq, Eq, Structural)]
pub struct ContextWaterLevel {
    pub context_window_tokens: u32,
    pub last_prompt_tokens: Option<u32>,
    pub last_estimate_tokens: Option<u32>,
    pub auto_compact_suppressed: bool,
}

/// A change of the context that is announced at once.
#[derive(Debug, Clone, Copy)]
pub enum ContextEvent {
    EpochBumped { old: u64, new: u64, reason: &'static str },
}

/// What a model step needs to know about the pressure on the context.
#[derive(Debug, Clone, Copy, PartialEq, Eq, Structural)]
pub struct ContextObservation {
    pub estimated_tokens: u32,
    pub should_compact: bool,
    pub preflight_overflow: bool,
}

/// The share of the context window in use.
#[derive(Debug, Clone, Copy, PartialEq, Eq, Structural)]
pub struct ContextUsageUpdate {
    pub context_tokens: u32,
    pub context_window: u32,
    pub context_percent: u8,
}

/// Outbound view for one LLM step after context preparation.
#[derive(Debug, Clone)]
pub struct StepContext {
    pub messages: Vec<Message>,
    pub metadata: ContextMetadata,
    pub estimate_tokens: u32,
}

/// The messages that go out, as they were put together from the session and the tail
/// decorations.
#[derive(Debug)]
pub struct AssembledOutbound {
    pub messages: Vec<Message>,
    pub prefix_hash: Option<String>,
    pub delivery: ContextDelivery,
    pub tail_start: Option<usize>,
}

/// How the outbound messages are laid out for the prefix cache, and whether the
/// pinned prefix breaks with the one of the previous call.
#[derive(Debug, Clone)]
pub struct PrefixLayout {
    pub prefix_end: usize,
    pub body_end: usize,
    pub tail_decoration_count: usize,
    pub prefix_fingerprint: Option<String>,
    pub break_kind: String,
}

/// Prefix-cache layout and predicted break, with what the provider reported last.
#[derive(Debug, Clone)]
pub struct PrefixCacheExplain {
    pub prefix_end: usize,
    pub body_end: usize,
    pub tail_decoration_count: usize,
    pub prefix_fingerprint: Option<String>,
    pub break_kind: String,
    pub cached_tokens: Option<u64>,
    pub gateway_hit_tokens: Option<u64>,
    pub anchor_aligned: Option<bool>,
    pub unchanged_reprocessed_est: Option<u64>,
}

/// The session as the projection sees it.
#[derive(Debug, Clone)]
pub struct SessionView {
    pub message_count: usize,
    pub active_events: Vec<SessionEvent>,
    pub source_event_count: usize,
    pub cache_drift_detected: bool,
    pub used_materialized_fallback: bool,
    pub fallback_reason: Option<String>,
    pub active_branch_id: Option<String>,
    pub active_path_start_sequence: Option<u64>,
}

/// What went into an outbound projection.
#[derive(Debug, Clone)]
pub struct ProjectionExplain {
    pub source_message_count: usize,
    pub projected_message_count: usize,
    pub source_event_count: usize,
    pub active_event_count: usize,
    pub cache_drift_detected: bool,
    pub used_materialized_fallback: bool,
    pub fallback_reason: Option<String>,
    pub active_branch_id: Option<String>,
    pub active_path_start_sequence: Option<u64>,
    /// Stable labels for projection decorations visible in the outbound messages.
    pub injected: Vec<String>,
    /// Number of messages retained in the outbound projection.
    pub retained_message_count: usize,
    /// Number of distinct turn IDs represented by the active event path.
    pub retained_turn_count: usize,
    /// Events excluded by branch/rewind projection boundaries.
    pub dropped_event_count: usize,
    /// Messages whose bodies were reduced by a truncation pass.
    pub truncated_message_count: usize,
    /// Compaction event IDs contributing to the active projection.
    pub compaction_event_ids: Vec<String>,
    /// Per-message provenance for bounded tool output.
    pub tool_output_provenance: Vec<ToolOutputProvenance>,
    /// Turn IDs represented by the active event path, in path order.
    pub retained_turn_ids: Vec<String>,
    /// Classification of injected projection decorations and their sources.
    pub injected_sources: Vec<InjectedSource>,
    pub delivery: ContextDelivery,
    pub delivery_tail_start: Option<usize>,
    pub estimate_tokens: u32,
    pub context_epoch: u64,
    /// Prefix-cache layout and predicted break versus the previous outbound call.
    pub prefix_cache: PrefixCacheExplain,
}

/// How far an early summary pass has come.
#[derive(Debug, Clone, Copy, PartialEq, Eq, Structural)]
pub enum PrefireState {
    Idle,
    InFlight,
    Cached,
}

/// Semantic context authority for one agent session.
pub struct ContextEngine {
    water: ContextWaterLevel,
    epoch: u64,
    last_memory_flush_compaction: u64,
    external_session_id: Option<String>,
    pending_publish: bool,
    gateway_prefix_len: usize,
    initial_publish_done: bool,
    tail_sections: Vec<String>,
    last_prefix_fingerprint: Option<String>,
    last_prefix_tokens: u32,
    last_epoch_bump_reason: Option<&'static str>,
    last_cached_tokens: Option<u64>,
    last_gateway_hit_tokens: Option<u64>,
    last_anchor_aligned: Option<bool>,
    last_unchanged_reprocessed_est: Option<u64>,
    prefire: PrefireState,
}

/// The contents of a [`ContextEngine`].
pub struct ContextState {
    pub water: ContextWaterLevel,
    pub epoch: u64,
    pub last_memory_flush_compaction: u64,
    pub external_session_id: Option<Seq<char>>,
    pub pending_publish: bool,
    pub gateway_prefix_len: usize,
    pub initial_publish_done: bool,
    pub tail_sections: Seq<Seq<char>>,
    pub last_prefix_fingerprint: Option<Seq<char>>,
    pub last_prefix_tokens: u32,
    pub last_epoch_bump_reason: Option<Seq<char>>,
    pub last_cached_tokens: Option<u64>,
    pub last_gateway_hit_tokens: Option<u64>,
    pub last_anchor_aligned: Option<bool>,
    pub last_unchanged_reprocessed_est: Option<u64>,
    pub prefire: PrefireState,
}

impl View for ContextEngine {
    type V = ContextState;

    closed spec fn view(&self) -> ContextState {
        ContextState {
            water: self.water,
            epoch: self.epoch,
            last_memory_flush_compaction: self.last_memory_flush_compaction,
            external_session_id: opt_text(self.external_session_id),
            pending_publish: self.pending_publish,
            gateway_prefix_len: self.gateway_prefix_len,
            initial_publish_done: self.initial_publish_done,
            tail_sections: texts(self.tail_sections@),
            last_prefix_fingerprint: opt_text(self.last_prefix_fingerprint),
            last_prefix_tokens: self.last_prefix_tokens,
            last_epoch_bump_reason: match self.last_epoch_bump_reason {
                Some(reason) => Some(reason@),
                None => None,
            },
            last_cached_tokens: self.last_cached_tokens,
            last_gateway_hit_tokens: self.last_gateway_hit_tokens,
            last_anchor_aligned: self.last_anchor_aligned,
            last_unchanged_reprocessed_est: self.last_unchanged_reprocessed_est,
            prefire: self.prefire,
        }
    }
}

/// The number after `n`, or `n` itself at the top of the range.
pub open spec fn next_u64(n: u64) -> u64 {
    if n == u64::MAX {
        n
    } else {
        (n + 1) as u64
    }
}

/// The difference of two numbers, or 0.
pub open spec fn minus_u64(a: u64, b: u64) -> u64 {
    if a >= b {
        (a - b) as u64
    } else {
        0
    }
}

/// The characters of the first `n` messages, all together.
pub open spec fn prefix_chars(messages: Seq<MessageText>, n: int) -> nat
    decreases n,
{
    if n <= 0 {
        0
    } else {
        prefix_chars(messages, n - 1) + (match messages[n - 1].content {
            Some(content) => content.len(),
            None => 0,
        })
    }
}

/// The standing token estimate of a frozen prefix: a quarter of its characters, at
/// least 1 and at most what a `u32` holds; 0 without a prefix.
pub open spec fn prefix_estimate(messages: Seq<MessageText>, prefix_end: int) -> u32 {
    let end = if prefix_end < messages.len() {
        prefix_end
    } else {
        messages.len() as int
    };
    if end == 0 {
        0
    } else {
        let quarter = prefix_chars(messages, end) / 4;
        if quarter < 1 {
            1
        } else if quarter > u32::MAX {
            u32::MAX
        } else {
            quarter as u32
        }
    }
}

/// What the engine knows after the provider reported the usage of a step.
pub open spec fn with_usage(s: ContextState, usage: TokenUsage) -> ContextState {
    ContextState {
        last_gateway_hit_tokens: if usage.gateway_hit_tokens is Some {
            usage.gateway_hit_tokens
        } else {
            s.last_gateway_hit_tokens
        },
        last_anchor_aligned: if usage.gateway_anchor_aligned is Some {
            usage.gateway_anchor_aligned
        } else {
            s.last_anchor_aligned
        },
        last_cached_tokens: if usage.cached_tokens is Some {
            usage.cached_tokens
        } else {
            s.last_cached_tokens
        },
        last_unchanged_reprocessed_est: match usage.cached_tokens {
            Some(cached) => Some(minus_u64(s.last_prefix_tokens as u64, cached)),
            None => s.last_unchanged_reprocessed_est,
        },
        ..s
    }
}

/// The contents of a new engine.
pub open spec fn initial_state(context_window_tokens: u32) -> ContextState {
    ContextState {
        water: ContextWaterLevel {
            context_window_tokens,
            last_prompt_tokens: None,
            last_estimate_tokens: None,
            auto_compact_suppressed: false,
        },
        epoch: 0,
        last_memory_flush_compaction: 0,
        external_session_id: None,
        pending_publish: false,
        gateway_prefix_len: 0,
        initial_publish_done: false,
        tail_sections: Seq::empty(),
        last_prefix_fingerprint: None,
        last_prefix_tokens: 0,
        last_epoch_bump_reason: None,
        last_cached_tokens: None,
        last_gateway_hit_tokens: None,
        last_anchor_aligned: None,
        last_unchanged_reprocessed_est: None,
        prefire: PrefireState::Idle,
    }
}

impl ContextEngine {
    /// An engine for a context window of the given size.
    pub fn new(context_window_tokens: u32) -> (r: Self)
        ensures
            r@ == initial_state(context_window_tokens),
    {
        let r = ContextEngine {
            water: ContextWaterLevel {
                context_window_tokens,
                last_prompt_tokens: None,
                last_estimate_tokens: None,
                auto_compact_suppressed: false,
            },
            epoch: 0,
            last_memory_flush_compaction: 0,
            external_session_id: None,
            pending_publish: false,
            gateway_prefix_len: 0,
            initial_publish_done: false,
            tail_sections: Vec::new(),
            last_prefix_fingerprint: None,
            last_prefix_tokens: 0,
            last_epoch_bump_reason: None,
            last_cached_tokens: None,
            last_gateway_hit_tokens: None,
            last_anchor_aligned: None,
            last_unchanged_reprocessed_est: None,
            prefire: PrefireState::Idle,
        };
        proof {
            assert(texts(r.tail_sections@) == Seq::<Seq<char>>::empty());
        }
        r
    }

    /// Overrides the session id for inference linkage.
    pub fn set_external_session_id(&mut self, id: Option<String>)
        ensures
            final(self)@ == (ContextState { external_session_id: opt_text(id), ..old(self)@ }),
    {
        self.external_session_id = id;
    }

    pub fn water(&self) -> (r: &ContextWaterLevel)
        ensures
            *r == self@.water,
    {
        &self.water
    }

    pub fn epoch(&self) -> (r: u64)
        ensures
            r == self@.epoch,
    {
        self.epoch
    }

    pub fn gateway_prefix_len(&self) -> (r: usize)
        ensures
            r == self@.gateway_prefix_len,
    {
        self.gateway_prefix_len
    }

    pub fn set_window(&mut self, context_window_tokens: u32)
        ensures
            final(self)@ == (ContextState {
                water: ContextWaterLevel { context_window_tokens, ..old(self)@.water },
                ..old(self)@
            }),
    {
        self.water.context_window_tokens = context_window_tokens;
    }

    /// Takes over the token count that a stored session carries.
    pub fn restore_water_from_session(&mut self, tokens: u32)
        ensures
            final(self)@ == (ContextState {
                water: ContextWaterLevel {
                    last_prompt_tokens: Some(tokens),
                    last_estimate_tokens: Some(tokens),
                    ..old(self)@.water
                },
                ..old(self)@
            }),
    {
        self.water.last_prompt_tokens = Some(tokens);
        self.water.last_estimate_tokens = Some(tokens);
    }

    /// The session id under which requests are linked.
    pub fn session_id_for(&self, session_id: &str) -> (r: String)
        ensures
            r@ == linked_id(self@, session_id@),
    {
        match &self.external_session_id {
            Some(id) => id.clone(),
            None => session_id.to_string(),
        }
    }

    /// What links a request to the current context.
    pub fn metadata(&self, session_id: &str) -> (r: ContextMetadata)
        ensures
            r.session_id@ == linked_id(self@, session_id@),
            r.context_epoch == self@.epoch,
            r.prefix_hash is None,
            r.delivery == ContextDelivery::Full,
            r.tail_start is None,
    {
        ContextMetadata {
            session_id: self.session_id_for(session_id),
            context_epoch: self.epoch,
            prefix_hash: None,
            delivery: ContextDelivery::Full,
            tail_start: None,
        }
    }

    /// What links an assembled outbound request to the current context.
    pub fn metadata_for_outbound(
        &self,
        session_id: &str,
        prefix_hash: Option<String>,
        delivery: ContextDelivery,
        tail_start: Option<usize>,
    ) -> (r: ContextMetadata)
        ensures
            r.session_id@ == linked_id(self@, session_id@),
            r.context_epoch == self@.epoch,
            r.prefix_hash == prefix_hash,
            r.delivery == delivery,
            r.tail_start == tail_start,
    {
        let mut meta = self.metadata(session_id);
        meta.prefix_hash = prefix_hash;
        meta.delivery = delivery;
        meta.tail_start = tail_start;
        meta
    }

    /// Starts a new epoch because the pinned system prefix changed; the prefix is
    /// published with the next commit.
    pub fn on_system_prefix_changed(&mut self, reason: &'static str) -> (r: ContextEvent)
        ensures
            final(self)@ == (ContextState {
                epoch: next_u64(old(self)@.epoch),
                pending_publish: true,
                last_epoch_bump_reason: Some(reason@),
                ..old(self)@
            }),
            r == (ContextEvent::EpochBumped {
                old: old(self)@.epoch,
                new: next_u64(old(self)@.epoch),
                reason,
            }),
    {
        let old_epoch: u64 = self.epoch;
        self.epoch = self.epoch.saturating_add(1);
        self.pending_publish = true;
        self.last_epoch_bump_reason = Some(reason);
        ContextEvent::EpochBumped { old: old_epoch, new: self.epoch, reason }
    }

    /// Live tail decorations for the next projection.
    pub fn set_step_tail_decorations(&mut self, sections: Vec<String>)
        ensures
            final(self)@ == (ContextState { tail_sections: texts(sections@), ..old(self)@ }),
    {
        self.tail_sections = sections;
    }

    /// Takes the tail decorations of the hooks, if there are hooks: the standing
    /// ones, then the extra ones.
    pub fn capture_tail_sections(&mut self, hooks: Option<(Vec<String>, Vec<String>)>)
        ensures
            final(self)@ == with_tail(old(self)@, hooks),
    {
        if let Some((sections, extra)) = hooks {
            let ghost first = texts(sections@);
            let ghost second = texts(extra@);
            let mut sections = sections;
            let mut extra = extra;
            sections.append(&mut extra);
            proof {
                assert(texts(sections@) == first + second);
            }
            self.tail_sections = sections;
        }
    }

    /// The tail decorations of the next projection.
    pub fn tail_sections(&self) -> (r: Vec<String>)
        ensures
            texts(r@) == self@.tail_sections,
    {
        copy_texts(&self.tail_sections)
    }

    /// Takes in the pressure on the context before a step. `exceeds_window` and
    /// `wants_compaction` are read from the water level after the estimate.
    pub fn observe(
        &mut self,
        estimated_tokens: u32,
        context_window_tokens: u32,
        exceeds_window: bool,
        wants_compaction: bool,
    ) -> (r: ContextObservation)
        ensures
            final(self)@ == with_observation(old(self)@, estimated_tokens, context_window_tokens),
            r.estimated_tokens == estimated_tokens,
            r.preflight_overflow == (exceeds_window && !old(self)@.water.auto_compact_suppressed),
            r.should_compact == (wants_compaction || r.preflight_overflow),
    {
        self.water.last_estimate_tokens = Some(estimated_tokens);
        self.water.context_window_tokens = context_window_tokens;
        let preflight_overflow = exceeds_window && !self.water.auto_compact_suppressed;
        ContextObservation {
            estimated_tokens,
            should_compact: wants_compaction || preflight_overflow,
            preflight_overflow,
        }
    }

    /// Takes in the usage that the provider reported for a step. `water` is the water
    /// level with that usage, from which `update` is read; `unbacked` is why the
    /// events of the session do not back its projection.
    pub fn record_step_usage(
        &mut self,
        usage: &TokenUsage,
        water: ContextWaterLevel,
        unbacked: Option<&str>,
        update: ContextUsageUpdate,
    ) -> (r: Result<ContextUsageUpdate, String>)
        ensures
            final(self)@ == (ContextState { water, ..with_usage(old(self)@, *usage) }),
            match unbacked {
                Some(reason) => r matches Err(message) && message@
                    == "event-backed context projection unavailable: "@ + reason@,
                None => r == Ok::<ContextUsageUpdate, String>(update),
            },
    {
        self.water = water;
        if let Some(gateway_hit) = usage.gateway_hit_tokens {
            self.last_gateway_hit_tokens = Some(gateway_hit);
        }
        if let Some(aligned) = usage.gateway_anchor_aligned {
            self.last_anchor_aligned = Some(aligned);
        }
        if let Some(cached) = usage.cached_tokens {
            let prefix: u64 = self.last_prefix_tokens as u64;
            self.last_cached_tokens = Some(cached);
            self.last_unchanged_reprocessed_est = Some(prefix.saturating_sub(cached));
        }
        match unbacked {
            Some(reason) => Err(projection_unavailable(reason)),
            None => Ok(update),
        }
    }

    /// The prefix-cache part of an explanation.
    pub fn prefix_cache_explain(&self, layout: &PrefixLayout) -> (r: PrefixCacheExplain)
        ensures
            explains_prefix(self@, *layout, r),
    {
        PrefixCacheExplain {
            prefix_end: layout.prefix_end,
            body_end: layout.body_end,
            tail_decoration_count: layout.tail_decoration_count,
            prefix_fingerprint: copy_opt(&layout.prefix_fingerprint),
            break_kind: layout.break_kind.clone(),
            cached_tokens: self.last_cached_tokens,
            gateway_hit_tokens: self.last_gateway_hit_tokens,
            anchor_aligned: self.last_anchor_aligned,
            unchanged_reprocessed_est: self.last_unchanged_reprocessed_est,
        }
    }

    /// Explains an outbound projection. `reminders` tells for each message whether
    /// its content is a system reminder.
    pub fn explain_projection_for_step(
        &self,
        view: &SessionView,
        step: &StepContext,
        reminders: &Vec<bool>,
        layout: &PrefixLayout,
    ) -> (r: ProjectionExplain)
        requires
            reminders.len() == step.messages.len(),
        ensures
            explains(self@, *view, *step, reminders@, *layout, r),
    {
        let turn_ids = retained_turn_ids(&view.active_events);
        let retained_turn_count: usize = turn_ids.len();
        ProjectionExplain {
            source_message_count: view.message_count,
            projected_message_count: step.messages.len(),
            source_event_count: view.source_event_count,
            active_event_count: view.active_events.len(),
            cache_drift_detected: view.cache_drift_detected,
            used_materialized_fallback: view.used_materialized_fallback,
            fallback_reason: copy_opt(&view.fallback_reason),
            active_branch_id: copy_opt(&view.active_branch_id),
            active_path_start_sequence: view.active_path_start_sequence,
            injected: projection_injected_labels(&step.messages, reminders),
            retained_message_count: step.messages.len(),
            retained_turn_count,
            dropped_event_count: view.source_event_count.saturating_sub(view.active_events.len()),
            truncated_message_count: projection_truncated_message_count(&step.messages),
            compaction_event_ids: compaction_event_ids(&view.active_events),
            tool_output_provenance: projection_tool_output_provenance(&step.messages),
            retained_turn_ids: turn_ids,
            injected_sources: projection_injected_sources(&step.messages, reminders),
            delivery: step.metadata.delivery,
            delivery_tail_start: step.metadata.tail_start,
            estimate_tokens: step.estimate_tokens,
            context_epoch: step.metadata.context_epoch,
            prefix_cache: self.prefix_cache_explain(layout),
        }
    }

    /// Remembers the pinned prefix of a projection for the next one.
    pub fn remember_projection(&mut self, step: &StepContext, explain: &ProjectionExplain)
        ensures
            final(self)@ == (ContextState {
                last_prefix_fingerprint: opt_text(explain.prefix_cache.prefix_fingerprint),
                last_prefix_tokens: prefix_estimate(
                    message_texts(step.messages@),
                    explain.prefix_cache.prefix_end as int,
                ),
                last_epoch_bump_reason: None,
                ..old(self)@
            }),
    {
        self.last_prefix_fingerprint = copy_opt(&explain.prefix_cache.prefix_fingerprint);
        let end: usize = if explain.prefix_cache.prefix_end < step.messages.len() {
            explain.prefix_cache.prefix_end
        } else {
            step.messages.len()
        };
        self.last_prefix_tokens = if end == 0 {
            0
        } else {
            let chars: u64 = count_chars(&step.messages, end);
            let quarter: u64 = chars / 4;
            if quarter < 1 {
                1
            } else if quarter > u32::MAX as u64 {
                u32::MAX
            } else {
                quarter as u32
            }
        };
        self.last_epoch_bump_reason = None;
    }

    /// Whether a changed prefix is to be published now. If so, `message_count`
    /// messages are published.
    pub fn take_pending_publish(&mut self, message_count: usize) -> (r: bool)
        ensures
            r == old(self)@.pending_publish,
            final(self)@ == with_pending_publish(old(self)@, message_count),
    {
        if !self.pending_publish {
            return false;
        }
        self.pending_publish = false;
        self.gateway_prefix_len = message_count;
        true
    }

    /// The outbound view of a session. `estimate_tokens` is the estimated size of the
    /// assembled messages with the tools.
    pub fn project(&self, session_id: &str, assembled: AssembledOutbound, estimate_tokens: u32) -> (r:
        StepContext)
        ensures
            projected(self@, session_id@, assembled, estimate_tokens, r),
    {
        let metadata = self.metadata_for_outbound(
            session_id,
            assembled.prefix_hash,
            assembled.delivery,
            assembled.tail_start,
        );
        StepContext { messages: assembled.messages, metadata, estimate_tokens }
    }

    /// The outbound view of a session, remembered for the next one.
    pub fn assemble_step(
        &mut self,
        session_id: &str,
        view: &SessionView,
        assembled: AssembledOutbound,
        estimate_tokens: u32,
        reminders: &Vec<bool>,
        layout: &PrefixLayout,
    ) -> (r: StepContext)
        requires
            reminders.len() == assembled.messages.len(),
        ensures
            projected(old(self)@, session_id@, assembled, estimate_tokens, r),
            final(self)@ == with_projection(old(self)@, message_texts(r.messages@), *layout),
    {
        let step = self.project(session_id, assembled, estimate_tokens);
        let explain = self.explain_projection_for_step(view, &step, reminders, layout);
        self.remember_projection(&step, &explain);
        step
    }

    /// The outbound view of a session whose events back it. `unbacked` is why they do
    /// not.
    pub fn try_assemble_step(
        &mut self,
        unbacked: Option<&str>,
        session_id: &str,
        view: &SessionView,
        assembled: AssembledOutbound,
        estimate_tokens: u32,
        reminders: &Vec<bool>,
        layout: &PrefixLayout,
    ) -> (r: Result<StepContext, String>)
        requires
            reminders.len() == assembled.messages.len(),
        ensures
            match (unbacked, r) {
                (Some(reason), Err(message)) => {
                    &&& message@ == "event-backed context projection unavailable: "@ + reason@
                    &&& final(self)@ == old(self)@
                },
                (None, Ok(step)) => {
                    &&& projected(old(self)@, session_id@, assembled, estimate_tokens, step)
                    &&& final(self)@ == with_projection(
                        old(self)@,
                        message_texts(step.messages@),
                        *layout,
                    )
                },
                _ => false,
            },
    {
        match unbacked {
            Some(reason) => Err(projection_unavailable(reason)),
            None => Ok(
                self.assemble_step(session_id, view, assembled, estimate_tokens, reminders, layout),
            ),
        }
    }

    /// Explains the outbound view of a session without remembering it.
    pub fn explain_projection(
        &self,
        session_id: &str,
        view: &SessionView,
        assembled: AssembledOutbound,
        estimate_tokens: u32,
        reminders: &Vec<bool>,
        layout: &PrefixLayout,
    ) -> (r: ProjectionExplain)
        requires
            reminders.len() == assembled.messages.len(),
        ensures
            exists|step: StepContext|
                #[trigger] projected(self@, session_id@, assembled, estimate_tokens, step)
                    && explains(self@, *view, step, reminders@, *layout, r),
    {
        let step = self.project(session_id, assembled, estimate_tokens);
        let r = self.explain_projection_for_step(view, &step, reminders, layout);
        proof {
            assert(projected(self@, session_id@, assembled, estimate_tokens, step));
        }
        r
    }

    /// Explains the outbound view of a session whose events back it. `unbacked` is why
    /// they do not.
    pub fn try_explain_projection(
        &self,
        unbacked: Option<&str>,
        session_id: &str,
        view: &SessionView,
        assembled: AssembledOutbound,
        estimate_tokens: u32,
        reminders: &Vec<bool>,
        layout: &PrefixLayout,
    ) -> (r: Result<ProjectionExplain, String>)
        requires
            reminders.len() == assembled.messages.len(),
        ensures
            match (unbacked, r) {
                (Some(reason), Err(message)) => message@
                    == "event-backed context projection unavailable: "@ + reason@,
                (None, Ok(explain)) => exists|step: StepContext|
                    #[trigger] projected(self@, session_id@, assembled, estimate_tokens, step)
                        && explains(self@, *view, step, reminders@, *layout, explain),
                _ => false,
            },
    {
        match unbacked {
            Some(reason) => Err(projection_unavailable(reason)),
            None => Ok(
                self.explain_projection(
                    session_id,
                    view,
                    assembled,
                    estimate_tokens,
                    reminders,
                    layout,
                ),
            ),
        }
    }

    /// Whether the first prefix is to be published now. If so, `message_count`
    /// messages are published.
    pub fn take_initial_publish(&mut self, gateway_configured: bool, message_count: usize) -> (r: bool)
        ensures
            r == (gateway_configured && !old(self)@.initial_publish_done),
            final(self)@ == with_initial_publish(old(self)@, gateway_configured, message_count),
    {
        if self.initial_publish_done || !gateway_configured {
            return false;
        }
        self.initial_publish_done = true;
        self.gateway_prefix_len = message_count;
        true
    }

    /// Starts a new epoch, with which `message_count` messages are published.
    pub fn bump_epoch(&mut self, reason: &'static str, message_count: usize)
        ensures
            final(self)@ == with_epoch_bump(old(self)@, reason@, message_count),
    {
        self.epoch = self.epoch.saturating_add(1);
        self.last_epoch_bump_reason = Some(reason);
        self.gateway_prefix_len = message_count;
    }

    /// Takes a fresh estimate for the size of the context.
    pub fn sync_water_from_estimate(&mut self, estimated: u32)
        ensures
            final(self)@ == with_estimate(old(self)@, estimated),
    {
        self.water.last_estimate_tokens = Some(estimated);
        self.water.last_prompt_tokens = Some(estimated);
    }

    /// Switches automatic compaction off or on again.
    pub fn set_auto_compact_suppressed(&mut self, suppressed: bool)
        ensures
            final(self)@ == with_suppression(old(self)@, suppressed),
    {
        self.water.auto_compact_suppressed = suppressed;
    }

    /// Whether memory was flushed in the given compaction cycle.
    pub fn memory_already_flushed(&self, cycle: u64) -> (r: bool)
        ensures
            r == (self@.last_memory_flush_compaction == next_u64(cycle)),
    {
        self.last_memory_flush_compaction == cycle.saturating_add(1)
    }

    /// Notes that memory was flushed in the given compaction cycle.
    pub fn note_memory_flush(&mut self, cycle: u64)
        ensures
            final(self)@ == with_memory_flush(old(self)@, cycle),
    {
        self.last_memory_flush_compaction = cycle.saturating_add(1);
    }

    /// Forgets the early summary pass and what it left.
    pub fn clear_prefire(&mut self)
        ensures
            final(self)@ == with_prefire(old(self)@, PrefireState::Idle),
    {
        self.prefire = PrefireState::Idle;
    }

    /// Whether an early summary pass has left a note.
    pub fn prefire_has_cache(&self) -> (r: bool)
        ensures
            r == (self@.prefire is Cached),
    {
        matches!(self.prefire, PrefireState::Cached)
    }

    /// Whether an early summary pass is running.
    pub fn prefire_in_flight(&self) -> (r: bool)
        ensures
            r == (self@.prefire is InFlight),
    {
        matches!(self.prefire, PrefireState::InFlight)
    }

    /// Notes that an early summary pass was started.
    pub fn note_prefire_started(&mut self)
        ensures
            final(self)@ == with_prefire(old(self)@, PrefireState::InFlight),
    {
        self.prefire = PrefireState::InFlight;
    }

    /// Notes that the running early summary pass, if there is one, has ended, and
    /// whether it left a note.
    pub fn note_prefire_ended(&mut self, cached: bool)
        ensures
            final(self)@ == with_prefire_ended(old(self)@, cached),
    {
        if self.prefire_in_flight() {
            self.prefire = if cached {
                PrefireState::Cached
            } else {
                PrefireState::Idle
            };
        }
    }

    /// Where the body of an early summary pass starts, if the pass is to be prepared.
    /// `has_client_factory` tells whether a client for the pass can be made,
    /// `should_prefire` whether the water level is close enough to compaction.
    pub fn prefire_body(
        &self,
        has_client_factory: bool,
        should_prefire: bool,
        messages: &Vec<Message>,
    ) -> (r: Option<usize>)
        ensures
            r == (if has_client_factory && should_prefire && self@.prefire is Idle && messages.len()
                - body_start(message_texts(messages@)) >= 8 {
                Some(body_start(message_texts(messages@)) as usize)
            } else {
                None
            }),
    {
        if !has_client_factory {
            return None;
        }
        if !should_prefire {
            return None;
        }
        if self.prefire_in_flight() || self.prefire_has_cache() {
            return None;
        }
        let start: usize = conversation_start(messages);
        if messages.len() - start < PREFIRE_MIN_MESSAGES {
            return None;
        }
        Some(start)
    }

    /// What the engine was last moved to a new epoch by, since the last projection.
    pub fn last_epoch_bump_reason(&self) -> (r: Option<&'static str>)
        ensures
            match r {
                Some(reason) => self@.last_epoch_bump_reason == Some(reason@),
                None => self@.last_epoch_bump_reason is None,
            },
    {
        self.last_epoch_bump_reason
    }

    /// The fingerprint of the pinned prefix of the last projection.
    pub fn last_prefix_fingerprint(&self) -> (r: Option<String>)
        ensures
            opt_text(r) == self@.last_prefix_fingerprint,
    {
        copy_opt(&self.last_prefix_fingerprint)
    }
}

/// The engine after a pending publish was taken up.
pub open spec fn with_pending_publish(s: ContextState, message_count: usize) -> ContextState {
    if s.pending_publish {
        ContextState { pending_publish: false, gateway_prefix_len: message_count, ..s }
    } else {
        s
    }
}

/// The engine after the first publish was taken up.
pub open spec fn with_initial_publish(
    s: ContextState,
    gateway_configured: bool,
    message_count: usize,
) -> ContextState {
    if gateway_configured && !s.initial_publish_done {
        ContextState { initial_publish_done: true, gateway_prefix_len: message_count, ..s }
    } else {
        s
    }
}

/// The engine in a new epoch.
pub open spec fn with_epoch_bump(s: ContextState, reason: Seq<char>, message_count: usize) -> ContextState {
    ContextState {
        epoch: next_u64(s.epoch),
        last_epoch_bump_reason: Some(reason),
        gateway_prefix_len: message_count,
        ..s
    }
}

/// The engine with a fresh estimate.
pub open spec fn with_estimate(s: ContextState, estimated: u32) -> ContextState {
    ContextState {
        water: ContextWaterLevel {
            last_estimate_tokens: Some(estimated),
            last_prompt_tokens: Some(estimated),
            ..s.water
        },
        ..s
    }
}

/// The engine with automatic compaction off or on.
pub open spec fn with_suppression(s: ContextState, suppressed: bool) -> ContextState {
    ContextState {
        water: ContextWaterLevel { auto_compact_suppressed: suppressed, ..s.water },
        ..s
    }
}

/// The engine after memory was flushed in a compaction cycle.
pub open spec fn with_memory_flush(s: ContextState, cycle: u64) -> ContextState {
    ContextState { last_memory_flush_compaction: next_u64(cycle), ..s }
}

/// The state with another stage of the early summary pass.
pub open spec fn with_prefire(s: ContextState, prefire: PrefireState) -> ContextState {
    ContextState { prefire, ..s }
}

/// The state once a running early summary pass has ended.
pub open spec fn with_prefire_ended(s: ContextState, cached: bool) -> ContextState {
    if s.prefire is InFlight {
        with_prefire(
            s,
            if cached {
                PrefireState::Cached
            } else {
                PrefireState::Idle
            },
        )
    } else {
        s
    }
}

/// The session id under which requests are linked.
pub open spec fn linked_id(s: ContextState, session_id: Seq<char>) -> Seq<char> {
    match s.external_session_id {
        Some(id) => id,
        None => session_id,
    }
}

/// The characters of the first `end` messages, or the top of the range.
fn count_chars(messages: &Vec<Message>, end: usize) -> (r: u64)
    requires
        end <= messages.len(),
    ensures
        r == prefix_chars(message_texts(messages@), end as int) || (r == u64::MAX && prefix_chars(
            message_texts(messages@),
            end as int,
        ) > u64::MAX),
{
    let ghost all = message_texts(messages@);
    let mut total: u64 = 0;
    let mut i: usize = 0;
    while i < end
        invariant
            i <= end <= messages.len(),
            all == message_texts(messages@),
            total == prefix_chars(all, i as int) || (total == u64::MAX && prefix_chars(
                all,
                i as int,
            ) > u64::MAX),
        decreases end - i,
    {
        proof {
            assert(all[i as int] == messages@[i as int]@);
        }
        let n: usize = match &messages[i].content {
            Some(content) => chars_of(content.as_str()).len(),
            None => 0,
        };
        total = total.saturating_add(n as u64);
        i += 1;
    }
    total
}

/// Whether a prefix-cache explanation tells what the engine and the layout hold.
pub open spec fn explains_prefix(s: ContextState, layout: PrefixLayout, r: PrefixCacheExplain) -> bool {
    &&& r.prefix_end == layout.prefix_end
    &&& r.body_end == layout.body_end
    &&& r.tail_decoration_count == layout.tail_decoration_count
    &&& opt_text(r.prefix_fingerprint) == opt_text(layout.prefix_fingerprint)
    &&& r.break_kind@ == layout.break_kind@
    &&& r.cached_tokens == s.last_cached_tokens
    &&& r.gateway_hit_tokens == s.last_gateway_hit_tokens
    &&& r.anchor_aligned == s.last_anchor_aligned
    &&& r.unchanged_reprocessed_est == s.last_unchanged_reprocessed_est
}

/// Whether an explanation tells what the session and the projection hold.
pub open spec fn explains(
    s: ContextState,
    view: SessionView,
    step: StepContext,
    reminders: Seq<bool>,
    layout: PrefixLayout,
    r: ProjectionExplain,
) -> bool {
    let messages = message_texts(step.messages@);
    let events = view.active_events@;
    &&& r.source_message_count == view.message_count
    &&& r.projected_message_count == messages.len()
    &&& r.source_event_count == view.source_event_count
    &&& r.active_event_count == events.len()
    &&& r.cache_drift_detected == view.cache_drift_detected
    &&& r.used_materialized_fallback == view.used_materialized_fallback
    &&& opt_text(r.fallback_reason) == opt_text(view.fallback_reason)
    &&& opt_text(r.active_branch_id) == opt_text(view.active_branch_id)
    &&& r.active_path_start_sequence == view.active_path_start_sequence
    &&& texts(r.injected@) == labels(messages, reminders)
    &&& r.retained_message_count == messages.len()
    &&& texts(r.retained_turn_ids@) == turns_of(events)
    &&& r.retained_turn_count == turns_of(events).len()
    &&& r.dropped_event_count == (if view.source_event_count >= events.len() {
        view.source_event_count - events.len()
    } else {
        0
    })
    &&& r.truncated_message_count == reduced_count(messages)
    &&& texts(r.compaction_event_ids@) == compactions_of(events)
    &&& provenance_list(r.tool_output_provenance@) == provenances(messages)
    &&& injected_list(r.injected_sources@) == injections(messages, reminders)
    &&& r.delivery == step.metadata.delivery
    &&& r.delivery_tail_start == step.metadata.tail_start
    &&& r.estimate_tokens == step.estimate_tokens
    &&& r.context_epoch == step.metadata.context_epoch
    &&& explains_prefix(s, layout, r.prefix_cache)
}

/// Whether a step is the outbound view of a session.
pub open spec fn projected(
    s: ContextState,
    session_id: Seq<char>,
    assembled: AssembledOutbound,
    estimate_tokens: u32,
    step: StepContext,
) -> bool {
    &&& step.messages == assembled.messages
    &&& step.estimate_tokens == estimate_tokens
    &&& step.metadata.session_id@ == linked_id(s, session_id)
    &&& step.metadata.context_epoch == s.epoch
    &&& step.metadata.prefix_hash == assembled.prefix_hash
    &&& step.metadata.delivery == assembled.delivery
    &&& step.metadata.tail_start == assembled.tail_start
}

/// The engine once it observed the pressure before a step.
pub open spec fn with_observation(
    s: ContextState,
    estimated_tokens: u32,
    context_window_tokens: u32,
) -> ContextState {
    ContextState {
        water: ContextWaterLevel {
            context_window_tokens,
            last_estimate_tokens: Some(estimated_tokens),
            ..s.water
        },
        ..s
    }
}

/// The engine once it took the tail decorations of the hooks, if there are hooks: the
/// standing ones, then the extra ones.
pub open spec fn with_tail(s: ContextState, hooks: Option<(Vec<String>, Vec<String>)>) -> ContextState {
    match hooks {
        Some((sections, extra)) => ContextState {
            tail_sections: texts(sections@) + texts(extra@),
            ..s
        },
        None => s,
    }
}

/// The engine once it remembers an outbound view.
pub open spec fn with_projection(
    s: ContextState,
    messages: Seq<MessageText>,
    layout: PrefixLayout,
) -> ContextState {
    ContextState {
        last_prefix_fingerprint: opt_text(layout.prefix_fingerprint),
        last_prefix_tokens: prefix_estimate(messages, layout.prefix_end as int),
        last_epoch_bump_reason: None,
        ..s
    }
}

/// The error of a projection that the events of the session do not back.
pub fn projection_unavailable(reason: &str) -> (r: String)
    ensures
        r@ == "event-backed context projection unavailable: "@ + reason@,
{
    let mut out = "event-backed context projection unavailable: ".to_string();
    out.append(reason);
    out
}

/// Where the conversation body starts: behind a leading system message.
pub open spec fn body_start(messages: Seq<MessageText>) -> int {
    if messages.len() > 0 && messages[0].role == Role::System {
        1
    } else {
        0
    }
}

/// Where the conversation body starts: behind a leading system message.
pub fn conversation_start(messages: &Vec<Message>) -> (r: usize)
    ensures
        r == body_start(message_texts(messages@)),
        r <= messages.len(),
{
    proof {
        if messages@.len() > 0 {
            assert(message_texts(messages@)[0] == messages@[0]@);
        }
    }
    if messages.len() > 0 && messages[0].role == Role::System {
        1
    } else {
        0
    }
}

/// The fewest body messages for which an early summary pass is worth starting.
pub const PREFIRE_MIN_MESSAGES: usize = 8;

/// Whether a prepared early summary pass is launched: its split leaves messages on
/// both sides, and it was not launched for the same messages before.
pub fn prefire_launches(split_idx: usize, body_len: usize, already_launched: bool) -> (r: bool)
    ensures
        r == (0 < split_idx < body_len && !already_launched),
{
    if split_idx == 0 || split_idx >= body_len {
        return false;
    }
    !already_launched
}

/// The note that an early summary pass leaves: none when it is blank.
pub fn prefire_note(note: String) -> (r: Option<String>)
    ensures
        r == (if trimmed(note@).len() == 0 {
            None
        } else {
            Some(note)
        }),
{
    if trim(note.as_str()).as_str().is_empty() {
        None
    } else {
        Some(note)
    }
}

/// A prefix is taken to hold a quarter of its characters in tokens, rounded down, but at
/// least one; no prefix holds none. An end behind the last message means all of them.
pub proof fn prefixes_are_estimated_by_their_length(messages: Seq<MessageText>, prefix_end: int)
    requires
        0 <= prefix_end,
        prefix_chars(messages, messages.len() as int) < 4 * u32::MAX,
    ensures
        prefix_estimate(messages, 0) == 0,
        prefix_end >= messages.len() ==> prefix_estimate(messages, prefix_end) == prefix_estimate(
            messages,
            messages.len() as int,
        ),
        0 < prefix_end <= messages.len() ==> ({
            let chars = prefix_chars(messages, prefix_end);
            let tokens = prefix_estimate(messages, prefix_end) as int;
            &&& chars < 4 ==> tokens == 1
            &&& chars >= 4 ==> 4 * tokens <= chars < 4 * tokens + 4
        }),
{
    if 0 < prefix_end <= messages.len() {
        lemma_prefix_grows(messages, prefix_end, messages.len() as int);
    }
}

proof fn lemma_prefix_grows(messages: Seq<MessageText>, i: int, j: int)
    requires
        0 <= i <= j,
    ensures
        prefix_chars(messages, i) <= prefix_chars(messages, j),
    decreases j - i,
{
    if i < j {
        lemma_prefix_grows(messages, i, j - 1);
    }
}

/// The characters of a prefix are those of its messages, each counted once; a message
/// without content counts nothing.
pub proof fn prefix_characters_add_up(messages: Seq<MessageText>, n: int)
    requires
        0 <= n < messages.len(),
    ensures
        prefix_chars(messages, 0) == 0,
        messages[n].content matches Some(text) ==> prefix_chars(messages, n + 1) == prefix_chars(
            messages,
            n,
        ) + text.len(),
        messages[n].content is None ==> prefix_chars(messages, n + 1) == prefix_chars(messages, n),
{
}

/// What the provider reports replaces what was known, and what it does not report stays.
/// Of a reported cache hit follows what was processed again of the prefix: what the hit
/// does not cover.
pub proof fn reported_usage_replaces_what_was_known(s: ContextState, usage: TokenUsage)
    ensures
        usage.cached_tokens matches Some(cached) ==> with_usage(s, usage).last_cached_tokens == Some(
            cached,
        ) && (with_usage(s, usage).last_unchanged_reprocessed_est matches Some(again) && (
        cached <= s.last_prefix_tokens ==> again + cached == s.last_prefix_tokens) && (cached
            >= s.last_prefix_tokens ==> again == 0)),
        usage.cached_tokens is None ==> with_usage(s, usage).last_cached_tokens
            == s.last_cached_tokens && with_usage(s, usage).last_unchanged_reprocessed_est
            == s.last_unchanged_reprocessed_est,
        usage.gateway_hit_tokens matches Some(hit) ==> with_usage(s, usage).last_gateway_hit_tokens
            == Some(hit),
        usage.gateway_hit_tokens is None ==> with_usage(s, usage).last_gateway_hit_tokens
            == s.last_gateway_hit_tokens,
        usage.gateway_anchor_aligned matches Some(aligned) ==> with_usage(
            s,
            usage,
        ).last_anchor_aligned == Some(aligned),
        usage.gateway_anchor_aligned is None ==> with_usage(s, usage).last_anchor_aligned
            == s.last_anchor_aligned,
        with_usage(s, usage).epoch == s.epoch,
        with_usage(s, usage).water == s.water,
        with_usage(s, usage).last_prefix_tokens == s.last_prefix_tokens,
{
}

/// Pressure is observed as it is read: a context that exceeds the window overflows unless
/// automatic compaction is switched off, and one that overflows is due, as is one whose
/// water level says so. Observing changes what is known of the size, and nothing else.
pub proof fn pressure_is_observed_as_read(
    engine: &mut ContextEngine,
    estimated_tokens: u32,
    context_window_tokens: u32,
    exceeds_window: bool,
    wants_compaction: bool,
    r: ContextObservation,
)
    requires
        call_ensures(
            ContextEngine::observe,
            (engine, estimated_tokens, context_window_tokens, exceeds_window, wants_compaction),
            r,
        ),
    ensures
        r.estimated_tokens == estimated_tokens,
        r.preflight_overflow <==> exceeds_window && !old(engine)@.water.auto_compact_suppressed,
        wants_compaction ==> r.should_compact,
        r.preflight_overflow ==> r.should_compact,
        !wants_compaction && !r.preflight_overflow ==> !r.should_compact,
        final(engine)@.water.last_estimate_tokens == Some(estimated_tokens),
        final(engine)@.water.context_window_tokens == context_window_tokens,
        final(engine)@.water.last_prompt_tokens == old(engine)@.water.last_prompt_tokens,
        final(engine)@.water.auto_compact_suppressed == old(engine)@.water.auto_compact_suppressed,
        final(engine)@.epoch == old(engine)@.epoch,
        final(engine)@.tail_sections == old(engine)@.tail_sections,
        final(engine)@.pending_publish == old(engine)@.pending_publish,
{
}

/// A changed system prefix starts the next epoch, says which, and has it published with the
/// next commit.
pub proof fn changed_prefixes_start_an_epoch(
    engine: &mut ContextEngine,
    reason: &'static str,
    r: ContextEvent,
)
    requires
        call_ensures(ContextEngine::on_system_prefix_changed, (engine, reason), r),
        old(engine)@.epoch < u64::MAX,
    ensures
        final(engine)@.epoch == old(engine)@.epoch + 1,
        final(engine)@.pending_publish,
        final(engine)@.last_epoch_bump_reason == Some(reason@),
        r matches ContextEvent::EpochBumped { old: before, new: now, reason: told } && before
            == old(engine)@.epoch && now == before + 1 && told@ == reason@,
        final(engine)@.water == old(engine)@.water,
        final(engine)@.gateway_prefix_len == old(engine)@.gateway_prefix_len,
{
}

/// A new epoch comes with its reason and the length of the prefix that it publishes.
pub proof fn new_epochs_tell_their_prefix(
    engine: &mut ContextEngine,
    reason: &'static str,
    message_count: usize,
)
    requires
        call_ensures(ContextEngine::bump_epoch, (engine, reason, message_count), ()),
        old(engine)@.epoch < u64::MAX,
    ensures
        final(engine)@.epoch == old(engine)@.epoch + 1,
        final(engine)@.last_epoch_bump_reason == Some(reason@),
        final(engine)@.gateway_prefix_len == message_count,
        final(engine)@.pending_publish == old(engine)@.pending_publish,
{
}

/// A pending prefix is published once, with as many messages as there are.
pub proof fn pending_prefixes_are_published_once(
    engine: &mut ContextEngine,
    message_count: usize,
    r: bool,
)
    requires
        call_ensures(ContextEngine::take_pending_publish, (engine, message_count), r),
    ensures
        r == old(engine)@.pending_publish,
        !final(engine)@.pending_publish,
        r ==> final(engine)@.gateway_prefix_len == message_count,
        !r ==> final(engine)@ == old(engine)@,
        final(engine)@.epoch == old(engine)@.epoch,
{
}

/// The first prefix is published once, and only where there is a gateway.
pub proof fn first_prefixes_are_published_once(
    engine: &mut ContextEngine,
    gateway_configured: bool,
    message_count: usize,
    r: bool,
)
    requires
        call_ensures(
            ContextEngine::take_initial_publish,
            (engine, gateway_configured, message_count),
            r,
        ),
    ensures
        r <==> gateway_configured && !old(engine)@.initial_publish_done,
        r ==> final(engine)@.initial_publish_done && final(engine)@.gateway_prefix_len
            == message_count,
        !r ==> final(engine)@ == old(engine)@,
{
}

/// Requests are linked by the session id that was set from outside, or else by the
/// session's own, and carry the epoch they were made in.
pub proof fn requests_carry_session_and_epoch(
    engine: &ContextEngine,
    session_id: &str,
    plain: ContextMetadata,
    assembled: AssembledOutbound,
    estimate_tokens: u32,
    step: StepContext,
)
    requires
        call_ensures(ContextEngine::metadata, (engine, session_id), plain),
        call_ensures(ContextEngine::project, (engine, session_id, assembled, estimate_tokens), step),
    ensures
        engine@.external_session_id is None ==> plain.session_id@ == session_id@
            && step.metadata.session_id@ == session_id@,
        engine@.external_session_id matches Some(id) ==> plain.session_id@ == id
            && step.metadata.session_id@ == id,
        plain.context_epoch == engine@.epoch,
        step.metadata.context_epoch == engine@.epoch,
        plain.prefix_hash is None && plain.delivery is Full && plain.tail_start is None,
        step.messages == assembled.messages,
        step.metadata.prefix_hash == assembled.prefix_hash,
        step.metadata.delivery == assembled.delivery,
        step.metadata.tail_start == assembled.tail_start,
        step.estimate_tokens == estimate_tokens,
{
}

/// The tail decorations of a step are those of the hooks, the standing ones before the
/// extra ones; without hooks they stay.
pub proof fn tail_decorations_come_from_the_hooks(
    engine: &mut ContextEngine,
    hooks: Option<(Vec<String>, Vec<String>)>,
)
    requires
        call_ensures(ContextEngine::capture_tail_sections, (engine, hooks), ()),
    ensures
        hooks matches Some((standing, extra)) ==> {
            let now = final(engine)@.tail_sections;
            &&& now.len() == standing@.len() + extra@.len()
            &&& forall|i: int| 0 <= i < standing@.len() ==> #[trigger] now[i] == standing@[i]@
            &&& forall|i: int|
                0 <= i < extra@.len() ==> now[standing@.len() + i] == (#[trigger] extra@[i])@
        },
        hooks is None ==> final(engine)@ == old(engine)@,
        final(engine)@.epoch == old(engine)@.epoch,
        final(engine)@.water == old(engine)@.water,
{
    if let Some((standing, extra)) = hooks {
        let now = final(engine)@.tail_sections;
        assert forall|i: int| 0 <= i < extra@.len() implies now[standing@.len() + i]
            == (#[trigger] extra@[i])@ by {
            assert(now[standing@.len() + i] == texts(extra@)[i]);
        }
    }
}

/// Restoring the size from a session makes it both the last prompt's size and the last
/// estimate.
pub proof fn restored_sizes_count_twice(engine: &mut ContextEngine, tokens: u32)
    requires
        call_ensures(ContextEngine::restore_water_from_session, (engine, tokens), ()),
    ensures
        final(engine)@.water.last_prompt_tokens == Some(tokens),
        final(engine)@.water.last_estimate_tokens == Some(tokens),
        final(engine)@.water.context_window_tokens == old(engine)@.water.context_window_tokens,
        final(engine)@.epoch == old(engine)@.epoch,
{
}

/// An early summary pass is launched exactly where it leaves messages on both sides and was
/// not launched before.
pub proof fn early_summaries_need_both_sides(split_idx: usize, body_len: usize, before: bool, r: bool)
    requires
        call_ensures(prefire_launches, (split_idx, body_len, before), r),
    ensures
        r <==> split_idx >= 1 && split_idx + 1 <= body_len && !before,
{
}

/// Blank notes are no notes, and other notes are kept as they are.
pub proof fn blank_notes_are_dropped(note: String, r: Option<String>)
    requires
        call_ensures(prefire_note, (note,), r),
    ensures
        trimmed(note@).len() == 0 ==> r is None,
        trimmed(note@).len() > 0 ==> r == Some(note),
{
}

/// A remembered projection fixes the prefix that the next one is held against, and ends the
/// reason of the epoch.
pub proof fn projections_are_remembered(
    engine: &mut ContextEngine,
    step: &StepContext,
    explain: &ProjectionExplain,
)
    requires
        call_ensures(ContextEngine::remember_projection, (engine, step, explain), ()),
    ensures
        final(engine)@.last_prefix_fingerprint == opt_text(explain.prefix_cache.prefix_fingerprint),
        final(engine)@.last_epoch_bump_reason is None,
        explain.prefix_cache.prefix_end == 0 ==> final(engine)@.last_prefix_tokens == 0,
        explain.prefix_cache.prefix_end > 0 && step.messages@.len() > 0
            ==> final(engine)@.last_prefix_tokens > 0,
        final(engine)@.epoch == old(engine)@.epoch,
        final(engine)@.water == old(engine)@.water,
        final(engine)@.tail_sections == old(engine)@.tail_sections,
{
}

/// An explanation counts what it was made from: the messages of the session and of the
/// outbound view, the events that are active and those that are not.
pub proof fn explanations_count_what_is_there(
    engine: &ContextEngine,
    view: &SessionView,
    step: &StepContext,
    reminders: &Vec<bool>,
    layout: &PrefixLayout,
    r: ProjectionExplain,
)
    requires
        call_ensures(
            ContextEngine::explain_projection_for_step,
            (engine, view, step, reminders, layout),
            r,
        ),
    ensures
        r.source_message_count == view.message_count,
        r.projected_message_count == step.messages@.len(),
        r.retained_message_count == step.messages@.len(),
        r.source_event_count == view.source_event_count,
        r.active_event_count == view.active_events@.len(),
        view.source_event_count >= view.active_events@.len() ==> r.dropped_event_count
            + r.active_event_count == r.source_event_count,
        view.source_event_count < view.active_events@.len() ==> r.dropped_event_count == 0,
        r.retained_turn_count == r.retained_turn_ids@.len(),
        r.used_materialized_fallback == view.used_materialized_fallback,
        r.cache_drift_detected == view.cache_drift_detected,
        opt_text(r.fallback_reason) == opt_text(view.fallback_reason),
        opt_text(r.active_branch_id) == opt_text(view.active_branch_id),
        r.active_path_start_sequence == view.active_path_start_sequence,
        r.estimate_tokens == step.estimate_tokens,
        r.context_epoch == step.metadata.context_epoch,
        r.delivery == step.metadata.delivery,
        r.delivery_tail_start == step.metadata.tail_start,
        r.prefix_cache.prefix_end == layout.prefix_end,
        r.prefix_cache.body_end == layout.body_end,
        r.prefix_cache.tail_decoration_count == layout.tail_decoration_count,
        r.prefix_cache.break_kind@ == layout.break_kind@,
        opt_text(r.prefix_cache.prefix_fingerprint) == opt_text(layout.prefix_fingerprint),
        r.prefix_cache.cached_tokens == engine@.last_cached_tokens,
        r.prefix_cache.gateway_hit_tokens == engine@.last_gateway_hit_tokens,
        r.prefix_cache.anchor_aligned == engine@.last_anchor_aligned,
        r.prefix_cache.unchanged_reprocessed_est == engine@.last_unchanged_reprocessed_est,
{
    assert(texts(r.retained_turn_ids@).len() == r.retained_turn_ids@.len());
}

/// An early summary pass is prepared exactly where there is a client for it, it is due, none
/// is under way or done, and at least eight messages stand behind a leading system message;
/// the pass then covers those.
pub proof fn early_summaries_need_a_body(
    engine: &ContextEngine,
    has_client_factory: bool,
    should_prefire: bool,
    messages: &Vec<Message>,
    r: Option<usize>,
)
    requires
        call_ensures(
            ContextEngine::prefire_body,
            (engine, has_client_factory, should_prefire, messages),
            r,
        ),
    ensures
        ({
            let start: int = if messages@.len() > 0 && messages@[0].role is System {
                1
            } else {
                0
            };
            r == (if has_client_factory && should_prefire && !(engine@.prefire is InFlight)
                && !(engine@.prefire is Cached) && messages@.len() >= start + 8 {
                Some(start as usize)
            } else {
                None
            })
        }),
{
    if messages@.len() > 0 {
        assert(message_texts(messages@)[0] == messages@[0]@);
    }
}

/// An early summary is dropped, started and ended as it is told, and nothing else of the context
/// changes by that.
pub proof fn early_summaries_are_followed(
    cleared: &mut ContextEngine,
    started: &mut ContextEngine,
)
    requires
        call_ensures(ContextEngine::clear_prefire, (cleared,), ()),
        call_ensures(ContextEngine::note_prefire_started, (started,), ()),
    ensures
        final(cleared)@.prefire is Idle,
        final(cleared)@ == (ContextState { prefire: final(cleared)@.prefire, ..old(cleared)@ }),
        final(started)@.prefire is InFlight,
        final(started)@ == (ContextState { prefire: final(started)@.prefire, ..old(started)@ }),
{
}

/// What the host sets is kept as it was set, and nothing else of the context changes by that.
pub proof fn settings_of_the_host_are_kept(
    linked: &mut ContextEngine,
    id: Option<String>,
    sized: &mut ContextEngine,
    window: u32,
    decorated: &mut ContextEngine,
    sections: Vec<String>,
    suppressing: &mut ContextEngine,
    suppressed: bool,
)
    requires
        call_ensures(ContextEngine::set_external_session_id, (linked, id), ()),
        call_ensures(ContextEngine::set_window, (sized, window), ()),
        call_ensures(ContextEngine::set_step_tail_decorations, (decorated, sections), ()),
        call_ensures(ContextEngine::set_auto_compact_suppressed, (suppressing, suppressed), ()),
    ensures
        final(linked)@ == (ContextState { external_session_id: opt_text(id), ..old(linked)@ }),
        final(sized)@.water.context_window_tokens == window,
        final(sized)@.water.last_prompt_tokens == old(sized)@.water.last_prompt_tokens,
        final(sized)@.epoch == old(sized)@.epoch,
        final(decorated)@ == (ContextState {
            tail_sections: texts(sections@),
            ..old(decorated)@
        }),
        final(suppressing)@.water.auto_compact_suppressed == suppressed,
        final(suppressing)@.epoch == old(suppressing)@.epoch,
{
}

/// What is asked of the context is answered from what it holds.
pub proof fn contexts_answer_from_what_they_hold(
    engine: &ContextEngine,
    epoch: u64,
    prefix: usize,
    cached: bool,
    in_flight: bool,
)
    requires
        call_ensures(ContextEngine::epoch, (engine,), epoch),
        call_ensures(ContextEngine::gateway_prefix_len, (engine,), prefix),
        call_ensures(ContextEngine::prefire_has_cache, (engine,), cached),
        call_ensures(ContextEngine::prefire_in_flight, (engine,), in_flight),
    ensures
        epoch == engine@.epoch,
        prefix == engine@.gateway_prefix_len,
        cached <==> engine@.prefire is Cached,
        in_flight <==> engine@.prefire is InFlight,
{
}

} // verus!
