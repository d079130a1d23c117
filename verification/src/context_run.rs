//! Operations on the context as a sequence of decisions.
//!
//! A run says what to do next and is told what came of it. The order of its
//! announcements is kept in its trace.
use vstd::prelude::*;

use crate::context_engine::{
    next_u64, with_epoch_bump, with_estimate, with_initial_publish, with_memory_flush,
    with_pending_publish, with_prefire, with_prefire_ended, with_suppression, with_tail,
    ContextEngine, ContextObservation, ContextState, PrefireState,
};
use crate::model_executor::OverflowRetryState;
use crate::text::{copy_opt, opt_text};

verus! {

/// Why a run compacts.
#[derive(Debug, Clone, Copy, PartialEq, Eq, Structural)]
pub enum RunKind {
    /// The commit before a step: compaction as the observed pressure asks for it.
    Auto { should_compact: bool, preflight_overflow: bool },
    /// A compaction that the user asked for.
    Manual,
    /// The provider rejected the context as too large.
    Overflow,
}

/// The reason that a compaction is given.
pub open spec fn compact_reason(kind: RunKind) -> Seq<char> {
    match kind {
        RunKind::Auto { preflight_overflow, .. } => if preflight_overflow {
            "preflight_overflow"@
        } else {
            "token_threshold"@
        },
        RunKind::Manual => "manual"@,
        RunKind::Overflow => "context_overflow"@,
    }
}

/// The reason that a new epoch is given.
pub open spec fn bump_reason(kind: RunKind) -> Seq<char> {
    match kind {
        RunKind::Auto { .. } => "compaction"@,
        RunKind::Manual => "manual_compaction"@,
        RunKind::Overflow => "overflow_compaction"@,
    }
}

/// The reason of the checkpoint before a compaction.
pub open spec fn pre_reason(kind: RunKind) -> Seq<char> {
    match kind {
        RunKind::Auto { .. } => "pre_auto_compact"@,
        RunKind::Manual => "pre_manual_compact"@,
        RunKind::Overflow => "pre_overflow_compact"@,
    }
}

/// The reason of the checkpoint after a compaction.
pub open spec fn post_reason(kind: RunKind) -> Seq<char> {
    match kind {
        RunKind::Auto { .. } => "post_auto_compact"@,
        RunKind::Manual => "post_manual_compact"@,
        RunKind::Overflow => "post_overflow_compact"@,
    }
}

impl RunKind {
    fn compact_reason(self) -> (r: &'static str)
        ensures
            r@ == compact_reason(self),
    {
        match self {
            RunKind::Auto { preflight_overflow, .. } => if preflight_overflow {
                "preflight_overflow"
            } else {
                "token_threshold"
            },
            RunKind::Manual => "manual",
            RunKind::Overflow => "context_overflow",
        }
    }

    fn bump_reason(self) -> (r: &'static str)
        ensures
            r@ == bump_reason(self),
    {
        match self {
            RunKind::Auto { .. } => "compaction",
            RunKind::Manual => "manual_compaction",
            RunKind::Overflow => "overflow_compaction",
        }
    }

    fn pre_reason(self) -> (r: &'static str)
        ensures
            r@ == pre_reason(self),
    {
        match self {
            RunKind::Auto { .. } => "pre_auto_compact",
            RunKind::Manual => "pre_manual_compact",
            RunKind::Overflow => "pre_overflow_compact",
        }
    }

    fn post_reason(self) -> (r: &'static str)
        ensures
            r@ == post_reason(self),
    {
        match self {
            RunKind::Auto { .. } => "post_auto_compact",
            RunKind::Manual => "post_manual_compact",
            RunKind::Overflow => "post_overflow_compact",
        }
    }
}

/// What a run waits for.
#[derive(Debug, Clone, Copy, PartialEq, Eq, Structural)]
pub enum RunPhase {
    PendingPublish,
    InitialPublish,
    Prefire,
    Truncate,
    SyncAfterTruncate,
    ReadPressure,
    AwaitPrefire,
    CheckMemory,
    FlushMemory,
    PreCheckpoint,
    Compact,
    Segment,
    ClearPrefire,
    BumpPublish,
    SyncAfterCompact,
    PostCheckpoint,
    EnsureSystem,
    Over,
}

/// What came of a compaction.
#[derive(Debug, Clone, Copy, PartialEq, Eq, Structural)]
pub enum CompactOutcome {
    /// No compaction was tried.
    Untried,
    /// There was nothing to compact.
    Nothing,
    /// The context was compacted, perhaps with a segment to keep.
    Compacted { has_segment: bool },
    /// The compaction failed.
    Failed,
}

/// A compaction that was made.
#[derive(Debug)]
pub struct CompactionResult {
    pub reason: String,
    pub compacted_count: usize,
    pub tokens_before: u32,
    pub tokens_after: u32,
    /// Whether there is a segment to keep.
    pub has_segment: bool,
}

/// The contents of a [`CompactionResult`].
pub struct Compaction {
    pub reason: Seq<char>,
    pub compacted_count: usize,
    pub tokens_before: u32,
    pub tokens_after: u32,
    pub has_segment: bool,
}

impl View for CompactionResult {
    type V = Compaction;

    open spec fn view(&self) -> Compaction {
        Compaction {
            reason: self.reason@,
            compacted_count: self.compacted_count,
            tokens_before: self.tokens_before,
            tokens_after: self.tokens_after,
            has_segment: self.has_segment,
        }
    }
}

impl CompactionResult {
    /// The same result again.
    pub fn copy(&self) -> (r: Self)
        ensures
            r@ == self@,
    {
        CompactionResult {
            reason: self.reason.clone(),
            compacted_count: self.compacted_count,
            tokens_before: self.tokens_before,
            tokens_after: self.tokens_after,
            has_segment: self.has_segment,
        }
    }
}

/// The contents of a compaction, if one was made.
pub open spec fn opt_compaction(result: Option<CompactionResult>) -> Option<Compaction> {
    match result {
        Some(r) => Some(r@),
        None => None,
    }
}

/// What a run has announced.
#[derive(Debug, Clone, Copy, PartialEq, Eq, Structural)]
pub enum Announced {
    PublishedPrefix { epoch: u64 },
    FlushedMemory,
    PreCheckpoint,
    KeptSegment,
    PostCheckpoint,
}

/// What happened outside the run.
#[derive(Debug)]
pub enum RunEvent {
    Published,
    /// Whether an early summary pass was started.
    PrefireConsidered { started: bool },
    Truncated { applied: bool },
    Estimated { tokens: u32 },
    PressureRead { should_compact: bool, exceeds_window: bool },
    /// Whether the early summary pass that was waited for left a note.
    PrefireAwaited { cached: bool },
    /// Whether memory is due for a flush, and whether there is nothing to flush.
    MemoryChecked { should_flush: bool, blank: bool },
    MemoryFlushed { accepted: bool },
    Checkpointed,
    Compacted { result: CompactionResult },
    NothingCompacted,
    CompactionFailed { message: String },
    SegmentKept,
    PrefireCleared,
    SystemEnsured,
    /// The announcement that was asked for failed.
    Failed { message: String },
}

/// What to do next.
#[derive(Debug)]
pub enum RunAction {
    /// Publish the messages of the session as the prefix of the epoch.
    PublishPrefix { epoch: u64 },
    /// Start an early summary pass if one is due.
    ConsiderPrefire,
    /// Shorten tool output of the current turn; `steps_first` overrides the
    /// configuration.
    TruncateSteps { steps_first: bool },
    /// Estimate the context anew and store its size with the session.
    SyncWater,
    ReadPressure,
    /// Wait for an early summary pass that is under way.
    AwaitPrefire,
    CheckMemory { already_flushed: bool },
    FlushMemory,
    Checkpoint { reason: &'static str },
    /// Compact the context. The hint tells the summary what matters to the user.
    Compact { reason: &'static str, force_summarize: bool, user_hint: Option<String> },
    KeepSegment,
    ClearPrefire,
    EnsureSystemMessage,
    /// The run is over. `retry` is for the step that overflowed.
    Done { compaction: Option<CompactionResult>, retry: bool },
    Fail { message: String },
}

/// What a run reads from the session at each point.
#[derive(Debug, Clone, Copy)]
pub struct SessionFacts {
    pub message_count: usize,
    pub compaction_cycle: u64,
}

/// The state of a run.
pub struct RunState {
    pub kind: RunKind,
    pub phase: RunPhase,
    pub gateway_configured: bool,
    /// Whether truncation and summary have been tried for an overflow.
    pub flags: (bool, bool),
    pub outcome: CompactOutcome,
    pub retry: bool,
    pub trace: Seq<Announced>,
    /// The message of a failed compaction.
    pub error: Seq<char>,
    /// What the user gave along for the summary.
    pub hint: Option<Seq<char>>,
    /// The compaction that was made.
    pub result: Option<Compaction>,
}

pub open spec fn at(r: RunState, phase: RunPhase) -> RunState {
    RunState { phase, ..r }
}

/// The run and the engine before the first publish is looked at.
pub open spec fn enter_initial(e: ContextState, r: RunState, facts: SessionFacts) -> (
    ContextState,
    RunState,
) {
    (
        with_initial_publish(e, r.gateway_configured, facts.message_count),
        at(
            r,
            if r.gateway_configured && !e.initial_publish_done {
                RunPhase::InitialPublish
            } else {
                RunPhase::Prefire
            },
        ),
    )
}

/// The run after an overflow could not be met by truncation.
pub open spec fn after_overflow_truncate(r: RunState) -> RunState {
    if r.flags.1 {
        at(r, RunPhase::Over)
    } else {
        RunState { phase: RunPhase::AwaitPrefire, flags: (r.flags.0, true), ..r }
    }
}

/// The start of a run.
pub open spec fn started(e: ContextState, r: RunState, facts: SessionFacts) -> (
    ContextState,
    RunState,
) {
    match r.kind {
        RunKind::Auto { .. } => if e.pending_publish {
            (
                with_pending_publish(e, facts.message_count),
                at(r, RunPhase::PendingPublish),
            )
        } else {
            enter_initial(e, r, facts)
        },
        RunKind::Manual => (e, at(r, RunPhase::AwaitPrefire)),
        RunKind::Overflow => if !r.flags.0 {
            (e, RunState { phase: RunPhase::Truncate, flags: (true, r.flags.1), ..r })
        } else {
            (e, after_overflow_truncate(r))
        },
    }
}

/// The run and the engine when a new epoch is published after a compaction.
pub open spec fn bumped(e: ContextState, r: RunState, facts: SessionFacts) -> (
    ContextState,
    RunState,
) {
    (
        with_epoch_bump(e, bump_reason(r.kind), facts.message_count),
        at(r, RunPhase::BumpPublish),
    )
}

/// The run and the engine once a compaction has ended.
pub open spec fn after_compaction(e: ContextState, r: RunState) -> (ContextState, RunState) {
    if r.kind is Manual {
        (e, at(r, RunPhase::ClearPrefire))
    } else {
        match r.outcome {
            CompactOutcome::Compacted { has_segment } => (
                e,
                at(
                    r,
                    if has_segment {
                        RunPhase::Segment
                    } else {
                        RunPhase::ClearPrefire
                    },
                ),
            ),
            CompactOutcome::Failed => (
                with_suppression(e, true),
                at(
                    r,
                    if r.kind is Overflow {
                        RunPhase::Over
                    } else {
                        RunPhase::EnsureSystem
                    },
                ),
            ),
            _ => (e, RunState { phase: RunPhase::EnsureSystem, retry: r.kind is Overflow, ..r }),
        }
    }
}

/// The run and the engine once the early summary was dropped.
pub open spec fn after_clear(e: ContextState, r: RunState, facts: SessionFacts) -> (
    ContextState,
    RunState,
) {
    match r.outcome {
        CompactOutcome::Failed => (with_suppression(e, true), at(r, RunPhase::Over)),
        CompactOutcome::Compacted { has_segment } => if r.kind is Manual && has_segment {
            (with_suppression(e, false), at(r, RunPhase::Segment))
        } else {
            bumped(with_suppression(e, false), r, facts)
        },
        _ => (with_suppression(e, false), at(r, RunPhase::EnsureSystem)),
    }
}

/// Whether a phase waits for an event.
pub open spec fn awaits(phase: RunPhase, event: RunEvent) -> bool {
    match event {
        RunEvent::Published => phase is PendingPublish || phase is InitialPublish || phase is BumpPublish,
        RunEvent::PrefireConsidered { .. } => phase is Prefire,
        RunEvent::Truncated { .. } => phase is Truncate,
        RunEvent::Estimated { .. } => phase is SyncAfterTruncate || phase is SyncAfterCompact,
        RunEvent::PressureRead { .. } => phase is ReadPressure,
        RunEvent::PrefireAwaited { .. } => phase is AwaitPrefire,
        RunEvent::MemoryChecked { .. } => phase is CheckMemory,
        RunEvent::MemoryFlushed { .. } => phase is FlushMemory,
        RunEvent::Checkpointed => phase is PreCheckpoint || phase is PostCheckpoint,
        RunEvent::Compacted { .. } => phase is Compact,
        RunEvent::NothingCompacted => phase is Compact,
        RunEvent::CompactionFailed { .. } => phase is Compact,
        RunEvent::SegmentKept => phase is Segment,
        RunEvent::PrefireCleared => phase is ClearPrefire,
        RunEvent::SystemEnsured => phase is EnsureSystem,
        RunEvent::Failed { .. } => phase is PendingPublish || phase is InitialPublish
            || phase is BumpPublish || phase is FlushMemory || phase is PreCheckpoint
            || phase is PostCheckpoint || phase is Segment,
    }
}

/// The run and the engine after an event.
pub open spec fn after(e: ContextState, r: RunState, event: RunEvent, facts: SessionFacts) -> (
    ContextState,
    RunState,
) {
    match event {
        RunEvent::Published => {
            let told = RunState {
                trace: r.trace.push(Announced::PublishedPrefix { epoch: e.epoch }),
                ..r
            };
            match r.phase {
                RunPhase::PendingPublish => enter_initial(e, told, facts),
                RunPhase::InitialPublish => (e, at(told, RunPhase::Prefire)),
                _ => (e, at(told, RunPhase::SyncAfterCompact)),
            }
        },
        RunEvent::PrefireConsidered { started } => (
            if started {
                with_prefire(e, PrefireState::InFlight)
            } else {
                e
            },
            at(
                r,
                match r.kind {
                    RunKind::Auto { should_compact: true, .. } => RunPhase::Truncate,
                    _ => RunPhase::Over,
                },
            ),
        ),
        RunEvent::Truncated { applied } => if r.kind is Overflow {
            if applied {
                (e, RunState { phase: RunPhase::EnsureSystem, retry: true, ..r })
            } else {
                (e, after_overflow_truncate(r))
            }
        } else if applied {
            (e, at(r, RunPhase::SyncAfterTruncate))
        } else {
            (e, at(r, RunPhase::AwaitPrefire))
        },
        RunEvent::Estimated { tokens } => (
            with_estimate(e, tokens),
            at(
                r,
                if r.phase is SyncAfterTruncate {
                    RunPhase::ReadPressure
                } else {
                    RunPhase::PostCheckpoint
                },
            ),
        ),
        RunEvent::PressureRead { should_compact, exceeds_window } => (
            e,
            at(
                r,
                if !should_compact && !exceeds_window {
                    RunPhase::Over
                } else {
                    RunPhase::AwaitPrefire
                },
            ),
        ),
        RunEvent::PrefireAwaited { cached } => (
            with_prefire_ended(e, cached),
            at(r, RunPhase::CheckMemory),
        ),
        RunEvent::MemoryChecked { should_flush, blank } => (
            e,
            at(
                r,
                if should_flush && !blank {
                    RunPhase::FlushMemory
                } else {
                    RunPhase::PreCheckpoint
                },
            ),
        ),
        RunEvent::MemoryFlushed { accepted } => (
            if accepted {
                with_memory_flush(e, facts.compaction_cycle)
            } else {
                e
            },
            RunState {
                phase: RunPhase::PreCheckpoint,
                trace: r.trace.push(Announced::FlushedMemory),
                ..r
            },
        ),
        RunEvent::Checkpointed => if r.phase is PreCheckpoint {
            (
                e,
                RunState {
                    phase: RunPhase::Compact,
                    trace: r.trace.push(Announced::PreCheckpoint),
                    ..r
                },
            )
        } else {
            (
                e,
                RunState {
                    phase: RunPhase::EnsureSystem,
                    trace: r.trace.push(Announced::PostCheckpoint),
                    retry: r.kind is Overflow,
                    ..r
                },
            )
        },
        RunEvent::Compacted { result } => after_compaction(
            e,
            RunState {
                outcome: CompactOutcome::Compacted { has_segment: result.has_segment },
                result: Some(result@),
                ..r
            },
        ),
        RunEvent::NothingCompacted => after_compaction(
            e,
            RunState { outcome: CompactOutcome::Nothing, ..r },
        ),
        RunEvent::CompactionFailed { message } => after_compaction(
            e,
            RunState { outcome: CompactOutcome::Failed, error: message@, ..r },
        ),
        RunEvent::SegmentKept => {
            let told = RunState { trace: r.trace.push(Announced::KeptSegment), ..r };
            if r.kind is Manual {
                bumped(e, told, facts)
            } else {
                (e, at(told, RunPhase::ClearPrefire))
            }
        },
        RunEvent::PrefireCleared => after_clear(with_prefire(e, PrefireState::Idle), r, facts),
        RunEvent::SystemEnsured => (e, at(r, RunPhase::Over)),
        RunEvent::Failed { .. } => (e, at(r, RunPhase::Over)),
    }
}

/// Whether a run that ends here ends with the error of its compaction.
pub open spec fn ends_in_error(r: RunState) -> bool {
    r.outcome is Failed && !(r.kind is Auto)
}

/// Whether an action is the one that the phase of a run asks for.
pub open spec fn asked(e: ContextState, r: RunState, facts: SessionFacts, action: RunAction) -> bool {
    match r.phase {
        RunPhase::PendingPublish | RunPhase::InitialPublish | RunPhase::BumpPublish => action == (
        RunAction::PublishPrefix { epoch: e.epoch }),
        RunPhase::Prefire => action is ConsiderPrefire,
        RunPhase::Truncate => action == (RunAction::TruncateSteps { steps_first: r.kind is Overflow }),
        RunPhase::SyncAfterTruncate | RunPhase::SyncAfterCompact => action is SyncWater,
        RunPhase::ReadPressure => action is ReadPressure,
        RunPhase::AwaitPrefire => action is AwaitPrefire,
        RunPhase::CheckMemory => action == (RunAction::CheckMemory {
            already_flushed: e.last_memory_flush_compaction == next_u64(facts.compaction_cycle),
        }),
        RunPhase::FlushMemory => action is FlushMemory,
        RunPhase::PreCheckpoint => action matches RunAction::Checkpoint { reason } && reason@
            == pre_reason(r.kind),
        RunPhase::PostCheckpoint => action matches RunAction::Checkpoint { reason } && reason@
            == post_reason(r.kind),
        RunPhase::Compact => action matches RunAction::Compact {
            reason,
            force_summarize,
            user_hint,
        } && reason@ == compact_reason(r.kind) && force_summarize == r.kind is Manual && opt_text(
            user_hint,
        ) == r.hint,
        RunPhase::Segment => action is KeepSegment,
        RunPhase::ClearPrefire => action is ClearPrefire,
        RunPhase::EnsureSystem => action is EnsureSystemMessage,
        RunPhase::Over => if ends_in_error(r) {
            action matches RunAction::Fail { message } && message@ == r.error
        } else {
            action matches RunAction::Done { compaction, retry } && opt_compaction(compaction)
                == r.result && retry == r.retry
        },
    }
}

/// One operation on the context.
pub struct ContextRun {
    kind: RunKind,
    phase: RunPhase,
    gateway_configured: bool,
    flags: (bool, bool),
    outcome: CompactOutcome,
    retry: bool,
    trace: Vec<Announced>,
    error: String,
    hint: Option<String>,
    result: Option<CompactionResult>,
}

impl View for ContextRun {
    type V = RunState;

    closed spec fn view(&self) -> RunState {
        RunState {
            kind: self.kind,
            phase: self.phase,
            gateway_configured: self.gateway_configured,
            flags: self.flags,
            outcome: self.outcome,
            retry: self.retry,
            trace: self.trace@,
            error: self.error@,
            hint: opt_text(self.hint),
            result: opt_compaction(self.result),
        }
    }
}

/// A run before its first decision.
pub open spec fn fresh(
    kind: RunKind,
    gateway_configured: bool,
    flags: (bool, bool),
    hint: Option<Seq<char>>,
) -> RunState {
    RunState {
        kind,
        phase: RunPhase::Over,
        gateway_configured,
        flags,
        outcome: CompactOutcome::Untried,
        retry: false,
        trace: Seq::empty(),
        error: Seq::empty(),
        hint,
        result: None,
    }
}

impl ContextRun {
    fn fresh(
        kind: RunKind,
        gateway_configured: bool,
        flags: (bool, bool),
        hint: Option<String>,
    ) -> (r: Self)
        ensures
            r@ == fresh(kind, gateway_configured, flags, opt_text(hint)),
    {
        ContextRun {
            kind,
            phase: RunPhase::Over,
            gateway_configured,
            flags,
            outcome: CompactOutcome::Untried,
            retry: false,
            trace: Vec::new(),
            error: String::new(),
            hint,
            result: None,
        }
    }

    /// The commit before a step.
    pub fn commit(
        engine: &mut ContextEngine,
        observation: &ContextObservation,
        gateway_configured: bool,
        facts: SessionFacts,
    ) -> (r: (Self, RunAction))
        ensures
            (final(engine)@, r.0@) == started(
                old(engine)@,
                fresh(
                    RunKind::Auto {
                        should_compact: observation.should_compact,
                        preflight_overflow: observation.preflight_overflow,
                    },
                    gateway_configured,
                    (false, false),
                    None,
                ),
                facts,
            ),
            asked(final(engine)@, r.0@, facts, r.1),
    {
        let kind = RunKind::Auto {
            should_compact: observation.should_compact,
            preflight_overflow: observation.preflight_overflow,
        };
        let mut run = ContextRun::fresh(kind, gateway_configured, (false, false), None);
        if engine.take_pending_publish(facts.message_count) {
            run.phase = RunPhase::PendingPublish;
        } else {
            run.enter_initial(engine, facts);
        }
        let action = run.action(engine, facts);
        (run, action)
    }

    /// A compaction that the user asked for, perhaps with a hint for the summary.
    pub fn compact_forced(
        engine: &ContextEngine,
        user_hint: Option<String>,
        facts: SessionFacts,
    ) -> (r: (Self, RunAction))
        ensures
            (engine@, r.0@) == started(
                engine@,
                fresh(RunKind::Manual, false, (false, false), opt_text(user_hint)),
                facts,
            ),
            asked(engine@, r.0@, facts, r.1),
    {
        let mut run = ContextRun::fresh(RunKind::Manual, false, (false, false), user_hint);
        run.phase = RunPhase::AwaitPrefire;
        let action = run.action(engine, facts);
        (run, action)
    }

    /// The handling of a context that the provider rejected as too large: first
    /// truncation, then a summary, each at most once per step. The tail decorations are
    /// taken from the hooks anew, if there are hooks.
    pub fn handle_overflow(
        engine: &mut ContextEngine,
        hooks: Option<(Vec<String>, Vec<String>)>,
        tried: &OverflowRetryState,
        facts: SessionFacts,
    ) -> (r: (Self, RunAction))
        ensures
            (final(engine)@, r.0@) == started(
                with_tail(old(engine)@, hooks),
                fresh(RunKind::Overflow, false, tried@, None),
                facts,
            ),
            asked(final(engine)@, r.0@, facts, r.1),
    {
        engine.capture_tail_sections(hooks);
        let mut run = ContextRun::fresh(RunKind::Overflow, false, tried.flags(), None);
        if !run.flags.0 {
            run.flags = (true, run.flags.1);
            run.phase = RunPhase::Truncate;
        } else {
            run.after_overflow_truncate();
        }
        let action = run.action(engine, facts);
        (run, action)
    }

    /// Which remedies for an overflow have been tried.
    pub fn overflow_state(&self) -> (r: OverflowRetryState)
        ensures
            r@ == self@.flags,
    {
        let mut state = OverflowRetryState::default();
        state.set_flags(self.flags.0, self.flags.1);
        state
    }

    /// The compaction that the run made, if it made one.
    pub fn compaction(&self) -> (r: Option<CompactionResult>)
        ensures
            opt_compaction(r) == self@.result,
    {
        match &self.result {
            Some(result) => Some(result.copy()),
            None => None,
        }
    }

    /// What the run has announced, in order.
    pub fn trace(&self) -> (r: &Vec<Announced>)
        ensures
            r@ == self@.trace,
    {
        &self.trace
    }

    fn enter_initial(&mut self, engine: &mut ContextEngine, facts: SessionFacts)
        ensures
            (final(engine)@, final(self)@) == enter_initial(old(engine)@, old(self)@, facts),
    {
        self.phase = if engine.take_initial_publish(self.gateway_configured, facts.message_count) {
            RunPhase::InitialPublish
        } else {
            RunPhase::Prefire
        };
    }

    fn after_overflow_truncate(&mut self)
        ensures
            final(self)@ == after_overflow_truncate(old(self)@),
    {
        if self.flags.1 {
            self.phase = RunPhase::Over;
        } else {
            self.flags = (self.flags.0, true);
            self.phase = RunPhase::AwaitPrefire;
        }
    }

    fn bump(&mut self, engine: &mut ContextEngine, facts: SessionFacts)
        ensures
            (final(engine)@, final(self)@) == bumped(old(engine)@, old(self)@, facts),
    {
        engine.bump_epoch(self.kind.bump_reason(), facts.message_count);
        self.phase = RunPhase::BumpPublish;
    }

    fn after_compaction(&mut self, engine: &mut ContextEngine)
        ensures
            (final(engine)@, final(self)@) == after_compaction(old(engine)@, old(self)@),
    {
        let manual = matches!(self.kind, RunKind::Manual);
        let overflow = matches!(self.kind, RunKind::Overflow);
        if manual {
            self.phase = RunPhase::ClearPrefire;
            return ;
        }
        match self.outcome {
            CompactOutcome::Compacted { has_segment } => {
                self.phase = if has_segment {
                    RunPhase::Segment
                } else {
                    RunPhase::ClearPrefire
                };
            },
            CompactOutcome::Failed => {
                engine.set_auto_compact_suppressed(true);
                self.phase = if overflow {
                    RunPhase::Over
                } else {
                    RunPhase::EnsureSystem
                };
            },
            _ => {
                self.phase = RunPhase::EnsureSystem;
                self.retry = overflow;
            },
        }
    }

    fn after_clear(&mut self, engine: &mut ContextEngine, facts: SessionFacts)
        ensures
            (final(engine)@, final(self)@) == after_clear(old(engine)@, old(self)@, facts),
    {
        let manual = matches!(self.kind, RunKind::Manual);
        match self.outcome {
            CompactOutcome::Failed => {
                engine.set_auto_compact_suppressed(true);
                self.phase = RunPhase::Over;
            },
            CompactOutcome::Compacted { has_segment } => {
                engine.set_auto_compact_suppressed(false);
                if manual && has_segment {
                    self.phase = RunPhase::Segment;
                } else {
                    self.bump(engine, facts);
                }
            },
            _ => {
                engine.set_auto_compact_suppressed(false);
                self.phase = RunPhase::EnsureSystem;
            },
        }
    }

    fn action(&self, engine: &ContextEngine, facts: SessionFacts) -> (r: RunAction)
        ensures
            asked(engine@, self@, facts, r),
    {
        match self.phase {
            RunPhase::PendingPublish | RunPhase::InitialPublish | RunPhase::BumpPublish => {
                RunAction::PublishPrefix { epoch: engine.epoch() }
            },
            RunPhase::Prefire => RunAction::ConsiderPrefire,
            RunPhase::Truncate => RunAction::TruncateSteps {
                steps_first: matches!(self.kind, RunKind::Overflow),
            },
            RunPhase::SyncAfterTruncate | RunPhase::SyncAfterCompact => RunAction::SyncWater,
            RunPhase::ReadPressure => RunAction::ReadPressure,
            RunPhase::AwaitPrefire => RunAction::AwaitPrefire,
            RunPhase::CheckMemory => RunAction::CheckMemory {
                already_flushed: engine.memory_already_flushed(facts.compaction_cycle),
            },
            RunPhase::FlushMemory => RunAction::FlushMemory,
            RunPhase::PreCheckpoint => RunAction::Checkpoint { reason: self.kind.pre_reason() },
            RunPhase::PostCheckpoint => RunAction::Checkpoint { reason: self.kind.post_reason() },
            RunPhase::Compact => RunAction::Compact {
                reason: self.kind.compact_reason(),
                force_summarize: matches!(self.kind, RunKind::Manual),
                user_hint: copy_opt(&self.hint),
            },
            RunPhase::Segment => RunAction::KeepSegment,
            RunPhase::ClearPrefire => RunAction::ClearPrefire,
            RunPhase::EnsureSystem => RunAction::EnsureSystemMessage,
            RunPhase::Over => {
                let auto = matches!(self.kind, RunKind::Auto { .. });
                let failed = matches!(self.outcome, CompactOutcome::Failed);
                if failed && !auto {
                    RunAction::Fail { message: self.error.clone() }
                } else {
                    RunAction::Done { compaction: self.compaction(), retry: self.retry }
                }
            },
        }
    }

    /// Takes in what happened and says what to do next. `facts` tells what the
    /// session looks like now.
    pub fn advance(&mut self, engine: &mut ContextEngine, event: RunEvent, facts: SessionFacts) -> (r:
        RunAction)
        requires
            awaits(old(self)@.phase, event),
        ensures
            (final(engine)@, final(self)@) == after(old(engine)@, old(self)@, event, facts),
            match event {
                RunEvent::Failed { message } => r matches RunAction::Fail { message: told }
                    && told@ == message@,
                _ => asked(final(engine)@, final(self)@, facts, r),
            },
    {
        let overflow = matches!(self.kind, RunKind::Overflow);
        match event {
            RunEvent::Published => {
                self.trace.push(Announced::PublishedPrefix { epoch: engine.epoch() });
                match self.phase {
                    RunPhase::PendingPublish => {
                        self.enter_initial(engine, facts);
                    },
                    RunPhase::InitialPublish => {
                        self.phase = RunPhase::Prefire;
                    },
                    _ => {
                        self.phase = RunPhase::SyncAfterCompact;
                    },
                }
            },
            RunEvent::PrefireConsidered { started } => {
                if started {
                    engine.note_prefire_started();
                }
                self.phase = match self.kind {
                    RunKind::Auto { should_compact: true, .. } => RunPhase::Truncate,
                    _ => RunPhase::Over,
                };
            },
            RunEvent::Truncated { applied } => {
                if overflow {
                    if applied {
                        self.phase = RunPhase::EnsureSystem;
                        self.retry = true;
                    } else {
                        self.after_overflow_truncate();
                    }
                } else if applied {
                    self.phase = RunPhase::SyncAfterTruncate;
                } else {
                    self.phase = RunPhase::AwaitPrefire;
                }
            },
            RunEvent::Estimated { tokens } => {
                engine.sync_water_from_estimate(tokens);
                self.phase = match self.phase {
                    RunPhase::SyncAfterTruncate => RunPhase::ReadPressure,
                    _ => RunPhase::PostCheckpoint,
                };
            },
            RunEvent::PressureRead { should_compact, exceeds_window } => {
                self.phase = if !should_compact && !exceeds_window {
                    RunPhase::Over
                } else {
                    RunPhase::AwaitPrefire
                };
            },
            RunEvent::PrefireAwaited { cached } => {
                engine.note_prefire_ended(cached);
                self.phase = RunPhase::CheckMemory;
            },
            RunEvent::MemoryChecked { should_flush, blank } => {
                self.phase = if should_flush && !blank {
                    RunPhase::FlushMemory
                } else {
                    RunPhase::PreCheckpoint
                };
            },
            RunEvent::MemoryFlushed { accepted } => {
                if accepted {
                    engine.note_memory_flush(facts.compaction_cycle);
                }
                self.trace.push(Announced::FlushedMemory);
                self.phase = RunPhase::PreCheckpoint;
            },
            RunEvent::Checkpointed => {
                match self.phase {
                    RunPhase::PreCheckpoint => {
                        self.trace.push(Announced::PreCheckpoint);
                        self.phase = RunPhase::Compact;
                    },
                    _ => {
                        self.trace.push(Announced::PostCheckpoint);
                        self.retry = overflow;
                        self.phase = RunPhase::EnsureSystem;
                    },
                }
            },
            RunEvent::Compacted { result } => {
                self.outcome = CompactOutcome::Compacted { has_segment: result.has_segment };
                self.result = Some(result);
                self.after_compaction(engine);
            },
            RunEvent::NothingCompacted => {
                self.outcome = CompactOutcome::Nothing;
                self.after_compaction(engine);
            },
            RunEvent::CompactionFailed { message } => {
                self.outcome = CompactOutcome::Failed;
                self.error = message;
                self.after_compaction(engine);
            },
            RunEvent::SegmentKept => {
                self.trace.push(Announced::KeptSegment);
                match self.kind {
                    RunKind::Manual => {
                        self.bump(engine, facts);
                    },
                    _ => {
                        self.phase = RunPhase::ClearPrefire;
                    },
                }
            },
            RunEvent::PrefireCleared => {
                engine.clear_prefire();
                self.after_clear(engine, facts);
            },
            RunEvent::SystemEnsured => {
                self.phase = RunPhase::Over;
            },
            RunEvent::Failed { message } => {
                self.phase = RunPhase::Over;
                return RunAction::Fail { message };
            },
        }
        self.action(engine, facts)
    }
}

/// The run and the engine after a series of events.
pub open spec fn after_all(
    e: ContextState,
    r: RunState,
    events: Seq<(RunEvent, SessionFacts)>,
) -> (ContextState, RunState)
    decreases events.len(),
{
    if events.len() == 0 {
        (e, r)
    } else {
        let (e1, r1) = after_all(e, r, events.drop_last());
        after(e1, r1, events.last().0, events.last().1)
    }
}

/// Whether each event of a series is one that the run waits for, and none of them
/// is the failure of an announcement.
pub open spec fn runs(e: ContextState, r: RunState, events: Seq<(RunEvent, SessionFacts)>) -> bool
    decreases events.len(),
{
    events.len() > 0 ==> {
        &&& runs(e, r, events.drop_last())
        &&& awaits(after_all(e, r, events.drop_last()).1.phase, events.last().0)
        &&& !(events.last().0 is Failed)
    }
}

/// Whether a phase comes after a new epoch was started.
spec fn past_bump(phase: RunPhase) -> bool {
    phase is BumpPublish || phase is SyncAfterCompact || phase is PostCheckpoint
}

/// Whether a phase comes before a compaction is tried.
spec fn before_compaction(phase: RunPhase) -> bool {
    match phase {
        RunPhase::PendingPublish | RunPhase::InitialPublish | RunPhase::Prefire
        | RunPhase::Truncate | RunPhase::SyncAfterTruncate | RunPhase::ReadPressure
        | RunPhase::AwaitPrefire | RunPhase::CheckMemory | RunPhase::FlushMemory
        | RunPhase::PreCheckpoint | RunPhase::Compact => true,
        _ => false,
    }
}

/// What holds at every point of a run that began in epoch `epoch` with the given
/// overflow flags.
pub closed spec fn consistent(epoch: u64, flags: (bool, bool), e: ContextState, r: RunState) -> bool {
    let n = r.trace.len() as int;
    &&& r.result is Some <==> r.outcome is Compacted
    &&& before_compaction(r.phase) ==> r.outcome is Untried
    &&& past_bump(r.phase) ==> r.outcome is Compacted
    &&& r.phase is Segment ==> r.outcome is Compacted
    &&& r.phase is ClearPrefire ==> !(r.outcome is Untried)
    &&& r.phase is ClearPrefire && !(r.kind is Manual) ==> r.outcome is Compacted
    &&& e.epoch == (if r.outcome is Compacted && !(r.phase is Segment || r.phase is ClearPrefire) {
        next_u64(epoch)
    } else {
        epoch
    })
    &&& (r.phase is Compact || !(r.outcome is Untried)) ==> r.trace.contains(
        Announced::PreCheckpoint,
    )
    &&& r.phase is SyncAfterCompact || r.phase is PostCheckpoint ==> n > 0 && r.trace[n - 1] == (
    Announced::PublishedPrefix { epoch: e.epoch }) && r.trace.drop_last().contains(
        Announced::PreCheckpoint,
    )
    &&& (r.phase is EnsureSystem || r.phase is Over) && r.outcome is Compacted ==> {
        &&& n > 1
        &&& r.trace[n - 1] == Announced::PostCheckpoint
        &&& r.trace[n - 2] == (Announced::PublishedPrefix { epoch: e.epoch })
        &&& r.trace.take(n - 2).contains(Announced::PreCheckpoint)
        &&& !e.water.auto_compact_suppressed
    }
    &&& past_bump(r.phase) || (r.phase is Segment && r.kind is Manual)
        ==> !e.water.auto_compact_suppressed
    &&& (r.phase is EnsureSystem || r.phase is Over) && r.outcome is Failed
        ==> e.water.auto_compact_suppressed
    &&& past_bump(r.phase) || (r.phase is Segment && r.kind is Manual) ==> e.prefire is Idle
    &&& (r.phase is EnsureSystem || r.phase is Over) && (r.outcome is Compacted || (r.kind is Manual
        && !(r.outcome is Untried))) ==> e.prefire is Idle
    &&& flags.0 ==> r.flags.0
    &&& flags.1 ==> r.flags.1
    &&& r.kind is Overflow && r.flags == flags ==> flags == (true, true) && r.phase is Over
        && !r.retry && r.outcome is Untried
    &&& r.retry ==> r.kind is Overflow
    &&& !(r.kind is Overflow) ==> r.flags == flags
}

/// A run starts consistent.
pub proof fn lemma_started(
    e: ContextState,
    kind: RunKind,
    gateway_configured: bool,
    flags: (bool, bool),
    hint: Option<Seq<char>>,
    facts: SessionFacts,
)
    ensures
        ({
            let (e0, r0) = started(e, fresh(kind, gateway_configured, flags, hint), facts);
            consistent(e.epoch, flags, e0, r0)
        }),
{
}

/// A run that is over has started a new epoch exactly if it compacted the context, and
/// then tells of its compaction.
pub proof fn lemma_over(epoch: u64, flags: (bool, bool), e: ContextState, r: RunState)
    requires
        consistent(epoch, flags, e, r),
        r.phase is Over,
    ensures
        r.result is Some <==> r.outcome is Compacted,
        e.epoch == (if r.outcome is Compacted {
            next_u64(epoch)
        } else {
            epoch
        }),
{
}

/// A run stays consistent.
pub proof fn lemma_step(
    epoch: u64,
    flags: (bool, bool),
    e: ContextState,
    r: RunState,
    event: RunEvent,
    facts: SessionFacts,
)
    requires
        consistent(epoch, flags, e, r),
        awaits(r.phase, event),
        !(event is Failed),
    ensures
        consistent(
            epoch,
            flags,
            after(e, r, event, facts).0,
            after(e, r, event, facts).1,
        ),
{
    let (e1, r1) = after(e, r, event, facts);
    let n = r.trace.len() as int;
    if r1.trace != r.trace {
        assert(r1.trace.len() == n + 1);
        assert(r1.trace.drop_last() == r.trace);
        if r.trace.contains(Announced::PreCheckpoint) {
            let k = choose|k: int| 0 <= k < n && r.trace[k] == Announced::PreCheckpoint;
            assert(r1.trace[k] == Announced::PreCheckpoint);
        }
        if event is Checkpointed && r.phase is PreCheckpoint {
            assert(r1.trace[n] == Announced::PreCheckpoint);
        }
        if event is Checkpointed && r.phase is PostCheckpoint {
            assert(r1.trace.take(n - 1) == r.trace.drop_last());
        }
    }
}

proof fn lemma_run(
    e: ContextState,
    r: RunState,
    events: Seq<(RunEvent, SessionFacts)>,
    epoch: u64,
    flags: (bool, bool),
)
    requires
        consistent(epoch, flags, e, r),
        runs(e, r, events),
    ensures
        consistent(epoch, flags, after_all(e, r, events).0, after_all(e, r, events).1),
    decreases events.len(),
{
    if events.len() > 0 {
        lemma_run(e, r, events.drop_last(), epoch, flags);
        let (e1, r1) = after_all(e, r, events.drop_last());
        lemma_step(epoch, flags, e1, r1, events.last().0, events.last().1);
    }
}

/// A run starts one new epoch if it compacted the context, and none otherwise.
pub proof fn epoch_moves_with_compaction(
    e: ContextState,
    kind: RunKind,
    gateway_configured: bool,
    flags: (bool, bool),
    hint: Option<Seq<char>>,
    facts: SessionFacts,
    events: Seq<(RunEvent, SessionFacts)>,
)
    requires
        ({
            let (e0, r0) = started(e, fresh(kind, gateway_configured, flags, hint), facts);
            runs(e0, r0, events) && after_all(e0, r0, events).1.phase is Over
        }),
    ensures
        ({
            let (e0, r0) = started(e, fresh(kind, gateway_configured, flags, hint), facts);
            let (e1, r1) = after_all(e0, r0, events);
            e1.epoch == (if r1.outcome is Compacted {
                next_u64(e.epoch)
            } else {
                e.epoch
            })
        }),
{
    let (e0, r0) = started(e, fresh(kind, gateway_configured, flags, hint), facts);
    lemma_run(e0, r0, events, e.epoch, flags);
}

/// A compaction is bracketed: a run that compacted has recorded a checkpoint
/// before it, published the prefix of the new epoch, and ended with a checkpoint.
pub proof fn compaction_is_bracketed(
    e: ContextState,
    kind: RunKind,
    gateway_configured: bool,
    flags: (bool, bool),
    hint: Option<Seq<char>>,
    facts: SessionFacts,
    events: Seq<(RunEvent, SessionFacts)>,
)
    requires
        ({
            let (e0, r0) = started(e, fresh(kind, gateway_configured, flags, hint), facts);
            let (e1, r1) = after_all(e0, r0, events);
            runs(e0, r0, events) && r1.phase is Over && r1.outcome is Compacted
        }),
    ensures
        ({
            let (e0, r0) = started(e, fresh(kind, gateway_configured, flags, hint), facts);
            let (e1, r1) = after_all(e0, r0, events);
            let n = r1.trace.len() as int;
            &&& n > 1
            &&& r1.trace[n - 1] == Announced::PostCheckpoint
            &&& r1.trace[n - 2] == (Announced::PublishedPrefix { epoch: e1.epoch })
            &&& r1.trace.take(n - 2).contains(Announced::PreCheckpoint)
        }),
{
    let (e0, r0) = started(e, fresh(kind, gateway_configured, flags, hint), facts);
    lemma_run(e0, r0, events, e.epoch, flags);
}

/// A failed compaction leaves automatic compaction switched off, and a successful
/// one leaves it switched on.
pub proof fn suppression_follows_the_outcome(
    e: ContextState,
    kind: RunKind,
    gateway_configured: bool,
    flags: (bool, bool),
    hint: Option<Seq<char>>,
    facts: SessionFacts,
    events: Seq<(RunEvent, SessionFacts)>,
)
    requires
        ({
            let (e0, r0) = started(e, fresh(kind, gateway_configured, flags, hint), facts);
            runs(e0, r0, events) && after_all(e0, r0, events).1.phase is Over
        }),
    ensures
        ({
            let (e0, r0) = started(e, fresh(kind, gateway_configured, flags, hint), facts);
            let (e1, r1) = after_all(e0, r0, events);
            &&& r1.outcome is Failed ==> e1.water.auto_compact_suppressed
            &&& r1.outcome is Compacted ==> !e1.water.auto_compact_suppressed
        }),
{
    let (e0, r0) = started(e, fresh(kind, gateway_configured, flags, hint), facts);
    lemma_run(e0, r0, events, e.epoch, flags);
}

/// The note of an early summary pass does not outlive the messages that it is about:
/// a run that compacted leaves none, and neither does one that the user asked for.
pub proof fn compaction_drops_the_early_summary(
    e: ContextState,
    kind: RunKind,
    gateway_configured: bool,
    flags: (bool, bool),
    hint: Option<Seq<char>>,
    facts: SessionFacts,
    events: Seq<(RunEvent, SessionFacts)>,
)
    requires
        ({
            let (e0, r0) = started(e, fresh(kind, gateway_configured, flags, hint), facts);
            let (e1, r1) = after_all(e0, r0, events);
            &&& runs(e0, r0, events)
            &&& r1.phase is Over
            &&& r1.outcome is Compacted || (kind is Manual && !(r1.outcome is Untried))
        }),
    ensures
        ({
            let (e0, r0) = started(e, fresh(kind, gateway_configured, flags, hint), facts);
            after_all(e0, r0, events).0.prefire is Idle
        }),
{
    let (e0, r0) = started(e, fresh(kind, gateway_configured, flags, hint), facts);
    lemma_run(e0, r0, events, e.epoch, flags);
    lemma_kind_stays(e0, r0, events);
}

proof fn lemma_kind_kept(e: ContextState, r: RunState, event: RunEvent, facts: SessionFacts)
    ensures
        after(e, r, event, facts).1.kind == r.kind,
        after(e, r, event, facts).1.hint == r.hint,
{
}

proof fn lemma_kind_stays(e: ContextState, r: RunState, events: Seq<(RunEvent, SessionFacts)>)
    ensures
        after_all(e, r, events).1.kind == r.kind,
        after_all(e, r, events).1.hint == r.hint,
    decreases events.len(),
{
    if events.len() > 0 {
        lemma_kind_stays(e, r, events.drop_last());
        let (e1, r1) = after_all(e, r, events.drop_last());
        lemma_kind_kept(e1, r1, events.last().0, events.last().1);
    }
}

/// The hint of the user reaches the compaction unchanged, whatever happened before.
pub proof fn hint_reaches_the_compaction(
    e: ContextState,
    hint: Option<Seq<char>>,
    facts: SessionFacts,
    events: Seq<(RunEvent, SessionFacts)>,
    now: SessionFacts,
    action: RunAction,
)
    requires
        ({
            let (e0, r0) = started(e, fresh(RunKind::Manual, false, (false, false), hint), facts);
            let (e1, r1) = after_all(e0, r0, events);
            runs(e0, r0, events) && asked(e1, r1, now, action)
        }),
    ensures
        action matches RunAction::Compact { user_hint, .. } ==> opt_text(user_hint) == hint,
{
    let (e0, r0) = started(e, fresh(RunKind::Manual, false, (false, false), hint), facts);
    lemma_kind_stays(e0, r0, events);
}

/// An overflow is retried only with a remedy that had not been tried, so a step is
/// retried at most twice; with both remedies tried, nothing is done.
pub proof fn overflow_retries_are_bounded(
    e: ContextState,
    flags: (bool, bool),
    facts: SessionFacts,
    events: Seq<(RunEvent, SessionFacts)>,
)
    requires
        ({
            let (e0, r0) = started(e, fresh(RunKind::Overflow, false, flags, None), facts);
            runs(e0, r0, events)
        }),
    ensures
        ({
            let (e0, r0) = started(e, fresh(RunKind::Overflow, false, flags, None), facts);
            let (e1, r1) = after_all(e0, r0, events);
            &&& r1.retry ==> r1.flags != flags
            &&& flags.0 ==> r1.flags.0
            &&& flags.1 ==> r1.flags.1
            &&& flags == (true, true) ==> r0.phase is Over && !r1.retry && e1 == e
        }),
{
    let (e0, r0) = started(e, fresh(RunKind::Overflow, false, flags, None), facts);
    lemma_run(e0, r0, events, e.epoch, flags);
    if flags == (true, true) && events.len() > 0 {
        lemma_over_is_final(e0, r0, events);
    }
}

proof fn lemma_over_is_final(e: ContextState, r: RunState, events: Seq<(RunEvent, SessionFacts)>)
    requires
        r.phase is Over,
        runs(e, r, events),
    ensures
        events.len() == 0,
    decreases events.len(),
{
    if events.len() > 0 {
        lemma_over_is_final(e, r, events.drop_last());
    }
}

/// After a truncation an automatic run ends without compaction exactly when the context is
/// neither due for compaction nor larger than the window; otherwise it goes on to compact.
pub proof fn pressure_decides_after_truncation(
    e: ContextState,
    r: RunState,
    should_compact: bool,
    exceeds_window: bool,
    facts: SessionFacts,
    action: RunAction,
)
    requires
        r.phase is ReadPressure,
        r.kind is Auto,
        asked(
            after(e, r, RunEvent::PressureRead { should_compact, exceeds_window }, facts).0,
            after(e, r, RunEvent::PressureRead { should_compact, exceeds_window }, facts).1,
            facts,
            action,
        ),
    ensures
        action is Done <==> !should_compact && !exceeds_window,
        should_compact || exceeds_window ==> action is AwaitPrefire,
        after(e, r, RunEvent::PressureRead { should_compact, exceeds_window }, facts).0 == e,
{
}

/// Whether a series of events holds a reading after which the pressure is gone.
pub open spec fn relieved(events: Seq<(RunEvent, SessionFacts)>) -> bool {
    exists|i: int|
        0 <= i < events.len() && (#[trigger] events[i]).0 == (RunEvent::PressureRead {
            should_compact: false,
            exceeds_window: false,
        })
}

/// Whether a series of events holds an effective truncation.
pub open spec fn truncated(events: Seq<(RunEvent, SessionFacts)>) -> bool {
    exists|i: int|
        0 <= i < events.len() && (#[trigger] events[i]).0 == (RunEvent::Truncated { applied: true })
}

spec fn way_of_auto(e: ContextState, r: RunState, events: Seq<(RunEvent, SessionFacts)>) -> bool {
    let (e1, r1) = after_all(e, r, events);
    &&& r1.kind == r.kind
    &&& relieved(events) <==> r1.phase is Over && r1.outcome is Untried
    &&& r1.phase is SyncAfterTruncate || r1.phase is ReadPressure ==> truncated(events)
    &&& relieved(events) ==> truncated(events)
    &&& before_compaction(r1.phase) ==> r1.outcome is Untried
    &&& !before_compaction(r1.phase) && !(r1.phase is Over) ==> !(r1.outcome is Untried)
}

proof fn lemma_way_of_auto(e: ContextState, r: RunState, events: Seq<(RunEvent, SessionFacts)>)
    requires
        r.kind matches RunKind::Auto { should_compact, .. } && should_compact,
        r.outcome is Untried,
        r.phase is PendingPublish || r.phase is InitialPublish || r.phase is Prefire,
        runs(e, r, events),
    ensures
        way_of_auto(e, r, events),
    decreases events.len(),
{
    if events.len() > 0 {
        let rest = events.drop_last();
        lemma_way_of_auto(e, r, rest);
        let (e0, r0) = after_all(e, r, rest);
        let (event, facts) = events.last();
        let n = rest.len() as int;
        assert forall|i: int| 0 <= i < n implies events[i] == #[trigger] rest[i] by {}
        assert(events[n].0 == event);
        if relieved(rest) {
            assert(r0.phase is Over);
        }
        if truncated(rest) {
            let i = choose|i: int|
                0 <= i < rest.len() && (#[trigger] rest[i]).0 == (RunEvent::Truncated {
                    applied: true,
                });
            assert(events[i].0 == (RunEvent::Truncated { applied: true }));
        }
        if relieved(events) {
            let i = choose|i: int|
                0 <= i < events.len() && (#[trigger] events[i]).0 == (RunEvent::PressureRead {
                    should_compact: false,
                    exceeds_window: false,
                });
            if i < n {
                assert(rest[i] == events[i]);
            }
        }
        lemma_kind_kept(e0, r0, event, facts);
    }
}

/// An automatic run that found the context due for compaction tries to compact it, unless a
/// truncation took the pressure away: when it is over, and no announcement failed, it has
/// tried exactly if no reading said that the pressure was gone, and only a truncation can
/// bring such a reading about.
pub proof fn due_contexts_are_compacted(
    e: ContextState,
    preflight_overflow: bool,
    gateway_configured: bool,
    facts: SessionFacts,
    events: Seq<(RunEvent, SessionFacts)>,
)
    requires
        ({
            let kind = RunKind::Auto { should_compact: true, preflight_overflow };
            let (e0, r0) = started(e, fresh(kind, gateway_configured, (false, false), None), facts);
            runs(e0, r0, events) && after_all(e0, r0, events).1.phase is Over
        }),
    ensures
        ({
            let kind = RunKind::Auto { should_compact: true, preflight_overflow };
            let (e0, r0) = started(e, fresh(kind, gateway_configured, (false, false), None), facts);
            let r1 = after_all(e0, r0, events).1;
            &&& r1.outcome is Untried <==> relieved(events)
            &&& relieved(events) ==> truncated(events)
        }),
{
    let kind = RunKind::Auto { should_compact: true, preflight_overflow };
    let (e0, r0) = started(e, fresh(kind, gateway_configured, (false, false), None), facts);
    lemma_way_of_auto(e0, r0, events);
}

/// A context that is not due is left as it is: its run announces at most prefixes, starts
/// no new epoch and is over once an early summary pass was considered.
pub proof fn light_contexts_are_not_compacted(
    e: ContextState,
    r: RunState,
    preflight_overflow: bool,
    early: bool,
    facts: SessionFacts,
    action: RunAction,
)
    requires
        r.kind == (RunKind::Auto { should_compact: false, preflight_overflow }),
        r.phase is Prefire,
        r.outcome is Untried,
        asked(
            after(e, r, RunEvent::PrefireConsidered { started: early }, facts).0,
            after(e, r, RunEvent::PrefireConsidered { started: early }, facts).1,
            facts,
            action,
        ),
    ensures
        action matches RunAction::Done { compaction, retry } && opt_compaction(compaction) == r.result
            && retry == r.retry,
        after(e, r, RunEvent::PrefireConsidered { started: early }, facts).0.epoch == e.epoch,
        after(e, r, RunEvent::PrefireConsidered { started: early }, facts).0.water == e.water,
        early ==> after(e, r, RunEvent::PrefireConsidered { started: early }, facts).0.prefire
            is InFlight,
        !early ==> after(e, r, RunEvent::PrefireConsidered { started: early }, facts).0 == e,
{
}

/// A due context is first shortened: with an early summary pass considered, tool output is
/// truncated, and only where that did nothing is the compaction gone on with at once.
pub proof fn due_contexts_are_truncated_first(
    e: ContextState,
    r: RunState,
    preflight_overflow: bool,
    early: bool,
    applied: bool,
    facts: SessionFacts,
    first: RunAction,
    second: RunAction,
)
    requires
        r.kind == (RunKind::Auto { should_compact: true, preflight_overflow }),
        r.phase is Prefire,
        ({
            let (e1, r1) = after(e, r, RunEvent::PrefireConsidered { started: early }, facts);
            let (e2, r2) = after(e1, r1, RunEvent::Truncated { applied }, facts);
            asked(e1, r1, facts, first) && asked(e2, r2, facts, second)
        }),
    ensures
        first == (RunAction::TruncateSteps { steps_first: false }),
        applied ==> second is SyncWater,
        !applied ==> second is AwaitPrefire,
{
}

/// An estimate becomes the known size of the context, also as the last prompt's size; after
/// a truncation the pressure is read from it, after a compaction the closing checkpoint is
/// made.
pub proof fn estimates_become_the_size(
    e: ContextState,
    r: RunState,
    tokens: u32,
    facts: SessionFacts,
    action: RunAction,
)
    requires
        r.phase is SyncAfterTruncate || r.phase is SyncAfterCompact,
        ({
            let (e1, r1) = after(e, r, RunEvent::Estimated { tokens }, facts);
            asked(e1, r1, facts, action)
        }),
    ensures
        ({
            let e1 = after(e, r, RunEvent::Estimated { tokens }, facts).0;
            &&& e1.water.last_estimate_tokens == Some(tokens)
            &&& e1.water.last_prompt_tokens == Some(tokens)
            &&& e1.water.context_window_tokens == e.water.context_window_tokens
            &&& e1.water.auto_compact_suppressed == e.water.auto_compact_suppressed
            &&& e1.epoch == e.epoch
        }),
        r.phase is SyncAfterTruncate ==> action is ReadPressure,
        r.phase is SyncAfterCompact ==> action is Checkpoint,
{
}

/// A prefix that is due is published first, and the first prefix of a session once, where a
/// gateway is there to publish to; otherwise a run before a step starts with the early
/// summary pass.
pub proof fn due_prefixes_are_published_first(
    e: ContextState,
    should_compact: bool,
    preflight_overflow: bool,
    gateway_configured: bool,
    facts: SessionFacts,
    action: RunAction,
)
    requires
        ({
            let kind = RunKind::Auto { should_compact, preflight_overflow };
            let (e0, r0) = started(e, fresh(kind, gateway_configured, (false, false), None), facts);
            asked(e0, r0, facts, action)
        }),
    ensures
        ({
            let kind = RunKind::Auto { should_compact, preflight_overflow };
            let e0 = started(e, fresh(kind, gateway_configured, (false, false), None), facts).0;
            let due = e.pending_publish || (gateway_configured && !e.initial_publish_done);
            &&& due ==> action == (RunAction::PublishPrefix { epoch: e.epoch })
                && e0.gateway_prefix_len == facts.message_count
            &&& !due ==> action is ConsiderPrefire && e0 == e
            &&& !e0.pending_publish
            &&& e0.epoch == e.epoch
            &&& e0.initial_publish_done == (e.initial_publish_done || (gateway_configured
                && !e.pending_publish))
        }),
{
}

/// After a pending prefix was published the first one is looked at, and after that, or
/// where there is nothing to publish, the early summary pass.
pub proof fn publishing_leads_to_the_early_summary(
    e: ContextState,
    r: RunState,
    facts: SessionFacts,
    action: RunAction,
)
    requires
        r.phase is PendingPublish || r.phase is InitialPublish,
        r.phase is InitialPublish ==> e.initial_publish_done,
        ({
            let (e1, r1) = after(e, r, RunEvent::Published, facts);
            asked(e1, r1, facts, action)
        }),
    ensures
        r.phase is PendingPublish && r.gateway_configured && !e.initial_publish_done ==> action == (
        RunAction::PublishPrefix { epoch: e.epoch }),
        r.phase is InitialPublish || !r.gateway_configured || e.initial_publish_done
            ==> action is ConsiderPrefire,
        after(e, r, RunEvent::Published, facts).1.trace == r.trace.push(
            Announced::PublishedPrefix { epoch: e.epoch },
        ),
{
}

/// Memory is flushed exactly where it is due and there is something to flush, at most once
/// in a compaction cycle as the store is told, and an accepted flush is remembered for its
/// cycle.
pub proof fn memory_is_flushed_once_a_cycle(
    e: ContextState,
    r: RunState,
    should_flush: bool,
    blank: bool,
    accepted: bool,
    facts: SessionFacts,
    check: RunAction,
    flush: RunAction,
)
    requires
        r.phase is CheckMemory,
        asked(e, r, facts, check),
        ({
            let (e1, r1) = after(e, r, RunEvent::MemoryChecked { should_flush, blank }, facts);
            asked(e1, r1, facts, flush)
        }),
    ensures
        check matches RunAction::CheckMemory { already_flushed } && (facts.compaction_cycle < u64::MAX
            ==> (already_flushed <==> e.last_memory_flush_compaction == facts.compaction_cycle + 1)),
        flush is FlushMemory <==> should_flush && !blank,
        !(should_flush && !blank) ==> flush is Checkpoint,
        ({
            let (e1, r1) = after(e, r, RunEvent::MemoryChecked { should_flush, blank }, facts);
            let (e2, r2) = after(e1, r1, RunEvent::MemoryFlushed { accepted }, facts);
            &&& e1 == e
            &&& accepted && facts.compaction_cycle < u64::MAX ==> e2.last_memory_flush_compaction
                == facts.compaction_cycle + 1
            &&& !accepted ==> e2 == e
            &&& r2.phase is PreCheckpoint
        }),
{
}

/// What a run asks for says why: a compaction, its checkpoints and the new epoch are named
/// after what brought the run about.
pub proof fn runs_name_their_reasons(
    e: ContextState,
    r: RunState,
    facts: SessionFacts,
    action: RunAction,
)
    requires
        asked(e, r, facts, action),
    ensures
        r.phase is Compact ==> (action matches RunAction::Compact { reason, force_summarize, .. } && (
        r.kind is Manual ==> reason@ == "manual"@ && force_summarize) && (r.kind is Overflow
            ==> reason@ == "context_overflow"@ && !force_summarize) && (
        r.kind matches RunKind::Auto { preflight_overflow, .. } ==> !force_summarize && reason@ == (
        if preflight_overflow {
            "preflight_overflow"@
        } else {
            "token_threshold"@
        }))),
        r.phase is PreCheckpoint ==> (action matches RunAction::Checkpoint { reason } && (
        r.kind is Auto ==> reason@ == "pre_auto_compact"@) && (r.kind is Manual ==> reason@
            == "pre_manual_compact"@) && (r.kind is Overflow ==> reason@
            == "pre_overflow_compact"@)),
        r.phase is PostCheckpoint ==> (action matches RunAction::Checkpoint { reason } && (
        r.kind is Auto ==> reason@ == "post_auto_compact"@) && (r.kind is Manual ==> reason@
            == "post_manual_compact"@) && (r.kind is Overflow ==> reason@
            == "post_overflow_compact"@)),
        bumped(e, r, facts).0.last_epoch_bump_reason == Some(
            match r.kind {
                RunKind::Auto { .. } => "compaction"@,
                RunKind::Manual => "manual_compaction"@,
                RunKind::Overflow => "overflow_compaction"@,
            },
        ),
        bumped(e, r, facts).0.gateway_prefix_len == facts.message_count,
{
}

/// A compaction that was made is followed by its segment where there is one, by dropping
/// the early summary, the new epoch, a fresh estimate and the closing checkpoint; a
/// compaction that the user asked for drops the early summary before its segment is kept.
pub proof fn compactions_are_followed_up(
    e: ContextState,
    r: RunState,
    result: CompactionResult,
    facts: SessionFacts,
)
    requires
        r.phase is Compact,
    ensures
        ({
            let (e1, r1) = after(e, r, RunEvent::Compacted { result }, facts);
            &&& e1 == e
            &&& r1.result == Some(result@)
            &&& r.kind is Manual ==> r1.phase is ClearPrefire
            &&& !(r.kind is Manual) && result.has_segment ==> r1.phase is Segment
            &&& !(r.kind is Manual) && !result.has_segment ==> r1.phase is ClearPrefire
        }),
        ({
            let (e1, r1) = after(e, r, RunEvent::Compacted { result }, facts);
            let cleared = after(e1, r1, RunEvent::PrefireCleared, facts);
            r1.phase is ClearPrefire ==> {
                &&& cleared.0.prefire is Idle
                &&& !cleared.0.water.auto_compact_suppressed
                &&& r.kind is Manual && result.has_segment ==> cleared.1.phase is Segment
                    && cleared.0.epoch == e.epoch
                &&& !(r.kind is Manual && result.has_segment) ==> cleared.1.phase is BumpPublish && (
                e.epoch < u64::MAX ==> cleared.0.epoch == e.epoch + 1)
            }
        }),
{
}

/// A kept segment is announced, and the run goes on where it left off: with the new epoch
/// where the user asked for the compaction, and else with dropping the early summary.
pub proof fn kept_segments_are_announced(e: ContextState, r: RunState, facts: SessionFacts)
    requires
        r.phase is Segment,
    ensures
        ({
            let (e1, r1) = after(e, r, RunEvent::SegmentKept, facts);
            &&& r1.trace == r.trace.push(Announced::KeptSegment)
            &&& r.kind is Manual ==> r1.phase is BumpPublish && (e.epoch < u64::MAX ==> e1.epoch
                == e.epoch + 1)
            &&& !(r.kind is Manual) ==> r1.phase is ClearPrefire && e1 == e
        }),
{
}

/// A failed compaction switches automatic compaction off. A run before a step then goes on
/// without it; the others fail with its message.
pub proof fn failed_compactions_are_told(
    e: ContextState,
    r: RunState,
    message: String,
    facts: SessionFacts,
    action: RunAction,
)
    requires
        r.phase is Compact,
        ({
            let (e1, r1) = after(e, r, RunEvent::CompactionFailed { message }, facts);
            let (e2, r2) = if r.kind is Manual {
                after(e1, r1, RunEvent::PrefireCleared, facts)
            } else {
                (e1, r1)
            };
            asked(e2, r2, facts, action)
        }),
    ensures
        ({
            let (e1, r1) = after(e, r, RunEvent::CompactionFailed { message }, facts);
            let (e2, r2) = if r.kind is Manual {
                after(e1, r1, RunEvent::PrefireCleared, facts)
            } else {
                (e1, r1)
            };
            &&& e2.water.auto_compact_suppressed
            &&& e2.epoch == e.epoch
        }),
        r.kind is Auto ==> action is EnsureSystemMessage,
        !(r.kind is Auto) ==> (action matches RunAction::Fail { message: told } && told@ == message@),
{
}

/// An overflow is met by truncation first, which is enough where it shortened something:
/// the step is then tried again. Otherwise, or where truncation was tried before, the
/// context is summarized, once; where both were tried the step is given up.
pub proof fn overflows_are_truncated_then_summarized(
    e: ContextState,
    flags: (bool, bool),
    applied: bool,
    facts: SessionFacts,
    first: RunAction,
    second: RunAction,
)
    requires
        ({
            let (e0, r0) = started(e, fresh(RunKind::Overflow, false, flags, None), facts);
            let (e1, r1) = after(e0, r0, RunEvent::Truncated { applied }, facts);
            asked(e0, r0, facts, first) && asked(e1, r1, facts, second)
        }),
    ensures
        !flags.0 ==> first == (RunAction::TruncateSteps { steps_first: true }),
        !flags.0 && applied ==> second is EnsureSystemMessage && after(
            e,
            started(e, fresh(RunKind::Overflow, false, flags, None), facts).1,
            RunEvent::Truncated { applied },
            facts,
        ).1.retry,
        !flags.0 && !applied && !flags.1 ==> second is AwaitPrefire,
        !flags.0 && !applied && flags.1 ==> (second matches RunAction::Done { retry, .. } && !retry),
        flags.0 && !flags.1 ==> first is AwaitPrefire,
        flags.0 && flags.1 ==> (first matches RunAction::Done { retry, .. } && !retry),
        started(e, fresh(RunKind::Overflow, false, flags, None), facts).1.flags.0,
        started(e, fresh(RunKind::Overflow, false, flags, None), facts).1.flags.1 == (flags.0
            || flags.1),
{
}

/// A compaction that the user asked for is always tried: it starts with waiting for an early
/// summary pass, then looks at memory, then makes its checkpoint and compacts.
pub proof fn forced_compactions_are_always_tried(
    e: ContextState,
    hint: Option<Seq<char>>,
    cached: bool,
    blank: bool,
    facts: SessionFacts,
    actions: Seq<RunAction>,
)
    requires
        actions.len() == 4,
        ({
            let (e0, r0) = started(e, fresh(RunKind::Manual, false, (false, false), hint), facts);
            let (e1, r1) = after(e0, r0, RunEvent::PrefireAwaited { cached }, facts);
            let (e2, r2) = after(
                e1,
                r1,
                RunEvent::MemoryChecked { should_flush: false, blank },
                facts,
            );
            let (e3, r3) = after(e2, r2, RunEvent::Checkpointed, facts);
            &&& asked(e0, r0, facts, actions[0])
            &&& asked(e1, r1, facts, actions[1])
            &&& asked(e2, r2, facts, actions[2])
            &&& asked(e3, r3, facts, actions[3])
        }),
    ensures
        actions[0] is AwaitPrefire,
        actions[1] is CheckMemory,
        actions[2] is Checkpoint,
        actions[3] matches RunAction::Compact { force_summarize, user_hint, .. } && force_summarize
            && opt_text(user_hint) == hint,
{
}

/// What a run leaves alone: the session's link, the tail decorations, the known prefix and
/// what the provider reported.
#[verifier::spinoff_prover]
#[verifier::rlimit(60)]
pub proof fn runs_leave_the_rest_alone(
    e: ContextState,
    r: RunState,
    event: RunEvent,
    facts: SessionFacts,
)
    requires
        awaits(r.phase, event),
    ensures
        ({
            let e1 = after(e, r, event, facts).0;
            &&& e1.external_session_id == e.external_session_id
            &&& e1.tail_sections == e.tail_sections
            &&& e1.last_prefix_fingerprint == e.last_prefix_fingerprint
            &&& e1.last_prefix_tokens == e.last_prefix_tokens
            &&& e1.last_cached_tokens == e.last_cached_tokens
            &&& e1.last_gateway_hit_tokens == e.last_gateway_hit_tokens
            &&& e1.last_anchor_aligned == e.last_anchor_aligned
            &&& e1.last_unchanged_reprocessed_est == e.last_unchanged_reprocessed_est
            &&& e1.water.context_window_tokens == e.water.context_window_tokens
            &&& e1.pending_publish == e.pending_publish
        }),
{
    match event {
        RunEvent::Published => {},
        RunEvent::PrefireConsidered { .. } => {},
        RunEvent::Truncated { .. } => {},
        RunEvent::Estimated { .. } => {},
        RunEvent::MemoryFlushed { .. } => {},
        RunEvent::Compacted { .. } => {},
        RunEvent::NothingCompacted => {},
        RunEvent::CompactionFailed { .. } => {},
        RunEvent::SegmentKept => {},
        RunEvent::PrefireCleared => {},
        _ => {},
    }
}

/// A run whose announcement fails is over, and says so with the message.
pub proof fn failed_announcements_end_the_run(
    e: ContextState,
    r: RunState,
    message: String,
    facts: SessionFacts,
)
    requires
        awaits(r.phase, RunEvent::Failed { message }),
    ensures
        after(e, r, RunEvent::Failed { message }, facts).0 == e,
        after(e, r, RunEvent::Failed { message }, facts).1.phase is Over,
        r.phase is PendingPublish || r.phase is InitialPublish || r.phase is BumpPublish
            || r.phase is FlushMemory || r.phase is PreCheckpoint || r.phase is PostCheckpoint
            || r.phase is Segment,
{
}

/// A run that waited for an early summary pass knows whether it left a note; one that was
/// not under way leaves what was known.
pub proof fn awaited_summaries_are_noted(
    e: ContextState,
    r: RunState,
    cached: bool,
    facts: SessionFacts,
)
    requires
        r.phase is AwaitPrefire,
    ensures
        ({
            let (e1, r1) = after(e, r, RunEvent::PrefireAwaited { cached }, facts);
            &&& r1.phase is CheckMemory
            &&& e.prefire is InFlight && cached ==> e1.prefire is Cached
            &&& e.prefire is InFlight && !cached ==> e1.prefire is Idle
            &&& !(e.prefire is InFlight) ==> e1 == e
        }),
{
}

/// An overflowing step is tried again exactly where a compaction ended without failing,
/// whether or not there was something to compact, or where truncation was enough. No other
/// run asks for that.
pub proof fn compacted_overflows_are_retried(e: ContextState, r: RunState, facts: SessionFacts)
    requires
        !r.retry,
    ensures
        r.phase is PostCheckpoint ==> after(e, r, RunEvent::Checkpointed, facts).1.retry
            == r.kind is Overflow && after(e, r, RunEvent::Checkpointed, facts).1.phase
            is EnsureSystem && after(e, r, RunEvent::Checkpointed, facts).1.trace == r.trace.push(
            Announced::PostCheckpoint,
        ),
        r.phase is PreCheckpoint ==> !after(e, r, RunEvent::Checkpointed, facts).1.retry && after(
            e,
            r,
            RunEvent::Checkpointed,
            facts,
        ).1.phase is Compact && after(e, r, RunEvent::Checkpointed, facts).1.trace == r.trace.push(
            Announced::PreCheckpoint,
        ),
        r.phase is Compact && !(r.kind is Manual) ==> after(
            e,
            r,
            RunEvent::NothingCompacted,
            facts,
        ).1.retry == r.kind is Overflow && after(e, r, RunEvent::NothingCompacted, facts).1.phase
            is EnsureSystem && after(e, r, RunEvent::NothingCompacted, facts).0 == e,
        r.phase is EnsureSystem ==> after(e, r, RunEvent::SystemEnsured, facts).1.phase is Over
            && !after(e, r, RunEvent::SystemEnsured, facts).1.retry,
{
}

/// A run that is told of lasting pressure after a truncation goes on to compact; it ends only
/// where there is none left.
pub proof fn runs_compact_under_lasting_pressure(
    run: &mut ContextRun,
    engine: &mut ContextEngine,
    should_compact: bool,
    exceeds_window: bool,
    facts: SessionFacts,
    r: RunAction,
)
    requires
        call_ensures(
            ContextRun::advance,
            (run, engine, RunEvent::PressureRead { should_compact, exceeds_window }, facts),
            r,
        ),
        old(run)@.phase is ReadPressure,
        old(run)@.kind is Auto,
    ensures
        should_compact || exceeds_window ==> r is AwaitPrefire,
        !should_compact && !exceeds_window ==> r is Done,
        final(engine)@ == old(engine)@,
{
}

} // verus!
