//! The preparation of one model step: observe, commit, project.
//!
//! A preparation says what to do next and is told what came of it. The commit in its
//! middle is a [`ContextRun`], whose decisions it passes on.
use vstd::prelude::*;

use crate::context_engine::{
    explains, next_u64, projected, projection_unavailable, with_observation, with_projection, with_tail,
    AssembledOutbound, ContextEngine, ContextObservation, ContextState, PrefixLayout,
    ProjectionExplain, SessionView, StepContext,
};
use crate::context_run::{
    after as run_after, asked as run_asked, awaits as run_awaits, consistent, fresh as fresh_run,
    lemma_over, lemma_started, lemma_step, opt_compaction, started, Announced, CompactionResult,
    ContextRun, RunAction, RunEvent, RunKind, RunState, SessionFacts,
};
use crate::llm::message_texts;
use crate::text::{has_suffix, opt_text, texts};

verus! {

/// What a preparation waits for.
#[derive(Debug, Clone, Copy, PartialEq, Eq, Structural)]
pub enum PreparePhase {
    CheckingEvents,
    Observing,
    ReadingTail,
    Committing,
    Projecting,
    Over,
}

/// The outbound messages of a step, put together from the session as it is after the
/// commit, and what is needed to explain them.
#[derive(Debug)]
pub struct Assembly {
    pub session_id: String,
    pub view: SessionView,
    pub outbound: AssembledOutbound,
    pub estimate_tokens: u32,
    /// Whether the content of each message is a system reminder.
    pub reminders: Vec<bool>,
    pub layout: PrefixLayout,
}

/// What happened outside the preparation.
#[derive(Debug)]
pub enum PrepareEvent {
    /// Why the events of the session do not back its projection, if they do not.
    EventsChecked { unbacked: Option<String> },
    /// The size of the context, and what the water level says once it has taken it in.
    Observed {
        estimated_tokens: u32,
        context_window_tokens: u32,
        exceeds_window: bool,
        wants_compaction: bool,
    },
    /// The tail decorations of the hooks, if there are hooks.
    TailRead { hooks: Option<(Vec<String>, Vec<String>)>, gateway_configured: bool },
    /// What came of the last action of the commit.
    Committed { event: RunEvent },
    Assembled { assembly: Assembly },
}

/// A prepared step.
#[derive(Debug)]
pub struct PrepareStepResult {
    pub step: StepContext,
    /// The compaction that the commit made, if it made one.
    pub compaction: Option<CompactionResult>,
    /// What the commit announced, in order.
    pub events: Vec<Announced>,
    pub explain: ProjectionExplain,
}

/// What to do next.
#[derive(Debug)]
pub enum PrepareAction {
    /// Look whether the events of the session back its projection.
    CheckEvents,
    /// Estimate the size of the context and read the water level.
    Observe,
    ReadTail,
    /// Perform an action of the commit.
    Commit { action: RunAction },
    /// Put the outbound messages together, with these tail decorations.
    Assemble { tail_sections: Vec<String> },
    Done { result: PrepareStepResult },
    Fail { message: String },
}

/// The state of a preparation.
pub struct PrepareState {
    pub phase: PreparePhase,
    /// Whether the observed pressure asks for compaction, and whether the context
    /// exceeds the window.
    pub pressure: (bool, bool),
    /// The commit, once it was started.
    pub run: Option<RunState>,
}

/// A preparation before its first event.
pub open spec fn fresh() -> PrepareState {
    PrepareState { phase: PreparePhase::CheckingEvents, pressure: (false, false), run: None }
}

/// Whether a preparation waits for an event.
pub open spec fn awaits(p: PrepareState, event: PrepareEvent) -> bool {
    match event {
        PrepareEvent::EventsChecked { .. } => p.phase is CheckingEvents,
        PrepareEvent::Observed { .. } => p.phase is Observing,
        PrepareEvent::TailRead { .. } => p.phase is ReadingTail,
        PrepareEvent::Committed { event } => p.phase is Committing && (p.run matches Some(r)
            && run_awaits(r.phase, event)),
        PrepareEvent::Assembled { assembly } => {
            &&& p.phase is Projecting
            &&& p.run is Some
            &&& assembly.reminders@.len() == assembly.outbound.messages@.len()
        },
    }
}

/// The preparation with its commit in the given state: a commit that is over is followed
/// by the projection.
pub open spec fn committing(p: PrepareState, r: RunState) -> PrepareState {
    PrepareState {
        phase: if r.phase is Over {
            PreparePhase::Projecting
        } else {
            PreparePhase::Committing
        },
        run: Some(r),
        ..p
    }
}

/// The engine and the preparation after an event.
pub open spec fn after(e: ContextState, p: PrepareState, event: PrepareEvent, facts: SessionFacts) -> (
    ContextState,
    PrepareState,
) {
    match event {
        PrepareEvent::EventsChecked { unbacked } => (
            e,
            PrepareState {
                phase: if unbacked is Some {
                    PreparePhase::Over
                } else {
                    PreparePhase::Observing
                },
                ..p
            },
        ),
        PrepareEvent::Observed {
            estimated_tokens,
            context_window_tokens,
            exceeds_window,
            wants_compaction,
        } => {
            let overflow = exceeds_window && !e.water.auto_compact_suppressed;
            (
                with_observation(e, estimated_tokens, context_window_tokens),
                PrepareState {
                    phase: PreparePhase::ReadingTail,
                    pressure: (wants_compaction || overflow, overflow),
                    ..p
                },
            )
        },
        PrepareEvent::TailRead { hooks, gateway_configured } => {
            let kind = RunKind::Auto {
                should_compact: p.pressure.0,
                preflight_overflow: p.pressure.1,
            };
            let (e1, r1) = started(
                with_tail(e, hooks),
                fresh_run(kind, gateway_configured, (false, false), None),
                facts,
            );
            (e1, committing(p, r1))
        },
        PrepareEvent::Committed { event } => {
            let (e1, r1) = run_after(e, p.run->0, event, facts);
            if event is Failed {
                (e1, PrepareState { phase: PreparePhase::Over, run: Some(r1), ..p })
            } else {
                (e1, committing(p, r1))
            }
        },
        PrepareEvent::Assembled { assembly } => (
            with_projection(e, message_texts(assembly.outbound.messages@), assembly.layout),
            PrepareState { phase: PreparePhase::Over, ..p },
        ),
    }
}

/// Whether a result is what was prepared from the engine in the state `e`.
pub open spec fn prepared(
    e: ContextState,
    r: RunState,
    assembly: Assembly,
    result: PrepareStepResult,
) -> bool {
    &&& projected(
        e,
        assembly.session_id@,
        assembly.outbound,
        assembly.estimate_tokens,
        result.step,
    )
    &&& explains(
        e,
        assembly.view,
        result.step,
        assembly.reminders@,
        assembly.layout,
        result.explain,
    )
    &&& opt_compaction(result.compaction) == r.result
    &&& result.events@ == r.trace
}

/// Whether an action is the one that a preparation asks for after an event, which found
/// the engine in the state `before` and left it in the state `e`.
pub open spec fn asked(
    before: ContextState,
    e: ContextState,
    p: PrepareState,
    event: PrepareEvent,
    facts: SessionFacts,
    action: PrepareAction,
) -> bool {
    match p.phase {
        PreparePhase::CheckingEvents => action is CheckEvents,
        PreparePhase::Observing => action is Observe,
        PreparePhase::ReadingTail => action is ReadTail,
        PreparePhase::Committing => action matches PrepareAction::Commit { action } && run_asked(
            e,
            p.run->0,
            facts,
            action,
        ),
        PreparePhase::Projecting => action matches PrepareAction::Assemble { tail_sections } && texts(
            tail_sections@,
        ) == e.tail_sections,
        PreparePhase::Over => match event {
            PrepareEvent::EventsChecked { unbacked } => action matches PrepareAction::Fail { message }
                && message@ == "event-backed context projection unavailable: "@ + unbacked->0@,
            PrepareEvent::Committed { event } => action matches PrepareAction::Fail { message }
                && message@ == event->Failed_message@,
            PrepareEvent::Assembled { assembly } => action matches PrepareAction::Done { result }
                && prepared(before, p.run->0, assembly, result),
            _ => false,
        },
    }
}

/// Whether the parts of a preparation fit together.
pub open spec fn sound(p: PrepareState) -> bool {
    &&& p.phase is Committing || p.phase is Projecting ==> p.run is Some
    &&& p.run matches Some(r) ==> r.kind is Auto
    &&& p.phase is Projecting ==> p.run->0.phase is Over
    &&& p.phase is Committing ==> !(p.run->0.phase is Over)
}

/// The preparation of one model step.
pub struct StepPreparation {
    phase: PreparePhase,
    observation: ContextObservation,
    run: Option<ContextRun>,
}

impl View for StepPreparation {
    type V = PrepareState;

    closed spec fn view(&self) -> PrepareState {
        PrepareState {
            phase: self.phase,
            pressure: (self.observation.should_compact, self.observation.preflight_overflow),
            run: match self.run {
                Some(run) => Some(run@),
                None => None,
            },
        }
    }
}

impl ContextEngine {
    /// Prepares the messages of a model step: observe, commit, project.
    pub fn prepare_step(&self) -> (r: (StepPreparation, PrepareAction))
        ensures
            r.0@ == fresh(),
            sound(r.0@),
            r.1 is CheckEvents,
    {
        (
            StepPreparation {
                phase: PreparePhase::CheckingEvents,
                observation: ContextObservation {
                    estimated_tokens: 0,
                    should_compact: false,
                    preflight_overflow: false,
                },
                run: None,
            },
            PrepareAction::CheckEvents,
        )
    }
}

impl StepPreparation {
    /// Goes on with a commit that asks for the given action.
    fn go_on(&mut self, engine: &ContextEngine, run: ContextRun, action: RunAction) -> (r: PrepareAction)
        requires
            run@.kind is Auto,
            exists|facts: SessionFacts| run_asked(engine@, run@, facts, action),
        ensures
            final(self)@ == committing(old(self)@, run@),
            match final(self)@.phase {
                PreparePhase::Committing => r == (PrepareAction::Commit { action }),
                _ => r matches PrepareAction::Assemble { tail_sections } && texts(tail_sections@)
                    == engine@.tail_sections,
            },
    {
        self.run = Some(run);
        match action {
            RunAction::Done { .. } => {
                self.phase = PreparePhase::Projecting;
                PrepareAction::Assemble { tail_sections: engine.tail_sections() }
            },
            action => {
                self.phase = PreparePhase::Committing;
                PrepareAction::Commit { action }
            },
        }
    }

    /// Takes in what happened and says what to do next. `facts` tells what the session
    /// looks like now.
    pub fn advance(&mut self, engine: &mut ContextEngine, event: PrepareEvent, facts: SessionFacts) -> (r:
        PrepareAction)
        requires
            sound(old(self)@),
            awaits(old(self)@, event),
        ensures
            (final(engine)@, final(self)@) == after(old(engine)@, old(self)@, event, facts),
            sound(final(self)@),
            asked(old(engine)@, final(engine)@, final(self)@, event, facts, r),
    {
        match event {
            PrepareEvent::EventsChecked { unbacked } => match unbacked {
                Some(reason) => {
                    self.phase = PreparePhase::Over;
                    PrepareAction::Fail { message: projection_unavailable(reason.as_str()) }
                },
                None => {
                    self.phase = PreparePhase::Observing;
                    PrepareAction::Observe
                },
            },
            PrepareEvent::Observed {
                estimated_tokens,
                context_window_tokens,
                exceeds_window,
                wants_compaction,
            } => {
                self.observation = engine.observe(
                    estimated_tokens,
                    context_window_tokens,
                    exceeds_window,
                    wants_compaction,
                );
                self.phase = PreparePhase::ReadingTail;
                PrepareAction::ReadTail
            },
            PrepareEvent::TailRead { hooks, gateway_configured } => {
                engine.capture_tail_sections(hooks);
                let (run, action) = ContextRun::commit(
                    engine,
                    &self.observation,
                    gateway_configured,
                    facts,
                );
                self.go_on(engine, run, action)
            },
            PrepareEvent::Committed { event } => match self.run.take() {
                Some(mut run) => {
                    let action = run.advance(engine, event, facts);
                    match action {
                        RunAction::Fail { message } => {
                            self.run = Some(run);
                            self.phase = PreparePhase::Over;
                            PrepareAction::Fail { message }
                        },
                        action => self.go_on(engine, run, action),
                    }
                },
                None => PrepareAction::CheckEvents,
            },
            PrepareEvent::Assembled { assembly } => {
                let (compaction, events) = match &self.run {
                    Some(run) => (run.compaction(), run.trace().clone()),
                    None => (None, Vec::new()),
                };
                let step = engine.project(
                    assembly.session_id.as_str(),
                    assembly.outbound,
                    assembly.estimate_tokens,
                );
                let explain = engine.explain_projection_for_step(
                    &assembly.view,
                    &step,
                    &assembly.reminders,
                    &assembly.layout,
                );
                engine.remember_projection(&step, &explain);
                self.phase = PreparePhase::Over;
                PrepareAction::Done { result: PrepareStepResult { step, compaction, events, explain } }
            },
        }
    }
}

/// The engine and the preparation after a series of events.
pub open spec fn after_all(
    e: ContextState,
    p: PrepareState,
    events: Seq<(PrepareEvent, SessionFacts)>,
) -> (ContextState, PrepareState)
    decreases events.len(),
{
    if events.len() == 0 {
        (e, p)
    } else {
        let (e1, p1) = after_all(e, p, events.drop_last());
        after(e1, p1, events.last().0, events.last().1)
    }
}

/// Whether each event of a series is one that the preparation waits for.
pub open spec fn runs(e: ContextState, p: PrepareState, events: Seq<(PrepareEvent, SessionFacts)>) -> bool
    decreases events.len(),
{
    events.len() > 0 ==> {
        &&& runs(e, p, events.drop_last())
        &&& awaits(after_all(e, p, events.drop_last()).1, events.last().0)
    }
}

/// Whether an event stands where the order of a preparation has it.
spec fn in_place(event: PrepareEvent, i: int) -> bool {
    match event {
        PrepareEvent::EventsChecked { .. } => i == 0,
        PrepareEvent::Observed { .. } => i == 1,
        PrepareEvent::TailRead { .. } => i == 2,
        PrepareEvent::Committed { .. } => i > 2,
        PrepareEvent::Assembled { .. } => i > 2,
    }
}

proof fn lemma_prepared(e: ContextState, events: Seq<(PrepareEvent, SessionFacts)>)
    requires
        runs(e, fresh(), events),
    ensures
        ({
            let (e1, p1) = after_all(e, fresh(), events);
            let n = events.len() as int;
            &&& forall|i: int| 0 <= i < n ==> in_place(#[trigger] events[i].0, i)
            &&& forall|i: int| 0 <= i < n - 1 ==> !((#[trigger] events[i]).0 is Assembled)
            &&& p1.phase is CheckingEvents <==> n == 0
            &&& p1.phase is Observing ==> n == 1
            &&& p1.phase is ReadingTail ==> n == 2
            &&& p1.phase is Committing || p1.phase is Projecting ==> n > 2 && p1.run is Some
                && !(events[n - 1].0 is Assembled) && consistent(
                e.epoch,
                (false, false),
                e1,
                p1.run->0,
            )
            &&& n > 0 && events[n - 1].0 is Assembled ==> p1.phase is Over
            &&& p1.phase is Projecting ==> p1.run->0.phase is Over
            &&& p1.phase is CheckingEvents || p1.phase is Observing || p1.phase is ReadingTail
                ==> e1.epoch == e.epoch
        }),
    decreases events.len(),
{
    if events.len() > 0 {
        let before = events.drop_last();
        let n = events.len() - 1;
        lemma_prepared(e, before);
        let (e0, p0) = after_all(e, fresh(), before);
        let (event, facts) = events.last();
        assert forall|i: int| 0 <= i < n implies events[i] == #[trigger] before[i] by {}
        match event {
            PrepareEvent::TailRead { hooks, gateway_configured } => {
                let kind = RunKind::Auto {
                    should_compact: p0.pressure.0,
                    preflight_overflow: p0.pressure.1,
                };
                lemma_started(
                    with_tail(e0, hooks),
                    kind,
                    gateway_configured,
                    (false, false),
                    None,
                    facts,
                );
            },
            PrepareEvent::Committed { event } => {
                if !(event is Failed) {
                    lemma_step(e.epoch, (false, false), e0, p0.run->0, event, facts);
                }
            },
            _ => {},
        }
        let (e1, p1) = after_all(e, fresh(), events);
        assert((e1, p1) == after(e0, p0, event, facts));
        assert(in_place(event, n));
        assert forall|i: int| 0 <= i <= n implies in_place(#[trigger] events[i].0, i) by {
            if i < n {
                assert(in_place(before[i].0, i));
            }
        }
        assert forall|i: int| 0 <= i < n implies !((#[trigger] events[i]).0 is Assembled) by {
            if i < n - 1 {
                assert(!(before[i].0 is Assembled));
            }
        }
    }
}

/// A step is prepared in one order: its session is checked, the pressure observed, the
/// tail decorations read, the commit made, and only then the outbound messages put
/// together, once.
pub proof fn steps_are_prepared_in_order(
    e: ContextState,
    events: Seq<(PrepareEvent, SessionFacts)>,
    i: int,
)
    requires
        runs(e, fresh(), events),
        0 <= i < events.len(),
    ensures
        events[i].0 is EventsChecked <==> i == 0,
        events[i].0 is Observed <==> i == 1,
        events[i].0 is TailRead <==> i == 2,
        i > 2 ==> events[i].0 is Committed || events[i].0 is Assembled,
        events[i].0 is Assembled ==> i == events.len() - 1,
{
    lemma_prepared(e, events);
    assert(in_place(events[i].0, i));
}

/// The projection of a step is made from the state after its own commit: it carries the
/// new epoch if the commit compacted the context, and else the one before.
pub proof fn step_shows_its_own_commit(
    e: ContextState,
    events: Seq<(PrepareEvent, SessionFacts)>,
    assembly: Assembly,
    result: PrepareStepResult,
)
    requires
        runs(e, fresh(), events),
        ({
            let (e1, p1) = after_all(e, fresh(), events);
            &&& awaits(p1, PrepareEvent::Assembled { assembly })
            &&& prepared(e1, p1.run->0, assembly, result)
        }),
    ensures
        result.step.metadata.context_epoch == (if result.compaction is Some {
            next_u64(e.epoch)
        } else {
            e.epoch
        }),
        result.explain.context_epoch == result.step.metadata.context_epoch,
{
    lemma_prepared(e, events);
    let (e1, p1) = after_all(e, fresh(), events);
    lemma_over(e.epoch, (false, false), e1, p1.run->0);
}

/// A step is prepared only from a session whose events back it; otherwise nothing is observed
/// and the reason is told.
pub proof fn unbacked_sessions_are_not_prepared(
    preparation: &mut StepPreparation,
    engine: &mut ContextEngine,
    unbacked: Option<String>,
    facts: SessionFacts,
    r: PrepareAction,
)
    requires
        call_ensures(
            StepPreparation::advance,
            (preparation, engine, PrepareEvent::EventsChecked { unbacked }, facts),
            r,
        ),
        old(preparation)@.phase is CheckingEvents,
    ensures
        unbacked is None ==> r is Observe,
        unbacked matches Some(reason) ==> (r matches PrepareAction::Fail { message } && has_suffix(
            message@,
            reason@,
        )) && final(preparation)@.phase is Over,
        final(engine)@ == old(engine)@,
{
    if let Some(reason) = unbacked {
        let message = "event-backed context projection unavailable: "@ + reason@;
        assert(message.subrange(message.len() - reason@.len(), message.len() as int) == reason@);
    }
}

/// What was observed is what the commit goes by: a context that is due for compaction, or
/// overflows while automatic compaction is on, is committed as due.
pub proof fn commits_go_by_what_was_observed(
    e: ContextState,
    p: PrepareState,
    estimated_tokens: u32,
    context_window_tokens: u32,
    exceeds_window: bool,
    wants_compaction: bool,
    hooks: Option<(Vec<String>, Vec<String>)>,
    gateway_configured: bool,
    facts: SessionFacts,
)
    requires
        p.phase is Observing,
    ensures
        ({
            let (e1, p1) = after(
                e,
                p,
                PrepareEvent::Observed {
                    estimated_tokens,
                    context_window_tokens,
                    exceeds_window,
                    wants_compaction,
                },
                facts,
            );
            let (e2, p2) = after(
                e1,
                p1,
                PrepareEvent::TailRead { hooks, gateway_configured },
                facts,
            );
            let overflow = exceeds_window && !e.water.auto_compact_suppressed;
            &&& e1.water.last_estimate_tokens == Some(estimated_tokens)
            &&& e1.water.context_window_tokens == context_window_tokens
            &&& p1.phase is ReadingTail
            &&& p2.run matches Some(run) && run.kind == (RunKind::Auto {
                should_compact: wants_compaction || overflow,
                preflight_overflow: overflow,
            }) && run.gateway_configured == gateway_configured
            &&& hooks matches Some((standing, extra)) ==> e2.tail_sections == texts(standing@)
                + texts(extra@)
            &&& e2.epoch == e.epoch
        }),
{
}

/// What is asked of the host during the commit is what the commit asks for, and once it is over
/// the outbound messages are put together with the tail decorations of the step.
pub proof fn commits_are_followed_by_the_projection(
    before: ContextState,
    e: ContextState,
    p: PrepareState,
    event: PrepareEvent,
    facts: SessionFacts,
    action: PrepareAction,
)
    requires
        asked(before, e, p, event, facts, action),
    ensures
        p.phase is Committing ==> (action matches PrepareAction::Commit { action: asked_for }
            && run_asked(e, p.run->0, facts, asked_for)),
        p.phase is Projecting ==> (action matches PrepareAction::Assemble { tail_sections } && texts(
            tail_sections@,
        ) == e.tail_sections),
        p.phase is Observing ==> action is Observe,
        p.phase is ReadingTail ==> action is ReadTail,
        p.phase is CheckingEvents ==> action is CheckEvents,
{
}

/// The outbound view of a step is remembered for the next one: its fingerprint, and that the
/// reason of the epoch was told.
pub proof fn prepared_steps_are_remembered(
    e: ContextState,
    p: PrepareState,
    assembly: Assembly,
    facts: SessionFacts,
)
    ensures
        ({
            let (e1, p1) = after(e, p, PrepareEvent::Assembled { assembly }, facts);
            &&& p1.phase is Over
            &&& e1.last_prefix_fingerprint == opt_text(assembly.layout.prefix_fingerprint)
            &&& e1.last_epoch_bump_reason is None
            &&& e1.epoch == e.epoch
            &&& e1.water == e.water
        }),
{
}

/// A preparation asks for what its phase calls for. When it is over it hands out the events of
/// the run and what was compacted, or tells why it failed.
pub proof fn preparations_ask_for_their_phase(
    before: ContextState,
    e: ContextState,
    p: PrepareState,
    event: PrepareEvent,
    facts: SessionFacts,
    action: PrepareAction,
)
    requires
        asked(before, e, p, event, facts, action),
    ensures
        p.phase is CheckingEvents <==> action is CheckEvents,
        p.phase is Observing <==> action is Observe,
        p.phase is ReadingTail <==> action is ReadTail,
        p.phase is Committing <==> action is Commit,
        p.phase is Projecting <==> action is Assemble,
        p.phase is Over <==> action is Done || action is Fail,
        action matches PrepareAction::Assemble { tail_sections } ==> texts(tail_sections@)
            == e.tail_sections,
        action is Done <==> p.phase is Over && event is Assembled,
        action matches PrepareAction::Done { result } ==> result.events@ == p.run->0.trace
            && opt_compaction(result.compaction) == p.run->0.result,
        p.phase is Over && event is EventsChecked ==> action->Fail_message@
            == "event-backed context projection unavailable: "@ + event->unbacked->0@,
{
}

/// A commit that is over is followed by the projection; until then the preparation stays with
/// it. One that failed ends the preparation.
pub proof fn preparations_stay_with_their_commit(
    e: ContextState,
    p: PrepareState,
    event: PrepareEvent,
    facts: SessionFacts,
)
    requires
        event is TailRead || event is Committed,
    ensures
        ({
            let next = after(e, p, event, facts).1;
            let failed = event is Committed && event->Committed_event is Failed;
            &&& next.run is Some
            &&& next.pressure == p.pressure
            &&& failed ==> next.phase is Over
            &&& !failed && next.run->0.phase is Over ==> next.phase is Projecting
            &&& !failed && !(next.run->0.phase is Over) ==> next.phase is Committing
        }),
        fresh().phase is CheckingEvents,
        fresh().run is None,
        fresh().pressure == (false, false),
{
}

} // verus!
