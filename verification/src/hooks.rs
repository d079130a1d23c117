//! Lifecycle hooks: which extensions and commands run for an event, in which
//! order, and what a block or a failure means.
use vstd::prelude::*;

verus! {

/// The events that hooks can be registered for.
#[derive(Debug, Clone, Copy, PartialEq, Eq, Structural)]
pub enum HookEvent {
    PreToolUse,
    PostToolUse,
    BeforeAgentStart,
    SessionBeforeCompact,
    ContextMutate,
}

/// Whether a hook may stop what the event announces, and its failure is an error.
pub open spec fn can_block(event: HookEvent) -> bool {
    event is PreToolUse || event is BeforeAgentStart
}

/// A command that runs on an event, as it was configured.
#[derive(Debug, Clone)]
pub struct HookSpec {
    pub event: String,
    pub command: String,
}

/// Why something was stopped by a hook.
#[derive(Debug, Clone)]
pub struct HookBlock {
    pub reason: String,
    pub terminate: bool,
}

/// What a hook answers.
#[derive(Debug, Clone)]
pub enum HookOutcome {
    Allow,
    Block(HookBlock),
}

/// An extension in the host process.
pub trait ExtensionHook {
    /// The events that the extension cares about; `None` for all of them.
    spec fn interests(&self) -> Option<Seq<HookEvent>>;

    fn interested_events(&self) -> (r: Option<Vec<HookEvent>>)
        ensures
            match r {
                Some(events) => self.interests() == Some(events@),
                None => self.interests() is None,
            },
    ;
}

/// An extension that is known only by the events it cares about.
#[derive(Debug, Clone)]
pub struct EventFilter {
    pub events: Option<Vec<HookEvent>>,
}

impl ExtensionHook for EventFilter {
    open spec fn interests(&self) -> Option<Seq<HookEvent>> {
        match self.events {
            Some(events) => Some(events@),
            None => None,
        }
    }

    fn interested_events(&self) -> (r: Option<Vec<HookEvent>>) {
        match &self.events {
            Some(events) => {
                let mut out: Vec<HookEvent> = Vec::new();
                let mut i: usize = 0;
                while i < events.len()
                    invariant
                        i <= events.len(),
                        out@ == events@.take(i as int),
                    decreases events.len() - i,
                {
                    out.push(events[i]);
                    proof {
                        assert(events@.take(i + 1) == events@.take(i as int).push(events@[i as int]));
                    }
                    i += 1;
                }
                proof {
                    assert(events@.take(events@.len() as int) == events@);
                }
                Some(out)
            },
            None => None,
        }
    }
}

/// Whether an extension is called for an event.
pub open spec fn concerned(interests: Option<Seq<HookEvent>>, event: HookEvent) -> bool {
    match interests {
        Some(events) => events.contains(event),
        None => true,
    }
}

/// The next extension from `from` on that an event concerns.
pub open spec fn next_extension<E: ExtensionHook>(
    extensions: Seq<E>,
    event: HookEvent,
    from: int,
) -> Option<int>
    decreases extensions.len() - from,
{
    if from >= extensions.len() {
        None
    } else if concerned(extensions[from].interests(), event) {
        Some(from)
    } else {
        next_extension(extensions, event, from + 1)
    }
}

/// The registered hooks: commands and extensions.
pub struct HookRunner<E> {
    specs: Vec<HookSpec>,
    extensions: Vec<E>,
    /// Where commands run, if they run in a shell.
    workdir: Option<String>,
}

impl<E> HookRunner<E> {
    /// The registered commands.
    pub closed spec fn commands(&self) -> Seq<HookSpec> {
        self.specs@
    }

    /// The registered extensions, in the order of their registration.
    pub closed spec fn registered(&self) -> Seq<E> {
        self.extensions@
    }

    /// Where commands run in a shell.
    pub closed spec fn shell_dir(&self) -> Option<Seq<char>> {
        match self.workdir {
            Some(dir) => Some(dir@),
            None => None,
        }
    }

    /// Hooks whose commands are run by the caller's own executor.
    pub fn new(hooks: Vec<HookSpec>) -> (r: Self)
        ensures
            r.commands() == hooks@,
            r.registered() == Seq::<E>::empty(),
            r.shell_dir() is None,
    {
        HookRunner { specs: hooks, extensions: Vec::new(), workdir: None }
    }

    /// Hooks whose commands run in a shell.
    pub fn with_bash(hooks: Vec<HookSpec>, workdir: String) -> (r: Self)
        ensures
            r.commands() == hooks@,
            r.registered() == Seq::<E>::empty(),
            r.shell_dir() == Some(workdir@),
    {
        HookRunner { specs: hooks, extensions: Vec::new(), workdir: Some(workdir) }
    }

    /// The hooks with one more extension.
    pub fn with_extension(self, extension: E) -> (r: Self)
        ensures
            r.commands() == self.commands(),
            r.registered() == self.registered().push(extension),
            r.shell_dir() == self.shell_dir(),
    {
        let mut runner = self;
        runner.extensions.push(extension);
        runner
    }

    /// The hooks with more extensions, behind those that are there.
    pub fn with_extensions(self, extensions: Vec<E>) -> (r: Self)
        ensures
            r.commands() == self.commands(),
            r.registered() == self.registered() + extensions@,
            r.shell_dir() == self.shell_dir(),
    {
        let mut runner = self;
        let mut more = extensions;
        runner.extensions.append(&mut more);
        runner
    }

    /// Registers one more extension.
    pub fn add_extension(&mut self, extension: E)
        ensures
            final(self).commands() == old(self).commands(),
            final(self).registered() == old(self).registered().push(extension),
            final(self).shell_dir() == old(self).shell_dir(),
    {
        self.extensions.push(extension);
    }

    /// Registers more commands, behind those that are there.
    pub fn extend_specs(&mut self, hooks: Vec<HookSpec>)
        ensures
            final(self).commands() == old(self).commands() + hooks@,
            final(self).registered() == old(self).registered(),
            final(self).shell_dir() == old(self).shell_dir(),
    {
        let mut more = hooks;
        self.specs.append(&mut more);
    }

    /// Whether no hook is registered.
    pub fn is_empty(&self) -> (r: bool)
        ensures
            r == (self.commands().len() == 0 && self.registered().len() == 0),
    {
        self.specs.is_empty() && self.extensions.is_empty()
    }
}

/// How far a run of hooks has come.
#[derive(Debug, Clone, Copy, PartialEq, Eq, Structural)]
pub enum HookPhase {
    /// The extension at this place was called.
    Extension(usize),
    /// The commands for the event are to be planned.
    Planning,
    /// The command at this place of this many was run.
    Command(usize, usize),
    Over,
}

/// What happened outside a run of hooks.
#[derive(Debug)]
pub enum HookAnswer {
    /// What the extension or the command answered.
    Outcome(HookOutcome),
    /// How many commands are to run.
    Planned(usize),
    /// The extension, the plan or the command failed.
    Failed(String),
}

/// What a run of hooks does next.
#[derive(Debug)]
pub enum HookAction {
    CallExtension(usize),
    PlanCommands,
    RunCommand(usize),
    /// The run is over; something may have been blocked.
    Done(Option<HookBlock>),
    Fail(String),
}

/// Where a run goes that has called the extensions before `from`.
pub open spec fn to_extension<E: ExtensionHook>(extensions: Seq<E>, event: HookEvent, from: int) -> HookPhase {
    match next_extension(extensions, event, from) {
        Some(i) => HookPhase::Extension(i as usize),
        None => HookPhase::Planning,
    }
}

/// Where a run goes that has run the commands before `from`.
pub open spec fn to_command(from: int, count: int) -> HookPhase {
    if from < count {
        HookPhase::Command(from as usize, count as usize)
    } else {
        HookPhase::Over
    }
}

/// The phase after an answer that neither blocks nor ends the run.
pub open spec fn passed<E: ExtensionHook>(extensions: Seq<E>, event: HookEvent, phase: HookPhase) -> HookPhase {
    match phase {
        HookPhase::Extension(i) => to_extension(extensions, event, i + 1),
        HookPhase::Command(i, n) => to_command(i + 1, n as int),
        _ => HookPhase::Over,
    }
}

/// The phase after an answer.
pub open spec fn phase_after<E: ExtensionHook>(
    extensions: Seq<E>,
    event: HookEvent,
    phase: HookPhase,
    answer: HookAnswer,
) -> HookPhase {
    match answer {
        HookAnswer::Planned(n) => to_command(0, n as int),
        HookAnswer::Outcome(outcome) => if outcome is Block && can_block(event) {
            HookPhase::Over
        } else {
            passed(extensions, event, phase)
        },
        HookAnswer::Failed(_) => if can_block(event) {
            HookPhase::Over
        } else {
            passed(extensions, event, phase)
        },
    }
}

/// Whether an action is the one that a phase asks for after an answer.
pub open spec fn action_after(
    event: HookEvent,
    phase: HookPhase,
    answer: HookAnswer,
    action: HookAction,
) -> bool {
    match phase {
        HookPhase::Extension(i) => action == HookAction::CallExtension(i),
        HookPhase::Planning => action == HookAction::PlanCommands,
        HookPhase::Command(i, _) => action == HookAction::RunCommand(i),
        HookPhase::Over => match answer {
            HookAnswer::Outcome(HookOutcome::Block(block)) => if can_block(event) {
                action == HookAction::Done(Some(block))
            } else {
                action == HookAction::Done(None)
            },
            HookAnswer::Failed(message) => if can_block(event) {
                action == HookAction::Fail(message)
            } else {
                action == HookAction::Done(None)
            },
            _ => action == HookAction::Done(None),
        },
    }
}

/// Whether a phase waits for an answer.
pub open spec fn expects(phase: HookPhase, answer: HookAnswer) -> bool {
    match phase {
        HookPhase::Extension(_) => !(answer is Planned),
        HookPhase::Planning => !(answer is Outcome),
        HookPhase::Command(_, _) => !(answer is Planned),
        HookPhase::Over => false,
    }
}

/// The hooks of one event while they run.
pub struct HookRun {
    event: HookEvent,
    phase: HookPhase,
}

impl HookRun {
    /// The event whose hooks run.
    pub closed spec fn for_event(&self) -> HookEvent {
        self.event
    }

    /// How far the run has come.
    pub closed spec fn at(&self) -> HookPhase {
        self.phase
    }

    /// Starts the hooks of an event: extensions first, in order of registration.
    pub fn start<E: ExtensionHook>(runner: &HookRunner<E>, event: HookEvent) -> (r: (Self, HookAction))
        ensures
            r.0.for_event() == event,
            r.0.at() == to_extension(runner.registered(), event, 0),
            match r.0.at() {
                HookPhase::Extension(i) => r.1 == HookAction::CallExtension(i),
                _ => r.1 == HookAction::PlanCommands,
            },
    {
        let phase = runner.extension_from(event, 0);
        let action = match phase {
            HookPhase::Extension(i) => HookAction::CallExtension(i),
            _ => HookAction::PlanCommands,
        };
        (HookRun { event, phase }, action)
    }

    /// Takes in an answer and says what to do next.
    pub fn advance<E: ExtensionHook>(&mut self, runner: &HookRunner<E>, answer: HookAnswer) -> (r:
        HookAction)
        requires
            expects(old(self).at(), answer),
            old(self).at() matches HookPhase::Extension(i) ==> i < runner.registered().len(),
            old(self).at() matches HookPhase::Command(i, n) ==> i < n,
        ensures
            final(self).for_event() == old(self).for_event(),
            final(self).at() == phase_after(
                runner.registered(),
                old(self).for_event(),
                old(self).at(),
                answer,
            ),
            action_after(old(self).for_event(), final(self).at(), answer, r),
            final(self).at() matches HookPhase::Extension(i) ==> i < runner.registered().len(),
            final(self).at() matches HookPhase::Command(i, n) ==> i < n,
    {
        let blocking = matches!(self.event, HookEvent::PreToolUse | HookEvent::BeforeAgentStart);
        match answer {
            HookAnswer::Planned(n) => {
                self.phase = if 0 < n {
                    HookPhase::Command(0, n)
                } else {
                    HookPhase::Over
                };
            },
            HookAnswer::Outcome(outcome) => {
                match outcome {
                    HookOutcome::Block(block) => {
                        if blocking {
                            self.phase = HookPhase::Over;
                            return HookAction::Done(Some(block));
                        }
                        self.pass(runner);
                    },
                    HookOutcome::Allow => {
                        self.pass(runner);
                    },
                }
            },
            HookAnswer::Failed(message) => {
                if blocking {
                    self.phase = HookPhase::Over;
                    return HookAction::Fail(message);
                }
                self.pass(runner);
            },
        }
        match self.phase {
            HookPhase::Extension(i) => HookAction::CallExtension(i),
            HookPhase::Planning => HookAction::PlanCommands,
            HookPhase::Command(i, _) => HookAction::RunCommand(i),
            HookPhase::Over => HookAction::Done(None),
        }
    }

    fn pass<E: ExtensionHook>(&mut self, runner: &HookRunner<E>)
        requires
            old(self).at() matches HookPhase::Extension(i) ==> i < runner.registered().len(),
            old(self).at() matches HookPhase::Command(i, n) ==> i < n,
        ensures
            final(self).for_event() == old(self).for_event(),
            final(self).at() == passed(
                runner.registered(),
                old(self).for_event(),
                old(self).at(),
            ),
            final(self).at() matches HookPhase::Extension(i) ==> i < runner.registered().len(),
            final(self).at() matches HookPhase::Command(i, n) ==> i < n,
    {
        let count: usize = runner.extensions.len();
        self.phase = match self.phase {
            HookPhase::Extension(i) => runner.extension_from(self.event, i + 1),
            HookPhase::Command(i, n) => if i + 1 < n {
                HookPhase::Command(i + 1, n)
            } else {
                HookPhase::Over
            },
            _ => HookPhase::Over,
        };
    }
}

impl<E: ExtensionHook> HookRunner<E> {
    fn extension_from(&self, event: HookEvent, from: usize) -> (r: HookPhase)
        requires
            from <= self.registered().len(),
        ensures
            r == to_extension(self.registered(), event, from as int),
            r matches HookPhase::Extension(i) ==> i < self.registered().len(),
            r is Extension || r is Planning,
    {
        let mut i: usize = from;
        while i < self.extensions.len()
            invariant
                from <= i <= self.extensions.len(),
                self.registered() == self.extensions@,
                next_extension(self.extensions@, event, from as int) == next_extension(
                    self.extensions@,
                    event,
                    i as int,
                ),
            decreases self.extensions.len() - i,
        {
            let wanted = match self.extensions[i].interested_events() {
                Some(events) => has_event(&events, event),
                None => true,
            };
            if wanted {
                return HookPhase::Extension(i);
            }
            i += 1;
        }
        HookPhase::Planning
    }
}

fn has_event(events: &Vec<HookEvent>, event: HookEvent) -> (r: bool)
    ensures
        r == events@.contains(event),
{
    let mut i: usize = 0;
    while i < events.len()
        invariant
            i <= events.len(),
            forall|k: int| 0 <= k < i ==> events@[k] != event,
        decreases events.len() - i,
    {
        if events[i] == event {
            return true;
        }
        i += 1;
    }
    false
}

/// A block ends the hooks of an event that can be blocked, and is what they
/// answer: no extension behind it is called and no command is run.
pub proof fn first_block_wins<E: ExtensionHook>(
    extensions: Seq<E>,
    event: HookEvent,
    phase: HookPhase,
    block: HookBlock,
    action: HookAction,
)
    requires
        can_block(event),
        action_after(
            event,
            phase_after(
                extensions,
                event,
                phase,
                HookAnswer::Outcome(HookOutcome::Block(block)),
            ),
            HookAnswer::Outcome(HookOutcome::Block(block)),
            action,
        ),
    ensures
        action == HookAction::Done(Some(block)),
{
}

/// The hooks of an event that only announces something never block it and never
/// fail: every hook is run.
pub proof fn announcements_never_block<E: ExtensionHook>(
    extensions: Seq<E>,
    event: HookEvent,
    phase: HookPhase,
    answer: HookAnswer,
    action: HookAction,
)
    requires
        !can_block(event),
        expects(phase, answer),
        action_after(event, phase_after(extensions, event, phase, answer), answer, action),
    ensures
        !(action is Fail),
        action matches HookAction::Done(block) ==> block is None,
        answer is Planned || phase_after(extensions, event, phase, answer) == passed(
            extensions,
            event,
            phase,
        ),
{
}

/// An extension is called for the events it names, and one that names none for all of them.
pub proof fn extensions_are_called_for_their_events(events: Seq<HookEvent>, event: HookEvent)
    ensures
        concerned(None, event),
        concerned(Some(events.push(event)), event),
        concerned(Some(events), event) ==> exists|i: int| 0 <= i < events.len() && events[i] == event,
        !concerned(Some(Seq::empty()), event),
{
    assert(events.push(event).last() == event);
}

/// The extensions that an event concerns are called in the order of their registration: the
/// next one is the first from there on that it concerns, and without one the commands follow.
pub proof fn extensions_are_called_in_order<E: ExtensionHook>(
    extensions: Seq<E>,
    event: HookEvent,
    from: int,
)
    requires
        0 <= from <= extensions.len(),
    ensures
        next_extension(extensions, event, from) matches Some(i) ==> from <= i < extensions.len()
            && concerned(extensions[i].interests(), event) && forall|j: int|
            from <= j < i ==> !concerned((#[trigger] extensions[j]).interests(), event),
        next_extension(extensions, event, from) is None ==> forall|j: int|
            from <= j < extensions.len() ==> !concerned(
                (#[trigger] extensions[j]).interests(),
                event,
            ),
    decreases extensions.len() - from,
{
    if from < extensions.len() && !concerned(extensions[from].interests(), event) {
        extensions_are_called_in_order(extensions, event, from + 1);
    }
}

/// Only the use of a tool and the start of an agent can be blocked; the other events are
/// announced.
pub proof fn only_starts_can_be_blocked(event: HookEvent)
    ensures
        can_block(event) <==> event is PreToolUse || event is BeforeAgentStart,
{
}

/// A run begins with the first extension that its event concerns, and without one with the
/// commands.
pub proof fn runs_begin_with_extensions<E: ExtensionHook>(
    runner: &HookRunner<E>,
    event: HookEvent,
    r: (HookRun, HookAction),
)
    requires
        call_ensures(HookRun::start::<E>, (runner, event), r),
        runner.registered().len() <= usize::MAX,
    ensures
        r.0.for_event() == event,
        forall|i: int|
            0 <= i < runner.registered().len() && concerned(
                (#[trigger] runner.registered()[i]).interests(),
                event,
            ) && (forall|j: int|
                0 <= j < i ==> !concerned((#[trigger] runner.registered()[j]).interests(), event))
                ==> r.1 == HookAction::CallExtension(i as usize),
        (forall|i: int|
            0 <= i < runner.registered().len() ==> !concerned(
                (#[trigger] runner.registered()[i]).interests(),
                event,
            )) ==> r.1 == HookAction::PlanCommands,
{
    let all = runner.registered();
    extensions_are_called_in_order(all, event, 0);
    assert forall|i: int|
        0 <= i < all.len() && concerned((#[trigger] all[i]).interests(), event) && (forall|j: int|
            0 <= j < i ==> !concerned((#[trigger] all[j]).interests(), event)) implies r.1
        == HookAction::CallExtension(i as usize) by {
        let found = next_extension(all, event, 0);
        if found is Some && found->0 < i {
            assert(concerned(all[found->0].interests(), event));
        }
    }
}

/// An extension that allows is followed by the next one that the event concerns, and the last
/// one by the commands, of which each is run once, in order. A run that nothing stopped ends
/// without a block.
pub proof fn allowed_hooks_run_one_after_another<E: ExtensionHook>(
    extensions: Seq<E>,
    event: HookEvent,
    i: usize,
    n: usize,
    action: HookAction,
)
    requires
        i < n,
        extensions.len() <= usize::MAX,
    ensures
        i < extensions.len() && next_extension(extensions, event, i + 1) is Some ==> phase_after(
            extensions,
            event,
            HookPhase::Extension(i),
            HookAnswer::Outcome(HookOutcome::Allow),
        ) == HookPhase::Extension(next_extension(extensions, event, i + 1)->0 as usize),
        i < extensions.len() && next_extension(extensions, event, i + 1) is None ==> phase_after(
            extensions,
            event,
            HookPhase::Extension(i),
            HookAnswer::Outcome(HookOutcome::Allow),
        ) is Planning,
        phase_after(extensions, event, HookPhase::Planning, HookAnswer::Planned(n))
            == HookPhase::Command(0, n),
        phase_after(extensions, event, HookPhase::Planning, HookAnswer::Planned(0)) is Over,
        i + 1 < n ==> phase_after(
            extensions,
            event,
            HookPhase::Command(i, n),
            HookAnswer::Outcome(HookOutcome::Allow),
        ) == HookPhase::Command((i + 1) as usize, n),
        i + 1 == n ==> phase_after(
            extensions,
            event,
            HookPhase::Command(i, n),
            HookAnswer::Outcome(HookOutcome::Allow),
        ) is Over,
        action_after(
            event,
            HookPhase::Over,
            HookAnswer::Outcome(HookOutcome::Allow),
            action,
        ) ==> action == HookAction::Done(None),
{
}

/// A hook that fails stops what can be blocked, with its message; elsewhere the next hook
/// runs as if it had allowed.
pub proof fn failing_hooks_stop_only_starts<E: ExtensionHook>(
    extensions: Seq<E>,
    event: HookEvent,
    phase: HookPhase,
    message: String,
    action: HookAction,
)
    requires
        phase is Extension || phase is Command,
        action_after(
            event,
            phase_after(extensions, event, phase, HookAnswer::Failed(message)),
            HookAnswer::Failed(message),
            action,
        ),
    ensures
        event is PreToolUse || event is BeforeAgentStart ==> action == HookAction::Fail(message),
        !(event is PreToolUse || event is BeforeAgentStart) ==> phase_after(
            extensions,
            event,
            phase,
            HookAnswer::Failed(message),
        ) == phase_after(extensions, event, phase, HookAnswer::Outcome(HookOutcome::Allow)),
{
}

/// Hooks and extensions are added behind those that are there.
pub proof fn hooks_are_added_behind<E>(
    runner: &mut HookRunner<E>,
    specs: Vec<HookSpec>,
    other: &mut HookRunner<E>,
    extension: E,
    queried: &HookRunner<E>,
    empty: bool,
)
    requires
        call_ensures(HookRunner::<E>::extend_specs, (runner, specs), ()),
        call_ensures(HookRunner::<E>::add_extension, (other, extension), ()),
        call_ensures(HookRunner::<E>::is_empty, (queried,), empty),
    ensures
        final(runner).commands().len() == old(runner).commands().len() + specs@.len(),
        final(runner).commands().take(old(runner).commands().len() as int) == old(runner).commands(),
        final(runner).commands().skip(old(runner).commands().len() as int) == specs@,
        final(runner).registered() == old(runner).registered(),
        final(other).registered().len() == old(other).registered().len() + 1,
        final(other).registered().last() == extension,
        final(other).commands() == old(other).commands(),
        empty <==> queried.commands().len() == 0 && queried.registered().len() == 0,
{
    let n = old(runner).commands().len() as int;
    assert(final(runner).commands().take(n) == old(runner).commands());
    assert(final(runner).commands().skip(n) == specs@);
}

/// Extensions join behind those that are there, and commands stay as they are.
pub proof fn extensions_are_added_behind<E>(
    runner: HookRunner<E>,
    one: E,
    more: Vec<E>,
    with_one: HookRunner<E>,
    with_more: HookRunner<E>,
)
    requires
        call_ensures(HookRunner::<E>::with_extension, (runner, one), with_one),
        call_ensures(HookRunner::<E>::with_extensions, (runner, more), with_more),
    ensures
        with_one.registered() == runner.registered().push(one),
        with_one.commands() == runner.commands(),
        with_one.shell_dir() == runner.shell_dir(),
        with_more.registered() == runner.registered() + more@,
        with_more.commands() == runner.commands(),
        with_more.shell_dir() == runner.shell_dir(),
{
}

/// A runner that is made of commands runs them where it is told to, with no extension.
pub proof fn new_runners_have_no_extension<E>(hooks: Vec<HookSpec>, workdir: String, r: HookRunner<E>)
    requires
        call_ensures(HookRunner::<E>::with_bash, (hooks, workdir), r),
    ensures
        r.commands() == hooks@,
        r.registered().len() == 0,
        r.shell_dir() == Some(workdir@),
{
}

} // verus!
