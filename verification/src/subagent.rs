//! Ephemeral subagents: their conversation, prompts and requests.
use vstd::prelude::*;

use crate::builtin_tools::SubagentProfile;
use crate::llm::{
    call_texts, copy_messages, message_texts, plain_message, Message, MessageText, Role, TokenUsage,
    ToolDefinition,
};
use crate::model_executor::{build_request_with_reasoning, ModelRequest};
use crate::text::{has_prefix, has_suffix, trim, trimmed};
use crate::turn_loop::{PreparedContext, StepResult};
use crate::turn_state::{
    aborted_error, is_version_4, max_turns_notice, max_turns_text, TurnError, TurnState,
};

verus! {

/// The prompt of a subagent that works in the given directory.
pub open spec fn system_prompt_text(profile: SubagentProfile, workdir: Seq<char>) -> Seq<char> {
    (match profile {
        SubagentProfile::Explore => "You are an explore subagent for Zene. Investigate the codebase using read-only tools (Read, Grep, Glob). Report findings concisely. Working directory: `"@,
        SubagentProfile::Coder => "You are a coder subagent for Zene. Read and modify code as requested using the available tools. Working directory: `"@,
    }) + workdir + "`."@
}

/// The prompt of a subagent that works in the given directory.
pub fn subagent_system_prompt(profile: SubagentProfile, workdir: &str) -> (r: String)
    ensures
        r@ == system_prompt_text(profile, workdir@),
{
    let mut prompt = match profile {
        SubagentProfile::Explore => {
            "You are an explore subagent for Zene. Investigate the codebase using read-only tools (Read, Grep, Glob). Report findings concisely. Working directory: `".to_string()
        },
        SubagentProfile::Coder => {
            "You are a coder subagent for Zene. Read and modify code as requested using the available tools. Working directory: `".to_string()
        },
    };
    prompt.append(workdir);
    prompt.append("`.");
    prompt
}

/// Where a subagent works: in the sandbox of its parent, or in one that is confined
/// to a directory of it.
#[derive(Debug)]
pub enum SubagentSandbox {
    Parent,
    ScopedTo(String),
}

/// Decides where a subagent works. `cwd` is the resolved directory that was asked
/// for, if any, and whether it is a directory.
pub fn resolve_subagent_sandbox(cwd: Option<(String, bool)>) -> (r: Result<SubagentSandbox, String>)
    ensures
        match cwd {
            None => r == Ok::<SubagentSandbox, String>(SubagentSandbox::Parent),
            Some((path, true)) => r == Ok::<SubagentSandbox, String>(
                SubagentSandbox::ScopedTo(path),
            ),
            Some((path, false)) => r matches Err(message) && message@
                == "Task cwd is not a directory: "@ + path@,
        },
{
    match cwd {
        None => Ok(SubagentSandbox::Parent),
        Some((path, is_dir)) => {
            if !is_dir {
                let mut message = "Task cwd is not a directory: ".to_string();
                message.append(path.as_str());
                return Err(message);
            }
            Ok(SubagentSandbox::ScopedTo(path))
        },
    }
}

/// How deep the parent of a subagent is nested; a main agent is at the top.
pub fn parent_depth(subagent_depth: Option<u32>) -> (r: u32)
    ensures
        r == (match subagent_depth {
            Some(depth) => depth,
            None => 0u32,
        }),
{
    match subagent_depth {
        Some(depth) => depth,
        None => 0,
    }
}

/// The messages from the system.
pub open spec fn system_messages(messages: Seq<Message>) -> Seq<Message> {
    messages.filter(|m: Message| m.role is System)
}

/// The messages from anyone but the system.
pub open spec fn other_messages(messages: Seq<Message>) -> Seq<Message> {
    messages.filter(|m: Message| !(m.role is System))
}

/// A conversation that opens with its system message, where it has one.
pub open spec fn with_system_first(messages: Seq<Message>) -> Seq<Message> {
    if (messages.len() > 0 && messages[0].role is System) || system_messages(messages).len() == 0 {
        messages
    } else {
        seq![system_messages(messages)[0]] + other_messages(messages)
    }
}

proof fn lemma_filters_step(messages: Seq<Message>, i: int)
    requires
        0 <= i < messages.len(),
    ensures
        messages[i].role is System ==> system_messages(messages.take(i + 1)) == system_messages(
            messages.take(i),
        ).push(messages[i]) && other_messages(messages.take(i + 1)) == other_messages(
            messages.take(i),
        ),
        !(messages[i].role is System) ==> other_messages(messages.take(i + 1)) == other_messages(
            messages.take(i),
        ).push(messages[i]) && system_messages(messages.take(i + 1)) == system_messages(
            messages.take(i),
        ),
{
    reveal(Seq::filter);
    assert(messages.take(i + 1).drop_last() == messages.take(i));
    assert(messages.take(i + 1).last() == messages[i]);
}

/// Moves the first system message to the front, and drops the others, where the
/// conversation does not open with one.
pub fn ensure_subagent_system_message(messages: &mut Vec<Message>)
    ensures
        final(messages)@ == with_system_first(old(messages)@),
{
    if messages.len() > 0 && messages[0].role == Role::System {
        return ;
    }
    let ghost all = messages@;
    let total: usize = messages.len();
    let mut system: Option<Message> = None;
    let mut kept: usize = 0;
    let mut i: usize = 0;
    proof {
        reveal(Seq::filter);
        assert(all.take(0) == Seq::<Message>::empty());
        assert(messages@ == other_messages(all.take(0)) + all.skip(0));
    }
    while i < total
        invariant
            i <= total,
            total == all.len(),
            kept == other_messages(all.take(i as int)).len(),
            messages@ == other_messages(all.take(i as int)) + all.skip(i as int),
            match system {
                Some(m) => system_messages(all.take(i as int)).len() > 0 && system_messages(
                    all.take(i as int),
                )[0] == m,
                None => system_messages(all.take(i as int)).len() == 0,
            },
        decreases total - i,
    {
        let ghost others = other_messages(all.take(i as int));
        proof {
            lemma_filters_step(all, i as int);
            assert(messages@[kept as int] == all[i as int]);
        }
        if messages[kept].role == Role::System {
            let message = messages.remove(kept);
            if system.is_none() {
                system = Some(message);
            }
            proof {
                assert(messages@ == others + all.skip(i + 1));
            }
        } else {
            kept += 1;
            proof {
                assert(messages@ == others.push(all[i as int]) + all.skip(i + 1));
            }
        }
        i += 1;
    }
    proof {
        assert(all.take(total as int) == all);
        assert(messages@ == other_messages(all));
    }
    match system {
        Some(message) => {
            messages.insert(0, message);
            proof {
                assert(messages@ == seq![message] + other_messages(all));
            }
        },
        None => {
            proof {
                lemma_no_system(all);
            }
        },
    }
}

proof fn lemma_no_system(messages: Seq<Message>)
    requires
        system_messages(messages).len() == 0,
    ensures
        other_messages(messages) == messages,
    decreases messages.len(),
{
    reveal(Seq::filter);
    if messages.len() > 0 {
        let n = messages.len() - 1;
        assert(messages.take(messages.len() as int) == messages);
        assert(messages.take(n) == messages.drop_last());
        lemma_filters_step(messages, n);
        lemma_no_system(messages.drop_last());
        assert(messages.drop_last().push(messages.last()) == messages);
    }
}

/// A conversation that holds a system message opens with one once it was set right,
/// and keeps every other message in its order.
pub proof fn system_message_leads(messages: Seq<Message>)
    ensures
        system_messages(messages).len() > 0 ==> with_system_first(messages)[0].role is System,
        other_messages(with_system_first(messages)) == other_messages(messages),
        with_system_first(with_system_first(messages)) == with_system_first(messages),
{
    let result = with_system_first(messages);
    if result != messages {
        let system = system_messages(messages)[0];
        lemma_filter_holds(messages);
        let others = other_messages(messages);
        lemma_others_of_others(messages);
        let n = others.len() as int;
        lemma_filter_behind_system(result, others, n);
        assert(result.take(n + 1) == result);
        assert(others.take(n) == others);
    }
}

proof fn lemma_filter_holds(messages: Seq<Message>)
    ensures
        forall|i: int| 0 <= i < system_messages(messages).len() ==> (#[trigger] system_messages(
            messages,
        )[i]).role is System,
    decreases messages.len(),
{
    reveal(Seq::filter);
    if messages.len() > 0 {
        lemma_filter_holds(messages.drop_last());
    }
}

proof fn lemma_others_of_others(messages: Seq<Message>)
    ensures
        forall|i: int| 0 <= i < other_messages(messages).len() ==> !((#[trigger] other_messages(
            messages,
        )[i]).role is System),
    decreases messages.len(),
{
    reveal(Seq::filter);
    if messages.len() > 0 {
        lemma_others_of_others(messages.drop_last());
    }
}

proof fn lemma_filter_behind_system(all: Seq<Message>, others: Seq<Message>, n: int)
    requires
        0 <= n <= others.len(),
        all.len() == others.len() + 1,
        all[0].role is System,
        forall|i: int| 0 <= i < others.len() ==> !((#[trigger] others[i]).role is System),
        forall|i: int| 0 <= i < others.len() ==> #[trigger] others[i] == all[i + 1],
    ensures
        other_messages(all.take(n + 1)) == others.take(n),
    decreases n,
{
    lemma_filters_step(all, n);
    if n == 0 {
        assert(all.take(0) == Seq::<Message>::empty());
        lemma_nobody_else();
        assert(others.take(0) == Seq::<Message>::empty());
    } else {
        lemma_filter_behind_system(all, others, n - 1);
        assert(others[n - 1] == all[n]);
        assert(others.take(n - 1).push(others[n - 1]) == others.take(n));
    }
}

proof fn lemma_nobody_else()
    ensures
        other_messages(Seq::empty()) == Seq::<Message>::empty(),
{
    reveal(Seq::filter);
}

/// The text of a turn that used up its steps: what the model said last, with the
/// notice behind it.
pub open spec fn incomplete_text(last: Seq<char>, max_steps: u32) -> Seq<char> {
    if trimmed(last).len() == 0 {
        max_turns_text(max_steps)
    } else {
        last + "\n\n"@ + max_turns_text(max_steps)
    }
}

/// The conversation of a subagent. It is kept in memory only.
pub struct SubagentTurn {
    messages: Vec<Message>,
    steer: bool,
}

/// The contents of a [`SubagentTurn`].
pub struct SubagentTurnState {
    pub messages: Seq<MessageText>,
    pub steer: bool,
}

impl View for SubagentTurn {
    type V = SubagentTurnState;

    closed spec fn view(&self) -> SubagentTurnState {
        SubagentTurnState {
            messages: message_texts(self.messages@),
            steer: self.steer,
        }
    }
}

impl SubagentTurn {
    /// A conversation that holds the system prompt. `steer` tells whether the session
    /// policy lets the subagent be steered.
    pub fn new(profile: SubagentProfile, workdir: &str, steer: bool) -> (r: Self)
        ensures
            r@.messages == seq![
                plain_message(Role::System, system_prompt_text(profile, workdir@)),
            ],
            r@.steer == steer,
    {
        let prompt = subagent_system_prompt(profile, workdir);
        let message = Message::system(prompt.as_str());
        let turn = SubagentTurn { messages: vec![message], steer };
        proof {
            assert(turn@.messages == seq![
                plain_message(Role::System, system_prompt_text(profile, workdir@)),
            ]);
        }
        turn
    }

    /// Starts a turn with what the user asks for.
    pub fn prepare_turn(&mut self, user_input: &str) -> (r: TurnState)
        ensures
            final(self)@ == (SubagentTurnState {
                messages: old(self)@.messages.push(plain_message(Role::User, user_input@)),
                ..old(self)@
            }),
            is_version_4(r.turn_id@),
            r.step == 0,
            r.step_id is None,
    {
        self.push_assistant(Message::user(user_input));
        TurnState::begin()
    }

    /// Whether steering messages joined the conversation.
    pub fn inject_steer(&self) -> (r: bool)
        ensures
            r == self@.steer,
    {
        self.steer
    }

    /// Adds a message to the conversation.
    pub fn push_assistant(&mut self, message: Message)
        ensures
            final(self)@ == (SubagentTurnState {
                messages: old(self)@.messages.push(message@),
                ..old(self)@
            }),
    {
        let ghost before = message_texts(self.messages@);
        self.messages.push(message);
        proof {
            assert(message_texts(self.messages@) == before.push(message@));
        }
    }

    /// Takes over the messages that a compaction left.
    pub fn compacted(&mut self, messages: Vec<Message>)
        ensures
            final(self)@ == (SubagentTurnState {
                messages: message_texts(with_system_first(messages@)),
                ..old(self)@
            }),
    {
        self.messages = messages;
        ensure_subagent_system_message(&mut self.messages);
    }

    /// The context of the next model call, unless the turn was cancelled.
    pub fn assemble_context(&self, cancelled: bool, tools: Vec<ToolDefinition>) -> (r: Result<
        PreparedContext,
        TurnError,
    >)
        ensures
            match r {
                Ok(context) => {
                    &&& !cancelled
                    &&& message_texts(context.messages@) == self@.messages
                    &&& context.tools == tools
                    &&& context.context_epoch is None
                    &&& context.metadata is None
                    &&& context.estimate_tokens is None
                },
                Err(error) => cancelled && error == TurnError::Aborted,
            },
    {
        if cancelled {
            return Err(aborted_error());
        }
        Ok(
            PreparedContext {
                messages: copy_messages(&self.messages),
                tools,
                context_epoch: None,
                metadata: None,
                estimate_tokens: None,
            },
        )
    }

    /// Ends a turn that used up its steps: the text gets the notice, and the
    /// conversation gets the text.
    pub fn on_incomplete_turn(&mut self, max_steps: u32, final_text: &mut String)
        ensures
            final(final_text)@ == incomplete_text(old(final_text)@, max_steps),
            final(self)@ == (SubagentTurnState {
                messages: old(self)@.messages.push(
                    plain_message(Role::Assistant, incomplete_text(old(final_text)@, max_steps)),
                ),
                ..old(self)@
            }),
    {
        let notice = max_turns_notice(max_steps);
        if trim(final_text.as_str()).as_str().is_empty() {
            *final_text = notice;
        } else {
            final_text.append("\n\n");
            final_text.append(notice.as_str());
        }
        self.push_assistant(Message::assistant(final_text.as_str()));
    }
}

/// The model call of a subagent: without streaming and without context metadata.
pub fn subagent_request(model: &str, context: PreparedContext, reasoning_effort: Option<String>) -> (r:
    ModelRequest)
    ensures
        r.model@ == model@,
        r.messages == context.messages,
        r.tools == context.tools,
        !r.stream,
        r.context is None,
        r.reasoning_effort == reasoning_effort,
{
    build_request_with_reasoning(
        model,
        context.messages,
        context.tools,
        false,
        None,
        reasoning_effort,
    )
}

/// What one model call of a subagent gives.
pub fn step_result(message: Message, usage: Option<TokenUsage>) -> (r: StepResult)
    ensures
        r.message == message,
        r.usage == usage,
        r.had_tool_calls == (message@.tool_calls matches Some(calls) && calls.len() > 0),
{
    let had_tool_calls = message.has_tool_calls();
    StepResult { message, usage, had_tool_calls }
}

/// Where a conversation does not open with a system message but holds one, that one comes to
/// the front and the rest stays in order. A conversation that opens with one, or holds none,
/// is left as it is.
pub proof fn conversations_are_set_right(messages: Seq<Message>, k: int)
    requires
        0 <= k <= messages.len(),
        forall|i: int|
            0 <= i < messages.len() ==> ((#[trigger] messages[i]).role is System <==> i == k),
    ensures
        k == 0 || k == messages.len() ==> with_system_first(messages) == messages,
        0 < k < messages.len() ==> with_system_first(messages) == seq![messages[k]] + (messages.take(k)
            + messages.subrange(k + 1, messages.len() as int)),
{
    let n = messages.len() as int;
    lemma_only_system(messages, k, n);
    assert(messages.take(n) == messages);
}

proof fn lemma_only_system(messages: Seq<Message>, k: int, i: int)
    requires
        0 <= k <= messages.len(),
        0 <= i <= messages.len(),
        forall|j: int|
            0 <= j < messages.len() ==> ((#[trigger] messages[j]).role is System <==> j == k),
    ensures
        i <= k ==> system_messages(messages.take(i)).len() == 0 && other_messages(messages.take(i))
            == messages.take(i),
        i > k ==> system_messages(messages.take(i)) == seq![messages[k]] && other_messages(
            messages.take(i),
        ) == messages.take(k) + messages.subrange(k + 1, i),
    decreases i,
{
    if i == 0 {
        assert(messages.take(0) == Seq::<Message>::empty());
        lemma_nobody_else();
        lemma_no_system_in_nothing();
    } else {
        lemma_only_system(messages, k, i - 1);
        lemma_filters_step(messages, i - 1);
        lemma_takes(messages, k, i);
    }
}

proof fn lemma_no_system_in_nothing()
    ensures
        system_messages(Seq::empty()).len() == 0,
{
    reveal(Seq::filter);
}

proof fn lemma_takes(messages: Seq<Message>, k: int, i: int)
    requires
        0 <= k,
        0 < i <= messages.len(),
    ensures
        messages.take(i - 1).push(messages[i - 1]) == messages.take(i),
        i - 1 > k ==> (messages.take(k) + messages.subrange(k + 1, i - 1)).push(messages[i - 1])
            == messages.take(k) + messages.subrange(k + 1, i),
        i - 1 == k ==> messages.take(k) + messages.subrange(k + 1, i) == messages.take(k),
        forall|none: Seq<Message>|
            none.len() == 0 ==> #[trigger] none.push(messages[i - 1]) == seq![messages[i - 1]],
{
    assert(messages.take(i - 1).push(messages[i - 1]) == messages.take(i));
    if i - 1 > k {
        assert((messages.take(k) + messages.subrange(k + 1, i - 1)).push(messages[i - 1])
            == messages.take(k) + messages.subrange(k + 1, i));
    }
    if i - 1 == k {
        assert(messages.take(k) + messages.subrange(k + 1, i) == messages.take(k));
    }
    assert forall|none: Seq<Message>| none.len() == 0 implies #[trigger] none.push(messages[i - 1])
        == seq![messages[i - 1]] by {
        assert(none.push(messages[i - 1]) =~= seq![messages[i - 1]]);
    }
}

/// A subagent is told what it is and where it works.
pub proof fn subagents_are_told_where_they_work(profile: SubagentProfile, workdir: Seq<char>)
    ensures
        has_suffix(
            system_prompt_text(profile, workdir),
            "Working directory: `"@ + workdir + "`."@,
        ),
        profile is Explore ==> has_prefix(
            system_prompt_text(profile, workdir),
            "You are an explore subagent for Zene. Investigate the codebase using read-only tools"@,
        ),
        profile is Coder ==> has_prefix(
            system_prompt_text(profile, workdir),
            "You are a coder subagent for Zene. Read and modify code"@,
        ),
{
    reveal_strlit(
        "You are an explore subagent for Zene. Investigate the codebase using read-only tools (Read, Grep, Glob). Report findings concisely. Working directory: `",
    );
    reveal_strlit(
        "You are a coder subagent for Zene. Read and modify code as requested using the available tools. Working directory: `",
    );
    reveal_strlit(
        "You are an explore subagent for Zene. Investigate the codebase using read-only tools",
    );
    reveal_strlit("You are a coder subagent for Zene. Read and modify code");
    reveal_strlit("Working directory: `");
    let text = system_prompt_text(profile, workdir);
    let ending = "Working directory: `"@ + workdir + "`."@;
    assert(text.subrange(text.len() - ending.len(), text.len() as int) == ending);
    if profile is Explore {
        let start =
            "You are an explore subagent for Zene. Investigate the codebase using read-only tools"@;
        assert(text.subrange(0, start.len() as int) == start);
    } else {
        let start = "You are a coder subagent for Zene. Read and modify code"@;
        assert(text.subrange(0, start.len() as int) == start);
    }
}

/// A subagent works where its parent does, or in the directory that was asked for where that is
/// one; anything else is an error.
pub proof fn subagents_work_in_a_directory(
    cwd: Option<(String, bool)>,
    r: Result<SubagentSandbox, String>,
)
    requires
        call_ensures(resolve_subagent_sandbox, (cwd,), r),
    ensures
        cwd is None ==> (r matches Ok(sandbox) && sandbox is Parent),
        cwd matches Some((path, is_directory)) ==> (r is Ok <==> is_directory) && (is_directory ==> (
        r matches Ok(SubagentSandbox::ScopedTo(scope)) && scope@ == path@)),
{
}

/// A turn of a subagent that used up its steps says so behind what was said last, and the
/// notice alone where nothing was; the conversation gets what the caller gets.
pub proof fn incomplete_turns_say_so(
    turn: &mut SubagentTurn,
    max_steps: u32,
    final_text: &mut String,
)
    requires
        call_ensures(SubagentTurn::on_incomplete_turn, (turn, max_steps, final_text), ()),
    ensures
        has_suffix(final(final_text)@, max_turns_text(max_steps)),
        trimmed(old(final_text)@).len() > 0 ==> has_prefix(final(final_text)@, old(final_text)@),
        trimmed(old(final_text)@).len() == 0 ==> final(final_text)@ == max_turns_text(max_steps),
        final(turn)@.messages.len() == old(turn)@.messages.len() + 1,
        final(turn)@.messages.last().content == Some(final(final_text)@),
        final(turn)@.messages.last().role is Assistant,
        final(turn)@.messages.drop_last() == old(turn)@.messages,
{
    let text = final(final_text)@;
    let notice = max_turns_text(max_steps);
    assert(text.subrange(text.len() - notice.len(), text.len() as int) == notice);
    if trimmed(old(final_text)@).len() > 0 {
        assert(text.subrange(0, old(final_text)@.len() as int) == old(final_text)@);
    }
    assert(final(turn)@.messages.drop_last() == old(turn)@.messages);
}

/// The conversation of a subagent opens with its prompt, and what the user asks comes behind
/// it; a new turn starts at step 0.
pub proof fn subagent_turns_open_with_the_prompt(
    profile: SubagentProfile,
    workdir: &str,
    steer: bool,
    fresh: SubagentTurn,
    turn: &mut SubagentTurn,
    user_input: &str,
    state: TurnState,
)
    requires
        call_ensures(SubagentTurn::new, (profile, workdir, steer), fresh),
        call_ensures(SubagentTurn::prepare_turn, (turn, user_input), state),
    ensures
        fresh@.messages.len() == 1,
        fresh@.messages[0].role is System,
        fresh@.messages[0].content == Some(system_prompt_text(profile, workdir@)),
        fresh@.steer == steer,
        final(turn)@.messages.drop_last() == old(turn)@.messages,
        final(turn)@.messages.last().role is User,
        final(turn)@.messages.last().content == Some(user_input@),
        final(turn)@.steer == old(turn)@.steer,
        state.step == 0,
{
    assert(final(turn)@.messages.drop_last() == old(turn)@.messages);
}

/// The model of a subagent gets its whole conversation and the tools it was given, without
/// streaming; a cancelled turn gets nothing.
pub proof fn subagents_show_their_whole_conversation(
    turn: &SubagentTurn,
    cancelled: bool,
    tools: Vec<ToolDefinition>,
    r: Result<PreparedContext, TurnError>,
    model: &str,
    context: PreparedContext,
    effort: Option<String>,
    request: ModelRequest,
)
    requires
        call_ensures(SubagentTurn::assemble_context, (turn, cancelled, tools), r),
        call_ensures(subagent_request, (model, context, effort), request),
    ensures
        r is Err <==> cancelled,
        r matches Ok(shown) ==> message_texts(shown.messages@) == turn@.messages && shown.tools
            == tools,
        r matches Err(error) ==> error == TurnError::Aborted,
        request.model@ == model@,
        request.messages == context.messages,
        request.tools == context.tools,
        !request.stream,
        request.reasoning_effort == effort,
{
}

/// A step calls tools exactly where its message names at least one call.
pub proof fn steps_call_the_tools_they_name(
    message: Message,
    usage: Option<TokenUsage>,
    r: StepResult,
)
    requires
        call_ensures(step_result, (message, usage), r),
    ensures
        r.message == message,
        r.usage == usage,
        r.had_tool_calls <==> (message.tool_calls matches Some(calls) && calls@.len() > 0),
{
    if let Some(calls) = message.tool_calls {
        assert(call_texts(calls@).len() == calls@.len());
    }
}

/// An answer joins the conversation of a subagent at its end.
pub proof fn answers_join_at_the_end(turn: &mut SubagentTurn, message: Message)
    requires
        call_ensures(SubagentTurn::push_assistant, (turn, message), ()),
    ensures
        final(turn)@.messages == old(turn)@.messages.push(message@),
        final(turn)@ == (SubagentTurnState { messages: final(turn)@.messages, ..old(turn)@ }),
{
}

} // verus!
