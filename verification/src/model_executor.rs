//! Model requests and answers at the boundary to a provider, and the assembly of
//! a streamed answer.
use vstd::prelude::*;
use vstd::std_specs::convert::FromSpecImpl;

use crate::llm::{
    call_texts, plain_message, CallText, ChatRequest, ChatResponse, ContextMetadata, Message,
    MessageText, Role, StreamEvent, TokenUsage, ToolCall, ToolDefinition,
};
use crate::text::{
    decimal, decimal_text, has_text, lemma_decimal_injective, lemma_not_blank, opt_text, texts,
    trim, trimmed,
};

verus! {

/// Turn-facing model request; provider details stay behind adapters.
#[derive(Debug)]
pub struct ModelRequest {
    pub model: String,
    pub messages: Vec<Message>,
    pub tools: Vec<ToolDefinition>,
    pub stream: bool,
    pub context: Option<ContextMetadata>,
    pub reasoning_effort: Option<String>,
}

/// Turn-facing model response.
#[derive(Debug, Clone)]
pub struct ModelResponse {
    pub message: Message,
    pub usage: Option<TokenUsage>,
}

/// A model request as a chat request.
pub open spec fn as_chat(request: ModelRequest) -> ChatRequest {
    ChatRequest {
        model: request.model,
        messages: request.messages,
        tools: request.tools,
        stream: request.stream,
        context: request.context,
        reasoning_effort: request.reasoning_effort,
    }
}

/// A chat request as a model request.
pub open spec fn as_model(request: ChatRequest) -> ModelRequest {
    ModelRequest {
        model: request.model,
        messages: request.messages,
        tools: request.tools,
        stream: request.stream,
        context: request.context,
        reasoning_effort: request.reasoning_effort,
    }
}

impl From<ModelRequest> for ChatRequest {
    fn from(request: ModelRequest) -> (r: Self) {
        ChatRequest {
            model: request.model,
            messages: request.messages,
            tools: request.tools,
            stream: request.stream,
            context: request.context,
            reasoning_effort: request.reasoning_effort,
        }
    }
}

impl FromSpecImpl<ModelRequest> for ChatRequest {
    open spec fn obeys_from_spec() -> bool {
        true
    }

    open spec fn from_spec(request: ModelRequest) -> Self {
        as_chat(request)
    }
}

impl From<ChatRequest> for ModelRequest {
    fn from(request: ChatRequest) -> (r: Self) {
        ModelRequest {
            model: request.model,
            messages: request.messages,
            tools: request.tools,
            stream: request.stream,
            context: request.context,
            reasoning_effort: request.reasoning_effort,
        }
    }
}

impl FromSpecImpl<ChatRequest> for ModelRequest {
    open spec fn obeys_from_spec() -> bool {
        true
    }

    open spec fn from_spec(request: ChatRequest) -> Self {
        as_model(request)
    }
}

impl From<ModelResponse> for ChatResponse {
    fn from(response: ModelResponse) -> (r: Self) {
        ChatResponse { message: response.message, usage: response.usage }
    }
}

impl FromSpecImpl<ModelResponse> for ChatResponse {
    open spec fn obeys_from_spec() -> bool {
        true
    }

    open spec fn from_spec(response: ModelResponse) -> Self {
        ChatResponse { message: response.message, usage: response.usage }
    }
}

impl From<ChatResponse> for ModelResponse {
    fn from(response: ChatResponse) -> (r: Self) {
        ModelResponse { message: response.message, usage: response.usage }
    }
}

impl FromSpecImpl<ChatResponse> for ModelResponse {
    open spec fn obeys_from_spec() -> bool {
        true
    }

    open spec fn from_spec(response: ChatResponse) -> Self {
        ModelResponse { message: response.message, usage: response.usage }
    }
}

/// A request that goes to the provider form and back is unchanged.
pub proof fn request_round_trips(model: ModelRequest, chat: ChatRequest)
    ensures
        as_model(as_chat(model)) == model,
        as_chat(as_model(chat)) == chat,
{
}

/// A request without a reasoning effort.
pub fn build_request(
    model: &str,
    messages: Vec<Message>,
    tools: Vec<ToolDefinition>,
    stream: bool,
    context: Option<ContextMetadata>,
) -> (r: ModelRequest)
    ensures
        r.model@ == model@,
        r.messages == messages,
        r.tools == tools,
        r.stream == stream,
        r.context == context,
        r.reasoning_effort is None,
{
    build_request_with_reasoning(model, messages, tools, stream, context, None)
}

/// A request with the given reasoning effort.
pub fn build_request_with_reasoning(
    model: &str,
    messages: Vec<Message>,
    tools: Vec<ToolDefinition>,
    stream: bool,
    context: Option<ContextMetadata>,
    reasoning_effort: Option<String>,
) -> (r: ModelRequest)
    ensures
        r.model@ == model@,
        r.messages == messages,
        r.tools == tools,
        r.stream == stream,
        r.context == context,
        r.reasoning_effort == reasoning_effort,
{
    ModelRequest { model: model.to_string(), messages, tools, stream, context, reasoning_effort }
}

/// Which remedies for a context overflow have been tried.
#[derive(Debug)]
pub struct OverflowRetryState {
    truncated: bool,
    summarized: bool,
}

impl Default for OverflowRetryState {
    fn default() -> (r: Self)
        ensures
            r@ == (false, false),
    {
        OverflowRetryState { truncated: false, summarized: false }
    }
}

impl View for OverflowRetryState {
    type V = (bool, bool);

    closed spec fn view(&self) -> (bool, bool) {
        (self.truncated, self.summarized)
    }
}

impl OverflowRetryState {
    /// Whether truncation and summary have been tried.
    pub fn flags(&self) -> (r: (bool, bool))
        ensures
            r == self@,
    {
        (self.truncated, self.summarized)
    }

    pub fn set_flags(&mut self, truncated: bool, summarized: bool)
        ensures
            final(self)@ == (truncated, summarized),
    {
        self.truncated = truncated;
        self.summarized = summarized;
    }
}

/// A tool call while its parts arrive.
pub struct ToolCallBuilder {
    pub id: String,
    pub name: String,
    pub arguments: String,
}

impl View for ToolCallBuilder {
    type V = CallText;

    open spec fn view(&self) -> CallText {
        CallText { id: self.id@, name: self.name@, arguments: self.arguments@ }
    }
}

/// A tool call of which nothing has arrived.
pub open spec fn blank_call() -> CallText {
    CallText { id: Seq::empty(), name: Seq::empty(), arguments: Seq::empty() }
}

impl Default for ToolCallBuilder {
    fn default() -> (r: Self)
        ensures
            r@ == blank_call(),
    {
        ToolCallBuilder { id: String::new(), name: String::new(), arguments: String::new() }
    }
}

/// A tool call after one more part: id and name are replaced, arguments grow.
pub open spec fn call_with_delta(
    call: CallText,
    id: Option<Seq<char>>,
    name: Option<Seq<char>>,
    arguments: Option<Seq<char>>,
) -> CallText {
    CallText {
        id: match id {
            Some(v) => v,
            None => call.id,
        },
        name: match name {
            Some(v) => v,
            None => call.name,
        },
        arguments: match arguments {
            Some(v) => call.arguments + v,
            None => call.arguments,
        },
    }
}

/// Adds one part to a tool call.
pub fn apply_tool_call_delta(
    call: &mut ToolCallBuilder,
    id: Option<String>,
    name: Option<String>,
    arguments: Option<String>,
)
    ensures
        final(call)@ == call_with_delta(
            old(call)@,
            opt_text(id),
            opt_text(name),
            opt_text(arguments),
        ),
{
    if let Some(id) = id {
        call.id = id;
    }
    if let Some(name) = name {
        call.name = name;
    }
    if let Some(arguments) = arguments {
        call.arguments.append(arguments.as_str());
    }
}

/// The texts of the tool calls that are being built.
pub open spec fn builder_texts(calls: Seq<ToolCallBuilder>) -> Seq<CallText> {
    Seq::new(calls.len(), |i: int| calls[i]@)
}

/// Those calls that have a name, in order.
pub open spec fn named_calls(calls: Seq<CallText>) -> Seq<CallText> {
    calls.filter(|call: CallText| call.name.len() > 0)
}

/// The `k`-th try for an id: the base itself, then `base_1`, `base_2` and so on.
pub open spec fn candidate(base: Seq<char>, k: nat) -> Seq<char> {
    if k == 0 {
        base
    } else {
        base + "_"@ + decimal(k)
    }
}

/// Whether the `k`-th try is the first that is not used yet.
pub open spec fn first_free(base: Seq<char>, used: Seq<Seq<char>>, k: nat) -> bool {
    &&& !used.contains(candidate(base, k))
    &&& forall|j: nat| j < k ==> #[trigger] used.contains(candidate(base, j))
}

/// The first try for an id that is not used yet.
pub open spec fn free_id(base: Seq<char>, used: Seq<Seq<char>>) -> Seq<char> {
    candidate(base, choose|k: nat| first_free(base, used, k))
}

/// The id of the call at an index before it is made unique: a blank id is replaced
/// by one made from the index.
pub open spec fn base_id(id: Seq<char>, index: nat) -> Seq<char> {
    if trimmed(id).len() == 0 {
        "call_"@ + decimal(index)
    } else {
        id
    }
}

/// Unique ids for a list of calls, each made from its own id.
pub open spec fn unique_ids(ids: Seq<Seq<char>>) -> Seq<Seq<char>>
    decreases ids.len(),
{
    if ids.len() == 0 {
        Seq::empty()
    } else {
        let before = unique_ids(ids.drop_last());
        before.push(free_id(base_id(ids.last(), (ids.len() - 1) as nat), before))
    }
}

/// The ids of a list of calls.
pub open spec fn call_ids(calls: Seq<CallText>) -> Seq<Seq<char>> {
    calls.map_values(|call: CallText| call.id)
}

/// The calls with unique ids, otherwise unchanged.
pub open spec fn normalized(calls: Seq<CallText>) -> Seq<CallText> {
    let ids = unique_ids(call_ids(calls));
    Seq::new(calls.len(), |i: int| CallText { id: ids[i], ..calls[i] })
}

/// The message that a finished answer gives.
pub open spec fn assembled(text: Seq<char>, calls: Seq<CallText>) -> MessageText {
    let kept = normalized(named_calls(calls));
    if kept.len() == 0 {
        plain_message(Role::Assistant, text)
    } else {
        MessageText {
            role: Role::Assistant,
            content: if text.len() == 0 {
                None
            } else {
                Some(text)
            },
            tool_calls: Some(kept),
            tool_call_id: None,
            name: None,
            kind: None,
        }
    }
}

proof fn lemma_candidate_injective(base: Seq<char>, j: nat, k: nat)
    requires
        candidate(base, j) == candidate(base, k),
    ensures
        j == k,
{
    reveal_strlit("_");
    let n = base.len() as int;
    if j == 0 && k > 0 {
        assert(candidate(base, k).len() > n);
    } else if k == 0 && j > 0 {
        assert(candidate(base, j).len() > n);
    } else if j > 0 {
        assert(candidate(base, j).skip(n + 1) == decimal(j));
        assert(candidate(base, k).skip(n + 1) == decimal(k));
        lemma_decimal_injective(j, k);
    }
}

/// As many tries as there are used ids, and one more, cannot all be in use.
proof fn lemma_tries_bounded(base: Seq<char>, used: Seq<Seq<char>>, n: nat)
    requires
        forall|j: nat| j < n ==> #[trigger] used.contains(candidate(base, j)),
    ensures
        n <= used.len(),
{
    let tries = Seq::new(n, |j: int| candidate(base, j as nat));
    assert(tries.no_duplicates()) by {
        assert forall|i: int, j: int| 0 <= i < j < n implies tries[i] != tries[j] by {
            if tries[i] == tries[j] {
                lemma_candidate_injective(base, i as nat, j as nat);
            }
        }
    }
    tries.unique_seq_to_set();
    assert(tries.to_set().subset_of(used.to_set())) by {
        assert forall|t: Seq<char>| tries.to_set().contains(t) implies used.to_set().contains(t) by {
            let j = choose|j: int| 0 <= j < tries.len() && tries[j] == t;
            assert(used.contains(candidate(base, j as nat)));
        }
    }
    used.lemma_cardinality_of_set();
    vstd::set_lib::lemma_len_subset(tries.to_set(), used.to_set());
}

proof fn lemma_first_free_unique(base: Seq<char>, used: Seq<Seq<char>>, k: nat)
    requires
        first_free(base, used, k),
    ensures
        free_id(base, used) == candidate(base, k),
{
    let c = choose|k: nat| first_free(base, used, k);
    assert(first_free(base, used, c));
    if c < k {
        assert(used.contains(candidate(base, c)));
    } else if k < c {
        assert(used.contains(candidate(base, k)));
    }
}

proof fn lemma_first_free_exists(base: Seq<char>, used: Seq<Seq<char>>, k: nat)
    requires
        forall|j: nat| j < k ==> #[trigger] used.contains(candidate(base, j)),
        k <= used.len(),
    ensures
        exists|c: nat| first_free(base, used, c),
    decreases used.len() - k,
{
    if used.contains(candidate(base, k)) {
        assert forall|j: nat| j < k + 1 implies #[trigger] used.contains(candidate(base, j)) by {}
        lemma_tries_bounded(base, used, k + 1);
        lemma_first_free_exists(base, used, k + 1);
    } else {
        assert(first_free(base, used, k));
    }
}

proof fn lemma_candidate_not_blank(id: Seq<char>, index: nat, k: nat)
    ensures
        trimmed(candidate(base_id(id, index), k)).len() > 0,
{
    reveal_strlit("call_");
    reveal_strlit("_");
    let base = base_id(id, index);
    let made = candidate(base, k);
    if k > 0 {
        assert(made[base.len() as int] == '_');
        lemma_not_blank(made, base.len() as int);
    } else if trimmed(id).len() == 0 {
        assert(made[0] == 'c');
        lemma_not_blank(made, 0);
    }
}

/// Whatever ids the calls came with, no two of the resulting ids are the same, and none
/// is blank.
pub proof fn unique_ids_are_distinct(ids: Seq<Seq<char>>)
    ensures
        unique_ids(ids).len() == ids.len(),
        unique_ids(ids).no_duplicates(),
        forall|i: int| 0 <= i < ids.len() ==> trimmed(#[trigger] unique_ids(ids)[i]).len() > 0,
    decreases ids.len(),
{
    if ids.len() > 0 {
        let before = unique_ids(ids.drop_last());
        let base = base_id(ids.last(), (ids.len() - 1) as nat);
        unique_ids_are_distinct(ids.drop_last());
        lemma_first_free_exists(base, before, 0);
        let c = choose|k: nat| first_free(base, before, k);
        assert(first_free(base, before, c));
        assert(!before.contains(free_id(base, before)));
        lemma_candidate_not_blank(ids.last(), (ids.len() - 1) as nat, c);
    }
}

/// Ids that are distinct and not blank are kept.
pub proof fn distinct_ids_are_kept(ids: Seq<Seq<char>>)
    requires
        ids.no_duplicates(),
        forall|i: int| 0 <= i < ids.len() ==> trimmed(#[trigger] ids[i]).len() > 0,
    ensures
        unique_ids(ids) == ids,
    decreases ids.len(),
{
    if ids.len() > 0 {
        let rest = ids.drop_last();
        assert forall|i: int| 0 <= i < rest.len() implies trimmed(#[trigger] rest[i]).len() > 0 by {
            assert(rest[i] == ids[i]);
        }
        assert(rest.no_duplicates());
        distinct_ids_are_kept(rest);
        assert(trimmed(ids[ids.len() - 1]).len() > 0);
        assert(!rest.contains(ids.last()));
        assert(first_free(ids.last(), rest, 0));
        lemma_first_free_unique(ids.last(), rest, 0);
        assert(rest.push(ids.last()) == ids);
    }
}

/// Gives each call a unique id, made from its own.
pub fn normalize_tool_calls(calls: Vec<ToolCall>) -> (r: Vec<ToolCall>)
    ensures
        call_texts(r@) == normalized(call_texts(calls@)),
{
    let ghost before = call_texts(calls@);
    let ghost ids = call_ids(before);
    let mut calls = calls;
    let mut used: Vec<String> = Vec::new();
    let n: usize = calls.len();
    let mut index: usize = 0;
    proof {
        assert(ids.take(0) == Seq::<Seq<char>>::empty());
        assert(texts(used@) == unique_ids(ids.take(0)));
    }
    while index < n
        invariant
            index <= n == calls.len() == before.len(),
            ids == call_ids(before),
            texts(used@) == unique_ids(ids.take(index as int)),
            used.len() == index,
            forall|i: int| 0 <= i < index ==> #[trigger] calls@[i]@ == (CallText {
                id: texts(used@)[i],
                ..before[i]
            }),
            forall|i: int| index <= i < n ==> #[trigger] calls@[i]@ == before[i],
        decreases n - index,
    {
        let ghost taken = texts(used@);
        proof {
            assert(calls@[index as int]@ == before[index as int]);
            assert(ids.take(index + 1).drop_last() == ids.take(index as int));
            assert(ids.take(index + 1).last() == before[index as int].id);
        }
        let blank = trim(calls[index].id.as_str()).as_str().is_empty();
        let base: String = if blank {
            let mut made = "call_".to_string();
            made.append(decimal_text(index as u64).as_str());
            made
        } else {
            calls[index].id.clone()
        };
        proof {
            assert(base@ == base_id(ids[index as int], index as nat));
        }
        let unique = first_free_id(&base, &used);
        let kept = unique.clone();
        used.push(kept);
        let old_call = calls[index].clone_parts();
        calls.set(
            index,
            ToolCall { id: unique, name: old_call.0, arguments: old_call.1 },
        );
        proof {
            assert(texts(used@) == taken.push(unique@));
            assert forall|i: int| 0 <= i < index + 1 implies #[trigger] calls@[i]@ == (CallText {
                id: texts(used@)[i],
                ..before[i]
            }) by {
                if i < index {
                    assert(texts(used@)[i] == taken[i]);
                }
            }
        }
        index += 1;
    }
    proof {
        assert(ids.take(n as int) == ids);
        assert(call_texts(calls@) == normalized(before));
    }
    calls
}

/// The first of the tries for an id that is not used yet.
fn first_free_id(base: &String, used: &Vec<String>) -> (r: String)
    ensures
        r@ == free_id(base@, texts(used@)),
{
    let mut unique = base.clone();
    let mut suffix: usize = 0;
    while has_text(used, unique.as_str())
        invariant
            unique@ == candidate(base@, suffix as nat),
            forall|j: nat| j < suffix ==> #[trigger] texts(used@).contains(candidate(base@, j)),
            suffix <= used.len(),
        decreases used.len() - suffix,
    {
        proof {
            assert forall|j: nat| j < suffix + 1 implies #[trigger] texts(used@).contains(
                candidate(base@, j),
            ) by {}
            lemma_tries_bounded(base@, texts(used@), (suffix + 1) as nat);
        }
        suffix += 1;
        unique = base.clone();
        unique.append("_");
        unique.append(decimal_text(suffix as u64).as_str());
    }
    proof {
        assert(first_free(base@, texts(used@), suffix as nat));
        lemma_first_free_unique(base@, texts(used@), suffix as nat);
    }
    unique
}

/// Turns the parts of an answer into the message it gives.
pub fn assemble_message(text: String, builders: Vec<ToolCallBuilder>) -> (r: Message)
    ensures
        r@ == assembled(text@, builder_texts(builders@)),
{
    let ghost all = builder_texts(builders@);
    let ghost has_name = |call: CallText| call.name.len() > 0;
    let mut kept: Vec<ToolCall> = Vec::new();
    let mut i: usize = 0;
    proof {
        reveal(Seq::filter);
        assert(all.take(0).filter(has_name) == Seq::<CallText>::empty());
    }
    while i < builders.len()
        invariant
            i <= builders.len(),
            all == builder_texts(builders@),
            has_name == (|call: CallText| call.name.len() > 0),
            call_texts(kept@) == all.take(i as int).filter(has_name),
        decreases builders.len() - i,
    {
        let builder = &builders[i];
        let ghost so_far = call_texts(kept@);
        proof {
            reveal(Seq::filter);
            assert(all.take(i + 1).drop_last() == all.take(i as int));
            assert(all.take(i + 1).last() == builder@);
        }
        if !builder.name.as_str().is_empty() {
            kept.push(
                ToolCall {
                    id: builder.id.clone(),
                    name: builder.name.clone(),
                    arguments: builder.arguments.clone(),
                },
            );
            proof {
                assert(call_texts(kept@) == so_far.push(builder@));
            }
        }
        i += 1;
    }
    proof {
        assert(all.take(all.len() as int) == all);
    }
    let calls = normalize_tool_calls(kept);
    if calls.is_empty() {
        Message::assistant(text.as_str())
    } else {
        let content = if text.as_str().is_empty() {
            None
        } else {
            Some(text)
        };
        Message::assistant_with_tools(content, calls)
    }
}

/// Collects the items of a streamed answer.
pub struct StreamAccumulator {
    text: String,
    tool_calls: Vec<ToolCallBuilder>,
    usage: Option<TokenUsage>,
}

/// What a [`StreamAccumulator`] has collected.
pub struct Collected {
    pub text: Seq<char>,
    pub calls: Seq<CallText>,
    pub usage: Option<TokenUsage>,
}

impl View for StreamAccumulator {
    type V = Collected;

    closed spec fn view(&self) -> Collected {
        Collected {
            text: self.text@,
            calls: builder_texts(self.tool_calls@),
            usage: self.usage,
        }
    }
}

/// The calls with blank ones added until there are `n`.
pub open spec fn padded(calls: Seq<CallText>, n: nat) -> Seq<CallText> {
    if calls.len() >= n {
        calls
    } else {
        calls + Seq::new((n - calls.len()) as nat, |i: int| blank_call())
    }
}

/// What is collected after one more item.
pub open spec fn collected_after(before: Collected, event: StreamEvent) -> Collected {
    match event {
        StreamEvent::TextDelta(delta) => Collected { text: before.text + delta@, ..before },
        StreamEvent::ThoughtDelta(_) => before,
        StreamEvent::ToolCallDelta { index, id, name, arguments } => {
            let calls = padded(before.calls, (index + 1) as nat);
            Collected {
                calls: calls.update(
                    index as int,
                    call_with_delta(
                        calls[index as int],
                        opt_text(id),
                        opt_text(name),
                        opt_text(arguments),
                    ),
                ),
                ..before
            }
        },
        StreamEvent::Done { usage } => Collected { usage, ..before },
    }
}

impl Default for StreamAccumulator {
    fn default() -> (r: Self)
        ensures
            r@ == (Collected { text: Seq::empty(), calls: Seq::empty(), usage: None }),
    {
        let r = StreamAccumulator { text: String::new(), tool_calls: Vec::new(), usage: None };
        proof {
            assert(builder_texts(r.tool_calls@) == Seq::<CallText>::empty());
        }
        r
    }
}

impl StreamAccumulator {
    /// Takes in one item and says whether it ends the answer.
    pub fn apply(&mut self, event: &StreamEvent) -> (r: bool)
        requires
            event matches StreamEvent::ToolCallDelta { index, .. } ==> index < usize::MAX,
        ensures
            final(self)@ == collected_after(old(self)@, *event),
            r == (event is Done),
    {
        match event {
            StreamEvent::TextDelta(delta) => {
                self.text.append(delta.as_str());
                false
            },
            StreamEvent::ThoughtDelta(_) => false,
            StreamEvent::ToolCallDelta { index, id, name, arguments } => {
                let ghost start = builder_texts(self.tool_calls@);
                let at: usize = *index;
                while self.tool_calls.len() <= at
                    invariant
                        at < usize::MAX,
                        start.len() <= self.tool_calls.len(),
                        self.tool_calls.len() <= at + 1 || self.tool_calls.len() == start.len(),
                        builder_texts(self.tool_calls@) == padded(
                            start,
                            self.tool_calls@.len(),
                        ),
                        self.text == old(self).text,
                        self.usage == old(self).usage,
                    decreases at + 1 - self.tool_calls.len(),
                {
                    let ghost before = builder_texts(self.tool_calls@);
                    self.tool_calls.push(ToolCallBuilder::default());
                    proof {
                        assert(builder_texts(self.tool_calls@) == before.push(blank_call()));
                        assert(padded(start, self.tool_calls@.len()) == before.push(blank_call()));
                    }
                }
                let ghost calls = builder_texts(self.tool_calls@);
                proof {
                    assert(calls == padded(start, (at + 1) as nat));
                }
                apply_tool_call_delta(
                    &mut self.tool_calls[at],
                    id.clone(),
                    name.clone(),
                    arguments.clone(),
                );
                proof {
                    assert(builder_texts(self.tool_calls@) == calls.update(
                        at as int,
                        call_with_delta(
                            calls[at as int],
                            opt_text(*id),
                            opt_text(*name),
                            opt_text(*arguments),
                        ),
                    ));
                }
                false
            },
            StreamEvent::Done { usage } => {
                self.usage = *usage;
                true
            },
        }
    }

    /// Whether any text has arrived.
    pub fn has_text(&self) -> (r: bool)
        ensures
            r == (self@.text.len() > 0),
    {
        !self.text.as_str().is_empty()
    }

    /// The message and the usage of the answer.
    pub fn finish(self) -> (r: (Message, Option<TokenUsage>))
        ensures
            r.0@ == assembled(self@.text, self@.calls),
            r.1 == self@.usage,
    {
        let usage = self.usage;
        (assemble_message(self.text, self.tool_calls), usage)
    }
}

/// What is collected from a whole stream.
pub open spec fn collected_from(events: Seq<StreamEvent>) -> Collected
    decreases events.len(),
{
    if events.len() == 0 {
        Collected { text: Seq::empty(), calls: Seq::empty(), usage: None }
    } else {
        collected_after(collected_from(events.drop_last()), events.last())
    }
}

/// The text deltas of a stream, one behind the other.
pub open spec fn streamed_text(events: Seq<StreamEvent>) -> Seq<char>
    decreases events.len(),
{
    if events.len() == 0 {
        Seq::empty()
    } else {
        streamed_text(events.drop_last()) + (match events.last() {
            StreamEvent::TextDelta(delta) => delta@,
            _ => Seq::empty(),
        })
    }
}

/// The argument deltas of a stream for the tool call at an index, one behind the other.
pub open spec fn streamed_arguments(events: Seq<StreamEvent>, at: int) -> Seq<char>
    decreases events.len(),
{
    if events.len() == 0 {
        Seq::empty()
    } else {
        streamed_arguments(events.drop_last(), at) + (match events.last() {
            StreamEvent::ToolCallDelta { index, arguments: Some(delta), .. } => if index == at {
                delta@
            } else {
                Seq::empty()
            },
            _ => Seq::empty(),
        })
    }
}

/// Whatever the stream brings in between, the collected text is all its text deltas in
/// order, and the arguments of each tool call are all the argument deltas for its index.
pub proof fn deltas_are_joined_in_order(events: Seq<StreamEvent>)
    ensures
        collected_from(events).text == streamed_text(events),
        forall|i: int|
            0 <= i < collected_from(events).calls.len() ==> (#[trigger] collected_from(
                events,
            ).calls[i]).arguments == streamed_arguments(events, i),
        forall|i: int|
            i >= collected_from(events).calls.len() ==> #[trigger] streamed_arguments(events, i)
                == Seq::<char>::empty(),
    decreases events.len(),
{
    if events.len() > 0 {
        let before = collected_from(events.drop_last());
        let now = collected_from(events);
        deltas_are_joined_in_order(events.drop_last());
        let none = Seq::<char>::empty();
        assert forall|t: Seq<char>| #[trigger] (t + none) == t by {}
        assert forall|i: int| 0 <= i < now.calls.len() implies (#[trigger] now.calls[i]).arguments
            == streamed_arguments(events, i) by {
            let earlier = streamed_arguments(events.drop_last(), i);
            assert(earlier + none == earlier);
            if i >= before.calls.len() {
                assert(earlier == none);
                assert(none + none == none);
            }
        }
        assert forall|i: int| i >= now.calls.len() implies #[trigger] streamed_arguments(events, i)
            == none by {
            assert(streamed_arguments(events.drop_last(), i) == none);
            assert(none + none == none);
        }
        assert(streamed_text(events.drop_last()) + none == streamed_text(events.drop_last()));
    }
}

/// A part of a tool call touches no other call, and gives its own call the id and the
/// name that it brings. Calls whose parts have not come yet are blank.
pub proof fn parts_reach_their_own_call(
    before: Collected,
    index: usize,
    id: Option<String>,
    name: Option<String>,
    arguments: Option<String>,
)
    requires
        index < usize::MAX,
    ensures
        ({
            let after = collected_after(
                before,
                StreamEvent::ToolCallDelta { index, id, name, arguments },
            );
            let n = before.calls.len();
            &&& after.text == before.text
            &&& after.usage == before.usage
            &&& after.calls.len() == (if n > index {
                n as int
            } else {
                index + 1
            })
            &&& forall|i: int|
                0 <= i < after.calls.len() && i != index ==> #[trigger] after.calls[i] == (if i < n {
                    before.calls[i]
                } else {
                    CallText { id: Seq::empty(), name: Seq::empty(), arguments: Seq::empty() }
                })
            &&& id matches Some(given) ==> after.calls[index as int].id == given@
            &&& name matches Some(given) ==> after.calls[index as int].name == given@
            &&& id is None && index < n ==> after.calls[index as int].id
                == before.calls[index as int].id
            &&& name is None && index < n ==> after.calls[index as int].name
                == before.calls[index as int].name
        }),
{
}

/// Thoughts leave no trace in what is collected, and the end of a stream brings its usage
/// and nothing else.
pub proof fn thoughts_and_ends_add_no_text(before: Collected, thought: String, usage: Option<TokenUsage>)
    ensures
        collected_after(before, StreamEvent::ThoughtDelta(thought)) == before,
        collected_after(before, StreamEvent::Done { usage }).text == before.text,
        collected_after(before, StreamEvent::Done { usage }).calls == before.calls,
        collected_after(before, StreamEvent::Done { usage }).usage == usage,
{
}

/// A finished answer whose calls all have names keeps each of them, in order, with its
/// name and arguments; its text stands beside them, and is left out where it is empty.
pub proof fn named_calls_are_all_kept(text: Seq<char>, calls: Seq<CallText>)
    requires
        calls.len() > 0,
        forall|i: int| 0 <= i < calls.len() ==> (#[trigger] calls[i]).name.len() > 0,
    ensures
        ({
            let message = assembled(text, calls);
            &&& message.role is Assistant
            &&& message.content == (if text.len() == 0 {
                None
            } else {
                Some(text)
            })
            &&& message.tool_calls matches Some(kept) && kept.len() == calls.len() && forall|i: int|
                0 <= i < calls.len() ==> (#[trigger] kept[i]).name == calls[i].name
                    && kept[i].arguments == calls[i].arguments
        }),
{
    lemma_all_named(calls);
    unique_ids_are_distinct(call_ids(calls));
}

proof fn lemma_all_named(calls: Seq<CallText>)
    requires
        forall|i: int| 0 <= i < calls.len() ==> (#[trigger] calls[i]).name.len() > 0,
    ensures
        named_calls(calls) == calls,
    decreases calls.len(),
{
    reveal(Seq::filter);
    if calls.len() > 0 {
        assert forall|i: int| 0 <= i < calls.len() - 1 implies (#[trigger] calls.drop_last()[i]).name.len()
            > 0 by {
            assert(calls.drop_last()[i] == calls[i]);
        }
        assert(calls.last().name.len() > 0) by {
            assert(calls[calls.len() - 1].name.len() > 0);
        }
        lemma_all_named(calls.drop_last());
        assert(calls.drop_last().push(calls.last()) == calls);
    }
}

/// A call without a name does not show: the answer is the same without it. An answer
/// without calls is its text.
pub proof fn nameless_calls_do_not_show(text: Seq<char>, calls: Seq<CallText>, call: CallText)
    requires
        call.name.len() == 0,
    ensures
        assembled(text, calls.push(call)) == assembled(text, calls),
        assembled(text, Seq::empty()) == plain_message(Role::Assistant, text),
{
    reveal(Seq::filter);
    assert(calls.push(call).drop_last() == calls);
    assert(named_calls(Seq::empty()) == Seq::<CallText>::empty());
}

/// Each text delta goes behind the text that was there, and each argument delta behind the
/// arguments of its call.
pub proof fn accumulators_grow_by_their_deltas(
    accumulator: &mut StreamAccumulator,
    event: &StreamEvent,
    r: bool,
)
    requires
        call_ensures(StreamAccumulator::apply, (accumulator, event), r),
    ensures
        r <==> event is Done,
        event matches StreamEvent::TextDelta(delta) ==> final(accumulator)@.text == old(accumulator)@.text + delta@,
        !(event is TextDelta) ==> final(accumulator)@.text == old(accumulator)@.text,
        event matches StreamEvent::ToolCallDelta { index, arguments: Some(delta), .. } ==> final(accumulator)@.calls[index as int].arguments == (if index < old(accumulator)@.calls.len() {
            old(accumulator)@.calls[index as int].arguments
        } else {
            Seq::empty()
        }) + delta@,
{
}

/// The message of a finished answer holds the collected text, and the usage is the one that
/// was reported.
pub proof fn finished_answers_hold_their_text(
    accumulator: StreamAccumulator,
    r: (Message, Option<TokenUsage>),
)
    requires
        call_ensures(StreamAccumulator::finish, (accumulator,), r),
    ensures
        r.1 == accumulator@.usage,
        r.0.role is Assistant,
        accumulator@.text.len() > 0 ==> opt_text(r.0.content) == Some(accumulator@.text),
        accumulator@.calls.len() == 0 ==> r.0.tool_calls is None && opt_text(r.0.content) == Some(
            accumulator@.text,
        ),
{
    reveal(Seq::filter);
    assert(r.0@.content == opt_text(r.0.content));
    assert(r.0@.role == r.0.role);
    if accumulator@.calls.len() == 0 {
        assert(named_calls(accumulator@.calls).len() == 0);
        assert(r.0@.tool_calls is None);
    }
}

/// Text has arrived as soon as there is a character of it.
pub proof fn any_text_is_noticed(collected: &StreamAccumulator, r: bool)
    requires
        call_ensures(StreamAccumulator::has_text, (collected,), r),
    ensures
        r <==> collected@.text != Seq::<char>::empty(),
{
    if collected@.text.len() == 0 {
        assert(collected@.text == Seq::<char>::empty());
    }
}

/// A request carries the model, the messages and the tools that it was made of, and how hard to
/// think only where that was given.
pub proof fn requests_carry_what_they_are_made_of(
    model: &str,
    messages: Vec<Message>,
    tools: Vec<ToolDefinition>,
    stream: bool,
    context: Option<ContextMetadata>,
    plain: ModelRequest,
)
    requires
        call_ensures(build_request, (model, messages, tools, stream, context), plain),
    ensures
        plain.model@ == model@,
        plain.messages == messages,
        plain.tools == tools,
        plain.stream == stream,
        plain.context == context,
        plain.reasoning_effort is None,
{
}

} // verus!
