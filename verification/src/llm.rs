//! Chat messages and what a model call carries.
use vstd::prelude::*;

use crate::json::{jstr, member_values, members, put, Json, JsonValue};
use crate::text::{copy_opt, opt_text};

verus! {

/// Who speaks in a message.
#[derive(Debug, Clone, Copy, PartialEq, Eq, Structural)]
pub enum Role {
    System,
    User,
    Assistant,
    Tool,
}

/// What a message stands for beside its role.
#[derive(Debug, Clone, Copy, PartialEq, Eq, Structural)]
pub enum MessageKind {
    /// A summary that stands for compacted messages.
    CompactionSummary,
    /// Any other kind.
    Other,
}

/// A tool call that the model asks for.
#[derive(Debug, Clone)]
pub struct ToolCall {
    pub id: String,
    pub name: String,
    pub arguments: String,
}

/// The texts of a [`ToolCall`].
pub struct CallText {
    pub id: Seq<char>,
    pub name: Seq<char>,
    pub arguments: Seq<char>,
}

impl View for ToolCall {
    type V = CallText;

    open spec fn view(&self) -> CallText {
        CallText { id: self.id@, name: self.name@, arguments: self.arguments@ }
    }
}

impl ToolCall {
    /// The same call again.
    pub fn copy(&self) -> (r: Self)
        ensures
            r@ == self@,
    {
        ToolCall {
            id: self.id.clone(),
            name: self.name.clone(),
            arguments: self.arguments.clone(),
        }
    }

    /// The name and the arguments of the call.
    pub fn clone_parts(&self) -> (r: (String, String))
        ensures
            r.0@ == self.name@,
            r.1@ == self.arguments@,
    {
        (self.name.clone(), self.arguments.clone())
    }
}

/// The texts of a list of tool calls.
pub open spec fn call_texts(calls: Seq<ToolCall>) -> Seq<CallText> {
    Seq::new(calls.len(), |i: int| calls[i]@)
}

/// The same tool calls again.
pub fn copy_calls(calls: &Vec<ToolCall>) -> (r: Vec<ToolCall>)
    ensures
        call_texts(r@) == call_texts(calls@),
{
    let mut copies: Vec<ToolCall> = Vec::new();
    let mut i: usize = 0;
    while i < calls.len()
        invariant
            i <= calls.len(),
            call_texts(copies@) == call_texts(calls@).take(i as int),
        decreases calls.len() - i,
    {
        let ghost before = call_texts(copies@);
        copies.push(calls[i].copy());
        proof {
            assert(call_texts(copies@) == before.push(calls@[i as int]@));
            assert(call_texts(calls@).take(i + 1) == before.push(calls@[i as int]@));
        }
        i += 1;
    }
    proof {
        assert(call_texts(calls@).take(calls@.len() as int) == call_texts(calls@));
    }
    copies
}

/// One message of a conversation.
#[derive(Debug, Clone)]
pub struct Message {
    pub role: Role,
    pub content: Option<String>,
    pub tool_calls: Option<Vec<ToolCall>>,
    pub tool_call_id: Option<String>,
    pub name: Option<String>,
    pub kind: Option<MessageKind>,
}

/// The contents of a [`Message`].
pub struct MessageText {
    pub role: Role,
    pub content: Option<Seq<char>>,
    pub tool_calls: Option<Seq<CallText>>,
    pub tool_call_id: Option<Seq<char>>,
    pub name: Option<Seq<char>>,
    pub kind: Option<MessageKind>,
}

impl View for Message {
    type V = MessageText;

    open spec fn view(&self) -> MessageText {
        MessageText {
            role: self.role,
            content: opt_text(self.content),
            tool_calls: match self.tool_calls {
                Some(calls) => Some(call_texts(calls@)),
                None => None,
            },
            tool_call_id: opt_text(self.tool_call_id),
            name: opt_text(self.name),
            kind: self.kind,
        }
    }
}

/// The contents of a list of messages.
pub open spec fn message_texts(messages: Seq<Message>) -> Seq<MessageText> {
    Seq::new(messages.len(), |i: int| messages[i]@)
}

/// The same messages again.
pub fn copy_messages(messages: &Vec<Message>) -> (r: Vec<Message>)
    ensures
        message_texts(r@) == message_texts(messages@),
{
    let mut copies: Vec<Message> = Vec::new();
    let mut i: usize = 0;
    while i < messages.len()
        invariant
            i <= messages.len(),
            message_texts(copies@) == message_texts(messages@).take(i as int),
        decreases messages.len() - i,
    {
        let ghost before = message_texts(copies@);
        copies.push(messages[i].copy());
        proof {
            assert(message_texts(copies@) == before.push(messages@[i as int]@));
            assert(message_texts(messages@).take(i + 1) == before.push(messages@[i as int]@));
        }
        i += 1;
    }
    proof {
        assert(message_texts(messages@).take(messages@.len() as int) == message_texts(messages@));
    }
    copies
}

/// A message that holds only text.
pub open spec fn plain_message(role: Role, content: Seq<char>) -> MessageText {
    MessageText {
        role,
        content: Some(content),
        tool_calls: None,
        tool_call_id: None,
        name: None,
        kind: None,
    }
}

impl Message {
    fn plain(role: Role, content: &str) -> (r: Self)
        ensures
            r@ == plain_message(role, content@),
    {
        Message {
            role,
            content: Some(content.to_string()),
            tool_calls: None,
            tool_call_id: None,
            name: None,
            kind: None,
        }
    }

    /// The same message again.
    pub fn copy(&self) -> (r: Self)
        ensures
            r@ == self@,
    {
        let tool_calls = match &self.tool_calls {
            Some(calls) => Some(copy_calls(calls)),
            None => None,
        };
        Message {
            role: self.role,
            content: copy_opt(&self.content),
            tool_calls,
            tool_call_id: copy_opt(&self.tool_call_id),
            name: copy_opt(&self.name),
            kind: self.kind,
        }
    }

    /// Whether the message asks for tools.
    pub fn has_tool_calls(&self) -> (r: bool)
        ensures
            r == (self@.tool_calls matches Some(calls) && calls.len() > 0),
    {
        match &self.tool_calls {
            Some(calls) => !calls.is_empty(),
            None => false,
        }
    }

    /// A message from the system.
    pub fn system(content: &str) -> (r: Self)
        ensures
            r@ == plain_message(Role::System, content@),
    {
        Message::plain(Role::System, content)
    }

    /// A message from the user.
    pub fn user(content: &str) -> (r: Self)
        ensures
            r@ == plain_message(Role::User, content@),
    {
        Message::plain(Role::User, content)
    }

    /// An answer of the model.
    pub fn assistant(content: &str) -> (r: Self)
        ensures
            r@ == plain_message(Role::Assistant, content@),
    {
        Message::plain(Role::Assistant, content)
    }

    /// An answer of the model that asks for tools.
    pub fn assistant_with_tools(content: Option<String>, calls: Vec<ToolCall>) -> (r: Self)
        ensures
            r@ == (MessageText {
                role: Role::Assistant,
                content: opt_text(content),
                tool_calls: Some(call_texts(calls@)),
                tool_call_id: None,
                name: None,
                kind: None,
            }),
    {
        Message {
            role: Role::Assistant,
            content,
            tool_calls: Some(calls),
            tool_call_id: None,
            name: None,
            kind: None,
        }
    }

    /// The output of a tool call.
    pub fn tool_result(tool_call_id: &str, name: &str, content: &str) -> (r: Self)
        ensures
            r@ == (MessageText {
                role: Role::Tool,
                content: Some(content@),
                tool_calls: None,
                tool_call_id: Some(tool_call_id@),
                name: Some(name@),
                kind: None,
            }),
    {
        Message {
            role: Role::Tool,
            content: Some(content.to_string()),
            tool_calls: None,
            tool_call_id: Some(tool_call_id.to_string()),
            name: Some(name.to_string()),
            kind: None,
        }
    }

    /// A summary that stands for compacted messages.
    pub fn compaction_summary(content: &str) -> (r: Self)
        ensures
            r@ == (MessageText {
                kind: Some(MessageKind::CompactionSummary),
                ..plain_message(Role::User, content@)
            }),
    {
        let mut message = Message::plain(Role::User, content);
        message.kind = Some(MessageKind::CompactionSummary);
        message
    }
}

/// What a model call used, as the provider reports it.
#[derive(Debug, Clone, Copy, PartialEq, Eq, Structural)]
pub struct TokenUsage {
    pub prompt_tokens: u64,
    pub completion_tokens: u64,
    pub cached_tokens: Option<u64>,
    pub gateway_hit_tokens: Option<u64>,
    pub gateway_anchor_aligned: Option<bool>,
}

/// How much of the context a request carries.
#[derive(Debug, Clone, Copy, PartialEq, Eq, Structural)]
pub enum ContextDelivery {
    Full,
    Delta,
}

/// What links a request to the context it was made from.
#[derive(Debug, Clone)]
pub struct ContextMetadata {
    pub session_id: String,
    pub context_epoch: u64,
    pub prefix_hash: Option<String>,
    pub delivery: ContextDelivery,
    pub tail_start: Option<usize>,
}

/// A tool as the model sees it. `parameters` is a JSON schema.
#[derive(Debug)]
pub struct ToolDefinition {
    pub name: String,
    pub description: String,
    pub parameters: Json,
}

/// The schema of one parameter of a tool.
pub open spec fn property_schema(kind: Seq<char>, description: Seq<char>) -> JsonValue {
    JsonValue::Object(seq![("type"@, jstr(kind)), ("description"@, jstr(description))])
}

/// The schema of one parameter of a tool.
pub fn schema_property(kind: &str, description: &str) -> (r: Json)
    ensures
        r@ == property_schema(kind@, description@),
{
    let mut out = members();
    put(&mut out, "type", Json::text(kind));
    put(&mut out, "description", Json::text(description));
    proof {
        assert(member_values(out@) == property_schema(kind@, description@)->Object_0);
    }
    Json::object(out)
}

/// A provider-level chat request.
#[derive(Debug)]
pub struct ChatRequest {
    pub model: String,
    pub messages: Vec<Message>,
    pub tools: Vec<ToolDefinition>,
    pub stream: bool,
    pub context: Option<ContextMetadata>,
    pub reasoning_effort: Option<String>,
}

/// A provider-level chat response.
#[derive(Debug, Clone)]
pub struct ChatResponse {
    pub message: Message,
    pub usage: Option<TokenUsage>,
}

/// One item of a streamed model answer.
#[derive(Debug, Clone)]
pub enum StreamEvent {
    TextDelta(String),
    ThoughtDelta(String),
    ToolCallDelta {
        index: usize,
        id: Option<String>,
        name: Option<String>,
        arguments: Option<String>,
    },
    Done { usage: Option<TokenUsage> },
}

/// Each kind of message has its own role and says what it was given, and nothing else.
pub proof fn messages_say_what_they_were_given(
    content: &str,
    system: Message,
    user: Message,
    assistant: Message,
    summary: Message,
)
    requires
        call_ensures(Message::system, (content,), system),
        call_ensures(Message::user, (content,), user),
        call_ensures(Message::assistant, (content,), assistant),
        call_ensures(Message::compaction_summary, (content,), summary),
    ensures
        system@.role is System && user@.role is User && assistant@.role is Assistant && summary@.role
            is User,
        system@.content == Some(content@) && user@.content == Some(content@) && assistant@.content
            == Some(content@) && summary@.content == Some(content@),
        system@.tool_calls is None && user@.tool_calls is None && assistant@.tool_calls is None
            && summary@.tool_calls is None,
        system@.tool_call_id is None && user@.tool_call_id is None && assistant@.tool_call_id is None
            && summary@.tool_call_id is None,
        system@.name is None && user@.name is None && assistant@.name is None && summary@.name
            is None,
        system@.kind is None && user@.kind is None && assistant@.kind is None,
        summary@.kind == Some(MessageKind::CompactionSummary),
{
}

/// The output of a tool names its call and its tool.
pub proof fn outputs_name_their_call(
    tool_call_id: &str,
    name: &str,
    content: &str,
    r: Message,
)
    requires
        call_ensures(Message::tool_result, (tool_call_id, name, content), r),
    ensures
        r@.role is Tool,
        r@.tool_call_id == Some(tool_call_id@),
        r@.name == Some(name@),
        r@.content == Some(content@),
        r@.tool_calls is None,
        r@.kind is None,
{
}

/// An answer that asks for tools holds its calls in order; it asks for some where there is one.
pub proof fn answers_hold_their_calls(
    content: Option<String>,
    calls: Vec<ToolCall>,
    r: Message,
    asks: bool,
    i: int,
)
    requires
        call_ensures(Message::assistant_with_tools, (content, calls), r),
        call_ensures(Message::has_tool_calls, (&r,), asks),
        0 <= i < calls@.len(),
    ensures
        r@.role is Assistant,
        content matches Some(text) ==> r@.content == Some(text@),
        content is None ==> r@.content is None,
        r@.tool_calls is Some && r@.tool_calls->0.len() == calls@.len(),
        r@.tool_calls->0[i].id == calls@[i].id@,
        r@.tool_calls->0[i].name == calls@[i].name@,
        r@.tool_calls->0[i].arguments == calls@[i].arguments@,
        asks,
        r@.tool_call_id is None && r@.name is None && r@.kind is None,
{
}

/// A message without calls asks for no tool.
pub proof fn messages_without_calls_ask_for_nothing(message: &Message, r: bool)
    requires
        call_ensures(Message::has_tool_calls, (message,), r),
    ensures
        message.tool_calls is None ==> !r,
        message.tool_calls matches Some(calls) ==> r == (calls@.len() > 0),
{
}

/// Copied messages are as many as there were, and each says the same.
pub proof fn copied_messages_say_the_same(messages: &Vec<Message>, r: Vec<Message>, i: int)
    requires
        call_ensures(copy_messages, (messages,), r),
        0 <= i < messages@.len(),
    ensures
        r@.len() == messages@.len(),
        r@[i]@ == messages@[i]@,
{
    assert(message_texts(r@).len() == message_texts(messages@).len());
    assert(message_texts(r@)[i] == message_texts(messages@)[i]);
}

/// The schema of a parameter tells its type and what it is for.
pub proof fn schemas_tell_type_and_purpose(kind: &str, description: &str, r: Json)
    requires
        call_ensures(schema_property, (kind, description), r),
    ensures
        r@ is Object && r@->Object_0.len() == 2,
        r@->Object_0[0] == ("type"@, JsonValue::Str(kind@)),
        r@->Object_0[1] == ("description"@, JsonValue::Str(description@)),
{
}

} // verus!
