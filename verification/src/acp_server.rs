//! Agent Client Protocol server: the rules by which requests are read, routed and
//! answered, and the state of the sessions and of the active prompt.
use std::collections::VecDeque;

use vstd::prelude::*;

use crate::json::{
    inner_member, item_values, jstr, lemma_array_view, member, member_values, members, put, string_of, Json,
    JsonValue,
};
use crate::permission::{mode_name, PermissionMode};
use crate::text::{
    contains, decimal, decimal_text, has_part, has_prefix, has_suffix, lemma_trimmed_len, occurs_at,
    opt_text, same_text, signed_decimal, signed_text, starts_with, texts, trim, trimmed,
};
use crate::turn_state::QueueMode;

verus! {

/// Why a request failed.
#[derive(Debug, Clone)]
pub enum AcpError {
    /// There is no such method.
    MethodNotFound(String),
    /// Anything else, with its message.
    Failed(String),
    /// A failure of something that was being done, with what was being done.
    Wrapped { context: String, cause: String },
}

/// The message of an error.
pub open spec fn error_message(error: AcpError) -> Seq<char> {
    match error {
        AcpError::MethodNotFound(method) => "method not found: "@ + method@,
        AcpError::Failed(message) => message@,
        AcpError::Wrapped { context, .. } => context@,
    }
}

/// The message of an error with its cause.
pub open spec fn error_report(error: AcpError) -> Seq<char> {
    match error {
        AcpError::Wrapped { context, cause } => context@ + ": "@ + cause@,
        _ => error_message(error),
    }
}

impl AcpError {
    /// An error with the given message.
    pub fn failed(message: &str) -> (r: Self)
        ensures
            r is Failed,
            error_message(r) == message@,
    {
        AcpError::Failed(message.to_string())
    }

    /// The message of the error.
    pub fn message(&self) -> (r: String)
        ensures
            r@ == error_message(*self),
    {
        match self {
            AcpError::MethodNotFound(method) => {
                let mut out = "method not found: ".to_string();
                out.append(method.as_str());
                out
            },
            AcpError::Failed(message) => message.clone(),
            AcpError::Wrapped { context, .. } => context.clone(),
        }
    }

    /// The message of the error with its cause.
    pub fn report(&self) -> (r: String)
        ensures
            r@ == error_report(*self),
    {
        match self {
            AcpError::Wrapped { context, cause } => {
                let mut out = context.clone();
                out.append(": ");
                out.append(cause.as_str());
                out
            },
            _ => self.message(),
        }
    }
}

/// The kinds of protocol errors that a failed request is answered with.
#[derive(Debug, Clone, Copy, PartialEq, Eq, Structural)]
pub enum ErrorCode {
    MethodNotFound,
    InvalidParams,
    ApplicationError,
}

/// Whether a message tells of a mistake in the parameters.
pub open spec fn blames_params(message: Seq<char>) -> bool {
    ||| has_part(message, "required"@)
    ||| has_part(message, "empty prompt"@)
    ||| has_part(message, "invalid cwd"@)
    ||| has_part(message, "unsupported protocolVersion"@)
    ||| has_part(message, "unknown sessionId"@)
    ||| has_part(message, "unknown session mode"@)
    ||| has_part(message, "already has an active prompt"@)
}

/// The protocol error of a failed request.
pub open spec fn error_code(error: AcpError) -> ErrorCode {
    if error is MethodNotFound || has_prefix(error_message(error), "method not found:"@) {
        ErrorCode::MethodNotFound
    } else if blames_params(error_message(error)) {
        ErrorCode::InvalidParams
    } else {
        ErrorCode::ApplicationError
    }
}

/// The protocol error that goes with a message.
pub open spec fn message_code(message: Seq<char>) -> ErrorCode {
    if has_prefix(message, "method not found:"@) {
        ErrorCode::MethodNotFound
    } else if blames_params(message) {
        ErrorCode::InvalidParams
    } else {
        ErrorCode::ApplicationError
    }
}

/// The protocol error of a failed request is told by its message.
pub proof fn error_code_follows_the_message(error: AcpError)
    ensures
        error_code(error) == message_code(error_message(error)),
{
    if error is MethodNotFound {
        reveal_strlit("method not found: ");
        reveal_strlit("method not found:");
        assert(error_message(error).subrange(0, 17) == "method not found:"@);
    }
}

/// The protocol error of a failed request.
pub fn dispatch_error_code(error: &AcpError) -> (r: ErrorCode)
    ensures
        r == error_code(*error),
{
    let text = error.message();
    let message = text.as_str();
    let not_found = matches!(error, AcpError::MethodNotFound(_));
    if not_found || starts_with(message, "method not found:") {
        return ErrorCode::MethodNotFound;
    }
    if contains(message, "required") || contains(message, "empty prompt") || contains(
        message,
        "invalid cwd",
    ) || contains(message, "unsupported protocolVersion") || contains(message, "unknown sessionId")
        || contains(message, "unknown session mode") || contains(
        message,
        "already has an active prompt",
    ) {
        return ErrorCode::InvalidParams;
    }
    ErrorCode::ApplicationError
}

/// What a request is answered with: a result, or a kind of error with its text.
pub fn dispatch_reply(result: Result<Json, AcpError>) -> (r: Result<Json, (ErrorCode, String)>)
    ensures
        match result {
            Ok(value) => r == Ok::<Json, (ErrorCode, String)>(value),
            Err(error) => r matches Err((code, text)) && code == error_code(error) && text@
                == error_report(error),
        },
{
    match result {
        Ok(value) => Ok(value),
        Err(error) => Err((dispatch_error_code(&error), error.report())),
    }
}

/// How the work on a prompt ended.
#[derive(Debug)]
pub enum PromptOutcome {
    Answered(Json),
    Failed(AcpError),
    /// Whoever worked on the prompt is gone.
    Dropped,
}

/// What a prompt is answered with once the work on it has ended.
pub fn prompt_reply(outcome: PromptOutcome) -> (r: Result<Json, (ErrorCode, String)>)
    ensures
        match outcome {
            PromptOutcome::Answered(value) => r == Ok::<Json, (ErrorCode, String)>(value),
            PromptOutcome::Failed(error) => r matches Err((code, text)) && code == error_code(error)
                && text@ == error_report(error),
            PromptOutcome::Dropped => r matches Err((code, text)) && code
                == ErrorCode::ApplicationError && text@ == "prompt worker dropped"@,
        },
{
    match outcome {
        PromptOutcome::Answered(value) => dispatch_reply(Ok(value)),
        PromptOutcome::Failed(error) => dispatch_reply(Err(error)),
        PromptOutcome::Dropped => {
            Err((ErrorCode::ApplicationError, "prompt worker dropped".to_string()))
        },
    }
}

/// The methods of the protocol.
#[derive(Debug, Clone, Copy, PartialEq, Eq, Structural)]
pub enum AcpMethod {
    Initialize,
    SessionNew,
    SessionLoad,
    SessionResume,
    SessionList,
    SessionClose,
    SessionSetMode,
    SessionActivateTools,
    SessionDeactivateTools,
    SessionSetConfigOption,
    SessionClearQueue,
    SessionSteer,
    SessionFollowUp,
    SetSteeringMode,
    SetFollowUpMode,
    Authenticate,
}

/// The method with the given name. Prompts are not dispatched: they go through the
/// prompt queue.
pub open spec fn method_named(name: Seq<char>) -> Option<AcpMethod> {
    if name == "initialize"@ {
        Some(AcpMethod::Initialize)
    } else if name == "session/new"@ {
        Some(AcpMethod::SessionNew)
    } else if name == "session/load"@ {
        Some(AcpMethod::SessionLoad)
    } else if name == "session/resume"@ {
        Some(AcpMethod::SessionResume)
    } else if name == "session/list"@ {
        Some(AcpMethod::SessionList)
    } else if name == "session/close"@ {
        Some(AcpMethod::SessionClose)
    } else if name == "session/set_mode"@ {
        Some(AcpMethod::SessionSetMode)
    } else if name == "session/activate_tools"@ {
        Some(AcpMethod::SessionActivateTools)
    } else if name == "session/deactivate_tools"@ {
        Some(AcpMethod::SessionDeactivateTools)
    } else if name == "session/set_config_option"@ {
        Some(AcpMethod::SessionSetConfigOption)
    } else if name == "session/clear_queue"@ {
        Some(AcpMethod::SessionClearQueue)
    } else if name == "session/steer"@ {
        Some(AcpMethod::SessionSteer)
    } else if name == "session/follow_up"@ {
        Some(AcpMethod::SessionFollowUp)
    } else if name == "session/set_steering_mode"@ {
        Some(AcpMethod::SetSteeringMode)
    } else if name == "session/set_follow_up_mode"@ {
        Some(AcpMethod::SetFollowUpMode)
    } else if name == "authenticate"@ {
        Some(AcpMethod::Authenticate)
    } else {
        None
    }
}

/// Finds the method that a request names.
pub fn dispatch(name: &str) -> (r: Result<AcpMethod, AcpError>)
    ensures
        match r {
            Ok(method) => method_named(name@) == Some(method),
            Err(error) => {
                &&& method_named(name@) is None
                &&& name@ == "session/prompt"@ ==> error is Failed && error_message(error)
                    == "session/prompt is handled by the async prompt queue"@
                &&& name@ != "session/prompt"@ ==> error is MethodNotFound && error_message(error)
                    == "method not found: "@ + name@
            },
        },
{
    if same_text(name, "initialize") {
        Ok(AcpMethod::Initialize)
    } else if same_text(name, "session/new") {
        Ok(AcpMethod::SessionNew)
    } else if same_text(name, "session/load") {
        Ok(AcpMethod::SessionLoad)
    } else if same_text(name, "session/resume") {
        Ok(AcpMethod::SessionResume)
    } else if same_text(name, "session/list") {
        Ok(AcpMethod::SessionList)
    } else if same_text(name, "session/close") {
        Ok(AcpMethod::SessionClose)
    } else if same_text(name, "session/set_mode") {
        Ok(AcpMethod::SessionSetMode)
    } else if same_text(name, "session/activate_tools") {
        Ok(AcpMethod::SessionActivateTools)
    } else if same_text(name, "session/deactivate_tools") {
        Ok(AcpMethod::SessionDeactivateTools)
    } else if same_text(name, "session/set_config_option") {
        Ok(AcpMethod::SessionSetConfigOption)
    } else if same_text(name, "session/clear_queue") {
        Ok(AcpMethod::SessionClearQueue)
    } else if same_text(name, "session/steer") {
        Ok(AcpMethod::SessionSteer)
    } else if same_text(name, "session/follow_up") {
        Ok(AcpMethod::SessionFollowUp)
    } else if same_text(name, "session/set_steering_mode") {
        Ok(AcpMethod::SetSteeringMode)
    } else if same_text(name, "session/set_follow_up_mode") {
        Ok(AcpMethod::SetFollowUpMode)
    } else if same_text(name, "authenticate") {
        Ok(AcpMethod::Authenticate)
    } else if same_text(name, "session/prompt") {
        Err(AcpError::failed("session/prompt is handled by the async prompt queue"))
    } else {
        Err(AcpError::MethodNotFound(name.to_string()))
    }
}

/// What the client can do for the agent.
#[derive(Debug, Clone, Copy, PartialEq, Eq, Structural)]
pub struct ClientCapabilities {
    pub fs_read: bool,
    pub fs_write: bool,
    pub terminal: bool,
}

impl Default for ClientCapabilities {
    fn default() -> (r: Self)
        ensures
            !r.fs_read && !r.fs_write && !r.terminal,
    {
        ClientCapabilities { fs_read: false, fs_write: false, terminal: false }
    }
}

/// The value of a boolean, or false.
pub open spec fn truth(value: Option<JsonValue>) -> bool {
    value == Some(JsonValue::Bool(true))
}

/// The protocol version that a client asks for; without one it is 1.
pub open spec fn asked_version(params: JsonValue) -> u64 {
    match member(params, "protocolVersion"@) {
        Some(JsonValue::Uint(n)) => n,
        _ => 1,
    }
}

/// What the client says it can do.
pub open spec fn advertised(params: JsonValue) -> ClientCapabilities {
    let fs = inner_member(params, "clientCapabilities"@, "fs"@);
    ClientCapabilities {
        fs_read: fs is Some && truth(member(fs->0, "readTextFile"@)),
        fs_write: fs is Some && truth(member(fs->0, "writeTextFile"@)),
        terminal: truth(inner_member(params, "clientCapabilities"@, "terminal"@)),
    }
}

/// An object with no members.
pub open spec fn empty_object() -> JsonValue {
    JsonValue::Object(Seq::empty())
}

/// The answer to `initialize`.
pub open spec fn initialize_answer(version: Seq<char>) -> JsonValue {
    JsonValue::Object(
        seq![
            ("protocolVersion"@, JsonValue::Uint(1)),
            (
                "agentCapabilities"@,
                JsonValue::Object(
                    seq![
                        ("loadSession"@, JsonValue::Bool(true)),
                        (
                            "promptCapabilities"@,
                            JsonValue::Object(
                                seq![
                                    ("image"@, JsonValue::Bool(false)),
                                    ("audio"@, JsonValue::Bool(false)),
                                    ("embeddedContext"@, JsonValue::Bool(true)),
                                ],
                            ),
                        ),
                        (
                            "mcpCapabilities"@,
                            JsonValue::Object(
                                seq![
                                    ("http"@, JsonValue::Bool(false)),
                                    ("sse"@, JsonValue::Bool(false)),
                                ],
                            ),
                        ),
                        (
                            "sessionCapabilities"@,
                            JsonValue::Object(
                                seq![("list"@, empty_object()), ("resume"@, empty_object())],
                            ),
                        ),
                    ],
                ),
            ),
            (
                "agentInfo"@,
                JsonValue::Object(
                    seq![
                        ("name"@, jstr("zene"@)),
                        ("title"@, jstr("Zene"@)),
                        ("version"@, jstr(version)),
                    ],
                ),
            ),
            ("authMethods"@, JsonValue::Array(Seq::empty())),
        ],
    )
}

/// An object with no members.
pub fn no_members() -> (r: Json)
    ensures
        r@ == empty_object(),
{
    Json::object(members())
}

fn flag(value: Option<&Json>) -> (r: bool)
    ensures
        r == (match value {
            Some(found) => truth(Some(found@)),
            None => false,
        }),
{
    match value {
        Some(found) => match found.as_bool() {
            Some(b) => b,
            None => false,
        },
        None => false,
    }
}

/// Checks the protocol version and reads what the client can do. `version` is that
/// of the agent.
pub fn handle_initialize(params: &Json, version: &str) -> (r: Result<
    (ClientCapabilities, Json),
    AcpError,
>)
    ensures
        match r {
            Ok((caps, answer)) => {
                &&& asked_version(params@) == 1
                &&& caps == advertised(params@)
                &&& answer@ == initialize_answer(version@)
            },
            Err(error) => {
                &&& asked_version(params@) != 1
                &&& error_message(error) == "unsupported protocolVersion "@ + decimal(
                    asked_version(params@) as nat,
                ) + "; zene acp speaks 1"@
            },
        },
{
    let client_version: u64 = match params.get("protocolVersion") {
        Some(found) => match found.as_u64() {
            Some(n) => n,
            None => 1,
        },
        None => 1,
    };
    if client_version != 1 {
        let mut message = "unsupported protocolVersion ".to_string();
        message.append(decimal_text(client_version).as_str());
        message.append("; zene acp speaks 1");
        return Err(AcpError::Failed(message));
    }
    let mut caps = ClientCapabilities::default();
    if let Some(client) = params.get("clientCapabilities") {
        if let Some(fs) = client.get("fs") {
            caps.fs_read = flag(fs.get("readTextFile"));
            caps.fs_write = flag(fs.get("writeTextFile"));
        }
        caps.terminal = flag(client.get("terminal"));
    }
    let mut prompt = members();
    put(&mut prompt, "image", Json::Bool(false));
    put(&mut prompt, "audio", Json::Bool(false));
    put(&mut prompt, "embeddedContext", Json::Bool(true));
    let mut mcp = members();
    put(&mut mcp, "http", Json::Bool(false));
    put(&mut mcp, "sse", Json::Bool(false));
    let mut session = members();
    put(&mut session, "list", no_members());
    put(&mut session, "resume", no_members());
    let mut agent = members();
    put(&mut agent, "loadSession", Json::Bool(true));
    put(&mut agent, "promptCapabilities", Json::object(prompt));
    put(&mut agent, "mcpCapabilities", Json::object(mcp));
    put(&mut agent, "sessionCapabilities", Json::object(session));
    let mut info = members();
    put(&mut info, "name", Json::text("zene"));
    put(&mut info, "title", Json::text("Zene"));
    put(&mut info, "version", Json::text(version));
    let mut answer = members();
    put(&mut answer, "protocolVersion", Json::Uint(1));
    put(&mut answer, "agentCapabilities", Json::object(agent));
    put(&mut answer, "agentInfo", Json::object(info));
    let none: Vec<Json> = Vec::new();
    proof {
        assert(item_values(none@) == Seq::<JsonValue>::empty());
    }
    put(&mut answer, "authMethods", Json::array(none));
    proof {
        let expected = initialize_answer(version@);
        let a = expected->Object_0[1].1->Object_0;
        assert(member_values(prompt@) == a[1].1->Object_0);
        assert(member_values(mcp@) == a[2].1->Object_0);
        assert(member_values(session@) == a[3].1->Object_0);
        assert(member_values(agent@) == a);
        assert(member_values(info@) == expected->Object_0[2].1->Object_0);
        assert(member_values(answer@) == expected->Object_0);
    }
    Ok((caps, Json::object(answer)))
}

/// The text of the id under which a response comes in: only numbers and strings
/// name a request.
pub open spec fn response_id(message: JsonValue) -> Option<Seq<char>> {
    match member(message, "id"@) {
        Some(JsonValue::Uint(n)) => Some(decimal(n as nat)),
        Some(JsonValue::Int(n)) => Some(signed_decimal(n as int)),
        Some(JsonValue::Float(text)) => Some(text),
        Some(JsonValue::Str(text)) => Some(text),
        _ => None,
    }
}

/// The text of the id under which a response comes in.
pub fn response_id_text(message: &Json) -> (r: Option<String>)
    ensures
        opt_text(r) == response_id(message@),
{
    match message.get("id") {
        Some(Json::Uint(n)) => Some(decimal_text(*n)),
        Some(Json::Int(n)) => Some(signed_text(*n)),
        Some(Json::Float(text)) => Some(text.clone()),
        Some(Json::Str(text)) => Some(text.clone()),
        _ => None,
    }
}

/// What a response carries: its error, or its result, or null.
pub fn response_outcome(message: &Json) -> (r: Result<Json, Json>)
    ensures
        match r {
            Err(error) => member(message@, "error"@) == Some(error@),
            Ok(result) => member(message@, "error"@) is None && result@ == (match member(
                message@,
                "result"@,
            ) {
                Some(found) => found,
                None => JsonValue::Null,
            }),
        },
{
    if let Some(error) = message.get("error") {
        return Err(error.copy());
    }
    match message.get("result") {
        Some(result) => Ok(result.copy()),
        None => Ok(Json::Null),
    }
}

/// The error for a session that is not open.
pub open spec fn unknown_session(sid: Seq<char>) -> Seq<char> {
    "unknown sessionId: "@ + sid
}

/// The session that a request names, or the error of naming none.
pub open spec fn named_session(params: JsonValue) -> Result<Seq<char>, Seq<char>> {
    match string_of(member(params, "sessionId"@)) {
        Some(sid) => Ok(sid),
        None => Err("sessionId required"@),
    }
}

/// The result of a request with its texts, or its error message.
pub open spec fn text_result(r: Result<String, AcpError>) -> Result<Seq<char>, Seq<char>> {
    match r {
        Ok(text) => Ok(text@),
        Err(error) => Err(error_message(error)),
    }
}

/// The session that a request names.
pub fn session_param(params: &Json) -> (r: Result<String, AcpError>)
    ensures
        text_result(r) == named_session(params@),
        r matches Err(error) ==> error is Failed,
{
    match params.get_str("sessionId") {
        Some(sid) => Ok(sid),
        None => Err(AcpError::failed("sessionId required")),
    }
}

/// The working directory that a request names, or the fallback.
pub fn requested_cwd(params: &Json, fallback: &str) -> (r: String)
    ensures
        r@ == (match string_of(member(params@, "cwd"@)) {
            Some(cwd) => cwd,
            None => fallback@,
        }),
{
    match params.get_str("cwd") {
        Some(cwd) => cwd,
        None => fallback.to_string(),
    }
}

/// The error for a working directory that cannot be resolved.
pub fn invalid_cwd(cwd: &str) -> (r: AcpError)
    ensures
        error_message(r) == "invalid cwd: "@ + cwd@,
{
    let mut message = "invalid cwd: ".to_string();
    message.append(cwd);
    AcpError::Failed(message)
}

/// The text of a steer or follow-up request: the given text unless it is blank,
/// else the text of its prompt blocks.
pub open spec fn request_text(params: JsonValue, prompt_text: Seq<char>) -> Seq<char> {
    match string_of(member(params, "text"@)) {
        Some(text) => if trimmed(text).len() > 0 {
            text
        } else {
            prompt_text
        },
        None => prompt_text,
    }
}

fn is_blank(text: &str) -> (r: bool)
    ensures
        r == (trimmed(text@).len() == 0),
{
    trim(text).as_str().is_empty()
}

/// The text of a steer or follow-up request. `prompt_text` is that of its prompt
/// blocks.
pub fn text_param(params: &Json, prompt_text: String) -> (r: Result<String, AcpError>)
    ensures
        text_result(r) == (if trimmed(request_text(params@, prompt_text@)).len() == 0 {
            Err("text required"@)
        } else {
            Ok(request_text(params@, prompt_text@))
        }),
{
    let text = match params.get_str("text") {
        Some(text) => if is_blank(text.as_str()) {
            prompt_text
        } else {
            text
        },
        None => prompt_text,
    };
    if is_blank(text.as_str()) {
        Err(AcpError::failed("text required"))
    } else {
        Ok(text)
    }
}

/// The queue mode that a request names.
pub open spec fn queue_mode_named(params: JsonValue) -> Option<QueueMode> {
    let mode = string_of(member(params, "mode"@));
    if mode == Some("one-at-a-time"@) {
        Some(QueueMode::OneAtATime)
    } else if mode == Some("all"@) {
        Some(QueueMode::All)
    } else {
        None
    }
}

/// The queue mode that a request names.
pub fn queue_mode_param(params: &Json) -> (r: Result<QueueMode, AcpError>)
    ensures
        match r {
            Ok(mode) => queue_mode_named(params@) == Some(mode),
            Err(error) => queue_mode_named(params@) is None && error_message(error)
                == "mode must be one-at-a-time or all"@,
        },
{
    if let Some(mode) = params.get_str("mode") {
        if same_text(mode.as_str(), "one-at-a-time") {
            proof {
                assert(string_of(member(params@, "mode"@)) == Some("one-at-a-time"@));
            }
            return Ok(QueueMode::OneAtATime);
        }
        if same_text(mode.as_str(), "all") {
            proof {
                reveal_strlit("all");
                reveal_strlit("one-at-a-time");
                assert("all"@.len() != "one-at-a-time"@.len());
                assert(string_of(member(params@, "mode"@)) == Some("all"@));
            }
            return Ok(QueueMode::All);
        }
    }
    Err(AcpError::failed("mode must be one-at-a-time or all"))
}

/// The tool names in an array, if it holds strings only.
pub open spec fn strings_in(items: Seq<JsonValue>) -> Option<Seq<Seq<char>>>
    decreases items.len(),
{
    if items.len() == 0 {
        Some(Seq::empty())
    } else {
        match (strings_in(items.drop_last()), items.last()) {
            (Some(before), JsonValue::Str(text)) => Some(before.push(text)),
            _ => None,
        }
    }
}

/// The tools that a request names, under `toolNames` or else `tools`.
pub open spec fn named_tools(params: JsonValue) -> Result<Seq<Seq<char>>, Seq<char>> {
    let found = match member(params, "toolNames"@) {
        Some(value) => Some(value),
        None => member(params, "tools"@),
    };
    match found {
        Some(JsonValue::Array(items)) => match strings_in(items) {
            Some(names) => Ok(names),
            None => Err("toolNames must contain strings"@),
        },
        _ => Err("toolNames array required"@),
    }
}

proof fn lemma_strings_prefix(items: Seq<JsonValue>, k: int)
    requires
        0 <= k <= items.len(),
        strings_in(items.take(k)) is None,
    ensures
        strings_in(items) is None,
    decreases items.len() - k,
{
    if k < items.len() {
        assert(items.take(k + 1).drop_last() == items.take(k));
        lemma_strings_prefix(items, k + 1);
    } else {
        assert(items.take(k) == items);
    }
}

/// The tools that a request names.
pub fn tool_names_param(params: &Json) -> (r: Result<Vec<String>, AcpError>)
    ensures
        match r {
            Ok(names) => named_tools(params@) == Ok::<Seq<Seq<char>>, Seq<char>>(texts(names@)),
            Err(error) => named_tools(params@) == Err::<Seq<Seq<char>>, Seq<char>>(
                error_message(error),
            ),
        },
{
    let found = match params.get("toolNames") {
        Some(value) => Some(value),
        None => params.get("tools"),
    };
    match found {
        Some(Json::Array(items)) => {
            proof {
                lemma_array_view(*items);
            }
            let ghost all = item_values(items@);
            let mut names: Vec<String> = Vec::new();
            let mut i: usize = 0;
            proof {
                assert(all.take(0) == Seq::<JsonValue>::empty());
                assert(texts(names@) == Seq::<Seq<char>>::empty());
            }
            while i < items.len()
                invariant
                    i <= items.len(),
                    all == item_values(items@),
                    strings_in(all.take(i as int)) == Some(texts(names@)),
                    named_tools(params@) == (match strings_in(all) {
                        Some(list) => Ok::<Seq<Seq<char>>, Seq<char>>(list),
                        None => Err("toolNames must contain strings"@),
                    }),
                decreases items.len() - i,
            {
                let ghost before = texts(names@);
                proof {
                    assert(all.take(i + 1).drop_last() == all.take(i as int));
                    assert(all.take(i + 1).last() == items@[i as int]@);
                }
                match items[i].as_str() {
                    Some(name) => {
                        names.push(name.to_string());
                        proof {
                            assert(texts(names@) == before.push(name@));
                        }
                    },
                    None => {
                        proof {
                            lemma_strings_prefix(all, i + 1);
                        }
                        return Err(AcpError::failed("toolNames must contain strings"));
                    },
                }
                i += 1;
            }
            proof {
                assert(all.take(all.len() as int) == all);
            }
            Ok(names)
        },
        _ => Err(AcpError::failed("toolNames array required")),
    }
}

/// A prompt that waits for its session. `rpc_id` names the request it answers.
#[derive(Debug)]
pub struct QueuedPrompt {
    pub rpc_id: Json,
    pub text: String,
}

/// The contents of a [`QueuedPrompt`].
pub struct Queued {
    pub rpc_id: JsonValue,
    pub text: Seq<char>,
}

/// The contents of waiting prompts.
pub open spec fn queued_list(prompts: Seq<QueuedPrompt>) -> Seq<Queued> {
    Seq::new(prompts.len(), |i: int| Queued { rpc_id: prompts[i].rpc_id@, text: prompts[i].text@ })
}

/// An open session.
#[derive(Debug)]
pub struct AcpSession {
    id: String,
    busy: bool,
    /// The tool call that was last announced and has no result yet.
    pending_tool: Option<String>,
    prompt_queue: VecDeque<QueuedPrompt>,
    permission_mode: String,
}

/// The contents of an [`AcpSession`].
pub struct SessionState {
    pub id: Seq<char>,
    pub busy: bool,
    pub pending_tool: Option<Seq<char>>,
    pub queue: Seq<Queued>,
    pub permission_mode: Seq<char>,
}

impl View for AcpSession {
    type V = SessionState;

    closed spec fn view(&self) -> SessionState {
        SessionState {
            id: self.id@,
            busy: self.busy,
            pending_tool: opt_text(self.pending_tool),
            queue: queued_list(self.prompt_queue@),
            permission_mode: self.permission_mode@,
        }
    }
}

/// The prompt that is being answered.
#[derive(Debug)]
pub struct ActivePrompt {
    pub session_id: String,
    pub rpc_id: Json,
}

/// The contents of an [`ActivePrompt`].
pub struct ActiveState {
    pub session_id: Seq<char>,
    pub rpc_id: JsonValue,
}

impl View for ActivePrompt {
    type V = ActiveState;

    open spec fn view(&self) -> ActiveState {
        ActiveState { session_id: self.session_id@, rpc_id: self.rpc_id@ }
    }
}

/// The open sessions of a server, and the prompt that is being answered.
#[derive(Debug)]
pub struct AcpServer {
    yolo: bool,
    client_caps: ClientCapabilities,
    sessions: Vec<AcpSession>,
    active: Option<ActivePrompt>,
    stdin_open: bool,
}

/// The contents of an [`AcpServer`].
pub struct ServerState {
    pub yolo: bool,
    pub client_caps: ClientCapabilities,
    pub sessions: Seq<SessionState>,
    pub active: Option<ActiveState>,
    pub stdin_open: bool,
}

/// The contents of open sessions.
pub open spec fn session_list(sessions: Seq<AcpSession>) -> Seq<SessionState> {
    Seq::new(sessions.len(), |i: int| sessions[i]@)
}

impl View for AcpServer {
    type V = ServerState;

    closed spec fn view(&self) -> ServerState {
        ServerState {
            yolo: self.yolo,
            client_caps: self.client_caps,
            sessions: session_list(self.sessions@),
            active: match self.active {
                Some(active) => Some(active@),
                None => None,
            },
            stdin_open: self.stdin_open,
        }
    }
}

/// The place of the session with an id.
pub open spec fn place_of(sessions: Seq<SessionState>, id: Seq<char>) -> Option<int>
    decreases sessions.len(),
{
    if sessions.len() == 0 {
        None
    } else if sessions.last().id == id {
        Some(sessions.len() - 1)
    } else {
        place_of(sessions.drop_last(), id)
    }
}

/// Each session id is open once.
pub open spec fn ids_distinct(sessions: Seq<SessionState>) -> bool {
    forall|i: int, j: int|
        0 <= i < j < sessions.len() ==> (#[trigger] sessions[i]).id != (#[trigger] sessions[j]).id
}

proof fn lemma_place(sessions: Seq<SessionState>, id: Seq<char>)
    ensures
        match place_of(sessions, id) {
            Some(i) => 0 <= i < sessions.len() && sessions[i].id == id,
            None => forall|i: int| 0 <= i < sessions.len() ==> (#[trigger] sessions[i]).id != id,
        },
    decreases sessions.len(),
{
    if sessions.len() > 0 {
        lemma_place(sessions.drop_last(), id);
        if place_of(sessions, id) is None {
            assert forall|i: int| 0 <= i < sessions.len() implies (#[trigger] sessions[i]).id
                != id by {
                if i < sessions.len() - 1 {
                    assert(sessions.drop_last()[i] == sessions[i]);
                }
            }
        }
    }
}

/// The sessions with one of them changed.
pub open spec fn with_session(s: ServerState, i: int, session: SessionState) -> ServerState {
    ServerState { sessions: s.sessions.update(i, session), ..s }
}

/// What a request that names an open session finds: the session named, or the
/// error of naming none or one that is not open.
pub open spec fn opened(s: ServerState, params: JsonValue) -> Result<(Seq<char>, int), Seq<char>> {
    match named_session(params) {
        Err(message) => Err(message),
        Ok(sid) => match place_of(s.sessions, sid) {
            Some(i) => Ok((sid, i)),
            None => Err(unknown_session(sid)),
        },
    }
}

fn unknown_session_error(sid: &str) -> (r: AcpError)
    ensures
        r is Failed,
        error_message(r) == unknown_session(sid@),
{
    let mut message = "unknown sessionId: ".to_string();
    message.append(sid);
    AcpError::Failed(message)
}

/// What a prompt request leads to.
#[derive(Debug)]
pub enum PromptStep {
    /// The session was idle: its runtime is to run the prompt.
    Start { session_id: String, text: String },
    /// The session is busy: its runtime is to be steered, and the request answered.
    Steer { session_id: String, text: String },
    /// The session is busy: its runtime gets a follow-up, and the request is answered.
    FollowUp { session_id: String, text: String },
}

/// The contents of a [`PromptStep`].
pub enum Step {
    Start { session_id: Seq<char>, text: Seq<char> },
    Steer { session_id: Seq<char>, text: Seq<char> },
    FollowUp { session_id: Seq<char>, text: Seq<char> },
}

impl View for PromptStep {
    type V = Step;

    open spec fn view(&self) -> Step {
        match self {
            PromptStep::Start { session_id, text } => Step::Start {
                session_id: session_id@,
                text: text@,
            },
            PromptStep::Steer { session_id, text } => Step::Steer {
                session_id: session_id@,
                text: text@,
            },
            PromptStep::FollowUp { session_id, text } => Step::FollowUp {
                session_id: session_id@,
                text: text@,
            },
        }
    }
}

/// What a prompt request leads to.
pub open spec fn prompt_step(s: ServerState, params: JsonValue, text: Seq<char>) -> Result<
    Step,
    Seq<char>,
> {
    match named_session(params) {
        Err(message) => Err(message),
        Ok(sid) => if trimmed(text).len() == 0 {
            Err("empty prompt"@)
        } else {
            match place_of(s.sessions, sid) {
                None => Err(unknown_session(sid)),
                Some(i) => if !s.sessions[i].busy {
                    Ok(Step::Start { session_id: sid, text })
                } else {
                    match string_of(member(params, "streamingBehavior"@)) {
                        None => Err("streamingBehavior is required when session is busy"@),
                        Some(behavior) => if behavior == "steer"@ {
                            Ok(Step::Steer { session_id: sid, text })
                        } else if behavior == "followUp"@ {
                            Ok(Step::FollowUp { session_id: sid, text })
                        } else {
                            Err("unsupported streamingBehavior: "@ + behavior)
                        },
                    }
                },
            }
        },
    }
}

/// The server when a prompt of a session is started.
pub open spec fn with_started(s: ServerState, sid: Seq<char>, rpc_id: JsonValue) -> ServerState {
    match place_of(s.sessions, sid) {
        Some(i) => ServerState {
            active: Some(ActiveState { session_id: sid, rpc_id }),
            ..with_session(s, i, SessionState { busy: true, ..s.sessions[i] })
        },
        None => s,
    }
}

/// What an idle session does with its queue: it answers blank prompts with an error
/// until one can be started.
pub open spec fn blank_ids(queue: Seq<Queued>) -> Seq<JsonValue>
    decreases queue.len(),
{
    if queue.len() > 0 && trimmed(queue[0].text).len() == 0 {
        seq![queue[0].rpc_id] + blank_ids(queue.drop_first())
    } else {
        Seq::empty()
    }
}

/// What stays of a queue when its leading blank prompts are gone.
pub open spec fn after_blanks(queue: Seq<Queued>) -> Seq<Queued> {
    queue.skip(blank_ids(queue).len() as int)
}

/// The server once the queue of an idle session was looked at.
pub open spec fn with_next_prompt(s: ServerState, sid: Seq<char>) -> ServerState {
    match place_of(s.sessions, sid) {
        None => s,
        Some(i) => {
            let rest = after_blanks(s.sessions[i].queue);
            if rest.len() == 0 {
                with_session(s, i, SessionState { queue: rest, ..s.sessions[i] })
            } else {
                ServerState {
                    active: Some(ActiveState { session_id: sid, rpc_id: rest[0].rpc_id }),
                    ..with_session(
                        s,
                        i,
                        SessionState { queue: rest.drop_first(), busy: true, ..s.sessions[i] },
                    )
                }
            }
        },
    }
}

/// The server once the active prompt was answered.
pub open spec fn with_finished(s: ServerState) -> ServerState {
    match s.active {
        None => s,
        Some(active) => {
            let idle = ServerState { active: None, ..s };
            match place_of(s.sessions, active.session_id) {
                None => idle,
                Some(i) => with_session(
                    idle,
                    i,
                    SessionState { busy: false, pending_tool: None, ..s.sessions[i] },
                ),
            }
        },
    }
}

/// What comes of looking at the queue of an idle session.
#[derive(Debug)]
pub struct QueueStep {
    /// The requests that are answered with "empty prompt".
    pub rejected: Vec<Json>,
    /// The text of the prompt that is to be run.
    pub start: Option<String>,
}

/// What a change of a configuration option leads to.
#[derive(Debug)]
pub enum ConfigStep {
    /// The runtime of the session is to change its mode.
    SetMode { session_id: String, mode_id: String },
    /// The session keeps the permission mode for its prompts.
    PermissionMode,
    /// Nothing depends on the option.
    Ignored,
}

/// The key of a configuration option, under `key` or else `name`.
pub open spec fn config_key(params: JsonValue) -> Option<Seq<char>> {
    string_of(
        match member(params, "key"@) {
            Some(value) => Some(value),
            None => member(params, "name"@),
        },
    )
}

/// What a change of a configuration option leads to: the mode that is to be set,
/// the permission mode that is kept, or neither.
pub open spec fn config_change(s: ServerState, params: JsonValue) -> Result<
    (int, Option<Seq<char>>, Option<Seq<char>>),
    Seq<char>,
> {
    match named_session(params) {
        Err(message) => Err(message),
        Ok(sid) => match config_key(params) {
            None => Err("config key or name required"@),
            Some(key) => match member(params, "value"@) {
                None => Err("config value required"@),
                Some(value) => match place_of(s.sessions, sid) {
                    None => Err(unknown_session(sid)),
                    Some(i) => if key == "mode"@ {
                        match string_of(Some(value)) {
                            Some(mode) => Ok((i, Some(mode), None)),
                            None => Err("mode must be a string"@),
                        }
                    } else if key == "permission_mode"@ || key == "permissionMode"@ {
                        match string_of(Some(value)) {
                            Some(mode) => Ok((i, None, Some(mode))),
                            None => Err("permission_mode must be a string"@),
                        }
                    } else {
                        Ok((i, None, None))
                    },
                },
            },
        },
    }
}

/// The answer to a change of a configuration option.
pub open spec fn config_answer(params: JsonValue) -> JsonValue {
    JsonValue::Object(
        seq![
            ("key"@, jstr(config_key(params)->0)),
            ("value"@, member(params, "value"@)->0),
        ],
    )
}

/// The answer to the clearing of a queue.
pub open spec fn cleared_answer(queue: Seq<Queued>) -> JsonValue {
    let ids = queue.map_values(|q: Queued| q.rpc_id);
    JsonValue::Object(
        seq![
            ("clearedCount"@, JsonValue::Uint(queue.len() as u64)),
            ("cleared"@, JsonValue::Array(ids)),
            ("steering"@, JsonValue::Uint(0)),
            ("followUp"@, JsonValue::Uint(0)),
            ("promptQueue"@, JsonValue::Uint(queue.len() as u64)),
        ],
    )
}

/// What a session is built with.
#[derive(Debug, Clone, Copy, PartialEq, Eq, Structural)]
pub struct SessionPlan {
    pub permission_mode: PermissionMode,
    /// Whether files go through the client, and which way.
    pub remote_fs: bool,
    pub remote_fs_read: bool,
    pub remote_fs_write: bool,
    pub remote_terminal: bool,
    /// Whether approvals are asked for through the runtime.
    pub ask_approvals: bool,
    pub automatic_recovery: bool,
}

impl AcpServer {
    /// Each session id is open once.
    pub open spec fn wf(&self) -> bool {
        ids_distinct(self@.sessions)
    }

    /// A server without sessions.
    pub fn new(yolo: bool) -> (r: Self)
        ensures
            r.wf(),
            r@ == (ServerState {
                yolo,
                client_caps: ClientCapabilities { fs_read: false, fs_write: false, terminal: false },
                sessions: Seq::empty(),
                active: None,
                stdin_open: true,
            }),
    {
        let r = AcpServer {
            yolo,
            client_caps: ClientCapabilities::default(),
            sessions: Vec::new(),
            active: None,
            stdin_open: true,
        };
        proof {
            assert(session_list(r.sessions@) == Seq::<SessionState>::empty());
        }
        r
    }

    /// What the client can do for the agent.
    pub fn client_capabilities(&self) -> (r: ClientCapabilities)
        ensures
            r == self@.client_caps,
    {
        self.client_caps
    }

    /// Whether the server goes on: there is input, or a prompt is being answered.
    pub fn is_running(&self) -> (r: bool)
        ensures
            r == (self@.stdin_open || self@.active is Some),
    {
        self.stdin_open || self.active.is_some()
    }

    /// Whether input can still arrive.
    pub fn input_open(&self) -> (r: bool)
        ensures
            r == self@.stdin_open,
    {
        self.stdin_open
    }

    /// Whether a prompt is being answered.
    pub fn has_active(&self) -> (r: bool)
        ensures
            r == (self@.active is Some),
    {
        self.active.is_some()
    }

    /// Whether the prompt that is being answered is one of the given session.
    pub fn is_active_in(&self, session_id: &str) -> (r: bool)
        ensures
            r == (self@.active matches Some(active) && active.session_id == session_id@),
    {
        match &self.active {
            Some(active) => same_text(active.session_id.as_str(), session_id),
            None => false,
        }
    }

    /// Notes that no more input arrives. A prompt that is being answered is to be
    /// cancelled if its session is still open.
    pub fn input_closed(&mut self) -> (r: Option<String>)
        requires
            old(self).wf(),
        ensures
            final(self).wf(),
            final(self)@ == (ServerState { stdin_open: false, ..old(self)@ }),
            opt_text(r) == (match old(self)@.active {
                Some(active) => if place_of(old(self)@.sessions, active.session_id) is Some {
                    Some(active.session_id)
                } else {
                    None
                },
                None => None,
            }),
    {
        self.stdin_open = false;
        match &self.active {
            Some(active) => {
                if self.find(active.session_id.as_str()).is_some() {
                    Some(active.session_id.clone())
                } else {
                    None
                }
            },
            None => None,
        }
    }

    /// The place of the session with an id.
    fn find(&self, id: &str) -> (r: Option<usize>)
        ensures
            match r {
                Some(i) => place_of(self@.sessions, id@) == Some(i as int) && i
                    < self@.sessions.len() && self@.sessions[i as int].id == id@,
                None => place_of(self@.sessions, id@) is None,
            },
    {
        let ghost all = session_list(self.sessions@);
        let mut i: usize = self.sessions.len();
        proof {
            assert(all.take(all.len() as int) == all);
        }
        while i > 0
            invariant
                i <= self.sessions.len(),
                all == session_list(self.sessions@),
                all == self@.sessions,
                place_of(all, id@) == place_of(all.take(i as int), id@),
            decreases i,
        {
            let session = &self.sessions[i - 1];
            proof {
                assert(all.take(i as int).last() == session@);
                assert(all.take(i as int).drop_last() == all.take(i - 1));
            }
            if same_text(session.id.as_str(), id) {
                return Some(i - 1);
            }
            i -= 1;
        }
        None
    }

    /// Answers `initialize`.
    pub fn initialize(&mut self, params: &Json, version: &str) -> (r: Result<Json, AcpError>)
        requires
            old(self).wf(),
        ensures
            final(self).wf(),
            match r {
                Ok(answer) => {
                    &&& asked_version(params@) == 1
                    &&& answer@ == initialize_answer(version@)
                    &&& final(self)@ == (ServerState {
                        client_caps: advertised(params@),
                        ..old(self)@
                    })
                },
                Err(error) => {
                    &&& asked_version(params@) != 1
                    &&& error_message(error) == "unsupported protocolVersion "@ + decimal(
                        asked_version(params@) as nat,
                    ) + "; zene acp speaks 1"@
                    &&& final(self)@ == old(self)@
                },
            },
    {
        match handle_initialize(params, version) {
            Ok((caps, answer)) => {
                self.client_caps = caps;
                Ok(answer)
            },
            Err(error) => Err(error),
        }
    }

    /// What a new session is built with. `configured_mode` is the permission mode
    /// of the configuration.
    pub fn session_plan(&self, configured_mode: PermissionMode, automatic_recovery: bool) -> (r:
        SessionPlan)
        ensures
            r.permission_mode == (if self@.yolo {
                PermissionMode::BypassPermissions
            } else {
                configured_mode
            }),
            r.remote_fs == (self@.client_caps.fs_read || self@.client_caps.fs_write),
            r.remote_fs_read == self@.client_caps.fs_read,
            r.remote_fs_write == self@.client_caps.fs_write,
            r.remote_terminal == self@.client_caps.terminal,
            r.ask_approvals == !self@.yolo,
            r.automatic_recovery == automatic_recovery,
    {
        SessionPlan {
            permission_mode: if self.yolo {
                PermissionMode::BypassPermissions
            } else {
                configured_mode
            },
            remote_fs: self.client_caps.fs_read || self.client_caps.fs_write,
            remote_fs_read: self.client_caps.fs_read,
            remote_fs_write: self.client_caps.fs_write,
            remote_terminal: self.client_caps.terminal,
            ask_approvals: !self.yolo,
            automatic_recovery,
        }
    }

    /// Opens a session, in the place of one with the same id.
    pub fn insert_session(&mut self, id: &str, permission_mode: PermissionMode)
        requires
            old(self).wf(),
        ensures
            final(self).wf(),
            ({
                let fresh = SessionState {
                    id: id@,
                    busy: false,
                    pending_tool: None,
                    queue: Seq::empty(),
                    permission_mode: mode_name(permission_mode),
                };
                final(self)@ == (ServerState {
                    sessions: match place_of(old(self)@.sessions, id@) {
                        Some(i) => old(self)@.sessions.update(i, fresh),
                        None => old(self)@.sessions.push(fresh),
                    },
                    ..old(self)@
                })
            }),
    {
        let session = AcpSession {
            id: id.to_string(),
            busy: false,
            pending_tool: None,
            prompt_queue: VecDeque::new(),
            permission_mode: permission_mode.as_str().to_string(),
        };
        let ghost fresh = session@;
        let ghost before = self@.sessions;
        proof {
            assert(session@.queue == Seq::<Queued>::empty());
            lemma_place(self@.sessions, id@);
        }
        match self.find(id) {
            Some(i) => {
                self.sessions.set(i, session);
                proof {
                    assert(session_list(self.sessions@) == before.update(i as int, fresh));
                }
            },
            None => {
                self.sessions.push(session);
                proof {
                    assert(session_list(self.sessions@) == before.push(fresh));
                }
            },
        }
    }

    /// The open session that a request names.
    pub fn open_session(&self, params: &Json) -> (r: Result<String, AcpError>)
        requires
            self.wf(),
        ensures
            match r {
                Ok(sid) => opened(self@, params@) matches Ok((named, i)) && named == sid@,
                Err(error) => opened(self@, params@) == Err::<(Seq<char>, int), Seq<char>>(
                    error_message(error),
                ),
            },
    {
        let sid = session_param(params)?;
        if self.find(sid.as_str()).is_some() {
            Ok(sid)
        } else {
            Err(unknown_session_error(sid.as_str()))
        }
    }

    /// Closes the session that a request names; its runtime is to be shut down.
    pub fn handle_session_close(&mut self, params: &Json) -> (r: Result<String, AcpError>)
        requires
            old(self).wf(),
        ensures
            final(self).wf(),
            match r {
                Ok(sid) => opened(old(self)@, params@) matches Ok((named, i)) && named == sid@
                    && final(self)@ == (ServerState {
                    sessions: old(self)@.sessions.remove(i),
                    ..old(self)@
                }),
                Err(error) => final(self)@ == old(self)@ && opened(old(self)@, params@) == Err::<
                    (Seq<char>, int),
                    Seq<char>,
                >(error_message(error)),
            },
    {
        let sid = match session_param(params) {
            Ok(sid) => sid,
            Err(error) => return Err(error),
        };
        match self.find(sid.as_str()) {
            Some(i) => {
                let ghost before = self@.sessions;
                self.sessions.remove(i);
                proof {
                    assert(session_list(self.sessions@) == before.remove(i as int));
                }
                Ok(sid)
            },
            None => Err(unknown_session_error(sid.as_str())),
        }
    }

    /// What a `session/set_mode` request asks for: the session and the mode.
    pub fn handle_session_set_mode(&self, params: &Json) -> (r: Result<(String, String), AcpError>)
        requires
            self.wf(),
        ensures
            ({
                let mode = string_of(member(params@, "modeId"@));
                match r {
                    Ok((sid, mode_id)) => opened(self@, params@) matches Ok((named, i)) && named
                        == sid@ && mode == Some(mode_id@),
                    Err(error) => match named_session(params@) {
                        Err(message) => error_message(error) == message,
                        Ok(sid) => if mode is None {
                            error_message(error) == "modeId required"@
                        } else {
                            place_of(self@.sessions, sid) is None && error_message(error)
                                == unknown_session(sid)
                        },
                    },
                }
            }),
    {
        let sid = match session_param(params) {
            Ok(sid) => sid,
            Err(error) => return Err(error),
        };
        let mode_id = match params.get_str("modeId") {
            Some(mode_id) => mode_id,
            None => return Err(AcpError::failed("modeId required")),
        };
        if self.find(sid.as_str()).is_none() {
            return Err(unknown_session_error(sid.as_str()));
        }
        Ok((sid, mode_id))
    }

    /// What a request to activate or deactivate tools asks for: the session and the
    /// names.
    pub fn handle_session_tool_activation(&self, params: &Json) -> (r: Result<
        (String, Vec<String>),
        AcpError,
    >)
        requires
            self.wf(),
        ensures
            match r {
                Ok((sid, names)) => opened(self@, params@) matches Ok((named, i)) && named == sid@
                    && named_tools(params@) == Ok::<Seq<Seq<char>>, Seq<char>>(texts(names@)),
                Err(error) => match named_session(params@) {
                    Err(message) => error_message(error) == message,
                    Ok(sid) => match named_tools(params@) {
                        Err(message) => error_message(error) == message,
                        Ok(_) => place_of(self@.sessions, sid) is None && error_message(error)
                            == unknown_session(sid),
                    },
                },
            },
    {
        let sid = match session_param(params) {
            Ok(sid) => sid,
            Err(error) => return Err(error),
        };
        let names = match tool_names_param(params) {
            Ok(names) => names,
            Err(error) => return Err(error),
        };
        if self.find(sid.as_str()).is_none() {
            return Err(unknown_session_error(sid.as_str()));
        }
        Ok((sid, names))
    }

    /// What a steer or follow-up request asks for: the session and the text.
    /// `prompt_text` is that of its prompt blocks.
    pub fn handle_session_text(&self, params: &Json, prompt_text: String) -> (r: Result<
        (String, String),
        AcpError,
    >)
        requires
            self.wf(),
        ensures
            ({
                let wanted = request_text(params@, prompt_text@);
                match r {
                    Ok((sid, text)) => opened(self@, params@) matches Ok((named, i)) && named
                        == sid@ && text@ == wanted && trimmed(wanted).len() > 0,
                    Err(error) => match named_session(params@) {
                        Err(message) => error_message(error) == message,
                        Ok(sid) => if trimmed(wanted).len() == 0 {
                            error_message(error) == "text required"@
                        } else {
                            place_of(self@.sessions, sid) is None && error_message(error)
                                == unknown_session(sid)
                        },
                    },
                }
            }),
    {
        let sid = match session_param(params) {
            Ok(sid) => sid,
            Err(error) => return Err(error),
        };
        let text = match text_param(params, prompt_text) {
            Ok(text) => text,
            Err(error) => return Err(error),
        };
        if self.find(sid.as_str()).is_none() {
            return Err(unknown_session_error(sid.as_str()));
        }
        Ok((sid, text))
    }

    /// What a request for a queue mode asks for: the session and the mode.
    pub fn handle_set_queue_mode(&self, params: &Json) -> (r: Result<(String, QueueMode), AcpError>)
        requires
            self.wf(),
        ensures
            match r {
                Ok((sid, mode)) => opened(self@, params@) matches Ok((named, i)) && named == sid@
                    && queue_mode_named(params@) == Some(mode),
                Err(error) => match named_session(params@) {
                    Err(message) => error_message(error) == message,
                    Ok(sid) => if queue_mode_named(params@) is None {
                        error_message(error) == "mode must be one-at-a-time or all"@
                    } else {
                        place_of(self@.sessions, sid) is None && error_message(error)
                            == unknown_session(sid)
                    },
                },
            },
    {
        let sid = match session_param(params) {
            Ok(sid) => sid,
            Err(error) => return Err(error),
        };
        let mode = match queue_mode_param(params) {
            Ok(mode) => mode,
            Err(error) => return Err(error),
        };
        if self.find(sid.as_str()).is_none() {
            return Err(unknown_session_error(sid.as_str()));
        }
        Ok((sid, mode))
    }

    /// Changes a configuration option of a session.
    pub fn handle_session_set_config_option(&mut self, params: &Json) -> (r: Result<
        (ConfigStep, Json),
        AcpError,
    >)
        requires
            old(self).wf(),
        ensures
            final(self).wf(),
            match r {
                Ok((step, answer)) => {
                    &&& answer@ == config_answer(params@)
                    &&& config_change(old(self)@, params@) matches Ok((i, mode, kept)) && match step {
                        ConfigStep::SetMode { session_id, mode_id } => mode == Some(mode_id@)
                            && named_session(params@) == Ok::<Seq<char>, Seq<char>>(session_id@)
                            && final(self)@ == old(self)@,
                        ConfigStep::PermissionMode => kept is Some && final(self)@ == with_session(
                            old(self)@,
                            i,
                            SessionState {
                                permission_mode: kept->0,
                                ..old(self)@.sessions[i]
                            },
                        ),
                        ConfigStep::Ignored => mode is None && kept is None && final(self)@ == old(self)@,
                    }
                },
                Err(error) => final(self)@ == old(self)@ && config_change(old(self)@, params@)
                    == Err::<(int, Option<Seq<char>>, Option<Seq<char>>), Seq<char>>(
                    error_message(error),
                ),
            },
    {
        let sid = match session_param(params) {
            Ok(sid) => sid,
            Err(error) => return Err(error),
        };
        let found = match params.get("key") {
            Some(value) => Some(value),
            None => params.get("name"),
        };
        let key = match found {
            Some(value) => match value.as_str() {
                Some(key) => key,
                None => return Err(AcpError::failed("config key or name required")),
            },
            None => return Err(AcpError::failed("config key or name required")),
        };
        let value = match params.get("value") {
            Some(value) => value,
            None => return Err(AcpError::failed("config value required")),
        };
        let at: usize = match self.find(sid.as_str()) {
            Some(at) => at,
            None => return Err(unknown_session_error(sid.as_str())),
        };
        let ghost before = self@.sessions;
        let step = if same_text(key, "mode") {
            match value.as_str() {
                Some(mode) => ConfigStep::SetMode { session_id: sid, mode_id: mode.to_string() },
                None => return Err(AcpError::failed("mode must be a string")),
            }
        } else if same_text(key, "permission_mode") || same_text(key, "permissionMode") {
            match value.as_str() {
                Some(mode) => {
                    self.sessions[at].permission_mode = mode.to_string();
                    proof {
                        let changed = SessionState {
                            permission_mode: mode@,
                            ..before[at as int]
                        };
                        assert(session_list(self.sessions@) == before.update(at as int, changed));
                    }
                    ConfigStep::PermissionMode
                },
                None => return Err(AcpError::failed("permission_mode must be a string")),
            }
        } else {
            ConfigStep::Ignored
        };
        let mut answer = members();
        put(&mut answer, "key", Json::text(key));
        put(&mut answer, "value", value.copy());
        proof {
            assert(member_values(answer@) == config_answer(params@)->Object_0);
        }
        Ok((step, Json::object(answer)))
    }

    /// Empties the prompt queue of a session and tells which requests were dropped.
    pub fn handle_session_clear_queue(&mut self, params: &Json) -> (r: Result<Json, AcpError>)
        requires
            old(self).wf(),
        ensures
            final(self).wf(),
            match r {
                Ok(answer) => opened(old(self)@, params@) matches Ok((named, i)) && answer@
                    == cleared_answer(old(self)@.sessions[i].queue) && final(self)@ == with_session(
                    old(self)@,
                    i,
                    SessionState { queue: Seq::empty(), ..old(self)@.sessions[i] },
                ),
                Err(error) => final(self)@ == old(self)@ && opened(old(self)@, params@) == Err::<
                    (Seq<char>, int),
                    Seq<char>,
                >(error_message(error)),
            },
    {
        let sid = match session_param(params) {
            Ok(sid) => sid,
            Err(error) => return Err(error),
        };
        let at: usize = match self.find(sid.as_str()) {
            Some(at) => at,
            None => return Err(unknown_session_error(sid.as_str())),
        };
        let ghost before = self@.sessions;
        let count: usize = self.sessions[at].prompt_queue.len();
        let mut cleared: Vec<Json> = Vec::new();
        let mut i: usize = 0;
        let ghost queue = before[at as int].queue;
        let ghost ids = queue.map_values(|q: Queued| q.rpc_id);
        while i < count
            invariant
                i <= count == self.sessions@[at as int].prompt_queue@.len(),
                at < self.sessions.len(),
                queue == queued_list(self.sessions@[at as int].prompt_queue@),
                ids == queue.map_values(|q: Queued| q.rpc_id),
                item_values(cleared@) == ids.take(i as int),
            decreases count - i,
        {
            let ghost so_far = item_values(cleared@);
            let id = self.sessions[at].prompt_queue[i].rpc_id.copy();
            let ghost added = id@;
            cleared.push(id);
            proof {
                assert(item_values(cleared@) == so_far.push(added));
                assert(ids.take(i + 1) == ids.take(i as int).push(added));
            }
            i += 1;
        }
        proof {
            assert(ids.take(ids.len() as int) == ids);
        }
        self.sessions[at].prompt_queue = VecDeque::new();
        proof {
            let none = self.sessions@[at as int].prompt_queue@;
            assert(queued_list(none) == Seq::<Queued>::empty());
            let changed = SessionState { queue: Seq::empty(), ..before[at as int] };
            assert(session_list(self.sessions@) == before.update(at as int, changed));
        }
        let mut answer = members();
        put(&mut answer, "clearedCount", Json::Uint(count as u64));
        put(&mut answer, "cleared", Json::array(cleared));
        put(&mut answer, "steering", Json::Uint(0));
        put(&mut answer, "followUp", Json::Uint(0));
        put(&mut answer, "promptQueue", Json::Uint(count as u64));
        proof {
            assert(member_values(answer@) == cleared_answer(queue)->Object_0);
        }
        Ok(Json::object(answer))
    }

    /// Takes up a prompt request. `text` is that of its prompt blocks.
    pub fn enqueue_or_start_prompt(&mut self, rpc_id: &Json, params: &Json, text: String) -> (r:
        Result<PromptStep, AcpError>)
        requires
            old(self).wf(),
        ensures
            final(self).wf(),
            match r {
                Ok(step) => {
                    &&& prompt_step(old(self)@, params@, text@) == Ok::<Step, Seq<char>>(step@)
                    &&& final(self)@ == (match step@ {
                        Step::Start { session_id, .. } => with_started(
                            old(self)@,
                            session_id,
                            rpc_id@,
                        ),
                        _ => old(self)@,
                    })
                },
                Err(error) => error is Failed && final(self)@ == old(self)@ && prompt_step(
                    old(self)@,
                    params@,
                    text@,
                ) == Err::<Step, Seq<char>>(error_message(error)),
            },
    {
        let sid = match session_param(params) {
            Ok(sid) => sid,
            Err(error) => return Err(error),
        };
        if is_blank(text.as_str()) {
            return Err(AcpError::failed("empty prompt"));
        }
        let at: usize = match self.find(sid.as_str()) {
            Some(at) => at,
            None => return Err(unknown_session_error(sid.as_str())),
        };
        if self.sessions[at].busy {
            let behavior = match params.get_str("streamingBehavior") {
                Some(behavior) => behavior,
                None => return Err(
                    AcpError::failed("streamingBehavior is required when session is busy"),
                ),
            };
            if same_text(behavior.as_str(), "steer") {
                return Ok(PromptStep::Steer { session_id: sid, text });
            }
            if same_text(behavior.as_str(), "followUp") {
                return Ok(PromptStep::FollowUp { session_id: sid, text });
            }
            let mut message = "unsupported streamingBehavior: ".to_string();
            message.append(behavior.as_str());
            return Err(AcpError::Failed(message));
        }
        self.start_prompt(at, sid.clone(), rpc_id.copy());
        Ok(PromptStep::Start { session_id: sid, text })
    }

    fn start_prompt(&mut self, at: usize, sid: String, rpc_id: Json)
        requires
            old(self).wf(),
            at < old(self)@.sessions.len(),
            place_of(old(self)@.sessions, sid@) == Some(at as int),
        ensures
            final(self).wf(),
            final(self)@ == with_started(old(self)@, sid@, rpc_id@),
    {
        let ghost before = self@.sessions;
        self.sessions[at].busy = true;
        proof {
            let changed = SessionState { busy: true, ..before[at as int] };
            assert(session_list(self.sessions@) == before.update(at as int, changed));
        }
        self.active = Some(ActivePrompt { session_id: sid, rpc_id });
    }

    /// Takes away the prompt that was answered; its session is idle again. The
    /// answer goes to the request that the prompt came with.
    pub fn prompt_finished(&mut self) -> (r: Option<ActivePrompt>)
        requires
            old(self).wf(),
        ensures
            final(self).wf(),
            final(self)@ == with_finished(old(self)@),
            match r {
                Some(active) => old(self)@.active == Some(active@),
                None => old(self)@.active is None,
            },
    {
        let current = self.active.take();
        if let Some(active) = &current {
            if let Some(at) = self.find(active.session_id.as_str()) {
                let ghost before = self@.sessions;
                self.sessions[at].busy = false;
                self.sessions[at].pending_tool = None;
                proof {
                    let changed = SessionState {
                        busy: false,
                        pending_tool: None,
                        ..before[at as int]
                    };
                    assert(session_list(self.sessions@) == before.update(at as int, changed));
                }
            }
        }
        current
    }

    /// Starts the next queued prompt of an idle session that is not blank.
    pub fn maybe_start_queued_prompt(&mut self, session_id: &str) -> (r: QueueStep)
        requires
            old(self).wf(),
        ensures
            final(self).wf(),
            final(self)@ == with_next_prompt(old(self)@, session_id@),
            match place_of(old(self)@.sessions, session_id@) {
                None => r.rejected@.len() == 0 && r.start is None,
                Some(i) => {
                    let queue = old(self)@.sessions[i].queue;
                    &&& item_values(r.rejected@) == blank_ids(queue)
                    &&& opt_text(r.start) == (if after_blanks(queue).len() == 0 {
                        None
                    } else {
                        Some(after_blanks(queue)[0].text)
                    })
                },
            },
    {
        let mut rejected: Vec<Json> = Vec::new();
        let at: usize = match self.find(session_id) {
            Some(at) => at,
            None => return QueueStep { rejected, start: None },
        };
        let ghost before = self@.sessions;
        let ghost queue = before[at as int].queue;
        let ghost mut gone: int = 0;
        proof {
            lemma_blank_ids(queue);
            assert(queue.skip(0) == queue);
            assert(item_values(rejected@) == Seq::<JsonValue>::empty());
            assert(item_values(rejected@) + blank_ids(queue) == blank_ids(queue));
        }
        loop
            invariant
                at < self.sessions.len() == before.len(),
                0 <= gone <= queue.len(),
                old(self).wf(),
                old(self)@.sessions == before,
                queue == before[at as int].queue,
                place_of(before, session_id@) == Some(at as int),
                queued_list(self.sessions@[at as int].prompt_queue@) == queue.skip(gone),
                session_list(self.sessions@) == before.update(
                    at as int,
                    SessionState { queue: queue.skip(gone), ..before[at as int] },
                ),
                self@ == (ServerState { sessions: self@.sessions, ..old(self)@ }),
                self@.sessions == session_list(self.sessions@),
                item_values(rejected@).len() == gone,
                item_values(rejected@) + blank_ids(queue.skip(gone)) == blank_ids(queue),
            decreases queue.len() - gone,
        {
            let ghost prior = self.sessions@;
            let ghost held = self.sessions@[at as int].prompt_queue@;
            let ghost so_far = item_values(rejected@);
            match self.sessions[at].prompt_queue.pop_front() {
                None => {
                    proof {
                        assert(queue.skip(gone).len() == 0);
                        assert(after_blanks(queue) == queue.skip(gone));
                        assert(so_far == blank_ids(queue));
                        assert(session_list(self.sessions@) == before.update(
                            at as int,
                            SessionState { queue: queue.skip(gone), ..before[at as int] },
                        ));
                    }
                    return QueueStep { rejected, start: None };
                },
                Some(next) => {
                    proof {
                        assert(queued_list(held)[0] == Queued {
                            rpc_id: next.rpc_id@,
                            text: next.text@,
                        });
                        assert(queue.skip(gone)[0] == queue[gone]);
                        assert(queue.skip(gone).drop_first() == queue.skip(gone + 1));
                        assert(queued_list(self.sessions@[at as int].prompt_queue@)
                            == queue.skip(gone + 1));
                        assert(session_list(prior)[at as int] == prior[at as int]@);
                        assert(self.sessions@[at as int]@ == SessionState {
                            queue: queue.skip(gone + 1),
                            ..before[at as int]
                        });
                        assert(session_list(self.sessions@) == session_list(prior).update(
                            at as int,
                            self.sessions@[at as int]@,
                        ));
                        assert(session_list(self.sessions@) == before.update(
                            at as int,
                            SessionState { queue: queue.skip(gone + 1), ..before[at as int] },
                        ));
                    }
                    if is_blank(next.text.as_str()) {
                        let ghost added = next.rpc_id@;
                        rejected.push(next.rpc_id);
                        proof {
                            assert(item_values(rejected@) == so_far.push(added));
                            assert(so_far + (seq![added] + blank_ids(queue.skip(gone + 1)))
                                == item_values(rejected@) + blank_ids(queue.skip(gone + 1)));
                            gone = gone + 1;
                        }
                    } else {
                        let text = next.text;
                        proof {
                            assert(blank_ids(queue.skip(gone)) == Seq::<JsonValue>::empty());
                            assert(so_far == blank_ids(queue));
                            assert(after_blanks(queue) == queue.skip(gone));
                        }
                        let ghost mid = self.sessions@;
                        self.sessions[at].busy = true;
                        self.active = Some(
                            ActivePrompt {
                                session_id: session_id.to_string(),
                                rpc_id: next.rpc_id,
                            },
                        );
                        proof {
                            let changed = SessionState {
                                queue: queue.skip(gone + 1),
                                busy: true,
                                ..before[at as int]
                            };
                            assert(session_list(mid)[at as int] == mid[at as int]@);
                            assert(self.sessions@[at as int]@ == changed);
                            assert(session_list(self.sessions@) == session_list(mid).update(
                                at as int,
                                changed,
                            ));
                            assert(session_list(self.sessions@) == before.update(
                                at as int,
                                changed,
                            ));
                        }
                        return QueueStep { rejected, start: Some(text) };
                    }
                },
            }
        }
    }

    /// Drops the queued prompts of a session that the client cancels. Says whether
    /// the session is open, so that its runtime is to be cancelled.
    pub fn cancel_session(&mut self, session_id: &str) -> (r: bool)
        requires
            old(self).wf(),
        ensures
            final(self).wf(),
            r == (place_of(old(self)@.sessions, session_id@) is Some),
            final(self)@ == (match place_of(old(self)@.sessions, session_id@) {
                Some(i) => with_session(
                    old(self)@,
                    i,
                    SessionState { queue: Seq::empty(), ..old(self)@.sessions[i] },
                ),
                None => old(self)@,
            }),
    {
        match self.find(session_id) {
            Some(at) => {
                let ghost before = self@.sessions;
                self.sessions[at].prompt_queue = VecDeque::new();
                proof {
                    let none = self.sessions@[at as int].prompt_queue@;
                    assert(queued_list(none) == Seq::<Queued>::empty());
                    let changed = SessionState { queue: Seq::empty(), ..before[at as int] };
                    assert(session_list(self.sessions@) == before.update(at as int, changed));
                }
                true
            },
            None => false,
        }
    }

    /// The permission mode under which the prompts of a session run.
    pub fn permission_mode(&self, session_id: &str) -> (r: Option<String>)
        ensures
            opt_text(r) == (match place_of(self@.sessions, session_id@) {
                Some(i) => Some(self@.sessions[i].permission_mode),
                None => None,
            }),
    {
        match self.find(session_id) {
            Some(at) => Some(self.sessions[at].permission_mode.clone()),
            None => None,
        }
    }

    /// Puts a prompt at the end of the queue of a session. Says whether the session
    /// is open.
    pub fn queue_prompt(&mut self, session_id: &str, prompt: QueuedPrompt) -> (r: bool)
        requires
            old(self).wf(),
        ensures
            final(self).wf(),
            r == (place_of(old(self)@.sessions, session_id@) is Some),
            final(self)@ == (match place_of(old(self)@.sessions, session_id@) {
                Some(i) => with_session(
                    old(self)@,
                    i,
                    SessionState {
                        queue: old(self)@.sessions[i].queue.push(
                            Queued { rpc_id: prompt.rpc_id@, text: prompt.text@ },
                        ),
                        ..old(self)@.sessions[i]
                    },
                ),
                None => old(self)@,
            }),
    {
        match self.find(session_id) {
            Some(at) => {
                let ghost before = self@.sessions;
                let ghost added = Queued { rpc_id: prompt.rpc_id@, text: prompt.text@ };
                self.sessions[at].prompt_queue.push_back(prompt);
                proof {
                    assert(queued_list(self.sessions@[at as int].prompt_queue@)
                        == before[at as int].queue.push(added));
                    let changed = SessionState {
                        queue: before[at as int].queue.push(added),
                        ..before[at as int]
                    };
                    assert(session_list(self.sessions@) == before.update(at as int, changed));
                }
                true
            },
            None => false,
        }
    }

    /// Notes or clears the tool call of a session that waits for its result.
    pub fn set_pending_tool(&mut self, session_id: &str, tool_call_id: Option<String>)
        requires
            old(self).wf(),
        ensures
            final(self).wf(),
            final(self)@ == (match place_of(old(self)@.sessions, session_id@) {
                Some(i) => with_session(
                    old(self)@,
                    i,
                    SessionState {
                        pending_tool: opt_text(tool_call_id),
                        ..old(self)@.sessions[i]
                    },
                ),
                None => old(self)@,
            }),
    {
        if let Some(at) = self.find(session_id) {
            let ghost before = self@.sessions;
            let ghost noted = opt_text(tool_call_id);
            self.sessions[at].pending_tool = tool_call_id;
            proof {
                let changed = SessionState { pending_tool: noted, ..before[at as int] };
                assert(session_list(self.sessions@) == before.update(at as int, changed));
            }
        }
    }
}

proof fn lemma_blank_ids(queue: Seq<Queued>)
    ensures
        blank_ids(queue).len() <= queue.len(),
    decreases queue.len(),
{
    if queue.len() > 0 {
        lemma_blank_ids(queue.drop_first());
    }
}

proof fn lemma_part_at(s: Seq<char>, part: Seq<char>, at: int)
    requires
        occurs_at(s, part, at),
    ensures
        has_part(s, part),
{
}

/// A prompt request that names no open session, brings no text, or does not say what
/// is to become of it in a busy session is answered as a mistake in its parameters.
pub proof fn mistaken_prompts_blame_their_parameters(
    s: ServerState,
    params: JsonValue,
    text: Seq<char>,
    error: AcpError,
)
    requires
        prompt_step(s, params, text) == Err::<Step, Seq<char>>(error_message(error)),
        error is Failed,
        named_session(params) is Err || trimmed(text).len() == 0 || place_of(
            s.sessions,
            named_session(params)->Ok_0,
        ) is None || string_of(member(params, "streamingBehavior"@)) is None,
    ensures
        error_code(error) == ErrorCode::InvalidParams,
{
    reveal_strlit("sessionId required");
    reveal_strlit("required");
    reveal_strlit("empty prompt");
    reveal_strlit("unknown sessionId: ");
    reveal_strlit("unknown sessionId");
    reveal_strlit("streamingBehavior is required when session is busy");
    reveal_strlit("method not found:");
    let message = error_message(error);
    assert("method not found:"@[0] == 'm');
    if message == "sessionId required"@ {
        assert(message.subrange(10, 18) == "required"@);
        lemma_part_at(message, "required"@, 10);
    } else if message == "empty prompt"@ {
        assert(message.subrange(0, 12) == "empty prompt"@);
        lemma_part_at(message, "empty prompt"@, 0);
    } else if message == "streamingBehavior is required when session is busy"@ {
        assert(message.subrange(21, 29) == "required"@);
        lemma_part_at(message, "required"@, 21);
    } else {
        assert(message.subrange(0, 17) == "unknown sessionId"@);
        lemma_part_at(message, "unknown sessionId"@, 0);
    }
    assert(message[0] != 'm');
    assert(!has_prefix(message, "method not found:"@));
}

/// A request with a method that does not exist is answered as such.
pub proof fn unknown_methods_are_told(error: AcpError)
    requires
        error is MethodNotFound,
    ensures
        error_code(error) == ErrorCode::MethodNotFound,
{
}

/// A prompt starts only in an open session that is idle. The session is then busy,
/// so that no other prompt starts in it.
pub proof fn one_prompt_runs_per_session(
    s: ServerState,
    params: JsonValue,
    text: Seq<char>,
    sid: Seq<char>,
    rpc_id: JsonValue,
    later: JsonValue,
    later_text: Seq<char>,
)
    requires
        prompt_step(s, params, text) == Ok::<Step, Seq<char>>(Step::Start { session_id: sid, text }),
        named_session(later) == Ok::<Seq<char>, Seq<char>>(sid),
        ids_distinct(s.sessions),
    ensures
        place_of(s.sessions, sid) matches Some(i) && !s.sessions[i].busy,
        ({
            let after = with_started(s, sid, rpc_id);
            &&& place_of(after.sessions, sid) matches Some(i) && after.sessions[i].busy
            &&& !(prompt_step(after, later, later_text) matches Ok(Step::Start { .. }))
        }),
{
    lemma_place(s.sessions, sid);
    let after = with_started(s, sid, rpc_id);
    lemma_place(after.sessions, sid);
    let i = place_of(s.sessions, sid)->0;
    assert(after.sessions[i].id == sid);
    let j = place_of(after.sessions, sid)->0;
    if i != j {
        assert(after.sessions[j].id == s.sessions[j].id);
        assert(s.sessions[i].id != s.sessions[j].id);
    }
}

/// When the active prompt was answered, its session is idle and has no pending tool,
/// and every other session is as it was.
pub proof fn answered_prompt_frees_its_session(s: ServerState, other: int)
    requires
        s.active is Some,
        ids_distinct(s.sessions),
        0 <= other < s.sessions.len(),
    ensures
        with_finished(s).active is None,
        s.sessions[other].id == s.active->0.session_id ==> !with_finished(s).sessions[other].busy
            && with_finished(s).sessions[other].pending_tool is None,
        s.sessions[other].id != s.active->0.session_id ==> with_finished(s).sessions[other]
            == s.sessions[other],
{
    let sid = s.active->0.session_id;
    lemma_place(s.sessions, sid);
    match place_of(s.sessions, sid) {
        Some(i) => {
            if i != other {
                assert(s.sessions[i].id != s.sessions[other].id);
            }
        },
        None => {
            assert(s.sessions[other].id != sid);
        },
    }
}

/// Every waiting prompt is either rejected as blank, started, or still waiting, in
/// the order in which they came.
pub proof fn queued_prompts_keep_their_order(queue: Seq<Queued>)
    ensures
        blank_ids(queue) + after_blanks(queue).map_values(|q: Queued| q.rpc_id)
            == queue.map_values(|q: Queued| q.rpc_id),
        after_blanks(queue).len() > 0 ==> trimmed(after_blanks(queue)[0].text).len() > 0,
    decreases queue.len(),
{
    let ids = |q: Queued| q.rpc_id;
    if queue.len() > 0 && trimmed(queue[0].text).len() == 0 {
        let rest = queue.drop_first();
        queued_prompts_keep_their_order(rest);
        lemma_blank_ids(rest);
        lemma_blank_ids(queue);
        assert(after_blanks(queue) == after_blanks(rest));
        assert(seq![queue[0].rpc_id] + rest.map_values(ids) == queue.map_values(ids));
        assert(blank_ids(queue) + after_blanks(queue).map_values(ids) == seq![queue[0].rpc_id] + (
        blank_ids(rest) + after_blanks(rest).map_values(ids)));
    } else {
        assert(after_blanks(queue) == queue);
        assert(blank_ids(queue) + queue.map_values(ids) == queue.map_values(ids));
    }
}

/// Each method goes by one name, and only these names go to a method; every other request is
/// for an unknown method, but for prompts, which go through their queue.
pub proof fn methods_go_by_one_name(name: Seq<char>)
    ensures
        method_named(name) == Some(AcpMethod::Initialize) ==> name == "initialize"@,
        method_named(name) == Some(AcpMethod::SessionNew) ==> name == "session/new"@,
        method_named(name) == Some(AcpMethod::SessionLoad) ==> name == "session/load"@,
        method_named(name) == Some(AcpMethod::SessionResume) ==> name == "session/resume"@,
        method_named(name) == Some(AcpMethod::SessionList) ==> name == "session/list"@,
        method_named(name) == Some(AcpMethod::SessionClose) ==> name == "session/close"@,
        method_named(name) == Some(AcpMethod::SessionSetMode) ==> name == "session/set_mode"@,
        method_named(name) == Some(AcpMethod::SessionActivateTools) ==> name == "session/activate_tools"@,
        method_named(name) == Some(AcpMethod::SessionDeactivateTools) ==> name == "session/deactivate_tools"@,
        method_named(name) == Some(AcpMethod::SessionSetConfigOption) ==> name == "session/set_config_option"@,
        method_named(name) == Some(AcpMethod::SessionClearQueue) ==> name == "session/clear_queue"@,
        method_named(name) == Some(AcpMethod::SessionSteer) ==> name == "session/steer"@,
        method_named(name) == Some(AcpMethod::SessionFollowUp) ==> name == "session/follow_up"@,
        method_named(name) == Some(AcpMethod::SetSteeringMode) ==> name == "session/set_steering_mode"@,
        method_named(name) == Some(AcpMethod::SetFollowUpMode) ==> name == "session/set_follow_up_mode"@,
        method_named(name) == Some(AcpMethod::Authenticate) ==> name == "authenticate"@,
        method_named(name) is Some <==> name == "initialize"@ || name == "session/new"@ || name == "session/load"@ || name == "session/resume"@ || name == "session/list"@ || name == "session/close"@ || name == "session/set_mode"@ || name == "session/activate_tools"@ || name == "session/deactivate_tools"@ || name == "session/set_config_option"@ || name == "session/clear_queue"@ || name == "session/steer"@ || name == "session/follow_up"@ || name == "session/set_steering_mode"@ || name == "session/set_follow_up_mode"@ || name == "authenticate"@,
{
}

/// A request for a method that there is reaches it, and any other is told so by name.
pub proof fn requests_reach_their_method(name: &str, r: Result<AcpMethod, AcpError>)
    requires
        call_ensures(dispatch, (name,), r),
    ensures
        r is Ok <==> method_named(name@) is Some,
        r matches Ok(method) ==> method_named(name@) == Some(method),
        r is Err && name@ != "session/prompt"@ ==> r->Err_0 is MethodNotFound && has_suffix(
            error_message(r->Err_0),
            name@,
        ),
{
    if r is Err && name@ != "session/prompt"@ {
        let message = "method not found: "@ + name@;
        assert(message.subrange(message.len() - name@.len(), message.len() as int) == name@);
    }
}

/// An error is told as an unknown method exactly where its message begins so, as a mistake in
/// the parameters where it speaks of one, and else as a failure of the application.
pub proof fn errors_are_told_by_their_words(message: String)
    ensures
        ({
            let words = message@;
            let mistaken = has_part(words, "required"@) || has_part(words, "empty prompt"@) || has_part(
                words,
                "invalid cwd"@,
            ) || has_part(words, "unsupported protocolVersion"@) || has_part(
                words,
                "unknown sessionId"@,
            ) || has_part(words, "unknown session mode"@) || has_part(
                words,
                "already has an active prompt"@,
            );
            let unknown = has_prefix(words, "method not found:"@);
            &&& error_code(AcpError::Failed(message)) is MethodNotFound <==> unknown
            &&& error_code(AcpError::Failed(message)) is InvalidParams <==> !unknown && mistaken
            &&& error_code(AcpError::Failed(message)) is ApplicationError <==> !unknown && !mistaken
        }),
        error_code(AcpError::MethodNotFound(message)) is MethodNotFound,
{
}

/// A request is answered with its result, or with the kind and the words of its error; an
/// error that was wrapped is told with its cause behind it. A prompt whose worker is gone is
/// answered too.
pub proof fn requests_are_answered_with_what_came(
    result: Result<Json, AcpError>,
    r: Result<Json, (ErrorCode, String)>,
    outcome: PromptOutcome,
    p: Result<Json, (ErrorCode, String)>,
)
    requires
        call_ensures(dispatch_reply, (result,), r),
        call_ensures(prompt_reply, (outcome,), p),
    ensures
        result matches Ok(value) ==> r == Ok::<Json, (ErrorCode, String)>(value),
        result matches Err(AcpError::Failed(message)) ==> (r matches Err((code, text)) && text@
            == message@),
        result matches Err(AcpError::Wrapped { context, cause }) ==> (r matches Err((code, text))
            && text@ == context@ + ": "@ + cause@),
        result is Err <==> r is Err,
        outcome matches PromptOutcome::Answered(value) ==> p == Ok::<Json, (ErrorCode, String)>(value),
        outcome matches PromptOutcome::Failed(AcpError::Failed(message)) ==> (
        p matches Err((code, text)) && text@ == message@),
        outcome is Dropped ==> (p matches Err((code, text)) && code is ApplicationError),
{
}

/// A prompt for an idle session starts with its text; for a busy one it steers or follows up
/// as it says. It is refused without a session, without text, for a session that is not open,
/// and for a busy one where it does not say which.
pub proof fn prompts_start_steer_or_follow_up(
    s: ServerState,
    params: JsonValue,
    sid: Seq<char>,
    text: Seq<char>,
    i: int,
)
    requires
        string_of(member(params, "sessionId"@)) == Some(sid),
        trimmed(text).len() > 0,
        ids_distinct(s.sessions),
        0 <= i < s.sessions.len(),
        s.sessions[i].id == sid,
    ensures
        ({
            let behavior = string_of(member(params, "streamingBehavior"@));
            let step = prompt_step(s, params, text);
            &&& !s.sessions[i].busy ==> step == Ok::<Step, Seq<char>>(
                Step::Start { session_id: sid, text },
            )
            &&& s.sessions[i].busy && behavior == Some("steer"@) ==> step == Ok::<Step, Seq<char>>(
                Step::Steer { session_id: sid, text },
            )
            &&& s.sessions[i].busy && behavior == Some("followUp"@) ==> step == Ok::<
                Step,
                Seq<char>,
            >(Step::FollowUp { session_id: sid, text })
            &&& s.sessions[i].busy && behavior != Some("steer"@) && behavior != Some("followUp"@)
                ==> step is Err
        }),
        prompt_step(s, params, Seq::empty()) is Err,
{
    lemma_place(s.sessions, sid);
    reveal_strlit("steer");
    reveal_strlit("followUp");
    assert("steer"@[0] == 's' && "followUp"@[0] == 'f');
    let none = Seq::<char>::empty();
    lemma_trimmed_len(none);
}

/// A session is found by its id wherever it stands, and one that is not open is not found.
pub proof fn sessions_are_found_by_id(sessions: Seq<SessionState>, id: Seq<char>, i: int)
    requires
        ids_distinct(sessions),
    ensures
        0 <= i < sessions.len() && sessions[i].id == id ==> place_of(sessions, id) == Some(i),
        (forall|j: int| 0 <= j < sessions.len() ==> (#[trigger] sessions[j]).id != id) <==> place_of(
            sessions,
            id,
        ) is None,
{
    lemma_place(sessions, id);
}

/// A started prompt makes its session busy and becomes the one that is being answered; no
/// other session changes.
pub proof fn started_prompts_make_their_session_busy(
    s: ServerState,
    sid: Seq<char>,
    rpc_id: JsonValue,
    i: int,
    other: int,
)
    requires
        ids_distinct(s.sessions),
        0 <= i < s.sessions.len(),
        s.sessions[i].id == sid,
        0 <= other < s.sessions.len(),
    ensures
        ({
            let next = with_started(s, sid, rpc_id);
            &&& next.sessions.len() == s.sessions.len()
            &&& next.sessions[i].busy
            &&& next.sessions[i].queue == s.sessions[i].queue
            &&& next.sessions[i].id == sid
            &&& other != i ==> next.sessions[other] == s.sessions[other]
            &&& next.active == Some(ActiveState { session_id: sid, rpc_id })
            &&& next.stdin_open == s.stdin_open
        }),
{
    lemma_place(s.sessions, sid);
}

/// Once its prompt is answered a session is idle, waits for no tool, and keeps its queue; no
/// prompt is being answered then.
pub proof fn answered_sessions_are_idle(s: ServerState, i: int, other: int)
    requires
        ids_distinct(s.sessions),
        s.active is Some,
        0 <= i < s.sessions.len(),
        s.sessions[i].id == s.active->0.session_id,
        0 <= other < s.sessions.len(),
    ensures
        ({
            let next = with_finished(s);
            &&& next.active is None
            &&& !next.sessions[i].busy
            &&& next.sessions[i].pending_tool is None
            &&& next.sessions[i].queue == s.sessions[i].queue
            &&& other != i ==> next.sessions[other] == s.sessions[other]
            &&& next.sessions.len() == s.sessions.len()
        }),
{
    lemma_place(s.sessions, s.active->0.session_id);
}

/// The next prompt of a queue that says something starts, with its own request, and leaves the
/// queue; blank ones before it are refused, and those behind it keep waiting.
pub proof fn queued_prompts_start_in_turn(
    s: ServerState,
    sid: Seq<char>,
    i: int,
    blanks: int,
)
    requires
        ids_distinct(s.sessions),
        0 <= i < s.sessions.len(),
        s.sessions[i].id == sid,
        0 <= blanks <= s.sessions[i].queue.len(),
        forall|k: int|
            0 <= k < blanks ==> trimmed((#[trigger] s.sessions[i].queue[k]).text).len() == 0,
        blanks < s.sessions[i].queue.len() ==> trimmed(s.sessions[i].queue[blanks].text).len() > 0,
    ensures
        ({
            let queue = s.sessions[i].queue;
            let next = with_next_prompt(s, sid);
            &&& blank_ids(queue).len() == blanks
            &&& forall|k: int| 0 <= k < blanks ==> blank_ids(queue)[k] == (#[trigger] queue[k]).rpc_id
            &&& blanks == queue.len() ==> next.sessions[i].queue.len() == 0 && next.active == s.active
                && next.sessions[i].busy == s.sessions[i].busy
            &&& blanks < queue.len() ==> next.active == Some(
                ActiveState { session_id: sid, rpc_id: queue[blanks].rpc_id },
            ) && next.sessions[i].busy && next.sessions[i].queue == queue.skip(blanks + 1)
        }),
{
    lemma_place(s.sessions, sid);
    let queue = s.sessions[i].queue;
    lemma_leading_blanks(queue, blanks);
    assert(after_blanks(queue) == queue.skip(blanks));
    if blanks < queue.len() {
        assert(queue.skip(blanks).drop_first() == queue.skip(blanks + 1));
        assert(queue.skip(blanks)[0] == queue[blanks]);
    }
}

proof fn lemma_leading_blanks(queue: Seq<Queued>, blanks: int)
    requires
        0 <= blanks <= queue.len(),
        forall|k: int| 0 <= k < blanks ==> trimmed((#[trigger] queue[k]).text).len() == 0,
        blanks < queue.len() ==> trimmed(queue[blanks].text).len() > 0,
    ensures
        blank_ids(queue).len() == blanks,
        forall|k: int| 0 <= k < blanks ==> blank_ids(queue)[k] == (#[trigger] queue[k]).rpc_id,
    decreases queue.len(),
{
    if blanks > 0 {
        let rest = queue.drop_first();
        assert forall|k: int| 0 <= k < blanks - 1 implies trimmed((#[trigger] rest[k]).text).len()
            == 0 by {
            assert(rest[k] == queue[k + 1]);
        }
        if blanks < queue.len() {
            assert(rest[blanks - 1] == queue[blanks]);
        }
        assert(trimmed(queue[0].text).len() == 0);
        lemma_leading_blanks(rest, blanks - 1);
        assert forall|k: int| 0 <= k < blanks implies blank_ids(queue)[k] == (#[trigger] queue[k]).rpc_id by {
            if k > 0 {
                assert(rest[k - 1] == queue[k]);
                assert(blank_ids(queue)[k] == blank_ids(rest)[k - 1]);
            }
        }
    }
}

/// A client speaks version 1 or is refused, and one that names no version speaks it. What it
/// can do is believed only where it says so in plain truth.
pub proof fn clients_must_speak_the_version(
    server: &mut AcpServer,
    params: &Json,
    version: &str,
    r: Result<Json, AcpError>,
)
    requires
        call_ensures(AcpServer::initialize, (server, params, version), r),
    ensures
        member(params@, "protocolVersion"@) is None ==> r is Ok,
        member(params@, "protocolVersion"@) matches Some(JsonValue::Uint(n)) ==> (r is Ok <==> n == 1),
        r is Err ==> final(server)@ == old(server)@,
        r is Ok ==> final(server)@.sessions == old(server)@.sessions && final(server)@.active == old(server)@.active && final(server)@.yolo == old(server)@.yolo,
        r is Ok ==> (final(server)@.client_caps.terminal <==> inner_member(
            params@,
            "clientCapabilities"@,
            "terminal"@,
        ) == Some(JsonValue::Bool(true))),
        r is Ok ==> (final(server)@.client_caps.fs_read <==> (inner_member(
            params@,
            "clientCapabilities"@,
            "fs"@,
        ) matches Some(fs) && member(fs, "readTextFile"@) == Some(JsonValue::Bool(true)))),
        r is Ok ==> (final(server)@.client_caps.fs_write <==> (inner_member(
            params@,
            "clientCapabilities"@,
            "fs"@,
        ) matches Some(fs) && member(fs, "writeTextFile"@) == Some(JsonValue::Bool(true)))),
{
}

/// A session asks for approvals unless everything is approved in general, and goes through the
/// client for what the client can do.
pub proof fn sessions_are_built_for_the_client(
    server: &AcpServer,
    configured: PermissionMode,
    recovery: bool,
    r: SessionPlan,
)
    requires
        call_ensures(AcpServer::session_plan, (server, configured, recovery), r),
    ensures
        server@.yolo ==> r.permission_mode is BypassPermissions && !r.ask_approvals,
        !server@.yolo ==> r.permission_mode == configured && r.ask_approvals,
        r.remote_fs <==> server@.client_caps.fs_read || server@.client_caps.fs_write,
        r.remote_fs_read == server@.client_caps.fs_read,
        r.remote_fs_write == server@.client_caps.fs_write,
        r.remote_terminal == server@.client_caps.terminal,
        r.automatic_recovery == recovery,
{
}

/// An opened session is idle with an empty queue, in the place of one with its id or behind the
/// others; a closed one is gone, and the others stay in order.
pub proof fn sessions_open_idle_and_close(
    server: &mut AcpServer,
    id: &str,
    mode: PermissionMode,
    closing: &mut AcpServer,
    params: &Json,
    r: Result<String, AcpError>,
)
    requires
        call_ensures(AcpServer::insert_session, (server, id, mode), ()),
        call_ensures(AcpServer::handle_session_close, (closing, params), r),
        old(closing).wf(),
    ensures
        place_of(old(server)@.sessions, id@) is None ==> final(server)@.sessions.len() == old(server)@.sessions.len() + 1 && final(server)@.sessions.last().id == id@ && !final(server)@.sessions.last().busy && final(server)@.sessions.last().queue.len() == 0 && final(server)@.sessions.drop_last() == old(server)@.sessions,
        final(server)@.active == old(server)@.active,
        r matches Ok(sid) ==> place_of(old(closing)@.sessions, sid@) is Some && final(closing)@.sessions.len() == old(closing)@.sessions.len() - 1 && forall|i: int|
            0 <= i < final(closing)@.sessions.len() ==> (#[trigger] final(closing)@.sessions[i]).id
                != sid@,
        r is Err ==> final(closing)@ == old(closing)@,
{
    if place_of(old(server)@.sessions, id@) is None {
        assert(final(server)@.sessions.drop_last() == old(server)@.sessions);
    }
    if let Ok(sid) = r {
        let all = old(closing)@.sessions;
        lemma_place(all, sid@);
        let at = place_of(all, sid@)->0;
        let now = final(closing)@.sessions;
        assert forall|i: int| 0 <= i < now.len() implies (#[trigger] now[i]).id != sid@ by {
            if i < at {
                assert(now[i] == all[i]);
            } else {
                assert(now[i] == all[i + 1]);
            }
        }
    }
}

/// Requests for a session need its id, an open session, and what they are about: a mode, names
/// of tools, a text, or a queue mode, each of which is taken as given.
pub proof fn session_requests_need_what_they_are_about(
    server: &AcpServer,
    params: &Json,
    prompt_text: String,
    mode: Result<(String, String), AcpError>,
    text: Result<(String, String), AcpError>,
    queue: Result<(String, QueueMode), AcpError>,
)
    requires
        call_ensures(AcpServer::handle_session_set_mode, (server, params), mode),
        call_ensures(AcpServer::handle_session_text, (server, params, prompt_text), text),
        call_ensures(AcpServer::handle_set_queue_mode, (server, params), queue),
    ensures
        ({
            let sid = string_of(member(params@, "sessionId"@));
            let open = sid is Some && place_of(server@.sessions, sid->0) is Some;
            let said = string_of(member(params@, "text"@));
            let given = said is Some && trimmed(said->0).len() > 0;
            let named = string_of(member(params@, "mode"@));
            &&& mode is Ok <==> open && string_of(member(params@, "modeId"@)) is Some
            &&& mode matches Ok((s, m)) ==> sid == Some(s@) && string_of(member(params@, "modeId"@))
                == Some(m@)
            &&& text is Ok <==> open && (given || trimmed(prompt_text@).len() > 0)
            &&& text matches Ok((s, t)) ==> sid == Some(s@) && (if given {
                t@ == said->0
            } else {
                t@ == prompt_text@
            })
            &&& queue is Ok <==> open && (named == Some("one-at-a-time"@) || named == Some("all"@))
            &&& queue matches Ok((s, m)) ==> sid == Some(s@) && (m is All <==> named == Some("all"@))
            &&& sid is None ==> (mode matches Err(error) && error_message(error)
                == "sessionId required"@)
        }),
{
    reveal_strlit("all");
    reveal_strlit("one-at-a-time");
    assert("all"@.len() != "one-at-a-time"@.len());
}

/// The names of tools are taken in order, and only where all of them are strings.
pub proof fn tool_names_are_taken_in_order(items: Seq<JsonValue>, name: Seq<char>, other: JsonValue)
    ensures
        strings_in(Seq::empty()) == Some(Seq::<Seq<char>>::empty()),
        strings_in(items) is Some ==> strings_in(items.push(JsonValue::Str(name))) == Some(
            strings_in(items)->0.push(name),
        ),
        strings_in(items) is None ==> strings_in(items.push(other)) is None,
        !(other is Str) ==> strings_in(items.push(other)) is None,
{
    assert(items.push(JsonValue::Str(name)).drop_last() == items);
    assert(items.push(other).drop_last() == items);
}

/// A queued prompt waits behind the others of its session; cancelling and clearing empty the
/// queue, and the other sessions are left as they are.
pub proof fn queues_fill_and_empty(
    server: &mut AcpServer,
    session_id: &str,
    prompt: QueuedPrompt,
    r: bool,
    cancelling: &mut AcpServer,
    c: bool,
    i: int,
)
    requires
        call_ensures(AcpServer::queue_prompt, (server, session_id, prompt), r),
        call_ensures(AcpServer::cancel_session, (cancelling, session_id), c),
        old(server).wf(),
        old(cancelling).wf(),
        old(server)@.sessions == old(cancelling)@.sessions,
        0 <= i < old(server)@.sessions.len(),
    ensures
        r <==> place_of(old(server)@.sessions, session_id@) is Some,
        c == r,
        old(server)@.sessions[i].id == session_id@ ==> r && final(server)@.sessions[i].queue == old(server)@.sessions[i].queue.push(Queued { rpc_id: prompt.rpc_id@, text: prompt.text@ }) && final(cancelling)@.sessions[i].queue.len() == 0 && final(cancelling)@.sessions[i].busy == old(server)@.sessions[i].busy,
        old(server)@.sessions[i].id != session_id@ ==> final(server)@.sessions[i] == old(server)@.sessions[i] && final(cancelling)@.sessions[i] == old(server)@.sessions[i],
        final(server)@.active == old(server)@.active,
        final(cancelling)@.active == old(cancelling)@.active,
{
    lemma_place(old(server)@.sessions, session_id@);
}

/// When no more input arrives the server notes it, and the prompt that is being answered is to
/// be cancelled where its session is still open.
pub proof fn closed_input_cancels_the_prompt(server: &mut AcpServer, r: Option<String>)
    requires
        call_ensures(AcpServer::input_closed, (server,), r),
    ensures
        !final(server)@.stdin_open,
        final(server)@.sessions == old(server)@.sessions,
        final(server)@.active == old(server)@.active,
        old(server)@.active is None ==> r is None,
        old(server)@.active matches Some(active) ==> (r is Some <==> place_of(
            old(server)@.sessions,
            active.session_id,
        ) is Some) && (r matches Some(sid) ==> sid@ == active.session_id),
{
}

/// A response carries its error where it has one, and else its result, or nothing.
pub proof fn responses_carry_error_or_result(message: &Json, r: Result<Json, Json>)
    requires
        call_ensures(response_outcome, (message,), r),
    ensures
        member(message@, "error"@) matches Some(error) ==> (r matches Err(told) && told@ == error),
        member(message@, "error"@) is None && member(message@, "result"@) is Some ==> (
        r matches Ok(told) && told@ == member(message@, "result"@)->0),
        member(message@, "error"@) is None && member(message@, "result"@) is None ==> (
        r matches Ok(told) && told@ == JsonValue::Null),
{
}

/// A client that asks for another version than the one that is spoken is told both.
pub proof fn other_versions_are_told(
    params: &Json,
    version: &str,
    r: Result<(ClientCapabilities, Json), AcpError>,
)
    requires
        call_ensures(handle_initialize, (params, version), r),
        r is Err,
    ensures
        error_message(r->Err_0) == "unsupported protocolVersion "@ + decimal(
            asked_version(params@) as nat,
        ) + "; zene acp speaks 1"@,
        member(params@, "protocolVersion"@) matches Some(JsonValue::Uint(n)) ==> asked_version(
            params@,
        ) == n,
{
}

/// A queue mode that is not known is refused with those that are.
pub proof fn unknown_queue_modes_are_refused(
    server: &AcpServer,
    params: &Json,
    r: Result<(String, QueueMode), AcpError>,
)
    requires
        call_ensures(AcpServer::handle_set_queue_mode, (server, params), r),
        named_session(params@) is Ok,
        queue_mode_named(params@) is None,
    ensures
        r is Err,
        error_message(r->Err_0) == "mode must be one-at-a-time or all"@,
{
}

/// A new server reads its input, has no session and answers no prompt.
pub proof fn new_servers_have_nothing_open(debug: bool, r: AcpServer)
    requires
        call_ensures(AcpServer::new, (debug,), r),
    ensures
        r@.sessions.len() == 0,
        r@.active is None,
        r@.stdin_open,
{
}

} // verus!
