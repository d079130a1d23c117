//! What an ACP client is told and asked: updates from runtime events, permission
//! and ask-user requests, and the reading of their answers.
use vstd::prelude::*;

use crate::actor::{ApprovalDecision, RuntimeRecoveryInfo};
use crate::json::{
    inner_member, insert, inserted, inserted_member_reads_back, item_values, jstr, jstr_or_null, lemma_object_view, lookup, member,
    member_values, members, put, string_of, Json, JsonValue,
};
use crate::llm::TokenUsage;
use crate::permission::PromptChoice;
use crate::text::{
    contains, decimal, decimal_text, has_part, lemma_decimal_injective, opt_text, same_text,
};
use crate::turn_state::{fresh_simple_id, hyphenated, is_version_4, simple_hex, SessionId, TurnId};

verus! {

/// What kind of message a client sent.
#[derive(Debug, Clone, Copy, PartialEq, Eq, Structural)]
pub enum MessageClass {
    Notification,
    Request,
    Other,
}

/// What an incoming message asks for.
#[derive(Debug)]
pub enum Incoming {
    /// The client cancels a session.
    Cancel { session_id: String },
    /// A prompt, which goes through the prompt queue.
    Prompt { rpc_id: Json, params: Json },
    /// Any other request.
    Request { rpc_id: Json, method: String, params: Json },
    /// Nothing that the server acts on.
    Ignored,
}

/// The contents of an [`Incoming`] message.
pub enum Asked {
    Cancel { session_id: Seq<char> },
    Prompt { rpc_id: JsonValue, params: JsonValue },
    Request { rpc_id: JsonValue, method: Seq<char>, params: JsonValue },
    Ignored,
}

impl View for Incoming {
    type V = Asked;

    open spec fn view(&self) -> Asked {
        match self {
            Incoming::Cancel { session_id } => Asked::Cancel { session_id: session_id@ },
            Incoming::Prompt { rpc_id, params } => Asked::Prompt {
                rpc_id: rpc_id@,
                params: params@,
            },
            Incoming::Request { rpc_id, method, params } => Asked::Request {
                rpc_id: rpc_id@,
                method: method@,
                params: params@,
            },
            Incoming::Ignored => Asked::Ignored,
        }
    }
}

/// A value, or null.
pub open spec fn or_null(value: Option<JsonValue>) -> JsonValue {
    match value {
        Some(v) => v,
        None => JsonValue::Null,
    }
}

/// The method that a message names, or nothing.
pub open spec fn method_of(message: JsonValue) -> Seq<char> {
    match string_of(member(message, "method"@)) {
        Some(method) => method,
        None => Seq::empty(),
    }
}

/// What an incoming message asks for.
pub open spec fn asked_by(message: JsonValue, class: MessageClass) -> Asked {
    match class {
        MessageClass::Notification => match string_of(
            inner_member(message, "params"@, "sessionId"@),
        ) {
            Some(sid) => if method_of(message) == "session/cancel"@ {
                Asked::Cancel { session_id: sid }
            } else {
                Asked::Ignored
            },
            None => Asked::Ignored,
        },
        MessageClass::Other => Asked::Ignored,
        MessageClass::Request => {
            let rpc_id = or_null(member(message, "id"@));
            let params = or_null(member(message, "params"@));
            if method_of(message) == "session/prompt"@ {
                Asked::Prompt { rpc_id, params }
            } else {
                Asked::Request { rpc_id, method: method_of(message), params }
            }
        },
    }
}

fn copy_or_null(value: Option<&Json>) -> (r: Json)
    ensures
        r@ == (match value {
            Some(v) => v@,
            None => JsonValue::Null,
        }),
{
    match value {
        Some(v) => v.copy(),
        None => Json::Null,
    }
}

/// Reads what an incoming message asks for.
pub fn handle_incoming(message: &Json, class: MessageClass) -> (r: Incoming)
    ensures
        r@ == asked_by(message@, class),
{
    let method = match message.get_str("method") {
        Some(method) => method,
        None => String::new(),
    };
    match class {
        MessageClass::Notification => {
            if let Some(params) = message.get("params") {
                if let Some(session_id) = params.get_str("sessionId") {
                    if same_text(method.as_str(), "session/cancel") {
                        return Incoming::Cancel { session_id };
                    }
                }
            }
            Incoming::Ignored
        },
        MessageClass::Other => Incoming::Ignored,
        MessageClass::Request => {
            let rpc_id = copy_or_null(message.get("id"));
            let params = copy_or_null(message.get("params"));
            if same_text(method.as_str(), "session/prompt") {
                Incoming::Prompt { rpc_id, params }
            } else {
                Incoming::Request { rpc_id, method, params }
            }
        },
    }
}

/// The members of an object with others put over them, one after the other.
pub open spec fn merged(
    members: Seq<(Seq<char>, JsonValue)>,
    extra: Seq<(Seq<char>, JsonValue)>,
) -> Seq<(Seq<char>, JsonValue)>
    decreases extra.len(),
{
    if extra.len() == 0 {
        members
    } else {
        inserted(merged(members, extra.drop_last()), extra.last().0, extra.last().1)
    }
}

/// An update with metadata: merged into the metadata object that it has, or put
/// under `_meta`. What is no object stays as it is.
pub open spec fn with_meta(update: JsonValue, meta: JsonValue) -> JsonValue {
    match update {
        JsonValue::Object(members) => match member(update, "_meta"@) {
            Some(JsonValue::Object(existing)) => match meta {
                JsonValue::Object(extra) => JsonValue::Object(
                    inserted(members, "_meta"@, JsonValue::Object(merged(existing, extra))),
                ),
                _ => update,
            },
            _ => JsonValue::Object(inserted(members, "_meta"@, meta)),
        },
        _ => update,
    }
}

/// Metadata that is added to an update changes nothing else of it, and is found under
/// `_meta` where the update had no metadata object.
pub proof fn metadata_leaves_the_update(update: JsonValue, meta: JsonValue, key: Seq<char>)
    requires
        update is Object,
    ensures
        key != "_meta"@ ==> member(with_meta(update, meta), key) == member(update, key),
        !(member(update, "_meta"@) matches Some(JsonValue::Object(_))) ==> member(
            with_meta(update, meta),
            "_meta"@,
        ) == Some(meta),
{
    let members = update->Object_0;
    inserted_member_reads_back(members, "_meta"@, meta, key);
    inserted_member_reads_back(members, "_meta"@, meta, "_meta"@);
    match member(update, "_meta"@) {
        Some(JsonValue::Object(existing)) => {
            let all = JsonValue::Object(merged(existing, meta->Object_0));
            inserted_member_reads_back(members, "_meta"@, all, key);
        },
        _ => {},
    }
}

fn merge_members(members: &mut Vec<(String, Json)>, extra: &Vec<(String, Json)>)
    ensures
        member_values(final(members)@) == merged(
            member_values(old(members)@),
            member_values(extra@),
        ),
{
    let ghost start = member_values(members@);
    let ghost all = member_values(extra@);
    let mut i: usize = 0;
    while i < extra.len()
        invariant
            i <= extra.len(),
            all == member_values(extra@),
            start == member_values(old(members)@),
            member_values(members@) == merged(start, all.take(i as int)),
        decreases extra.len() - i,
    {
        let entry = &extra[i];
        proof {
            assert(all.take(i + 1).drop_last() == all.take(i as int));
            assert(all.take(i + 1).last() == (entry.0@, entry.1@));
        }
        insert(members, entry.0.as_str(), entry.1.copy());
        i += 1;
    }
    proof {
        assert(all.take(all.len() as int) == all);
    }
}

fn copy_members(members: &Vec<(String, Json)>) -> (r: Vec<(String, Json)>)
    ensures
        member_values(r@) == member_values(members@),
{
    let mut out: Vec<(String, Json)> = Vec::new();
    let ghost all = member_values(members@);
    let mut i: usize = 0;
    while i < members.len()
        invariant
            i <= members.len(),
            all == member_values(members@),
            member_values(out@) == all.take(i as int),
        decreases members.len() - i,
    {
        let entry = &members[i];
        put(&mut out, entry.0.as_str(), entry.1.copy());
        proof {
            assert(all.take(i + 1) == all.take(i as int).push((entry.0@, entry.1@)));
        }
        i += 1;
    }
    proof {
        assert(all.take(all.len() as int) == all);
    }
    out
}

/// Adds metadata to an update.
pub fn attach_meta(update: Json, meta: Json) -> (r: Json)
    ensures
        r@ == with_meta(update@, meta@),
{
    let existing: Option<Vec<(String, Json)>> = match update.get("_meta") {
        Some(Json::Object(found)) => {
            proof {
                lemma_object_view(*found);
            }
            Some(copy_members(found))
        },
        _ => None,
    };
    match update {
        Json::Object(members) => {
            proof {
                lemma_object_view(members);
            }
            let mut members = members;
            match existing {
                Some(found) => {
                    match meta {
                        Json::Object(extra) => {
                            proof {
                                lemma_object_view(extra);
                            }
                            let mut found = found;
                            merge_members(&mut found, &extra);
                            insert(&mut members, "_meta", Json::object(found));
                            Json::object(members)
                        },
                        _ => Json::object(members),
                    }
                },
                None => {
                    insert(&mut members, "_meta", meta);
                    Json::object(members)
                },
            }
        },
        other => other,
    }
}

/// The metadata about recovery.
pub open spec fn recovery_meta(info: RuntimeRecoveryInfo) -> JsonValue {
    JsonValue::Object(
        seq![
            ("disposition"@, jstr(info.disposition@)),
            ("hasIncompleteExecution"@, JsonValue::Bool(info.has_incomplete_execution)),
            ("activeTurnCount"@, JsonValue::Uint(info.active_turn_count as u64)),
            ("activeToolCount"@, JsonValue::Uint(info.active_tool_count as u64)),
            ("safeResumeAllowed"@, JsonValue::Bool(info.safe_resume_allowed)),
            ("automaticResume"@, JsonValue::Bool(info.automatic_resume)),
            ("reason"@, jstr(info.reason@)),
        ],
    )
}

/// The metadata about recovery.
pub fn recovery_info_metadata(info: &RuntimeRecoveryInfo) -> (r: Json)
    ensures
        r@ == recovery_meta(*info),
{
    let mut out = members();
    put(&mut out, "disposition", Json::text(info.disposition.as_str()));
    put(&mut out, "hasIncompleteExecution", Json::Bool(info.has_incomplete_execution));
    put(&mut out, "activeTurnCount", Json::Uint(info.active_turn_count as u64));
    put(&mut out, "activeToolCount", Json::Uint(info.active_tool_count as u64));
    put(&mut out, "safeResumeAllowed", Json::Bool(info.safe_resume_allowed));
    put(&mut out, "automaticResume", Json::Bool(info.automatic_resume));
    put(&mut out, "reason", Json::text(info.reason.as_str()));
    proof {
        assert(member_values(out@) == recovery_meta(*info)->Object_0);
    }
    Json::object(out)
}

/// The answer to a request that opened a session: its id, the state of its modes,
/// and what is known about recovery.
pub fn session_answer(session_id: &str, modes: Json, info: &RuntimeRecoveryInfo) -> (r: Json)
    ensures
        r@ == JsonValue::Object(
            seq![
                ("sessionId"@, jstr(session_id@)),
                ("modes"@, modes@),
                ("_meta"@, JsonValue::Object(seq![("recovery"@, recovery_meta(*info))])),
            ],
        ),
{
    let mut meta = members();
    put(&mut meta, "recovery", recovery_info_metadata(info));
    let mut out = members();
    put(&mut out, "sessionId", Json::text(session_id));
    put(&mut out, "modes", modes);
    proof {
        assert(member_values(meta@) == seq![("recovery"@, recovery_meta(*info))]);
    }
    put(&mut out, "_meta", Json::object(meta));
    proof {
        assert(member_values(out@) == seq![
            ("sessionId"@, jstr(session_id@)),
            ("modes"@, modes@),
            ("_meta"@, JsonValue::Object(seq![("recovery"@, recovery_meta(*info))])),
        ]);
    }
    Json::object(out)
}

/// A saved session, as a client sees it.
#[derive(Debug)]
pub struct SessionListing {
    pub id: String,
    pub workdir: String,
    pub title: Option<String>,
    /// When the session was last changed, in RFC 3339.
    pub updated_at: String,
}

/// What a client is told about a saved session.
pub open spec fn listing_value(listing: SessionListing) -> JsonValue {
    JsonValue::Object(
        seq![
            ("sessionId"@, jstr(listing.id@)),
            ("cwd"@, jstr(listing.workdir@)),
            ("title"@, jstr_or_null(opt_text(listing.title))),
            ("updatedAt"@, jstr(listing.updated_at@)),
        ],
    )
}

/// The answer to `session/list`.
pub fn session_list_answer(listings: &Vec<SessionListing>) -> (r: Json)
    ensures
        r@ == JsonValue::Object(
            seq![
                (
                    "sessions"@,
                    JsonValue::Array(listings@.map_values(|l: SessionListing| listing_value(l))),
                ),
            ],
        ),
{
    let ghost shown = listings@.map_values(|l: SessionListing| listing_value(l));
    let mut items: Vec<Json> = Vec::new();
    let mut i: usize = 0;
    while i < listings.len()
        invariant
            i <= listings.len(),
            shown == listings@.map_values(|l: SessionListing| listing_value(l)),
            item_values(items@) == shown.take(i as int),
        decreases listings.len() - i,
    {
        let listing = &listings[i];
        let mut entry = members();
        put(&mut entry, "sessionId", Json::text(listing.id.as_str()));
        put(&mut entry, "cwd", Json::text(listing.workdir.as_str()));
        put(&mut entry, "title", Json::text_or_null(&listing.title));
        put(&mut entry, "updatedAt", Json::text(listing.updated_at.as_str()));
        proof {
            assert(member_values(entry@) == listing_value(*listing)->Object_0);
        }
        let ghost before = item_values(items@);
        items.push(Json::object(entry));
        proof {
            assert(item_values(items@) == before.push(shown[i as int]));
            assert(shown.take(i + 1) == shown.take(i as int).push(shown[i as int]));
        }
        i += 1;
    }
    proof {
        assert(shown.take(shown.len() as int) == shown);
    }
    let mut out = members();
    put(&mut out, "sessions", Json::array(items));
    proof {
        assert(member_values(out@) == seq![("sessions"@, JsonValue::Array(shown))]);
    }
    Json::object(out)
}

/// An update that replays what was said before, marked as such.
pub fn replayed_update(update: Json) -> (r: Json)
    ensures
        r@ == (match update@ {
            JsonValue::Object(members) => JsonValue::Object(
                inserted(
                    members,
                    "_meta"@,
                    JsonValue::Object(seq![("isReplay"@, JsonValue::Bool(true))]),
                ),
            ),
            other => other,
        }),
{
    match update {
        Json::Object(found) => {
            proof {
                lemma_object_view(found);
            }
            let mut found = found;
            let mut meta = members();
            put(&mut meta, "isReplay", Json::Bool(true));
            proof {
                assert(member_values(meta@) == seq![("isReplay"@, JsonValue::Bool(true))]);
            }
            insert(&mut found, "_meta", Json::object(meta));
            Json::object(found)
        },
        other => other,
    }
}

/// How a prompt ended for the client: an end of the turn, a cancellation, or an
/// error.
pub open spec fn stop_reason(result: Result<(), Seq<char>>) -> Result<Seq<char>, Seq<char>> {
    match result {
        Ok(_) => Ok("end_turn"@),
        Err(message) => if has_part(message, "cancel"@) || has_part(message, "aborted"@) {
            Ok("cancelled"@)
        } else {
            Err(message)
        },
    }
}

/// The answer to a prompt.
pub fn prompt_answer(result: Result<String, String>) -> (r: Result<Json, String>)
    ensures
        ({
            let seen = match result {
                Ok(_) => Ok::<(), Seq<char>>(()),
                Err(message) => Err(message@),
            };
            match r {
                Ok(answer) => stop_reason(seen) is Ok && answer@ == JsonValue::Object(
                    seq![("stopReason"@, jstr(stop_reason(seen)->Ok_0))],
                ),
                Err(message) => stop_reason(seen) == Err::<Seq<char>, Seq<char>>(message@),
            }
        }),
{
    let reason = match result {
        Ok(_) => "end_turn",
        Err(message) => {
            if contains(message.as_str(), "cancel") || contains(message.as_str(), "aborted") {
                "cancelled"
            } else {
                return Err(message);
            }
        },
    };
    let mut out = members();
    put(&mut out, "stopReason", Json::text(reason));
    proof {
        assert(member_values(out@) == seq![("stopReason"@, jstr(reason@))]);
    }
    Ok(Json::object(out))
}

/// The decision that a choice stands for.
pub fn approval_decision(choice: PromptChoice) -> (r: ApprovalDecision)
    ensures
        r == (match choice {
            PromptChoice::AllowOnce => ApprovalDecision::AllowOnce,
            PromptChoice::AllowSession => ApprovalDecision::AllowSession,
            PromptChoice::Deny => ApprovalDecision::Deny,
        }),
{
    match choice {
        PromptChoice::AllowOnce => ApprovalDecision::AllowOnce,
        PromptChoice::AllowSession => ApprovalDecision::AllowSession,
        PromptChoice::Deny => ApprovalDecision::Deny,
    }
}

/// The id under which a permission prompt shows its tool call: the one of the
/// request, else that of the tool call that waits, else a new one.
pub fn approval_tool_call_id(requested: Option<String>, pending: Option<String>) -> (r: String)
    ensures
        match (requested, pending) {
            (Some(id), _) => r == id,
            (None, Some(id)) => r == id,
            (None, None) => exists|value: u128|
                is_version_4(value) && r@ == #[trigger] hyphenated(value),
        },
{
    match requested {
        Some(id) => id,
        None => match pending {
            Some(id) => id,
            None => {
                let id = SessionId::new();
                id.as_str().to_string()
            },
        },
    }
}

/// An option of a permission request.
pub open spec fn choice_option(id: Seq<char>, name: Seq<char>, kind: Seq<char>) -> JsonValue {
    JsonValue::Object(seq![("optionId"@, jstr(id)), ("name"@, jstr(name)), ("kind"@, jstr(kind))])
}

fn option_entry(id: &str, name: &str, kind: &str) -> (r: Vec<(String, Json)>)
    ensures
        JsonValue::Object(member_values(r@)) == choice_option(id@, name@, kind@),
{
    let mut out = members();
    put(&mut out, "optionId", Json::text(id));
    put(&mut out, "name", Json::text(name));
    put(&mut out, "kind", Json::text(kind));
    proof {
        assert(member_values(out@) == choice_option(id@, name@, kind@)->Object_0);
    }
    out
}

fn push_item(items: &mut Vec<Json>, item: Json)
    ensures
        item_values(final(items)@) == item_values(old(items)@).push(item@),
{
    let ghost before = item_values(items@);
    let ghost added = item@;
    items.push(item);
    proof {
        assert(item_values(items@) == before.push(added));
    }
}

fn items() -> (r: Vec<Json>)
    ensures
        item_values(r@) == Seq::<JsonValue>::empty(),
{
    let r: Vec<Json> = Vec::new();
    proof {
        assert(item_values(r@) == Seq::<JsonValue>::empty());
    }
    r
}

/// What a permission request shows of the tool's input: the parsed preview, or the
/// preview itself.
pub open spec fn shown_input(preview: Seq<char>, parsed: Option<JsonValue>) -> JsonValue {
    match parsed {
        Some(value) => value,
        None => JsonValue::Object(seq![("preview"@, jstr(preview))]),
    }
}

/// The parameters of a permission request.
pub open spec fn permission_params(
    session_id: Seq<char>,
    permission_mode: Seq<char>,
    title: Seq<char>,
    kind: Seq<char>,
    tool_call_id: Seq<char>,
    input: JsonValue,
) -> JsonValue {
    JsonValue::Object(
        seq![
            ("sessionId"@, jstr(session_id)),
            (
                "toolCall"@,
                JsonValue::Object(
                    seq![
                        ("toolCallId"@, jstr(tool_call_id)),
                        ("title"@, jstr(title)),
                        ("kind"@, jstr(kind)),
                        ("status"@, jstr("pending"@)),
                        ("rawInput"@, input),
                    ],
                ),
            ),
            (
                "options"@,
                JsonValue::Array(
                    seq![
                        choice_option("allow-once"@, "Allow once"@, "allow_once"@),
                        choice_option("allow-always"@, "Allow always"@, "allow_always"@),
                        choice_option("reject-once"@, "Reject"@, "reject_once"@),
                    ],
                ),
            ),
            ("permissionMode"@, jstr(permission_mode)),
        ],
    )
}

/// The parameters of a permission request. `parsed` is the preview read as JSON,
/// where it is JSON; `title` and `kind` describe the tool.
pub fn permission_request(
    session_id: &str,
    permission_mode: &str,
    title: &str,
    kind: &str,
    tool_call_id: &str,
    preview: &str,
    parsed: Option<Json>,
) -> (r: Json)
    ensures
        r@ == permission_params(
            session_id@,
            permission_mode@,
            title@,
            kind@,
            tool_call_id@,
            shown_input(
                preview@,
                match parsed {
                    Some(value) => Some(value@),
                    None => None,
                },
            ),
        ),
{
    let input = match parsed {
        Some(value) => value,
        None => {
            let mut shown = members();
            put(&mut shown, "preview", Json::text(preview));
            proof {
                assert(member_values(shown@) == seq![("preview"@, jstr(preview@))]);
            }
            Json::object(shown)
        },
    };
    let ghost shown = input@;
    let mut call = members();
    put(&mut call, "toolCallId", Json::text(tool_call_id));
    put(&mut call, "title", Json::text(title));
    put(&mut call, "kind", Json::text(kind));
    put(&mut call, "status", Json::text("pending"));
    put(&mut call, "rawInput", input);
    let mut options = items();
    push_item(&mut options, Json::object(option_entry("allow-once", "Allow once", "allow_once")));
    push_item(
        &mut options,
        Json::object(option_entry("allow-always", "Allow always", "allow_always")),
    );
    push_item(&mut options, Json::object(option_entry("reject-once", "Reject", "reject_once")));
    let mut out = members();
    put(&mut out, "sessionId", Json::text(session_id));
    put(&mut out, "toolCall", Json::object(call));
    put(&mut out, "options", Json::array(options));
    put(&mut out, "permissionMode", Json::text(permission_mode));
    proof {
        let expected = permission_params(
            session_id@,
            permission_mode@,
            title@,
            kind@,
            tool_call_id@,
            shown,
        );
        assert(member_values(call@) == expected->Object_0[1].1->Object_0);
        assert(item_values(options@) == expected->Object_0[2].1->Array_0);
        assert(member_values(out@) == expected->Object_0);
    }
    Json::object(out)
}

/// The option that an answer names, in its outcome or else by itself.
pub open spec fn chosen_option(result: JsonValue) -> Option<Seq<char>> {
    string_of(
        match inner_member(result, "outcome"@, "optionId"@) {
            Some(value) => Some(value),
            None => member(result, "optionId"@),
        },
    )
}

fn outcome_member(result: &Json, key: &str) -> (r: Option<String>)
    ensures
        opt_text(r) == string_of(
            match inner_member(result@, "outcome"@, key@) {
                Some(value) => Some(value),
                None => member(result@, key@),
            },
        ),
{
    if let Some(outcome) = result.get("outcome") {
        if let Some(found) = outcome.get(key) {
            return match found.as_str() {
                Some(text) => Some(text.to_string()),
                None => None,
            };
        }
    }
    result.get_str(key)
}

/// The choice that the answer to a permission request stands for: denial unless it
/// allows.
pub open spec fn permission_choice(result: JsonValue) -> PromptChoice {
    if chosen_option(result) == Some("allow-always"@) {
        PromptChoice::AllowSession
    } else if chosen_option(result) == Some("allow-once"@) {
        PromptChoice::AllowOnce
    } else {
        PromptChoice::Deny
    }
}

/// Reads the answer to a permission request.
pub fn read_permission_choice(result: &Json) -> (r: PromptChoice)
    ensures
        r == permission_choice(result@),
{
    if let Some(option_id) = outcome_member(result, "optionId") {
        if same_text(option_id.as_str(), "allow-always") {
            proof {
                assert(chosen_option(result@) == Some("allow-always"@));
            }
            return PromptChoice::AllowSession;
        }
        if same_text(option_id.as_str(), "allow-once") {
            proof {
                assert(chosen_option(result@) == Some("allow-once"@));
            }
            return PromptChoice::AllowOnce;
        }
    }
    PromptChoice::Deny
}

/// An answer that the user can pick.
#[derive(Debug, Clone)]
pub struct AskUserOption {
    pub label: String,
    pub description: Option<String>,
}

/// The id of the option at an index.
pub open spec fn ask_id(index: int) -> Seq<char> {
    "ask-"@ + decimal(index as nat)
}

fn ask_option_id(index: usize) -> (r: String)
    ensures
        r@ == ask_id(index as int),
{
    let mut out = "ask-".to_string();
    out.append(decimal_text(index as u64).as_str());
    out
}

/// The entry of an option in an ask-user request.
pub open spec fn ask_entry(index: int, option: AskUserOption) -> JsonValue {
    let plain = choice_option(ask_id(index), option.label@, "allow_once"@)->Object_0;
    JsonValue::Object(
        match option.description {
            Some(text) => plain.push(("description"@, jstr(text@))),
            None => plain,
        },
    )
}

/// An option as the tool's input shows it.
pub open spec fn ask_raw(option: AskUserOption) -> JsonValue {
    JsonValue::Object(
        seq![
            ("label"@, jstr(option.label@)),
            ("description"@, jstr_or_null(opt_text(option.description))),
        ],
    )
}

/// The parameters of an ask-user request.
pub open spec fn ask_params(
    session_id: Seq<char>,
    tool_call_id: Seq<char>,
    question: Seq<char>,
    options: Seq<AskUserOption>,
) -> JsonValue {
    JsonValue::Object(
        seq![
            ("sessionId"@, jstr(session_id)),
            (
                "toolCall"@,
                JsonValue::Object(
                    seq![
                        ("toolCallId"@, jstr(tool_call_id)),
                        ("title"@, jstr(question)),
                        ("kind"@, jstr("other"@)),
                        ("status"@, jstr("pending"@)),
                        (
                            "rawInput"@,
                            JsonValue::Object(
                                seq![
                                    ("askUser"@, JsonValue::Bool(true)),
                                    ("question"@, jstr(question)),
                                    (
                                        "options"@,
                                        JsonValue::Array(
                                            Seq::new(options.len(), |i: int| ask_raw(options[i])),
                                        ),
                                    ),
                                ],
                            ),
                        ),
                    ],
                ),
            ),
            (
                "options"@,
                JsonValue::Array(
                    Seq::new(options.len(), |i: int| ask_entry(i, options[i])).push(
                        choice_option("free-text"@, "Type an answer"@, "allow_once"@),
                    ),
                ),
            ),
        ],
    )
}

/// The id of an ask-user tool call.
pub fn ask_tool_call_id() -> (r: String)
    ensures
        exists|value: u128|
            is_version_4(value) && r@ == "ask_"@ + #[trigger] simple_hex(value),
{
    let id = fresh_simple_id();
    let mut out = "ask_".to_string();
    out.append(id.as_str());
    out
}

/// The parameters of an ask-user request.
pub fn ask_user_request(
    session_id: &str,
    tool_call_id: &str,
    question: &str,
    options: &Vec<AskUserOption>,
) -> (r: Json)
    ensures
        r@ == ask_params(session_id@, tool_call_id@, question@, options@),
{
    let mut entries = items();
    let mut raws = items();
    let ghost all_entries = Seq::new(options@.len(), |i: int| ask_entry(i, options@[i]));
    let ghost all_raws = Seq::new(options@.len(), |i: int| ask_raw(options@[i]));
    let mut i: usize = 0;
    while i < options.len()
        invariant
            i <= options.len(),
            all_entries == Seq::new(options@.len(), |i: int| ask_entry(i, options@[i])),
            all_raws == Seq::new(options@.len(), |i: int| ask_raw(options@[i])),
            item_values(entries@) == all_entries.take(i as int),
            item_values(raws@) == all_raws.take(i as int),
        decreases options.len() - i,
    {
        let option = &options[i];
        let id = ask_option_id(i);
        let mut entry = option_entry(id.as_str(), option.label.as_str(), "allow_once");
        if let Some(description) = &option.description {
            put(&mut entry, "description", Json::text(description.as_str()));
        }
        push_item(&mut entries, Json::object(entry));
        let mut raw = members();
        put(&mut raw, "label", Json::text(option.label.as_str()));
        put(&mut raw, "description", Json::text_or_null(&option.description));
        proof {
            assert(member_values(raw@) == ask_raw(*option)->Object_0);
        }
        push_item(&mut raws, Json::object(raw));
        proof {
            assert(all_entries.take(i + 1) == all_entries.take(i as int).push(
                all_entries[i as int],
            ));
            assert(all_raws.take(i + 1) == all_raws.take(i as int).push(all_raws[i as int]));
        }
        i += 1;
    }
    proof {
        assert(all_entries.take(all_entries.len() as int) == all_entries);
        assert(all_raws.take(all_raws.len() as int) == all_raws);
    }
    push_item(
        &mut entries,
        Json::object(option_entry("free-text", "Type an answer", "allow_once")),
    );
    let mut input = members();
    put(&mut input, "askUser", Json::Bool(true));
    put(&mut input, "question", Json::text(question));
    put(&mut input, "options", Json::array(raws));
    let mut call = members();
    put(&mut call, "toolCallId", Json::text(tool_call_id));
    put(&mut call, "title", Json::text(question));
    put(&mut call, "kind", Json::text("other"));
    put(&mut call, "status", Json::text("pending"));
    put(&mut call, "rawInput", Json::object(input));
    let mut out = members();
    put(&mut out, "sessionId", Json::text(session_id));
    put(&mut out, "toolCall", Json::object(call));
    put(&mut out, "options", Json::array(entries));
    proof {
        let expected = ask_params(session_id@, tool_call_id@, question@, options@);
        let c = expected->Object_0[1].1->Object_0;
        assert(member_values(input@) == c[4].1->Object_0);
        assert(member_values(call@) == c);
        assert(item_values(entries@) == expected->Object_0[2].1->Array_0);
        assert(member_values(out@) == expected->Object_0);
    }
    Json::object(out)
}

/// The label of the option with an id, the first one that has it.
pub open spec fn label_of(options: Seq<AskUserOption>, id: Seq<char>, from: int) -> Option<Seq<char>>
    decreases options.len() - from,
{
    if from >= options.len() {
        None
    } else if ask_id(from) == id {
        Some(options[from].label@)
    } else {
        label_of(options, id, from + 1)
    }
}

/// What the user answered: nothing for a rejection, the typed text, the label of
/// the chosen option, or the option id itself where it names no option.
pub open spec fn ask_answer(result: JsonValue, options: Seq<AskUserOption>) -> Seq<char> {
    let id = match chosen_option(result) {
        Some(id) => id,
        None => "free-text"@,
    };
    if id == "reject-once"@ || id == "deny"@ {
        Seq::empty()
    } else if id == "free-text"@ {
        match string_of(
            match inner_member(result, "outcome"@, "answer"@) {
                Some(value) => Some(value),
                None => member(result, "answer"@),
            },
        ) {
            Some(answer) => answer,
            None => Seq::empty(),
        }
    } else {
        match label_of(options, id, 0) {
            Some(label) => label,
            None => id,
        }
    }
}

/// Reads what the user answered.
pub fn read_ask_user_answer(result: &Json, options: &Vec<AskUserOption>) -> (r: String)
    ensures
        r@ == ask_answer(result@, options@),
{
    let option_id = match outcome_member(result, "optionId") {
        Some(id) => id,
        None => "free-text".to_string(),
    };
    if same_text(option_id.as_str(), "reject-once") || same_text(option_id.as_str(), "deny") {
        return String::new();
    }
    if same_text(option_id.as_str(), "free-text") {
        return match outcome_member(result, "answer") {
            Some(answer) => answer,
            None => String::new(),
        };
    }
    let mut i: usize = 0;
    while i < options.len()
        invariant
            i <= options.len(),
            ask_answer(result@, options@) == (match label_of(options@, option_id@, 0) {
                Some(label) => label,
                None => option_id@,
            }),
            label_of(options@, option_id@, 0) == label_of(options@, option_id@, i as int),
        decreases options.len() - i,
    {
        let id = ask_option_id(i);
        if same_text(id.as_str(), option_id.as_str()) {
            return options[i].label.clone();
        }
        i += 1;
    }
    option_id
}

proof fn lemma_label_of(options: Seq<AskUserOption>, i: int, from: int)
    requires
        0 <= from <= i < options.len(),
    ensures
        label_of(options, ask_id(i), from) == Some(options[i].label@),
    decreases i - from,
{
    if from < i {
        if ask_id(from) == ask_id(i) {
            reveal_strlit("ask-");
            assert(ask_id(from).skip(4) == decimal(from as nat));
            assert(ask_id(i).skip(4) == decimal(i as nat));
            lemma_decimal_injective(from as nat, i as nat);
        }
        lemma_label_of(options, i, from + 1);
    }
}

/// The answer that a user picks is the one that the agent gets: choosing an option
/// gives its label.
pub proof fn picked_option_gives_its_label(
    result: JsonValue,
    options: Seq<AskUserOption>,
    i: int,
)
    requires
        0 <= i < options.len(),
        chosen_option(result) == Some(ask_id(i)),
    ensures
        ask_answer(result, options) == options[i].label@,
{
    reveal_strlit("ask-");
    reveal_strlit("reject-once");
    reveal_strlit("deny");
    reveal_strlit("free-text");
    assert(ask_id(i)[0] == 'a');
    assert("reject-once"@[0] != 'a');
    assert("deny"@[0] != 'a');
    assert("free-text"@[0] != 'a');
    lemma_label_of(options, i, 0);
}

/// A permission request that is answered with anything but one of its two allowing
/// options is denied.
pub proof fn only_allowing_options_allow(result: JsonValue)
    ensures
        permission_choice(result) is Deny <==> chosen_option(result) != Some("allow-once"@)
            && chosen_option(result) != Some("allow-always"@),
{
}

/// An event of a running turn.
#[derive(Debug)]
pub enum RuntimeEventKind {
    TextDelta { delta: String },
    ThoughtDelta { delta: String },
    ToolCall { id: String, name: String, arguments: String },
    ToolResult { id: String, content: String, is_error: bool, duration_ms: Option<u64> },
    StateChanged { state: String },
    UsageUpdate {
        usage: TokenUsage,
        context_tokens: u32,
        context_window: u32,
        context_percent: u8,
        context_epoch: u64,
    },
    Error { message: String },
    /// The outbound view of a step is ready; `ready` describes it.
    ProjectionReady { ready: Json },
    TurnStarted,
    StepStarted { step: u32 },
    TurnEnded { steps: u32 },
    LifecycleEvent { event: String, payload: String },
    SteerInput,
    ApprovalRequested {
        request_id: String,
        tool_name: String,
        arguments: String,
        tool_call_id: Option<String>,
    },
    ApprovalResolved,
}

/// An event with its place in the stream and the turn it belongs to.
#[derive(Debug)]
pub struct RuntimeEvent {
    pub sequence: u64,
    pub turn_id: Option<TurnId>,
    pub kind: RuntimeEventKind,
}

/// The update that a client is sent for an event.
#[derive(Debug)]
pub enum SessionUpdate {
    MessageChunk { delta: String },
    ThoughtChunk { delta: String },
    ToolCallPending { id: String, name: String, arguments: String },
    ToolCallResult { id: String, content: String, is_error: bool },
    CurrentMode { state: String },
    Usage {
        context_tokens: u64,
        context_window: u64,
        prompt_tokens: u64,
        completion_tokens: u64,
        context_percent: u8,
        cached_tokens: Option<u64>,
        context_epoch: u64,
    },
    Error { message: String },
    ProjectionReady { ready: Json },
    TurnStarted { turn_id: Option<String> },
    StepStarted { step: u32, turn_id: Option<String> },
    TurnEnded { steps: u32, turn_id: Option<String> },
    Lifecycle { event: String, payload: String },
}

/// What follows from an event: the tool call that waits for its result from now on,
/// the plan that is announced, and the update with its metadata.
#[derive(Debug)]
pub struct Projection {
    /// `Some` where the event changes which tool call waits.
    pub pending_tool: Option<Option<String>>,
    /// The arguments of a todo list that is announced as a plan, and its metadata.
    pub plan: Option<(String, Json)>,
    pub update: Option<SessionUpdate>,
    pub meta: Json,
}

/// The text of a turn's identifier.
pub open spec fn turn_text(turn_id: Option<TurnId>) -> Option<Seq<char>> {
    match turn_id {
        Some(id) => Some(hyphenated(id@)),
        None => None,
    }
}

/// The metadata of an update.
pub open spec fn event_meta(prompt_id: Seq<char>, event: RuntimeEvent) -> JsonValue {
    let plain = seq![
        ("promptId"@, jstr(prompt_id)),
        ("eventId"@, jstr(prompt_id + "-"@ + decimal(event.sequence as nat))),
        ("sequence"@, JsonValue::Uint(event.sequence)),
        ("isReplay"@, JsonValue::Bool(false)),
    ];
    match event.kind {
        RuntimeEventKind::ToolResult { duration_ms: Some(ms), .. } => JsonValue::Object(
            plain.push(("durationMs"@, JsonValue::Uint(ms))),
        ),
        _ => JsonValue::Object(plain),
    }
}

/// The metadata of a plan.
pub open spec fn plan_meta(prompt_id: Seq<char>) -> JsonValue {
    JsonValue::Object(
        seq![("promptId"@, jstr(prompt_id)), ("isReplay"@, JsonValue::Bool(false))],
    )
}

/// Whether an update is the one that an event calls for.
pub open spec fn update_for(event: RuntimeEvent, update: Option<SessionUpdate>) -> bool {
    match event.kind {
        RuntimeEventKind::TextDelta { delta } => update matches Some(SessionUpdate::MessageChunk {
            delta: shown,
        }) && shown@ == delta@,
        RuntimeEventKind::ThoughtDelta { delta } => update matches Some(
            SessionUpdate::ThoughtChunk { delta: shown },
        ) && shown@ == delta@,
        RuntimeEventKind::ToolCall { id, name, arguments } => update matches Some(
            SessionUpdate::ToolCallPending { id: i, name: n, arguments: a },
        ) && i@ == id@ && n@ == name@ && a@ == arguments@,
        RuntimeEventKind::ToolResult { id, content, is_error, .. } => update matches Some(
            SessionUpdate::ToolCallResult { id: i, content: c, is_error: e },
        ) && i@ == id@ && c@ == content@ && e == is_error,
        RuntimeEventKind::StateChanged { state } => update matches Some(
            SessionUpdate::CurrentMode { state: shown },
        ) && shown@ == state@,
        RuntimeEventKind::UsageUpdate {
            usage,
            context_tokens,
            context_window,
            context_percent,
            context_epoch,
        } => update == Some(
            SessionUpdate::Usage {
                context_tokens: context_tokens as u64,
                context_window: if context_window == 0 {
                    1
                } else {
                    context_window as u64
                },
                prompt_tokens: usage.prompt_tokens,
                completion_tokens: usage.completion_tokens,
                context_percent,
                cached_tokens: usage.cached_tokens,
                context_epoch,
            },
        ),
        RuntimeEventKind::Error { message } => update matches Some(
            SessionUpdate::Error { message: shown },
        ) && shown@ == message@,
        RuntimeEventKind::ProjectionReady { ready } => update matches Some(
            SessionUpdate::ProjectionReady { ready: shown },
        ) && shown@ == ready@,
        RuntimeEventKind::TurnStarted => update matches Some(
            SessionUpdate::TurnStarted { turn_id },
        ) && opt_text(turn_id) == turn_text(event.turn_id),
        RuntimeEventKind::StepStarted { step } => update matches Some(
            SessionUpdate::StepStarted { step: s, turn_id },
        ) && s == step && opt_text(turn_id) == turn_text(event.turn_id),
        RuntimeEventKind::TurnEnded { steps } => update matches Some(
            SessionUpdate::TurnEnded { steps: s, turn_id },
        ) && s == steps && opt_text(turn_id) == turn_text(event.turn_id),
        RuntimeEventKind::LifecycleEvent { event: name, payload } => update matches Some(
            SessionUpdate::Lifecycle { event: shown, payload: told },
        ) && shown@ == name@ && told@ == payload@,
        RuntimeEventKind::SteerInput
        | RuntimeEventKind::ApprovalRequested { .. }
        | RuntimeEventKind::ApprovalResolved => update is None,
    }
}

fn turn_id_text(turn_id: &Option<TurnId>) -> (r: Option<String>)
    ensures
        opt_text(r) == turn_text(*turn_id),
{
    match turn_id {
        Some(id) => Some(id.text()),
        None => None,
    }
}

/// What follows from an event of a turn that answers the prompt with the given id.
pub fn project_runtime_event(event: &RuntimeEvent, prompt_id: &str) -> (r: Projection)
    ensures
        r.meta@ == event_meta(prompt_id@, *event),
        update_for(*event, r.update),
        match event.kind {
            RuntimeEventKind::ToolCall { id, name, arguments } => {
                &&& r.pending_tool matches Some(Some(noted)) && noted@ == id@
                &&& r.plan is Some <==> name@ == "TodoWrite"@
                &&& r.plan matches Some((args, meta)) ==> args@ == arguments@ && meta@ == plan_meta(
                    prompt_id@,
                )
            },
            RuntimeEventKind::ToolResult { .. } => r.pending_tool == Some(None::<String>) && r.plan
                is None,
            _ => r.pending_tool is None && r.plan is None,
        },
{
    let mut event_id = prompt_id.to_string();
    event_id.append("-");
    event_id.append(decimal_text(event.sequence).as_str());
    let mut meta = members();
    put(&mut meta, "promptId", Json::text(prompt_id));
    put(&mut meta, "eventId", Json::text(event_id.as_str()));
    put(&mut meta, "sequence", Json::Uint(event.sequence));
    put(&mut meta, "isReplay", Json::Bool(false));
    let mut pending_tool: Option<Option<String>> = None;
    let mut plan: Option<(String, Json)> = None;
    let update = match &event.kind {
        RuntimeEventKind::TextDelta { delta } => Some(
            SessionUpdate::MessageChunk { delta: delta.clone() },
        ),
        RuntimeEventKind::ThoughtDelta { delta } => Some(
            SessionUpdate::ThoughtChunk { delta: delta.clone() },
        ),
        RuntimeEventKind::ToolCall { id, name, arguments } => {
            pending_tool = Some(Some(id.clone()));
            if same_text(name.as_str(), "TodoWrite") {
                let mut shown = members();
                put(&mut shown, "promptId", Json::text(prompt_id));
                put(&mut shown, "isReplay", Json::Bool(false));
                proof {
                    assert(member_values(shown@) == plan_meta(prompt_id@)->Object_0);
                }
                plan = Some((arguments.clone(), Json::object(shown)));
            }
            Some(
                SessionUpdate::ToolCallPending {
                    id: id.clone(),
                    name: name.clone(),
                    arguments: arguments.clone(),
                },
            )
        },
        RuntimeEventKind::ToolResult { id, content, is_error, duration_ms } => {
            pending_tool = Some(None);
            if let Some(ms) = duration_ms {
                put(&mut meta, "durationMs", Json::Uint(*ms));
            }
            Some(
                SessionUpdate::ToolCallResult {
                    id: id.clone(),
                    content: content.clone(),
                    is_error: *is_error,
                },
            )
        },
        RuntimeEventKind::StateChanged { state } => Some(
            SessionUpdate::CurrentMode { state: state.clone() },
        ),
        RuntimeEventKind::UsageUpdate {
            usage,
            context_tokens,
            context_window,
            context_percent,
            context_epoch,
        } => Some(
            SessionUpdate::Usage {
                context_tokens: *context_tokens as u64,
                context_window: if *context_window == 0 {
                    1
                } else {
                    *context_window as u64
                },
                prompt_tokens: usage.prompt_tokens,
                completion_tokens: usage.completion_tokens,
                context_percent: *context_percent,
                cached_tokens: usage.cached_tokens,
                context_epoch: *context_epoch,
            },
        ),
        RuntimeEventKind::Error { message } => Some(
            SessionUpdate::Error { message: message.clone() },
        ),
        RuntimeEventKind::ProjectionReady { ready } => Some(
            SessionUpdate::ProjectionReady { ready: ready.copy() },
        ),
        RuntimeEventKind::TurnStarted => Some(
            SessionUpdate::TurnStarted { turn_id: turn_id_text(&event.turn_id) },
        ),
        RuntimeEventKind::StepStarted { step } => Some(
            SessionUpdate::StepStarted { step: *step, turn_id: turn_id_text(&event.turn_id) },
        ),
        RuntimeEventKind::TurnEnded { steps } => Some(
            SessionUpdate::TurnEnded { steps: *steps, turn_id: turn_id_text(&event.turn_id) },
        ),
        RuntimeEventKind::LifecycleEvent { event: name, payload } => Some(
            SessionUpdate::Lifecycle { event: name.clone(), payload: payload.clone() },
        ),
        RuntimeEventKind::SteerInput
        | RuntimeEventKind::ApprovalRequested { .. }
        | RuntimeEventKind::ApprovalResolved => None,
    };
    proof {
        assert(member_values(meta@) == event_meta(prompt_id@, *event)->Object_0);
    }
    Projection { pending_tool, plan, update, meta: Json::object(meta) }
}

/// What a message asks for is told by its kind and its method: a request to prompt goes to the
/// queue, any other request to its method; of the notifications only the cancellation of a
/// session counts, and of other messages none.
pub proof fn messages_ask_for_what_they_name(message: JsonValue, class: MessageClass)
    ensures
        class is Other ==> asked_by(message, class) is Ignored,
        class is Notification ==> asked_by(message, class) is Cancel || asked_by(message, class)
            is Ignored,
        class is Notification ==> (asked_by(message, class) is Cancel <==> string_of(
            member(message, "method"@),
        ) == Some("session/cancel"@) && string_of(inner_member(message, "params"@, "sessionId"@))
            is Some),
        asked_by(message, class) matches Asked::Cancel { session_id } ==> string_of(
            inner_member(message, "params"@, "sessionId"@),
        ) == Some(session_id),
        class is Request ==> (asked_by(message, class) is Prompt <==> string_of(
            member(message, "method"@),
        ) == Some("session/prompt"@)),
        class is Request ==> asked_by(message, class) is Prompt || asked_by(message, class)
            is Request,
        asked_by(message, class) matches Asked::Request { rpc_id, method, params } ==> (member(
            message,
            "id"@,
        ) matches Some(id) ==> rpc_id == id) && (string_of(member(message, "method"@)) matches Some(
            named,
        ) ==> method == named) && (member(message, "params"@) matches Some(given) ==> params == given),
        asked_by(message, class) matches Asked::Prompt { rpc_id, params } ==> (member(message, "id"@)
            matches Some(id) ==> rpc_id == id) && (member(message, "params"@) matches Some(given)
            ==> params == given),
{
    reveal_strlit("session/cancel");
    reveal_strlit("session/prompt");
    assert("session/cancel"@.len() > 0 && "session/prompt"@.len() > 0);
}

/// Merging puts each member over what was there, the later ones over the earlier.
pub proof fn later_members_win(
    members: Seq<(Seq<char>, JsonValue)>,
    extra: Seq<(Seq<char>, JsonValue)>,
    key: Seq<char>,
    value: JsonValue,
    other: Seq<char>,
)
    ensures
        merged(members, Seq::empty()) == members,
        lookup(merged(members, extra.push((key, value))), key) == Some(value),
        other != key ==> lookup(merged(members, extra.push((key, value))), other) == lookup(
            merged(members, extra),
            other,
        ),
{
    assert(extra.push((key, value)).drop_last() == extra);
    inserted_member_reads_back(merged(members, extra), key, value, key);
    inserted_member_reads_back(merged(members, extra), key, value, other);
}

/// A prompt ends its turn where it gave a result, was cancelled where its error speaks of that,
/// and else failed with its error.
pub proof fn prompts_end_in_one_of_three_ways(result: Result<(), Seq<char>>)
    ensures
        result is Ok ==> stop_reason(result) == Ok::<Seq<char>, Seq<char>>("end_turn"@),
        result matches Err(message) ==> (stop_reason(result) is Ok <==> has_part(message, "cancel"@)
            || has_part(message, "aborted"@)),
        result matches Err(message) ==> (stop_reason(result) matches Ok(reason) ==> reason
            == "cancelled"@),
        result matches Err(message) ==> (stop_reason(result) matches Err(told) ==> told == message),
{
}

/// The answer to a prompt names how it stopped.
pub proof fn prompt_answers_name_how_it_stopped(
    result: Result<String, String>,
    r: Result<Json, String>,
)
    requires
        call_ensures(prompt_answer, (result,), r),
    ensures
        result is Ok ==> r is Ok,
        result matches Err(message) ==> (r is Err <==> !has_part(message@, "cancel"@) && !has_part(
            message@,
            "aborted"@,
        )),
        r matches Ok(answer) ==> answer@ is Object && answer@->Object_0[0].0 == "stopReason"@
            && answer@->Object_0[0].1 == jstr(
            if result is Ok {
                "end_turn"@
            } else {
                "cancelled"@
            },
        ),
        r matches Err(told) ==> result is Err && told@ == result->Err_0@,
{
}

/// A decision is the choice that was made.
pub proof fn decisions_are_the_choices_made(choice: PromptChoice, r: ApprovalDecision)
    requires
        call_ensures(approval_decision, (choice,), r),
    ensures
        r is AllowOnce <==> choice is AllowOnce,
        r is AllowSession <==> choice is AllowSession,
        r is Deny <==> choice is Deny,
{
}

/// A permission prompt shows the tool call of its request, or else the one that waits.
pub proof fn prompts_show_their_tool_call(
    requested: Option<String>,
    pending: Option<String>,
    r: String,
)
    requires
        call_ensures(approval_tool_call_id, (requested, pending), r),
    ensures
        requested matches Some(id) ==> r@ == id@,
        requested is None && pending is Some ==> r@ == pending->0@,
{
}

/// A permission request tells the session, the call and its input, and offers to allow once, to
/// allow always and to reject, in this order.
pub proof fn permission_requests_offer_three_choices(
    session_id: Seq<char>,
    mode: Seq<char>,
    title: Seq<char>,
    kind: Seq<char>,
    call: Seq<char>,
    input: JsonValue,
)
    ensures
        ({
            let all = permission_params(session_id, mode, title, kind, call, input)->Object_0;
            let shown = all[1].1->Object_0;
            let options = all[2].1->Array_0;
            &&& all.len() == 4
            &&& all[0] == ("sessionId"@, jstr(session_id))
            &&& all[1].0 == "toolCall"@ && all[2].0 == "options"@
            &&& all[3] == ("permissionMode"@, jstr(mode))
            &&& shown[0] == ("toolCallId"@, jstr(call))
            &&& shown[1] == ("title"@, jstr(title))
            &&& shown[2] == ("kind"@, jstr(kind))
            &&& shown[4] == ("rawInput"@, input)
            &&& options.len() == 3
            &&& options[0]->Object_0[0] == ("optionId"@, jstr("allow-once"@))
            &&& options[1]->Object_0[0] == ("optionId"@, jstr("allow-always"@))
            &&& options[2]->Object_0[0] == ("optionId"@, jstr("reject-once"@))
        }),
{
}

/// What is allowed is what was picked: once, or for the session.
pub proof fn picked_permissions_are_given(result: JsonValue)
    ensures
        permission_choice(result) is AllowOnce <==> chosen_option(result) == Some("allow-once"@),
        permission_choice(result) is AllowSession <==> chosen_option(result) == Some(
            "allow-always"@,
        ),
{
    reveal_strlit("allow-once");
    reveal_strlit("allow-always");
    assert("allow-once"@.len() != "allow-always"@.len());
}

/// The option that was picked stands in the outcome of an answer, or else in the answer itself.
pub proof fn picked_options_stand_in_the_outcome(result: JsonValue)
    ensures
        inner_member(result, "outcome"@, "optionId"@) matches Some(value) ==> chosen_option(result)
            == string_of(Some(value)),
        inner_member(result, "outcome"@, "optionId"@) is None ==> chosen_option(result) == string_of(
            member(result, "optionId"@),
        ),
{
}

/// A question offers its options in order, each under its own id, and a free answer behind
/// them.
pub proof fn questions_offer_their_options(
    session_id: Seq<char>,
    call: Seq<char>,
    question: Seq<char>,
    options: Seq<AskUserOption>,
    i: int,
)
    requires
        0 <= i < options.len(),
    ensures
        ({
            let all = ask_params(session_id, call, question, options)->Object_0;
            let offered = all[2].1->Array_0;
            &&& all[0] == ("sessionId"@, jstr(session_id))
            &&& all[1].1->Object_0[0] == ("toolCallId"@, jstr(call))
            &&& all[1].1->Object_0[1] == ("title"@, jstr(question))
            &&& offered.len() == options.len() + 1
            &&& offered[i]->Object_0[0] == ("optionId"@, jstr("ask-"@ + decimal(i as nat)))
            &&& offered[i]->Object_0[1] == ("name"@, jstr(options[i].label@))
            &&& offered.last()->Object_0[0] == ("optionId"@, jstr("free-text"@))
        }),
{
}

/// A rejected question is answered with nothing, and an answer that was typed is taken as it is.
pub proof fn typed_answers_are_taken(result: JsonValue, options: Seq<AskUserOption>, typed: Seq<char>)
    ensures
        chosen_option(result) == Some("reject-once"@) || chosen_option(result) == Some("deny"@)
            ==> ask_answer(result, options).len() == 0,
        (chosen_option(result) == Some("free-text"@) || chosen_option(result) is None) && inner_member(
            result,
            "outcome"@,
            "answer"@,
        ) == Some(JsonValue::Str(typed)) ==> ask_answer(result, options) == typed,
{
    reveal_strlit("free-text");
    reveal_strlit("reject-once");
    reveal_strlit("deny");
    assert("free-text"@[0] == 'f' && "reject-once"@[0] == 'r' && "deny"@[0] == 'd');
}

/// An update for a client holds what the event told: text, thoughts, tool calls with their
/// arguments, results with what they say and whether they are errors, modes, errors, turns and
/// steps. Steering and approvals are not shown.
pub proof fn updates_tell_what_happened(event: &RuntimeEvent, prompt_id: &str, r: Projection)
    requires
        call_ensures(project_runtime_event, (event, prompt_id), r),
    ensures
        event.kind matches RuntimeEventKind::TextDelta { delta } ==> (r.update matches Some(
            SessionUpdate::MessageChunk { delta: told },
        ) && told@ == delta@),
        event.kind matches RuntimeEventKind::ThoughtDelta { delta } ==> (r.update matches Some(
            SessionUpdate::ThoughtChunk { delta: told },
        ) && told@ == delta@),
        event.kind matches RuntimeEventKind::ToolCall { id, name, arguments } ==> (
        r.update matches Some(SessionUpdate::ToolCallPending { id: i, name: n, arguments: a }) && i@
            == id@ && n@ == name@ && a@ == arguments@) && (r.pending_tool matches Some(Some(noted))
            && noted@ == id@) && (r.plan is Some <==> name@ == "TodoWrite"@),
        event.kind matches RuntimeEventKind::ToolResult { id, content, is_error, .. } ==> (
        r.update matches Some(SessionUpdate::ToolCallResult { id: i, content: c, is_error: e }) && i@
            == id@ && c@ == content@ && e == is_error) && r.pending_tool == Some(None::<String>),
        event.kind matches RuntimeEventKind::StateChanged { state } ==> (r.update matches Some(
            SessionUpdate::CurrentMode { state: told },
        ) && told@ == state@),
        event.kind matches RuntimeEventKind::Error { message } ==> (r.update matches Some(
            SessionUpdate::Error { message: told },
        ) && told@ == message@),
        event.kind matches RuntimeEventKind::StepStarted { step } ==> (r.update matches Some(
            SessionUpdate::StepStarted { step: told, .. },
        ) && told == step),
        event.kind matches RuntimeEventKind::TurnEnded { steps } ==> (r.update matches Some(
            SessionUpdate::TurnEnded { steps: told, .. },
        ) && told == steps),
        event.kind matches RuntimeEventKind::UsageUpdate {
            usage,
            context_tokens,
            context_window,
            context_percent,
            context_epoch,
        } ==> (r.update matches Some(
            SessionUpdate::Usage {
                context_tokens: t,
                context_window: w,
                prompt_tokens,
                completion_tokens,
                context_percent: p,
                cached_tokens,
                context_epoch: e,
            },
        ) && t == context_tokens && (context_window > 0 ==> w == context_window) && w >= 1
            && prompt_tokens == usage.prompt_tokens && completion_tokens == usage.completion_tokens
            && p == context_percent && cached_tokens == usage.cached_tokens && e == context_epoch),
        event.kind is SteerInput || event.kind is ApprovalRequested || event.kind is ApprovalResolved
            ==> r.update is None,
        !(event.kind is SteerInput || event.kind is ApprovalRequested
            || event.kind is ApprovalResolved) ==> r.update is Some,
        r.meta@ is Object && r.meta@->Object_0[0] == ("promptId"@, jstr(prompt_id@))
            && r.meta@->Object_0[1] == (
            "eventId"@,
            jstr(prompt_id@ + "-"@ + decimal(event.sequence as nat)),
        ) && r.meta@->Object_0[2] == ("sequence"@, JsonValue::Uint(event.sequence))
            && r.meta@->Object_0[3] == ("isReplay"@, JsonValue::Bool(false)),
{
}

/// An opened session is answered with its id, its modes and what is known about recovery.
pub proof fn opened_sessions_tell_their_recovery(
    session_id: &str,
    modes: Json,
    info: &RuntimeRecoveryInfo,
    r: Json,
)
    requires
        call_ensures(session_answer, (session_id, modes, info), r),
    ensures
        ({
            let all = r@->Object_0;
            let told = all[2].1->Object_0[0].1->Object_0;
            &&& r@ is Object && all.len() == 3
            &&& all[0] == ("sessionId"@, jstr(session_id@))
            &&& all[1] == ("modes"@, modes@)
            &&& all[2].0 == "_meta"@ && all[2].1->Object_0[0].0 == "recovery"@
            &&& told[0] == ("disposition"@, jstr(info.disposition@))
            &&& told[1] == ("hasIncompleteExecution"@, JsonValue::Bool(info.has_incomplete_execution))
            &&& told[2] == ("activeTurnCount"@, JsonValue::Uint(info.active_turn_count as u64))
            &&& told[3] == ("activeToolCount"@, JsonValue::Uint(info.active_tool_count as u64))
            &&& told[4] == ("safeResumeAllowed"@, JsonValue::Bool(info.safe_resume_allowed))
            &&& told[5] == ("automaticResume"@, JsonValue::Bool(info.automatic_resume))
            &&& told[6] == ("reason"@, jstr(info.reason@))
        }),
{
}

/// A replayed update is marked as such and otherwise unchanged.
pub proof fn replayed_updates_are_marked(update: Json, r: Json, key: Seq<char>)
    requires
        call_ensures(replayed_update, (update,), r),
        update@ is Object,
    ensures
        member(r@, "_meta"@) == Some(
            JsonValue::Object(seq![("isReplay"@, JsonValue::Bool(true))]),
        ),
        key != "_meta"@ ==> member(r@, key) == member(update@, key),
{
    let mark = JsonValue::Object(seq![("isReplay"@, JsonValue::Bool(true))]);
    inserted_member_reads_back(update@->Object_0, "_meta"@, mark, "_meta"@);
    inserted_member_reads_back(update@->Object_0, "_meta"@, mark, key);
}

/// Saved sessions are listed in order, each with its id, its directory, its title and when it
/// was last changed.
pub proof fn saved_sessions_are_listed(listings: &Vec<SessionListing>, r: Json, i: int)
    requires
        call_ensures(session_list_answer, (listings,), r),
        0 <= i < listings@.len(),
    ensures
        ({
            let shown = r@->Object_0[0].1->Array_0;
            let entry = shown[i]->Object_0;
            &&& r@->Object_0[0].0 == "sessions"@
            &&& shown.len() == listings@.len()
            &&& entry[0] == ("sessionId"@, jstr(listings@[i].id@))
            &&& entry[1] == ("cwd"@, jstr(listings@[i].workdir@))
            &&& entry[2].0 == "title"@
            &&& listings@[i].title matches Some(title) ==> entry[2].1 == jstr(title@)
            &&& entry[3] == ("updatedAt"@, jstr(listings@[i].updated_at@))
        }),
{
}

} // verus!
