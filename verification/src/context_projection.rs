//! What an outbound projection of the context holds, told from its messages and
//! from the active events of the session.
use vstd::prelude::*;

use crate::llm::{message_texts, Message, MessageKind, MessageText, Role};
use crate::text::{
    lemma_position_first,
    ascii_lower, chars_of, contains, copy_opt, find_chars, find_from, has_part, has_text,
    is_white_space, opt_text, position_from, text_between, texts, to_ascii_lower, white_space,
};

verus! {

/// Provenance of a bounded tool output.
#[derive(Debug, Clone)]
pub struct ToolOutputProvenance {
    pub message_index: usize,
    pub tool_call_id: Option<String>,
    pub tool_name: Option<String>,
    /// Stable classification: `truncated` or `handle`.
    pub kind: String,
    pub handle_reference: Option<String>,
}

/// The contents of a [`ToolOutputProvenance`].
pub struct Provenance {
    pub message_index: int,
    pub tool_call_id: Option<Seq<char>>,
    pub tool_name: Option<Seq<char>>,
    pub kind: Seq<char>,
    pub handle_reference: Option<Seq<char>>,
}

impl View for ToolOutputProvenance {
    type V = Provenance;

    open spec fn view(&self) -> Provenance {
        Provenance {
            message_index: self.message_index as int,
            tool_call_id: opt_text(self.tool_call_id),
            tool_name: opt_text(self.tool_name),
            kind: self.kind@,
            handle_reference: opt_text(self.handle_reference),
        }
    }
}

/// An injected decoration of the projection and where it came from.
#[derive(Debug, Clone)]
pub struct InjectedSource {
    pub message_index: usize,
    pub kind: String,
    pub source: String,
}

/// The contents of an [`InjectedSource`].
pub struct Injected {
    pub message_index: int,
    pub kind: Seq<char>,
    pub source: Seq<char>,
}

impl View for InjectedSource {
    type V = Injected;

    open spec fn view(&self) -> Injected {
        Injected {
            message_index: self.message_index as int,
            kind: self.kind@,
            source: self.source@,
        }
    }
}

/// The contents of a list of provenances.
pub open spec fn provenance_list(items: Seq<ToolOutputProvenance>) -> Seq<Provenance> {
    Seq::new(items.len(), |i: int| items[i]@)
}

/// The contents of a list of injected sources.
pub open spec fn injected_list(items: Seq<InjectedSource>) -> Seq<Injected> {
    Seq::new(items.len(), |i: int| items[i]@)
}

/// Whether a message stands for compacted ones.
pub open spec fn is_summary(message: MessageText) -> bool {
    message.kind == Some(MessageKind::CompactionSummary)
}

fn is_summary_kind(kind: Option<MessageKind>) -> (r: bool)
    ensures
        r == (kind == Some(MessageKind::CompactionSummary)),
{
    match kind {
        Some(MessageKind::CompactionSummary) => true,
        _ => false,
    }
}

/// The labels of the decorations in a projection. `reminders` tells for each
/// message whether its content is a system reminder.
pub open spec fn labels(messages: Seq<MessageText>, reminders: Seq<bool>) -> Seq<Seq<char>> {
    let summary = exists|i: int| 0 <= i < messages.len() && is_summary(#[trigger] messages[i]);
    let reminder = exists|i: int|
        0 <= i < messages.len() && (#[trigger] messages[i]).content is Some && reminders[i];
    (if summary {
        seq!["compaction_summary"@]
    } else {
        Seq::empty()
    }) + (if reminder {
        seq!["system_reminder"@]
    } else {
        Seq::empty()
    })
}

/// The labels of the decorations in a projection.
pub fn projection_injected_labels(messages: &Vec<Message>, reminders: &Vec<bool>) -> (r: Vec<String>)
    requires
        reminders.len() == messages.len(),
    ensures
        texts(r@) == labels(message_texts(messages@), reminders@),
{
    let ghost all = message_texts(messages@);
    let mut summary = false;
    let mut reminder = false;
    let mut i: usize = 0;
    while i < messages.len()
        invariant
            i <= messages.len() == reminders.len(),
            all == message_texts(messages@),
            summary == exists|k: int| 0 <= k < i && is_summary(#[trigger] all[k]),
            reminder == exists|k: int|
                0 <= k < i && (#[trigger] all[k]).content is Some && reminders@[k],
        decreases messages.len() - i,
    {
        proof {
            assert(all[i as int] == messages@[i as int]@);
        }
        if is_summary_kind(messages[i].kind) {
            summary = true;
        }
        if messages[i].content.is_some() && reminders[i] {
            reminder = true;
        }
        i += 1;
    }
    let mut out: Vec<String> = Vec::new();
    if summary {
        out.push("compaction_summary".to_string());
    }
    if reminder {
        out.push("system_reminder".to_string());
    }
    proof {
        assert(texts(out@) == labels(all, reminders@));
    }
    out
}

/// Whether a body was reduced by a truncation pass.
pub open spec fn reduced(content: Seq<char>) -> bool {
    has_part(content, "[truncated "@) || has_part(content, "…[steps-truncated "@)
}

fn is_reduced(content: &str) -> (r: bool)
    ensures
        r == reduced(content@),
{
    contains(content, "[truncated ") || contains(content, "…[steps-truncated ")
}

/// Whether the body of a message was reduced.
pub open spec fn reduced_message(message: MessageText) -> bool {
    message.content is Some && reduced(message.content->0)
}

/// How many messages have a reduced body.
pub open spec fn reduced_count(messages: Seq<MessageText>) -> nat
    decreases messages.len(),
{
    if messages.len() == 0 {
        0
    } else {
        reduced_count(messages.drop_last()) + (if reduced_message(messages.last()) {
            1nat
        } else {
            0
        })
    }
}

/// How many messages have a reduced body.
pub fn projection_truncated_message_count(messages: &Vec<Message>) -> (r: usize)
    ensures
        r == reduced_count(message_texts(messages@)),
{
    let ghost all = message_texts(messages@);
    let mut count: usize = 0;
    let mut i: usize = 0;
    while i < messages.len()
        invariant
            i <= messages.len(),
            all == message_texts(messages@),
            count == reduced_count(all.take(i as int)),
            count <= i,
        decreases messages.len() - i,
    {
        proof {
            assert(all.take(i + 1).drop_last() == all.take(i as int));
            assert(all.take(i + 1).last() == messages@[i as int]@);
        }
        if let Some(content) = &messages[i].content {
            if is_reduced(content.as_str()) {
                count += 1;
            }
        }
        i += 1;
    }
    proof {
        assert(all.take(all.len() as int) == all);
    }
    count
}

/// The path in a tool-output handle: the quoted text behind the first marker.
pub open spec fn handle_path(content: Seq<char>) -> Option<Seq<char>> {
    let marker = "[zene-tool-output path=\""@;
    match find_from(content, marker, 0) {
        None => None,
        Some(at) => {
            let start = at + marker.len();
            let end = position_from(content, start, '"');
            if end < content.len() {
                Some(content.subrange(start, end))
            } else {
                None
            }
        },
    }
}

fn tool_handle_reference(content: &str) -> (r: Option<String>)
    ensures
        opt_text(r) == handle_path(content@),
{
    let chars = chars_of(content);
    let marker = chars_of("[zene-tool-output path=\"");
    match find_chars(&chars, &marker, 0) {
        None => None,
        Some(at) => {
            let start: usize = at + marker.len();
            let mut end: usize = start;
            while end < chars.len() && chars[end] != '"'
                invariant
                    start <= end <= chars.len(),
                    chars@ == content@,
                    position_from(content@, start as int, '"') == position_from(
                        content@,
                        end as int,
                        '"',
                    ),
                decreases chars.len() - end,
            {
                end += 1;
            }
            if end < chars.len() {
                Some(text_between(&chars, start, end))
            } else {
                None
            }
        },
    }
}

/// The first position from `i` on that does not hold white space.
pub open spec fn skip_white(s: Seq<char>, i: int) -> int
    decreases s.len() - i,
{
    if i < s.len() && white_space(s[i]) {
        skip_white(s, i + 1)
    } else {
        i
    }
}

/// The first position from `i` on that holds white space, or the length.
pub open spec fn word_end(s: Seq<char>, i: int) -> int
    decreases s.len() - i,
{
    if i < s.len() && !white_space(s[i]) {
        word_end(s, i + 1)
    } else {
        i
    }
}

/// Punctuation that may follow a path in a sentence.
pub open spec fn closing(c: char) -> bool {
    c == '.' || c == ',' || c == ';' || c == ']' || c == ')'
}

/// `s` without the punctuation at its end.
pub open spec fn without_closing(s: Seq<char>) -> Seq<char>
    decreases s.len(),
{
    if s.len() > 0 && closing(s.last()) {
        without_closing(s.drop_last())
    } else {
        s
    }
}

/// The path behind the first "full output saved to", without closing punctuation.
pub open spec fn saved_path(content: Seq<char>) -> Option<Seq<char>> {
    let marker = "full output saved to "@;
    match find_from(content, marker, 0) {
        None => None,
        Some(at) => {
            let start = skip_white(content, at + marker.len());
            let path = without_closing(content.subrange(start, word_end(content, start)));
            if path.len() == 0 {
                None
            } else {
                Some(path)
            }
        },
    }
}

fn saved_output_reference(content: &str) -> (r: Option<String>)
    ensures
        opt_text(r) == saved_path(content@),
{
    let chars = chars_of(content);
    let n: usize = chars.len();
    let marker = chars_of("full output saved to ");
    match find_chars(&chars, &marker, 0) {
        None => None,
        Some(at) => {
            let from: usize = at + marker.len();
            let mut start: usize = from;
            while start < n && is_white_space(chars[start])
                invariant
                    from <= start <= n == chars.len(),
                    chars@ == content@,
                    skip_white(content@, from as int) == skip_white(content@, start as int),
                decreases n - start,
            {
                start += 1;
            }
            let mut stop: usize = start;
            while stop < n && !is_white_space(chars[stop])
                invariant
                    start <= stop <= n == chars.len(),
                    chars@ == content@,
                    word_end(content@, start as int) == word_end(content@, stop as int),
                decreases n - stop,
            {
                stop += 1;
            }
            let ghost word = content@.subrange(start as int, stop as int);
            let mut end: usize = stop;
            while end > start && (chars[end - 1] == '.' || chars[end - 1] == ',' || chars[end - 1]
                == ';' || chars[end - 1] == ']' || chars[end - 1] == ')')
                invariant
                    start <= end <= stop <= n == chars.len(),
                    chars@ == content@,
                    without_closing(word) == without_closing(
                        content@.subrange(start as int, end as int),
                    ),
                decreases end - start,
            {
                proof {
                    let part = content@.subrange(start as int, end as int);
                    assert(part.drop_last() == content@.subrange(start as int, end - 1));
                }
                end -= 1;
            }
            if end > start {
                Some(text_between(&chars, start, end))
            } else {
                None
            }
        },
    }
}

/// The provenance of a message, if it is a bounded tool output.
pub open spec fn provenance_of(index: int, message: MessageText) -> Seq<Provenance> {
    if message.role != Role::Tool || message.content is None {
        Seq::empty()
    } else {
        let content = message.content->0;
        let handled = has_part(content, "[zene-tool-output "@);
        if !handled && !reduced(content) {
            Seq::empty()
        } else {
            seq![
                Provenance {
                    message_index: index,
                    tool_call_id: message.tool_call_id,
                    tool_name: message.name,
                    kind: if handled {
                        "handle"@
                    } else {
                        "truncated"@
                    },
                    handle_reference: match handle_path(content) {
                        Some(path) => Some(path),
                        None => saved_path(content),
                    },
                },
            ]
        }
    }
}

/// The provenances of the bounded tool outputs, in message order.
pub open spec fn provenances(messages: Seq<MessageText>) -> Seq<Provenance>
    decreases messages.len(),
{
    if messages.len() == 0 {
        Seq::empty()
    } else {
        provenances(messages.drop_last()) + provenance_of(messages.len() - 1, messages.last())
    }
}

/// The provenances of the bounded tool outputs, in message order.
pub fn projection_tool_output_provenance(messages: &Vec<Message>) -> (r: Vec<ToolOutputProvenance>)
    ensures
        provenance_list(r@) == provenances(message_texts(messages@)),
{
    let ghost all = message_texts(messages@);
    let mut out: Vec<ToolOutputProvenance> = Vec::new();
    let mut i: usize = 0;
    proof {
        assert(provenance_list(out@) == provenances(all.take(0)));
    }
    while i < messages.len()
        invariant
            i <= messages.len(),
            all == message_texts(messages@),
            provenance_list(out@) == provenances(all.take(i as int)),
        decreases messages.len() - i,
    {
        let message = &messages[i];
        let ghost before = provenance_list(out@);
        proof {
            assert(all.take(i + 1).drop_last() == all.take(i as int));
            assert(all.take(i + 1).last() == message@);
        }
        let is_tool = message.role == Role::Tool;
        let mut found = false;
        if is_tool {
            if let Some(content) = &message.content {
                let handled = contains(content.as_str(), "[zene-tool-output ");
                if handled || is_reduced(content.as_str()) {
                    let handle_reference = match tool_handle_reference(content.as_str()) {
                        Some(path) => Some(path),
                        None => saved_output_reference(content.as_str()),
                    };
                    let kind = if handled {
                        "handle".to_string()
                    } else {
                        "truncated".to_string()
                    };
                    let item = ToolOutputProvenance {
                        message_index: i,
                        tool_call_id: copy_opt(&message.tool_call_id),
                        tool_name: copy_opt(&message.name),
                        kind,
                        handle_reference,
                    };
                    let ghost added = item@;
                    out.push(item);
                    found = true;
                    proof {
                        assert(provenance_of(i as int, message@) == seq![added]);
                        assert(provenance_list(out@) == before + seq![added]);
                    }
                }
            }
        }
        proof {
            if !found {
                assert(provenance_of(i as int, message@) == Seq::<Provenance>::empty());
                assert(before + Seq::<Provenance>::empty() == before);
            }
        }
        i += 1;
    }
    proof {
        assert(all.take(all.len() as int) == all);
    }
    out
}

/// What a system reminder speaks of: memory, todos, background tasks, the plan
/// mode, or nothing of these.
pub open spec fn reminder_sources(content: Seq<char>) -> Seq<Seq<char>> {
    let lower = ascii_lower(content);
    let memory = has_part(lower, "<memory-context>"@);
    let todos = has_part(lower, "todo"@);
    let tasks = has_part(lower, "background"@) || has_part(lower, "task"@);
    let plan = has_part(lower, "plan mode"@) || has_part(lower, "exitplanmode"@);
    let none = Seq::<Seq<char>>::empty();
    let found = (if memory {
        seq!["memory"@]
    } else {
        none
    }) + (if todos {
        seq!["todos"@]
    } else {
        none
    }) + (if tasks {
        seq!["background_tasks"@]
    } else {
        none
    }) + (if plan {
        seq!["plan"@]
    } else {
        none
    });
    if found.len() == 0 {
        seq!["system"@]
    } else {
        found
    }
}

/// What a system reminder speaks of.
pub fn injected_source_kind(content: &str) -> (r: Vec<String>)
    ensures
        texts(r@) == reminder_sources(content@),
{
    let lowered = to_ascii_lower(content);
    let lower = lowered.as_str();
    let mut sources: Vec<String> = Vec::new();
    if contains(lower, "<memory-context>") {
        sources.push("memory".to_string());
    }
    if contains(lower, "todo") {
        sources.push("todos".to_string());
    }
    if contains(lower, "background") || contains(lower, "task") {
        sources.push("background_tasks".to_string());
    }
    if contains(lower, "plan mode") || contains(lower, "exitplanmode") {
        sources.push("plan".to_string());
    }
    if sources.is_empty() {
        sources.push("system".to_string());
    }
    proof {
        assert(texts(sources@) == reminder_sources(content@));
    }
    sources
}

/// The injected sources of a message.
pub open spec fn injected_of(index: int, message: MessageText, reminder: bool) -> Seq<Injected> {
    if is_summary(message) {
        seq![
            Injected {
                message_index: index,
                kind: "compaction_summary"@,
                source: "compaction_event"@,
            },
        ]
    } else if message.content is None || !reminder {
        Seq::empty()
    } else {
        let sources = reminder_sources(message.content->0);
        Seq::new(
            sources.len(),
            |k: int| Injected { message_index: index, kind: "system_reminder"@, source: sources[k] },
        )
    }
}

/// The injected sources of a projection, in message order.
pub open spec fn injections(messages: Seq<MessageText>, reminders: Seq<bool>) -> Seq<Injected>
    decreases messages.len(),
{
    if messages.len() == 0 {
        Seq::empty()
    } else {
        injections(messages.drop_last(), reminders) + injected_of(
            messages.len() - 1,
            messages.last(),
            reminders[messages.len() - 1],
        )
    }
}

/// The injected sources of a projection, in message order.
pub fn projection_injected_sources(messages: &Vec<Message>, reminders: &Vec<bool>) -> (r: Vec<
    InjectedSource,
>)
    requires
        reminders.len() == messages.len(),
    ensures
        injected_list(r@) == injections(message_texts(messages@), reminders@),
{
    let ghost all = message_texts(messages@);
    let mut out: Vec<InjectedSource> = Vec::new();
    let mut i: usize = 0;
    proof {
        assert(injected_list(out@) == injections(all.take(0), reminders@));
    }
    while i < messages.len()
        invariant
            i <= messages.len() == reminders.len(),
            all == message_texts(messages@),
            injected_list(out@) == injections(all.take(i as int), reminders@),
        decreases messages.len() - i,
    {
        let message = &messages[i];
        let ghost before = injected_list(out@);
        let ghost here = injected_of(i as int, message@, reminders@[i as int]);
        proof {
            assert(all.take(i + 1).drop_last() == all.take(i as int));
            assert(all.take(i + 1).last() == message@);
        }
        if is_summary_kind(message.kind) {
            let item = InjectedSource {
                message_index: i,
                kind: "compaction_summary".to_string(),
                source: "compaction_event".to_string(),
            };
            let ghost added = item@;
            out.push(item);
            proof {
                assert(injected_list(out@) == before + seq![added]);
            }
        } else if reminders[i] && message.content.is_some() {
            if let Some(content) = &message.content {
                let sources = injected_source_kind(content.as_str());
                let mut k: usize = 0;
                proof {
                    assert(before + here.take(0) == before);
                }
                while k < sources.len()
                    invariant
                        k <= sources.len() == here.len(),
                        here == injected_of(i as int, message@, true),
                        !is_summary(message@),
                        message@.content == Some(content@),
                        texts(sources@) == reminder_sources(content@),
                        injected_list(out@) == before + here.take(k as int),
                    decreases sources.len() - k,
                {
                    let item = InjectedSource {
                        message_index: i,
                        kind: "system_reminder".to_string(),
                        source: sources[k].clone(),
                    };
                    let ghost added = item@;
                    let ghost so_far = injected_list(out@);
                    out.push(item);
                    proof {
                        assert(texts(sources@)[k as int] == sources@[k as int]@);
                        assert(added == here[k as int]);
                        assert(injected_list(out@) == so_far.push(added));
                        assert(before + here.take(k + 1) == (before + here.take(k as int)).push(
                            added,
                        ));
                    }
                    k += 1;
                }
                proof {
                    assert(here.take(here.len() as int) == here);
                }
            }
        } else {
            proof {
                assert(before + here == before);
            }
        }
        proof {
            assert(injected_list(out@) == before + here);
        }
        i += 1;
    }
    proof {
        assert(all.take(all.len() as int) == all);
    }
    out
}

/// An event of the session, as far as the projection reads it.
#[derive(Debug, Clone)]
pub enum SessionEvent {
    TurnStarted { turn_id: String },
    StepStarted { turn_id: String },
    TurnEnded { turn_id: String },
    Checkpoint { turn_id: Option<String> },
    ToolCall { turn_id: Option<String> },
    ToolResult { turn_id: Option<String> },
    PermissionDecision { turn_id: Option<String> },
    CompactionApplied { id: String },
    Other,
}

/// The turn that an event belongs to, if it names one.
pub open spec fn event_turn(event: SessionEvent) -> Option<Seq<char>> {
    match event {
        SessionEvent::TurnStarted { turn_id } => Some(turn_id@),
        SessionEvent::StepStarted { turn_id } => Some(turn_id@),
        SessionEvent::TurnEnded { turn_id } => Some(turn_id@),
        SessionEvent::Checkpoint { turn_id } => opt_text(turn_id),
        SessionEvent::ToolCall { turn_id } => opt_text(turn_id),
        SessionEvent::ToolResult { turn_id } => opt_text(turn_id),
        SessionEvent::PermissionDecision { turn_id } => opt_text(turn_id),
        SessionEvent::CompactionApplied { .. } => None,
        SessionEvent::Other => None,
    }
}

/// The turns that the events name, each once, in the order of their first event.
pub open spec fn turns_of(events: Seq<SessionEvent>) -> Seq<Seq<char>>
    decreases events.len(),
{
    if events.len() == 0 {
        Seq::empty()
    } else {
        let before = turns_of(events.drop_last());
        match event_turn(events.last()) {
            Some(turn) => if before.contains(turn) {
                before
            } else {
                before.push(turn)
            },
            None => before,
        }
    }
}

/// The ids of the compactions among the events.
pub open spec fn compactions_of(events: Seq<SessionEvent>) -> Seq<Seq<char>>
    decreases events.len(),
{
    if events.len() == 0 {
        Seq::empty()
    } else {
        let before = compactions_of(events.drop_last());
        match events.last() {
            SessionEvent::CompactionApplied { id } => before.push(id@),
            _ => before,
        }
    }
}

/// No turn is listed twice, and none that no event names.
pub proof fn turns_are_listed_once(events: Seq<SessionEvent>)
    ensures
        turns_of(events).no_duplicates(),
        forall|turn: Seq<char>|
            turns_of(events).contains(turn) <==> exists|i: int|
                0 <= i < events.len() && #[trigger] event_turn(events[i]) == Some(turn),
    decreases events.len(),
{
    if events.len() > 0 {
        let rest = events.drop_last();
        turns_are_listed_once(rest);
        let before = turns_of(rest);
        let now = turns_of(events);
        assert forall|turn: Seq<char>| now.contains(turn) <==> exists|i: int|
            0 <= i < events.len() && #[trigger] event_turn(events[i]) == Some(turn) by {
            if now.contains(turn) {
                if before.contains(turn) {
                    let i = choose|i: int|
                        0 <= i < rest.len() && #[trigger] event_turn(rest[i]) == Some(turn);
                    assert(event_turn(events[i]) == Some(turn));
                } else {
                    let k = choose|k: int| 0 <= k < now.len() && now[k] == turn;
                    if k < before.len() {
                        assert(before[k] == turn);
                    }
                    assert(event_turn(events[events.len() - 1]) == Some(turn));
                }
            }
            if exists|i: int| 0 <= i < events.len() && #[trigger] event_turn(events[i]) == Some(turn) {
                let i = choose|i: int|
                    0 <= i < events.len() && #[trigger] event_turn(events[i]) == Some(turn);
                if i < rest.len() {
                    assert(event_turn(rest[i]) == Some(turn));
                    assert(before.contains(turn));
                    let k = choose|k: int| 0 <= k < before.len() && before[k] == turn;
                    assert(now[k] == turn);
                } else {
                    if !before.contains(turn) {
                        assert(now[before.len() as int] == turn);
                    }
                }
            }
        }
    }
}

fn turn_of(event: &SessionEvent) -> (r: Option<String>)
    ensures
        opt_text(r) == event_turn(*event),
{
    match event {
        SessionEvent::TurnStarted { turn_id } => Some(turn_id.clone()),
        SessionEvent::StepStarted { turn_id } => Some(turn_id.clone()),
        SessionEvent::TurnEnded { turn_id } => Some(turn_id.clone()),
        SessionEvent::Checkpoint { turn_id } => copy_opt(turn_id),
        SessionEvent::ToolCall { turn_id } => copy_opt(turn_id),
        SessionEvent::ToolResult { turn_id } => copy_opt(turn_id),
        SessionEvent::PermissionDecision { turn_id } => copy_opt(turn_id),
        SessionEvent::CompactionApplied { .. } => None,
        SessionEvent::Other => None,
    }
}

/// The turns that the events name, each once, in the order of their first event.
pub fn retained_turn_ids(events: &Vec<SessionEvent>) -> (r: Vec<String>)
    ensures
        texts(r@) == turns_of(events@),
        r.len() <= events.len(),
{
    let mut out: Vec<String> = Vec::new();
    let mut i: usize = 0;
    proof {
        assert(texts(out@) == turns_of(events@.take(0)));
    }
    while i < events.len()
        invariant
            i <= events.len(),
            texts(out@) == turns_of(events@.take(i as int)),
            out.len() <= i,
        decreases events.len() - i,
    {
        let ghost before = texts(out@);
        proof {
            assert(events@.take(i + 1).drop_last() == events@.take(i as int));
            assert(events@.take(i + 1).last() == events@[i as int]);
        }
        if let Some(turn_id) = turn_of(&events[i]) {
            if !has_text(&out, turn_id.as_str()) {
                let ghost added = turn_id@;
                out.push(turn_id);
                proof {
                    assert(texts(out@) == before.push(added));
                }
            }
        }
        i += 1;
    }
    proof {
        assert(events@.take(events@.len() as int) == events@);
    }
    out
}

/// The ids of the compactions among the events.
pub fn compaction_event_ids(events: &Vec<SessionEvent>) -> (r: Vec<String>)
    ensures
        texts(r@) == compactions_of(events@),
{
    let mut out: Vec<String> = Vec::new();
    let mut i: usize = 0;
    proof {
        assert(texts(out@) == compactions_of(events@.take(0)));
    }
    while i < events.len()
        invariant
            i <= events.len(),
            texts(out@) == compactions_of(events@.take(i as int)),
        decreases events.len() - i,
    {
        let ghost before = texts(out@);
        proof {
            assert(events@.take(i + 1).drop_last() == events@.take(i as int));
            assert(events@.take(i + 1).last() == events@[i as int]);
        }
        if let SessionEvent::CompactionApplied { id } = &events[i] {
            out.push(id.clone());
            proof {
                assert(texts(out@) == before.push(id@));
            }
        }
        i += 1;
    }
    proof {
        assert(events@.take(events@.len() as int) == events@);
    }
    out
}

/// A projection is labelled with a compaction summary exactly where one of its messages is one,
/// and with a system reminder exactly where one of its messages is one; the summary comes
/// first.
pub proof fn labels_name_the_decorations(messages: Seq<MessageText>, reminders: Seq<bool>)
    requires
        reminders.len() == messages.len(),
    ensures
        labels(messages, reminders).contains("compaction_summary"@) <==> exists|i: int|
            0 <= i < messages.len() && (#[trigger] messages[i]).kind == Some(
                MessageKind::CompactionSummary,
            ),
        labels(messages, reminders).contains("system_reminder"@) <==> exists|i: int|
            0 <= i < messages.len() && (#[trigger] messages[i]).content is Some && reminders[i],
        labels(messages, reminders).len() <= 2,
        labels(messages, reminders).len() == 2 ==> labels(messages, reminders)[0]
            == "compaction_summary"@,
{
    reveal_strlit("compaction_summary");
    reveal_strlit("system_reminder");
    assert("compaction_summary"@[0] == 'c' && "system_reminder"@[0] == 's');
    let all = labels(messages, reminders);
    let summary = exists|i: int| 0 <= i < messages.len() && is_summary(#[trigger] messages[i]);
    let reminder = exists|i: int|
        0 <= i < messages.len() && (#[trigger] messages[i]).content is Some && reminders[i];
    if summary {
        assert(all[0] == "compaction_summary"@);
        let i = choose|i: int| 0 <= i < messages.len() && is_summary(#[trigger] messages[i]);
        assert(messages[i].kind == Some(MessageKind::CompactionSummary));
    }
    if exists|i: int|
        0 <= i < messages.len() && (#[trigger] messages[i]).kind == Some(
            MessageKind::CompactionSummary,
        ) {
        let i = choose|i: int|
            0 <= i < messages.len() && (#[trigger] messages[i]).kind == Some(
                MessageKind::CompactionSummary,
            );
        assert(is_summary(messages[i]));
    }
    if reminder {
        assert(all[all.len() - 1] == "system_reminder"@);
    }
}

/// Reduced bodies are counted one by one: a message counts exactly if its body carries one of
/// the two marks of truncation.
pub proof fn reduced_bodies_are_counted(messages: Seq<MessageText>, message: MessageText)
    ensures
        reduced_count(Seq::empty()) == 0,
        reduced_count(messages.push(message)) == reduced_count(messages) + (if (
        message.content matches Some(body) && (has_part(body, "[truncated "@) || has_part(
            body,
            "…[steps-truncated "@,
        ))) {
            1int
        } else {
            0
        }),
{
    assert(messages.push(message).drop_last() == messages);
}

/// A bounded tool output has a provenance of its own, which names its place, its call and its
/// tool and tells a handle from a truncation; no other message has one. They stand in the
/// order of the messages.
pub proof fn bounded_outputs_tell_where_they_are_from(
    messages: Seq<MessageText>,
    message: MessageText,
)
    ensures
        provenances(Seq::empty()) == Seq::<Provenance>::empty(),
        !(message.role is Tool) || message.content is None ==> provenances(messages.push(message))
            == provenances(messages),
        message.role is Tool && message.content is Some && !has_part(
            message.content->0,
            "[zene-tool-output "@,
        ) && !has_part(message.content->0, "[truncated "@) && !has_part(
            message.content->0,
            "…[steps-truncated "@,
        ) ==> provenances(messages.push(message)) == provenances(messages),
        message.role is Tool && message.content is Some && (has_part(
            message.content->0,
            "[zene-tool-output "@,
        ) || has_part(message.content->0, "[truncated "@) || has_part(
            message.content->0,
            "…[steps-truncated "@,
        )) ==> {
            let all = provenances(messages.push(message));
            &&& all.len() == provenances(messages).len() + 1
            &&& all.drop_last() == provenances(messages)
            &&& all.last().message_index == messages.len()
            &&& all.last().tool_call_id == message.tool_call_id
            &&& all.last().tool_name == message.name
            &&& all.last().kind == (if has_part(message.content->0, "[zene-tool-output "@) {
                "handle"@
            } else {
                "truncated"@
            })
        },
{
    assert(messages.push(message).drop_last() == messages);
    let before = provenances(messages);
    assert(before + Seq::empty() == before);
    let all = provenances(messages.push(message));
    let own = provenance_of(messages.len() as int, message);
    assert(all == before + own);
    if own.len() == 1 {
        assert(all.drop_last() == before);
    }
}

/// The path of a stored output is what stands in quotes behind the first mark of a handle, or
/// else the word behind the first "full output saved to", without punctuation at its end.
pub proof fn stored_outputs_are_found_by_their_path(
    before: Seq<char>,
    path: Seq<char>,
    behind: Seq<char>,
)
    requires
        !path.contains('"'),
        find_from(
            before + "[zene-tool-output path=\""@ + path + "\""@ + behind,
            "[zene-tool-output path=\""@,
            0,
        ) == Some(before.len() as int),
    ensures
        handle_path(before + "[zene-tool-output path=\""@ + path + "\""@ + behind) == Some(path),
{
    reveal_strlit("[zene-tool-output path=\"");
    reveal_strlit("\"");
    let marker = "[zene-tool-output path=\""@;
    let s = before + marker + path + "\""@ + behind;
    let start = before.len() + marker.len();
    let end = start + path.len();
    lemma_position_first(s, start as int, '"');
    assert(s[end as int] == '"');
    assert forall|j: int| start <= j < end implies s[j] != '"' by {
        assert(s[j] == path[j - start]);
        assert(path.contains(path[j - start]));
    }
    let found = position_from(s, start as int, '"');
    assert(found == end) by {
        if found < end {
            assert(s[found] == '"');
        } else if found > end {
            assert(s[end as int] != '"');
        }
    }
    assert(s.subrange(start as int, end as int) == path);
}

/// A reminder is said to speak of memory, todos, background tasks and the plan exactly where
/// its words do, whatever their case, and of the system where it speaks of none of these.
pub proof fn reminders_are_sorted_by_their_words(content: Seq<char>)
    ensures
        ({
            let lower = ascii_lower(content);
            let sources = reminder_sources(content);
            &&& sources.contains("memory"@) <==> has_part(lower, "<memory-context>"@)
            &&& sources.contains("todos"@) <==> has_part(lower, "todo"@)
            &&& sources.contains("background_tasks"@) <==> has_part(lower, "background"@) || has_part(
                lower,
                "task"@,
            )
            &&& sources.contains("plan"@) <==> has_part(lower, "plan mode"@) || has_part(
                lower,
                "exitplanmode"@,
            )
            &&& sources.contains("system"@) <==> sources.len() == 1 && sources[0] == "system"@
            &&& sources.len() >= 1
        }),
{
    reveal_strlit("memory");
    reveal_strlit("todos");
    reveal_strlit("background_tasks");
    reveal_strlit("plan");
    reveal_strlit("system");
    assert("memory"@[0] == 'm' && "todos"@[0] == 't' && "background_tasks"@[0] == 'b' && "plan"@[0]
        == 'p' && "system"@[0] == 's');
    let lower = ascii_lower(content);
    let memory = has_part(lower, "<memory-context>"@);
    let todos = has_part(lower, "todo"@);
    let tasks = has_part(lower, "background"@) || has_part(lower, "task"@);
    let plan = has_part(lower, "plan mode"@) || has_part(lower, "exitplanmode"@);
    let sources = reminder_sources(content);
    let a: int = if memory {
        1
    } else {
        0
    };
    let b: int = if todos {
        a + 1
    } else {
        a
    };
    let c: int = if tasks {
        b + 1
    } else {
        b
    };
    if memory {
        assert(sources[0] == "memory"@);
    }
    if todos {
        assert(sources[a] == "todos"@);
    }
    if tasks {
        assert(sources[b] == "background_tasks"@);
    }
    if plan {
        assert(sources[c] == "plan"@);
    }
    if !memory && !todos && !tasks && !plan {
        assert(sources[0] == "system"@);
        assert(sources.len() == 1);
    } else {
        assert forall|i: int| 0 <= i < sources.len() implies sources[i][0] != 's' by {}
    }
}

/// A summary is injected by its compaction, whatever else it is; a reminder by what it speaks
/// of; any other message by nothing. They stand in the order of the messages.
pub proof fn injections_follow_the_messages(
    messages: Seq<MessageText>,
    message: MessageText,
    reminders: Seq<bool>,
)
    requires
        reminders.len() == messages.len() + 1,
    ensures
        injections(Seq::empty(), reminders) == Seq::<Injected>::empty(),
        message.kind == Some(MessageKind::CompactionSummary) ==> injections(
            messages.push(message),
            reminders,
        ) == injections(messages, reminders).push(
            Injected {
                message_index: messages.len() as int,
                kind: "compaction_summary"@,
                source: "compaction_event"@,
            },
        ),
        message.kind != Some(MessageKind::CompactionSummary) && (message.content is None
            || !reminders[messages.len() as int]) ==> injections(messages.push(message), reminders)
            == injections(messages, reminders),
        message.kind != Some(MessageKind::CompactionSummary) && message.content is Some
            && reminders[messages.len() as int] ==> {
            let all = injections(messages.push(message), reminders);
            let sources = reminder_sources(message.content->0);
            let n = injections(messages, reminders).len() as int;
            &&& all.len() == n + sources.len()
            &&& forall|k: int|
                0 <= k < sources.len() ==> all[n + k] == (Injected {
                    message_index: messages.len() as int,
                    kind: "system_reminder"@,
                    source: #[trigger] sources[k],
                })
        },
{
    let before = injections(messages, reminders);
    assert(messages.push(message).drop_last() == messages);
    assert(before + Seq::empty() == before);
    let own = injected_of(messages.len() as int, message, reminders[messages.len() as int]);
    assert(injections(messages.push(message), reminders) == before + own);
    if message.kind == Some(MessageKind::CompactionSummary) {
        assert(before + own == before.push(own[0]));
    } else if message.content is Some && reminders[messages.len() as int] {
        let sources = reminder_sources(message.content->0);
        let n = before.len() as int;
        assert forall|k: int| 0 <= k < sources.len() implies (before + own)[n + k] == (Injected {
            message_index: messages.len() as int,
            kind: "system_reminder"@,
            source: #[trigger] sources[k],
        }) by {
            assert((before + own)[n + k] == own[k]);
        }
    }
}

/// Every event that names its turn belongs to it, and compactions and other events to none.
pub proof fn events_belong_to_the_turn_they_name(turn_id: String, id: String)
    ensures
        event_turn(SessionEvent::TurnStarted { turn_id }) == Some(turn_id@),
        event_turn(SessionEvent::StepStarted { turn_id }) == Some(turn_id@),
        event_turn(SessionEvent::TurnEnded { turn_id }) == Some(turn_id@),
        event_turn(SessionEvent::Checkpoint { turn_id: Some(turn_id) }) == Some(turn_id@),
        event_turn(SessionEvent::ToolCall { turn_id: Some(turn_id) }) == Some(turn_id@),
        event_turn(SessionEvent::ToolResult { turn_id: Some(turn_id) }) == Some(turn_id@),
        event_turn(SessionEvent::PermissionDecision { turn_id: Some(turn_id) }) == Some(turn_id@),
        event_turn(SessionEvent::Checkpoint { turn_id: None }) is None,
        event_turn(SessionEvent::ToolCall { turn_id: None }) is None,
        event_turn(SessionEvent::CompactionApplied { id }) is None,
        event_turn(SessionEvent::Other) is None,
{
}

/// Turns are listed in the order of their first event, and compactions in the order of theirs,
/// each with its id.
pub proof fn turns_and_compactions_keep_their_order(
    events: Seq<SessionEvent>,
    event: SessionEvent,
)
    ensures
        event_turn(event) is None || turns_of(events).contains(event_turn(event)->0) ==> turns_of(
            events.push(event),
        ) == turns_of(events),
        event_turn(event) is Some && !turns_of(events).contains(event_turn(event)->0) ==> turns_of(
            events.push(event),
        ) == turns_of(events).push(event_turn(event)->0),
        event matches SessionEvent::CompactionApplied { id } ==> compactions_of(events.push(event))
            == compactions_of(events).push(id@),
        !(event is CompactionApplied) ==> compactions_of(events.push(event)) == compactions_of(
            events,
        ),
        turns_of(Seq::empty()).len() == 0,
        compactions_of(Seq::empty()).len() == 0,
{
    assert(events.push(event).drop_last() == events);
}

proof fn lemma_word_end(s: Seq<char>, i: int, end: int)
    requires
        0 <= i <= end <= s.len(),
        forall|k: int| i <= k < end ==> !white_space(#[trigger] s[k]),
        end < s.len() ==> white_space(s[end]),
    ensures
        word_end(s, i) == end,
    decreases end - i,
{
    if i < end {
        assert(!white_space(s[i]));
        lemma_word_end(s, i + 1, end);
    }
}

proof fn lemma_closing_dropped(path: Seq<char>, points: Seq<char>)
    requires
        path.len() > 0,
        !closing(path.last()),
        forall|k: int| 0 <= k < points.len() ==> closing(#[trigger] points[k]),
    ensures
        without_closing(path + points) == path,
    decreases points.len(),
{
    let s = path + points;
    if points.len() > 0 {
        assert(s.last() == points.last());
        assert(s.drop_last() == path + points.drop_last());
        lemma_closing_dropped(path, points.drop_last());
    } else {
        assert(s == path);
    }
}

/// An output that was saved is found by the path that the text names, without the punctuation
/// that closes its sentence.
pub proof fn saved_outputs_are_found_by_their_path(
    before: Seq<char>,
    path: Seq<char>,
    points: Seq<char>,
    behind: Seq<char>,
)
    requires
        path.len() > 0,
        path.last() != '.' && path.last() != ',' && path.last() != ';' && path.last() != ']'
            && path.last() != ')',
        forall|k: int| 0 <= k < path.len() ==> !white_space(#[trigger] path[k]),
        forall|k: int|
            0 <= k < points.len() ==> !white_space(points[k]) && (points[k] == '.' || points[k]
                == ',' || points[k] == ';' || points[k] == ']' || #[trigger] points[k] == ')'),
        behind.len() > 0 ==> white_space(behind[0]),
        find_from(
            before + "full output saved to "@ + path + points + behind,
            "full output saved to "@,
            0,
        ) == Some(before.len() as int),
    ensures
        saved_path(before + "full output saved to "@ + path + points + behind) == Some(path),
{
    let marker = "full output saved to "@;
    let s = before + marker + path + points + behind;
    let start = (before.len() + marker.len()) as int;
    let end = start + path.len() + points.len();
    assert(s[start] == path[0]);
    assert(skip_white(s, start) == start);
    assert forall|k: int| start <= k < end implies !white_space(#[trigger] s[k]) by {
        if k < start + path.len() {
            assert(s[k] == path[k - start]);
        } else {
            assert(s[k] == points[k - start - path.len()]);
        }
    }
    if behind.len() > 0 {
        assert(s[end] == behind[0]);
    }
    lemma_word_end(s, start, end);
    assert(s.subrange(start, end) == path + points);
    lemma_closing_dropped(path, points);
}

/// A handle whose path is not closed names no output.
pub proof fn open_handles_name_nothing(before: Seq<char>, behind: Seq<char>)
    requires
        !behind.contains('"'),
        find_from(
            before + "[zene-tool-output path=\""@ + behind,
            "[zene-tool-output path=\""@,
            0,
        ) == Some(before.len() as int),
    ensures
        handle_path(before + "[zene-tool-output path=\""@ + behind) is None,
{
    let marker = "[zene-tool-output path=\""@;
    let s = before + marker + behind;
    let start = (before.len() + marker.len()) as int;
    lemma_position_first(s, start, '"');
    let found = position_from(s, start, '"');
    if found < s.len() {
        assert(s[found] == behind[found - start]);
        assert(behind.contains(behind[found - start]));
    }
}

} // verus!
