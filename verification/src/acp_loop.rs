//! The loop of the Agent Client Protocol server: what each event leads to, from the
//! first message until input is closed and the last prompt is answered.
use vstd::prelude::*;

use crate::acp_server::{
    after_blanks, answered_sessions_are_idle, blank_ids, dispatch, dispatch_reply,
    error_code_follows_the_message, error_message, error_report, ids_distinct, message_code,
    method_named, place_of, prompt_reply, prompt_step, queued_prompts_start_in_turn,
    sessions_are_found_by_id, with_finished, with_next_prompt, with_session, with_started,
    AcpError, AcpMethod, AcpServer, ErrorCode, PromptOutcome, PromptStep, ServerState,
    SessionState, Step,
};
use crate::acp_updates::{asked_by, handle_incoming, or_null, Asked, Incoming, MessageClass};
use crate::json::{item_values, member, Json, JsonValue};
use crate::text::trimmed;

verus! {

/// What happens to a server.
#[derive(Debug)]
pub enum ServerEvent {
    /// A message arrived. `prompt_text` is the text of its prompt blocks.
    Message { message: Json, class: MessageClass, prompt_text: String },
    /// No more messages arrive.
    InputClosed,
    /// The work on the active prompt has ended.
    PromptEnded(PromptOutcome),
}

/// What a server does next.
#[derive(Debug)]
pub enum ServerAction {
    /// Send the answer of a request.
    Reply { rpc_id: Json, result: Result<Json, (ErrorCode, String)> },
    /// Cancel the runtime of a session.
    CancelRuntime { session_id: String },
    /// Have the runtime of a session work on a prompt.
    RunPrompt { session_id: String, text: String },
    /// Steer the runtime of a session, and answer the request.
    Steer { rpc_id: Json, session_id: String, text: String },
    /// Hand a follow-up to the runtime of a session, and answer the request.
    FollowUp { rpc_id: Json, session_id: String, text: String },
    /// Handle a request, and answer it.
    Handle { rpc_id: Json, method: AcpMethod, params: Json },
    /// Shut down the runtimes of all sessions: the loop is over.
    Shutdown,
}

/// The contents of a [`ServerAction`].
pub enum Act {
    Reply { rpc_id: JsonValue, result: Result<JsonValue, (ErrorCode, Seq<char>)> },
    CancelRuntime { session_id: Seq<char> },
    RunPrompt { session_id: Seq<char>, text: Seq<char> },
    Steer { rpc_id: JsonValue, session_id: Seq<char>, text: Seq<char> },
    FollowUp { rpc_id: JsonValue, session_id: Seq<char>, text: Seq<char> },
    Handle { rpc_id: JsonValue, method: AcpMethod, params: JsonValue },
    Shutdown,
}

/// The contents of an answer.
pub open spec fn reply_text(result: Result<Json, (ErrorCode, String)>) -> Result<
    JsonValue,
    (ErrorCode, Seq<char>),
> {
    match result {
        Ok(value) => Ok(value@),
        Err((code, text)) => Err((code, text@)),
    }
}

impl View for ServerAction {
    type V = Act;

    open spec fn view(&self) -> Act {
        match self {
            ServerAction::Reply { rpc_id, result } => Act::Reply {
                rpc_id: rpc_id@,
                result: reply_text(*result),
            },
            ServerAction::CancelRuntime { session_id } => Act::CancelRuntime {
                session_id: session_id@,
            },
            ServerAction::RunPrompt { session_id, text } => Act::RunPrompt {
                session_id: session_id@,
                text: text@,
            },
            ServerAction::Steer { rpc_id, session_id, text } => Act::Steer {
                rpc_id: rpc_id@,
                session_id: session_id@,
                text: text@,
            },
            ServerAction::FollowUp { rpc_id, session_id, text } => Act::FollowUp {
                rpc_id: rpc_id@,
                session_id: session_id@,
                text: text@,
            },
            ServerAction::Handle { rpc_id, method, params } => Act::Handle {
                rpc_id: rpc_id@,
                method: *method,
                params: params@,
            },
            ServerAction::Shutdown => Act::Shutdown,
        }
    }
}

/// The contents of a list of actions.
pub open spec fn act_list(actions: Seq<ServerAction>) -> Seq<Act> {
    Seq::new(actions.len(), |i: int| actions[i]@)
}

/// The answer to a request that failed with a message.
pub open spec fn failure(rpc_id: JsonValue, message: Seq<char>) -> Act {
    Act::Reply { rpc_id, result: Err((message_code(message), message)) }
}

/// What a prompt request leads to.
pub open spec fn prompt_asked(
    s: ServerState,
    rpc_id: JsonValue,
    params: JsonValue,
    prompt_text: Seq<char>,
) -> (ServerState, Seq<Act>) {
    match prompt_step(s, params, prompt_text) {
        Err(message) => (s, seq![failure(rpc_id, message)]),
        Ok(Step::Start { session_id, text }) => (
            with_started(s, session_id, rpc_id),
            seq![Act::RunPrompt { session_id, text }],
        ),
        Ok(Step::Steer { session_id, text }) => (s, seq![Act::Steer { rpc_id, session_id, text }]),
        Ok(Step::FollowUp { session_id, text }) => (
            s,
            seq![Act::FollowUp { rpc_id, session_id, text }],
        ),
    }
}

/// What the cancellation of a session leads to. The runtime of the active prompt is
/// cancelled once more.
pub open spec fn cancel_asked(s: ServerState, session_id: Seq<char>) -> (ServerState, Seq<Act>) {
    match place_of(s.sessions, session_id) {
        None => (s, Seq::empty()),
        Some(i) => (
            with_session(s, i, SessionState { queue: Seq::empty(), ..s.sessions[i] }),
            if s.active matches Some(active) && active.session_id == session_id {
                seq![Act::CancelRuntime { session_id }, Act::CancelRuntime { session_id }]
            } else {
                seq![Act::CancelRuntime { session_id }]
            },
        ),
    }
}

/// What a message leads to.
pub open spec fn message_asked(s: ServerState, asked: Asked, prompt_text: Seq<char>) -> (
    ServerState,
    Seq<Act>,
) {
    match asked {
        Asked::Ignored => (s, Seq::empty()),
        Asked::Cancel { session_id } => cancel_asked(s, session_id),
        Asked::Prompt { rpc_id, params } => prompt_asked(s, rpc_id, params, prompt_text),
        Asked::Request { rpc_id, method, params } => match method_named(method) {
            Some(known) => (s, seq![Act::Handle { rpc_id, method: known, params }]),
            None => (
                s,
                seq![
                    failure(
                        rpc_id,
                        if method == "session/prompt"@ {
                            "session/prompt is handled by the async prompt queue"@
                        } else {
                            "method not found: "@ + method
                        },
                    ),
                ],
            ),
        },
    }
}

/// The answer of a prompt.
pub open spec fn outcome_reply(outcome: PromptOutcome) -> Result<
    JsonValue,
    (ErrorCode, Seq<char>),
> {
    match outcome {
        PromptOutcome::Answered(value) => Ok(value@),
        PromptOutcome::Failed(error) => Err(
            (message_code(error_message(error)), error_report(error)),
        ),
        PromptOutcome::Dropped => Err((ErrorCode::ApplicationError, "prompt worker dropped"@)),
    }
}

/// The rejection of a blank prompt that waited.
pub open spec fn blank_reply(rpc_id: JsonValue) -> Act {
    Act::Reply { rpc_id, result: Err((ErrorCode::InvalidParams, "empty prompt"@)) }
}

/// What the end of the active prompt leads to: its answer, the rejection of blank
/// prompts that waited behind it, and the start of the next one.
pub open spec fn prompt_ended(s: ServerState, outcome: PromptOutcome) -> (ServerState, Seq<Act>) {
    let active = s.active->0;
    let freed = with_finished(s);
    let answered = seq![Act::Reply { rpc_id: active.rpc_id, result: outcome_reply(outcome) }];
    match place_of(freed.sessions, active.session_id) {
        None => (freed, answered),
        Some(i) => {
            let queue = freed.sessions[i].queue;
            let rejected = blank_ids(queue).map_values(|id: JsonValue| blank_reply(id));
            let rest = after_blanks(queue);
            (
                with_next_prompt(freed, active.session_id),
                if rest.len() == 0 {
                    answered + rejected
                } else {
                    answered + rejected + seq![
                        Act::RunPrompt { session_id: active.session_id, text: rest[0].text },
                    ]
                },
            )
        },
    }
}

/// What the end of the input leads to.
pub open spec fn input_ended(s: ServerState) -> (ServerState, Seq<Act>) {
    (
        ServerState { stdin_open: false, ..s },
        match s.active {
            Some(active) => if place_of(s.sessions, active.session_id) is Some {
                seq![Act::CancelRuntime { session_id: active.session_id }]
            } else {
                Seq::empty()
            },
            None => Seq::empty(),
        },
    )
}

/// Whether the loop goes on.
pub open spec fn running(s: ServerState) -> bool {
    s.stdin_open || s.active is Some
}

/// What an event leads to.
pub open spec fn event_asked(s: ServerState, event: ServerEvent) -> (ServerState, Seq<Act>) {
    match event {
        ServerEvent::Message { message, class, prompt_text } => message_asked(
            s,
            asked_by(message@, class),
            prompt_text@,
        ),
        ServerEvent::InputClosed => input_ended(s),
        ServerEvent::PromptEnded(outcome) => prompt_ended(s, outcome),
    }
}

/// What an event leads to, with the end of the loop where nothing is left to do.
pub open spec fn after_event(s: ServerState, event: ServerEvent) -> (ServerState, Seq<Act>) {
    let (next, acts) = event_asked(s, event);
    if running(next) {
        (next, acts)
    } else {
        (next, acts.push(Act::Shutdown))
    }
}

fn push_action(actions: &mut Vec<ServerAction>, action: ServerAction)
    ensures
        act_list(final(actions)@) == act_list(old(actions)@).push(action@),
{
    let ghost before = act_list(actions@);
    let ghost added = action@;
    actions.push(action);
    proof {
        assert(act_list(actions@) == before.push(added));
    }
}

impl AcpServer {
    fn on_failure(rpc_id: Json, error: AcpError) -> (r: ServerAction)
        requires
            !(error is Wrapped),
        ensures
            r@ == failure(rpc_id@, error_message(error)),
    {
        proof {
            error_code_follows_the_message(error);
        }
        ServerAction::Reply { rpc_id, result: dispatch_reply(Err(error)) }
    }

    fn on_prompt(&mut self, rpc_id: Json, params: &Json, text: String) -> (r: ServerAction)
        requires
            old(self).wf(),
        ensures
            final(self).wf(),
            (final(self)@, seq![r@]) == prompt_asked(old(self)@, rpc_id@, params@, text@),
    {
        match self.enqueue_or_start_prompt(&rpc_id, params, text) {
            Ok(PromptStep::Start { session_id, text }) => ServerAction::RunPrompt {
                session_id,
                text,
            },
            Ok(PromptStep::Steer { session_id, text }) => ServerAction::Steer {
                rpc_id,
                session_id,
                text,
            },
            Ok(PromptStep::FollowUp { session_id, text }) => ServerAction::FollowUp {
                rpc_id,
                session_id,
                text,
            },
            Err(error) => Self::on_failure(rpc_id, error),
        }
    }

    fn on_cancel(&mut self, session_id: String, actions: &mut Vec<ServerAction>)
        requires
            old(self).wf(),
            old(actions)@.len() == 0,
        ensures
            final(self).wf(),
            (final(self)@, act_list(final(actions)@)) == cancel_asked(old(self)@, session_id@),
    {
        let again = self.is_active_in(session_id.as_str());
        proof {
            assert(act_list(actions@) == Seq::<Act>::empty());
        }
        if self.cancel_session(session_id.as_str()) {
            push_action(actions, ServerAction::CancelRuntime { session_id: session_id.clone() });
            if again {
                push_action(actions, ServerAction::CancelRuntime { session_id });
            }
        }
    }

    fn on_prompt_ended(&mut self, outcome: PromptOutcome, actions: &mut Vec<ServerAction>)
        requires
            old(self).wf(),
            old(self)@.active is Some,
            old(actions)@.len() == 0,
        ensures
            final(self).wf(),
            (final(self)@, act_list(final(actions)@)) == prompt_ended(old(self)@, outcome),
    {
        proof {
            assert(act_list(actions@) == Seq::<Act>::empty());
            if outcome is Failed {
                error_code_follows_the_message(outcome->Failed_0);
            }
        }
        if let Some(active) = self.prompt_finished() {
            let ghost freed = self@;
            push_action(
                actions,
                ServerAction::Reply { rpc_id: active.rpc_id, result: prompt_reply(outcome) },
            );
            let ghost answered = act_list(actions@);
            let step = self.maybe_start_queued_prompt(active.session_id.as_str());
            let rejected = step.rejected;
            let ghost ids = item_values(rejected@);
            let ghost told = ids.map_values(|id: JsonValue| blank_reply(id));
            let mut i: usize = 0;
            proof {
                assert(answered + told.take(0) == answered);
            }
            while i < rejected.len()
                invariant
                    i <= rejected.len(),
                    ids == item_values(rejected@),
                    told == ids.map_values(|id: JsonValue| blank_reply(id)),
                    act_list(actions@) == answered + told.take(i as int),
                decreases rejected.len() - i,
            {
                let rpc_id = rejected[i].copy();
                push_action(
                    actions,
                    ServerAction::Reply {
                        rpc_id,
                        result: Err((ErrorCode::InvalidParams, "empty prompt".to_string())),
                    },
                );
                proof {
                    assert(told[i as int] == blank_reply(rejected@[i as int]@));
                    assert(answered + told.take(i + 1) == (answered + told.take(i as int)).push(
                        told[i as int],
                    ));
                }
                i += 1;
            }
            proof {
                assert(told.take(told.len() as int) == told);
                if place_of(freed.sessions, active.session_id@) is None {
                    assert(told == Seq::<Act>::empty());
                    assert(answered + told == answered);
                }
            }
            if let Some(text) = step.start {
                let ghost before = act_list(actions@);
                push_action(
                    actions,
                    ServerAction::RunPrompt { session_id: active.session_id, text },
                );
                proof {
                    assert(act_list(actions@) == before + seq![
                        Act::RunPrompt { session_id: active.session_id@, text: text@ },
                    ]);
                }
            }
        }
    }

    /// Takes in what happened and says what to do next, in order.
    pub fn advance(&mut self, event: ServerEvent) -> (r: Vec<ServerAction>)
        requires
            old(self).wf(),
            event is PromptEnded ==> old(self)@.active is Some,
        ensures
            final(self).wf(),
            (final(self)@, act_list(r@)) == after_event(old(self)@, event),
    {
        let mut actions: Vec<ServerAction> = Vec::new();
        proof {
            assert(act_list(actions@) == Seq::<Act>::empty());
        }
        match event {
            ServerEvent::Message { message, class, prompt_text } => {
                match handle_incoming(&message, class) {
                    Incoming::Ignored => {},
                    Incoming::Cancel { session_id } => {
                        self.on_cancel(session_id, &mut actions);
                    },
                    Incoming::Prompt { rpc_id, params } => {
                        let action = self.on_prompt(rpc_id, &params, prompt_text);
                        push_action(&mut actions, action);
                    },
                    Incoming::Request { rpc_id, method, params } => {
                        match dispatch(method.as_str()) {
                            Ok(known) => {
                                push_action(
                                    &mut actions,
                                    ServerAction::Handle { rpc_id, method: known, params },
                                );
                            },
                            Err(error) => {
                                push_action(&mut actions, Self::on_failure(rpc_id, error));
                            },
                        }
                    },
                }
            },
            ServerEvent::InputClosed => {
                if let Some(session_id) = self.input_closed() {
                    push_action(&mut actions, ServerAction::CancelRuntime { session_id });
                }
            },
            ServerEvent::PromptEnded(outcome) => {
                self.on_prompt_ended(outcome, &mut actions);
            },
        }
        proof {
            assert((self@, act_list(actions@)) == event_asked(old(self)@, event));
        }
        if !self.is_running() {
            push_action(&mut actions, ServerAction::Shutdown);
        }
        actions
    }
}

/// The request that an action answers, or leads to the answer of.
pub open spec fn answers(act: Act) -> Option<JsonValue> {
    match act {
        Act::Reply { rpc_id, .. } => Some(rpc_id),
        Act::Steer { rpc_id, .. } => Some(rpc_id),
        Act::FollowUp { rpc_id, .. } => Some(rpc_id),
        Act::Handle { rpc_id, .. } => Some(rpc_id),
        _ => None,
    }
}

/// Every request leads to exactly one action: its answer, something that gives its
/// answer, or the start of a prompt, which is then the active one and answers the
/// request when it ends.
pub proof fn requests_are_answered_once(s: ServerState, message: JsonValue, prompt_text: Seq<char>)
    ensures
        ({
            let (next, acts) = message_asked(
                s,
                asked_by(message, MessageClass::Request),
                prompt_text,
            );
            let rpc_id = or_null(member(message, "id"@));
            &&& acts.len() == 1
            &&& if acts[0] is RunPrompt {
                next.active matches Some(active) && active.rpc_id == rpc_id && active.session_id
                    == acts[0]->RunPrompt_session_id
            } else {
                answers(acts[0]) == Some(rpc_id) && next == s
            }
        }),
{
}

/// What is no request is never answered.
pub proof fn notifications_are_not_answered(
    s: ServerState,
    message: JsonValue,
    class: MessageClass,
    prompt_text: Seq<char>,
    i: int,
)
    requires
        !(class is Request),
        0 <= i < message_asked(s, asked_by(message, class), prompt_text).1.len(),
    ensures
        answers(message_asked(s, asked_by(message, class), prompt_text).1[i]) is None,
{
}

/// The active prompt is answered first when the work on it has ended, and exactly
/// once; its session is then idle unless the next prompt was started in it.
pub proof fn ended_prompt_is_answered(s: ServerState, outcome: PromptOutcome)
    requires
        s.active is Some,
    ensures
        prompt_ended(s, outcome).1.len() > 0,
        prompt_ended(s, outcome).1[0] == (Act::Reply {
            rpc_id: s.active->0.rpc_id,
            result: outcome_reply(outcome),
        }),
        prompt_ended(s, outcome).0.active is Some <==> prompt_ended(s, outcome).1.last() is RunPrompt,
{
    let active = s.active->0;
    let freed = with_finished(s);
    let acts = prompt_ended(s, outcome).1;
    if place_of(freed.sessions, active.session_id) is Some {
        let queue = freed.sessions[place_of(freed.sessions, active.session_id)->0].queue;
        let rejected = blank_ids(queue).map_values(|id: JsonValue| blank_reply(id));
        if after_blanks(queue).len() == 0 {
            if rejected.len() > 0 {
                assert(acts.last() == rejected.last());
                assert(rejected.last() == blank_reply(blank_ids(queue).last()));
            } else {
                assert(acts.last() == acts[0]);
            }
        } else {
            assert(acts.last() is RunPrompt);
        }
    }
}

/// The loop ends exactly when no message can arrive and no prompt is being answered.
pub proof fn loop_ends_when_nothing_is_left(s: ServerState, event: ServerEvent)
    requires
        event is PromptEnded ==> s.active is Some,
    ensures
        after_event(s, event).1.contains(Act::Shutdown) <==> !running(after_event(s, event).0),
{
    let (next, acts) = event_asked(s, event);
    assert forall|i: int| 0 <= i < acts.len() implies acts[i] != Act::Shutdown by {
        lemma_no_shutdown(s, event, i);
    }
    if !running(next) {
        assert(acts.push(Act::Shutdown)[acts.len() as int] == Act::Shutdown);
    }
}

proof fn lemma_no_shutdown(s: ServerState, event: ServerEvent, i: int)
    requires
        event is PromptEnded ==> s.active is Some,
        0 <= i < event_asked(s, event).1.len(),
    ensures
        !(event_asked(s, event).1[i] is Shutdown),
{
    let acts = event_asked(s, event).1;
    match event {
        ServerEvent::PromptEnded(outcome) => {
            let active = s.active->0;
            let freed = with_finished(s);
            if place_of(freed.sessions, active.session_id) is Some {
                let queue = freed.sessions[place_of(freed.sessions, active.session_id)->0].queue;
                let ids = blank_ids(queue);
                let rejected = ids.map_values(|id: JsonValue| blank_reply(id));
                if 1 <= i <= rejected.len() {
                    assert(acts[i] == rejected[i - 1]);
                    assert(rejected[i - 1] == blank_reply(ids[i - 1]));
                }
            }
        },
        _ => {},
    }
}

/// A prompt request is answered by what becomes of it: a started prompt is run and answered
/// when it has ended, a steering or following one is handed to the runtime with its request,
/// and one that is refused is answered at once.
pub proof fn prompt_requests_become_one_action(
    s: ServerState,
    rpc_id: JsonValue,
    params: JsonValue,
    text: Seq<char>,
)
    ensures
        ({
            let (next, acts) = prompt_asked(s, rpc_id, params, text);
            &&& acts.len() == 1
            &&& prompt_step(s, params, text) matches Ok(Step::Start { session_id, text: said })
                ==> acts[0] == (Act::RunPrompt { session_id, text: said })
            &&& prompt_step(s, params, text) matches Ok(Step::Steer { session_id, text: said })
                ==> acts[0] == (Act::Steer { rpc_id, session_id, text: said }) && next == s
            &&& prompt_step(s, params, text) matches Ok(Step::FollowUp { session_id, text: said })
                ==> acts[0] == (Act::FollowUp { rpc_id, session_id, text: said }) && next == s
            &&& prompt_step(s, params, text) matches Err(message) ==> next == s && (
            acts[0] matches Act::Reply { rpc_id: to, result: Err((code, told)) } && to == rpc_id
                && told == message)
        }),
{
}

/// Cancelling a session that is open empties its queue and cancels its runtime; one that is not
/// open is left alone. No other session is touched.
pub proof fn cancelled_sessions_lose_their_queue(s: ServerState, sid: Seq<char>, i: int, other: int)
    requires
        ids_distinct(s.sessions),
        0 <= i < s.sessions.len(),
        s.sessions[i].id == sid,
        0 <= other < s.sessions.len(),
    ensures
        ({
            let (next, acts) = cancel_asked(s, sid);
            &&& next.sessions[i].queue.len() == 0
            &&& next.sessions[i].busy == s.sessions[i].busy
            &&& other != i ==> next.sessions[other] == s.sessions[other]
            &&& next.active == s.active
            &&& acts.len() >= 1
            &&& forall|k: int|
                0 <= k < acts.len() ==> #[trigger] acts[k] == (Act::CancelRuntime { session_id: sid })
        }),
{
    sessions_are_found_by_id(s.sessions, sid, i);
}

/// A request for a known method is handled with its own parameters, and one for an unknown
/// method is answered as such. Neither changes a session by itself.
pub proof fn requests_are_handled_or_refused(
    s: ServerState,
    rpc_id: JsonValue,
    method: Seq<char>,
    params: JsonValue,
    text: Seq<char>,
)
    ensures
        ({
            let (next, acts) = message_asked(s, Asked::Request { rpc_id, method, params }, text);
            &&& next == s
            &&& acts.len() == 1
            &&& method_named(method) matches Some(known) ==> acts[0] == (Act::Handle {
                rpc_id,
                method: known,
                params,
            })
            &&& method_named(method) is None ==> (acts[0] matches Act::Reply {
                rpc_id: to,
                result: Err((code, told)),
            } && to == rpc_id)
        }),
        message_asked(s, Asked::Ignored, text) == (s, Seq::<Act>::empty()),
        message_asked(s, Asked::Prompt { rpc_id, params }, text) == prompt_asked(
            s,
            rpc_id,
            params,
            text,
        ),
{
}

/// When the active prompt has ended, its own request is answered first, with what came of it;
/// then each blank prompt that waited first is refused, and the next one is run.
pub proof fn ended_prompts_are_answered_first(
    s: ServerState,
    outcome: PromptOutcome,
    i: int,
    blanks: int,
)
    requires
        ids_distinct(s.sessions),
        s.active is Some,
        0 <= i < s.sessions.len(),
        s.sessions[i].id == s.active->0.session_id,
        0 <= blanks <= s.sessions[i].queue.len(),
        forall|k: int|
            0 <= k < blanks ==> trimmed((#[trigger] s.sessions[i].queue[k]).text).len() == 0,
        blanks < s.sessions[i].queue.len() ==> trimmed(s.sessions[i].queue[blanks].text).len() > 0,
    ensures
        ({
            let (next, acts) = prompt_ended(s, outcome);
            let queue = s.sessions[i].queue;
            &&& acts[0] is Reply && acts[0]->Reply_rpc_id == s.active->0.rpc_id
            &&& outcome matches PromptOutcome::Answered(value) ==> acts[0]->Reply_result == Ok::<
                JsonValue,
                (ErrorCode, Seq<char>),
            >(value@)
            &&& !(outcome is Answered) ==> acts[0]->Reply_result is Err
            &&& forall|k: int|
                0 <= k < blanks ==> acts[1 + k] == (Act::Reply {
                    rpc_id: (#[trigger] queue[k]).rpc_id,
                    result: Err((ErrorCode::InvalidParams, "empty prompt"@)),
                })
            &&& blanks < queue.len() ==> acts.len() == blanks + 2 && acts[blanks + 1] == (
            Act::RunPrompt { session_id: s.sessions[i].id, text: queue[blanks].text })
            &&& blanks == queue.len() ==> acts.len() == blanks + 1
        }),
{
    let sid = s.active->0.session_id;
    let queue = s.sessions[i].queue;
    answered_sessions_are_idle(s, i, i);
    queued_prompts_start_in_turn(s, sid, i, blanks);
    sessions_are_found_by_id(s.sessions, sid, i);
    let freed = with_finished(s);
    assert forall|a: int, c: int| 0 <= a < c < freed.sessions.len() implies (
    #[trigger] freed.sessions[a]).id != (#[trigger] freed.sessions[c]).id by {
        assert(freed.sessions[a].id == s.sessions[a].id);
        assert(freed.sessions[c].id == s.sessions[c].id);
    }
    sessions_are_found_by_id(freed.sessions, sid, i);
    let rejected = blank_ids(queue).map_values(|id: JsonValue| blank_reply(id));
    let acts = prompt_ended(s, outcome).1;
    assert forall|k: int| 0 <= k < blanks implies acts[1 + k] == (Act::Reply {
        rpc_id: (#[trigger] queue[k]).rpc_id,
        result: Err((ErrorCode::InvalidParams, "empty prompt"@)),
    }) by {
        assert(acts[1 + k] == rejected[k]);
        assert(rejected[k] == blank_reply(blank_ids(queue)[k]));
    }
    assert(after_blanks(queue) == queue.skip(blanks));
}

/// The end of the input cancels the prompt that is being answered, and is remembered.
pub proof fn the_end_of_input_cancels(s: ServerState)
    ensures
        !input_ended(s).0.stdin_open,
        input_ended(s).0.sessions == s.sessions,
        input_ended(s).0.active == s.active,
        s.active is None ==> input_ended(s).1.len() == 0,
        s.active matches Some(active) ==> (place_of(s.sessions, active.session_id) is Some
            ==> input_ended(s).1 == seq![Act::CancelRuntime { session_id: active.session_id }]),
{
}

/// The server shuts down as soon as no more input arrives and no prompt is being answered, and
/// not before.
pub proof fn servers_stop_when_nothing_is_left(s: ServerState, event: ServerEvent)
    ensures
        ({
            let (next, acts) = after_event(s, event);
            let (plain, told) = event_asked(s, event);
            &&& next == plain
            &&& !next.stdin_open && next.active is None ==> acts == told.push(Act::Shutdown)
            &&& next.stdin_open || next.active is Some ==> acts == told
        }),
{
}

/// A prompt that failed is answered with the report of its error, and one whose work was lost
/// says so.
pub proof fn failed_prompts_say_why(outcome: PromptOutcome)
    ensures
        outcome is Answered <==> outcome_reply(outcome) is Ok,
        outcome matches PromptOutcome::Answered(value) ==> outcome_reply(outcome)->Ok_0 == value@,
        outcome matches PromptOutcome::Failed(error) ==> outcome_reply(outcome)->Err_0.1
            == error_report(error),
        outcome is Dropped ==> outcome_reply(outcome)->Err_0 == (
            ErrorCode::ApplicationError,
            "prompt worker dropped"@,
        ),
{
}

/// The runtime of a cancelled session is cancelled, and that of the prompt being answered once
/// more; nothing is done for a session that is not open.
pub proof fn active_sessions_are_cancelled_twice(s: ServerState, sid: Seq<char>)
    ensures
        place_of(s.sessions, sid) is None ==> cancel_asked(s, sid).1.len() == 0 && cancel_asked(
            s,
            sid,
        ).0 == s,
        place_of(s.sessions, sid) is Some && (s.active is None || s.active->0.session_id != sid)
            ==> cancel_asked(s, sid).1.len() == 1,
        place_of(s.sessions, sid) is Some && s.active is Some && s.active->0.session_id == sid
            ==> cancel_asked(s, sid).1.len() == 2,
{
}

/// A request for a method that is not known is answered with its name.
pub proof fn unknown_methods_are_named(
    s: ServerState,
    rpc_id: JsonValue,
    method: Seq<char>,
    params: JsonValue,
    text: Seq<char>,
)
    requires
        method_named(method) is None,
        method != "session/prompt"@,
    ensures
        message_asked(s, Asked::Request { rpc_id, method, params }, text).1[0]->Reply_result->Err_0.1
            == "method not found: "@ + method,
{
}

} // verus!
