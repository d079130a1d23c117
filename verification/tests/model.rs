use futures::executor::block_on;
use futures::stream::{iter, Stream, StreamExt};
use zene::llm::{ChatRequest, ChatResponse, Message, Role, StreamEvent, TokenUsage, ToolCall};
use zene::model_executor::{
    apply_tool_call_delta, assemble_message, build_request, build_request_with_reasoning,
    normalize_tool_calls, ModelRequest, ModelResponse, OverflowRetryState, StreamAccumulator,
    ToolCallBuilder,
};

fn call(id: &str, name: &str) -> ToolCall {
    ToolCall {
        id: id.into(),
        name: name.into(),
        arguments: "{}".into(),
    }
}

#[test]
fn model_request_round_trips_chat_request() {
    let model = ModelRequest {
        model: "m".into(),
        messages: vec![Message::user("hi")],
        tools: Vec::new(),
        stream: true,
        context: None,
        reasoning_effort: Some("high".into()),
    };
    let chat: ChatRequest = model.into();
    let back: ModelRequest = chat.into();
    assert_eq!(back.model, "m");
    assert_eq!(back.messages.len(), 1);
    assert!(back.stream);
    assert_eq!(back.reasoning_effort.as_deref(), Some("high"));
}

#[test]
fn overflow_retry_state_round_trips_flags() {
    let mut state = OverflowRetryState::default();
    assert_eq!(state.flags(), (false, false));
    state.set_flags(true, false);
    assert_eq!(state.flags(), (true, false));
    state.set_flags(true, true);
    assert_eq!(state.flags(), (true, true));
}

#[test]
fn assembles_streamed_tool_calls() {
    let mut accumulator = StreamAccumulator::default();
    accumulator.apply(&StreamEvent::TextDelta("hello ".into()));
    accumulator.apply(&StreamEvent::ToolCallDelta {
        index: 0,
        id: Some("call-1".into()),
        name: Some("Read".into()),
        arguments: Some("{}".into()),
    });
    assert!(accumulator.apply(&StreamEvent::Done { usage: None }));
    let (message, _) = accumulator.finish();
    assert_eq!(message.content.as_deref(), Some("hello "));
    assert_eq!(message.tool_calls.unwrap()[0].name, "Read");
}

struct FakeExecutor;

impl FakeExecutor {
    async fn complete(&self, request: ModelRequest) -> ModelResponse {
        ModelResponse {
            message: Message::assistant(&request.messages.len().to_string()),
            usage: None,
        }
    }

    fn stream(&self, _request: ModelRequest) -> impl Stream<Item = StreamEvent> + Unpin {
        iter([StreamEvent::Done { usage: None }])
    }
}

#[test]
fn fake_executor_covers_boundaries() {
    let request =
        || build_request("fake", vec![Message::user("hello")], Vec::new(), false, None);
    let response = block_on(FakeExecutor.complete(request()));
    assert_eq!(response.message.content.as_deref(), Some("1"));
    let mut events = FakeExecutor.stream(request());
    let event = block_on(events.next()).unwrap();
    assert!(matches!(event, StreamEvent::Done { usage: None }));
    let mut accumulator = StreamAccumulator::default();
    assert!(accumulator.apply(&event));
}

#[test]
fn responses_convert_both_ways() {
    let usage = TokenUsage {
        prompt_tokens: 3,
        completion_tokens: 4,
        cached_tokens: None,
        gateway_hit_tokens: None,
        gateway_anchor_aligned: None,
    };
    let model = ModelResponse {
        message: Message::assistant("x"),
        usage: Some(usage),
    };
    let chat: ChatResponse = model.into();
    let back: ModelResponse = chat.into();
    assert_eq!(back.message.content.as_deref(), Some("x"));
    assert_eq!(back.usage, Some(usage));
}

#[test]
fn requests_carry_the_reasoning_effort() {
    assert!(build_request("m", vec![], vec![], true, None)
        .reasoning_effort
        .is_none());
    let request =
        build_request_with_reasoning("m", vec![], vec![], true, None, Some("low".into()));
    assert_eq!(request.reasoning_effort.as_deref(), Some("low"));
    assert!(request.stream);
}

#[test]
fn deltas_of_one_call_are_joined() {
    let mut builder = ToolCallBuilder::default();
    apply_tool_call_delta(&mut builder, None, Some("Re".into()), Some("{\"a\"".into()));
    apply_tool_call_delta(
        &mut builder,
        Some("id".into()),
        Some("Read".into()),
        Some(":1}".into()),
    );
    let message = assemble_message(String::new(), vec![ToolCallBuilder::default(), builder]);
    assert_eq!(message.role, Role::Assistant);
    assert!(message.content.is_none());
    let calls = message.tool_calls.unwrap();
    assert_eq!(calls.len(), 1);
    assert_eq!(calls[0].name, "Read");
    assert_eq!(calls[0].arguments, "{\"a\":1}");
    assert_eq!(calls[0].id, "id");
}

#[test]
fn text_without_calls_is_a_plain_answer() {
    let message = assemble_message("hi".into(), Vec::new());
    assert_eq!(message.content.as_deref(), Some("hi"));
    assert!(message.tool_calls.is_none());
}

#[test]
fn repeated_and_missing_ids_are_made_unique() {
    let calls = normalize_tool_calls(vec![
        call("a", "Read"),
        call("a", "Grep"),
        call("", "Glob"),
        call("a", "Bash"),
    ]);
    let ids: Vec<&str> = calls.iter().map(|c| c.id.as_str()).collect();
    assert_eq!(ids, ["a", "a_1", "call_2", "a_2"]);
    assert_eq!(calls[3].name, "Bash");
}

#[test]
fn distinct_ids_stay() {
    let calls = normalize_tool_calls(vec![call("a", "Read"), call("b", "Grep")]);
    assert_eq!(calls[0].id, "a");
    assert_eq!(calls[1].id, "b");
}

#[test]
fn accumulators_keep_text_and_usage() {
    let mut accumulator = StreamAccumulator::default();
    assert!(!accumulator.has_text());
    assert!(!accumulator.apply(&StreamEvent::ThoughtDelta("hm".into())));
    assert!(!accumulator.has_text());
    assert!(!accumulator.apply(&StreamEvent::TextDelta("a".into())));
    assert!(accumulator.has_text());
    let usage = TokenUsage {
        prompt_tokens: 1,
        completion_tokens: 2,
        cached_tokens: Some(1),
        gateway_hit_tokens: None,
        gateway_anchor_aligned: None,
    };
    assert!(accumulator.apply(&StreamEvent::Done { usage: Some(usage) }));
    let (message, seen) = accumulator.finish();
    assert_eq!(message.content.as_deref(), Some("a"));
    assert_eq!(seen, Some(usage));
}
