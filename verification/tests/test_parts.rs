//! Tests of the parts that a run is made of.

use openai_agents::accumulator::{chunk_in_reach, StreamAccumulator};
use openai_agents::catalog::{resolve, Resolution, ToolCatalog};
use openai_agents::config::{
    get_default_client, set_default_openai_client, set_default_openai_key, ClientDefaults,
    ClientSource,
};
use openai_agents::conversation::ConversationState;
use openai_agents::lifecycle::{plan_hooks, HookEvent, HookId, HookScope};
use openai_agents::models::openai_responses::{
    chat_role, convert_chunk, convert_request, convert_response, finish_reason_name, ChatChoice,
    ChatChunkChoice, ChatFunctionChunk, ChatRole, ChatToolCall, ChatToolCallChunk, FinishReason,
};
use openai_agents::models::{CompletionRequest, CompletionStream};
use openai_agents::handoff::handoff_result;
use openai_agents::runner::structured_result;
use openai_agents::text::{
    decimal_string, keep_name_chars, last_path_segment, may_stand_in_name, replace_spaces,
    schema_name,
};
use openai_agents::tool::{join_lines, string_schema};
use openai_agents::{
    Agent, AgentError, FunctionTool, Handoff, InMemorySession, JsonValue, Message, RunResult,
    SessionSettings, StreamChunk, StreamEvent, StreamedRunResult, ToolCallDelta,
};

fn roles(state: &ConversationState) -> Vec<String> {
    state.messages().iter().map(|m| m.role.clone()).collect()
}

fn contents(state: &ConversationState) -> Vec<String> {
    state.messages().iter().map(|m| m.content.clone()).collect()
}

fn delta(index: usize, id: Option<&str>, name: Option<&str>, arguments: Option<&str>) -> ToolCallDelta {
    ToolCallDelta {
        index,
        id: id.map(|s| s.to_string()),
        name: name.map(|s| s.to_string()),
        arguments: arguments.map(|s| s.to_string()),
    }
}

fn chunk(text: Option<&str>, deltas: Vec<ToolCallDelta>, finish: Option<&str>) -> StreamChunk {
    StreamChunk {
        delta: text.map(|s| s.to_string()),
        tool_call_deltas: deltas,
        finish_reason: finish.map(|s| s.to_string()),
    }
}

#[test]
fn decimal_numerals() {
    assert_eq!(decimal_string(0), "0");
    assert_eq!(decimal_string(7), "7");
    assert_eq!(decimal_string(10), "10");
    assert_eq!(decimal_string(100), "100");
    assert_eq!(decimal_string(9_876_543_210), "9876543210");
    assert_eq!(decimal_string(usize::MAX), usize::MAX.to_string());
}

#[test]
fn spaces_become_underscores() {
    assert_eq!(replace_spaces("a b  c"), "a_b__c");
    assert_eq!(replace_spaces(""), "");
    assert_eq!(replace_spaces("tab\tstays"), "tab\tstays");
}

#[test]
fn schema_names() {
    assert_eq!(schema_name("Weather"), "Weather");
    assert_eq!(schema_name("a::b::Weather"), "Weather");
    assert_eq!(schema_name("a:::b"), "b");
    assert_eq!(schema_name("Vec<a::B>"), "B");
    assert_eq!(schema_name("Größe!"), "Größe");
    assert_eq!(schema_name(""), "");
}

#[test]
fn error_messages() {
    assert_eq!(AgentError::MaxTurnsExceeded(0).to_string(), "Max turns exceeded: 0");
    assert_eq!(
        AgentError::InputGuardrailTriggered("x".to_string()).to_string(),
        "Input guardrail triggered: x"
    );
    assert_eq!(
        AgentError::OutputGuardrailTriggered("x".to_string()).to_string(),
        "Output guardrail triggered: x"
    );
    assert_eq!(
        AgentError::ToolInputGuardrailTriggered("x".to_string()).to_string(),
        "Tool input guardrail triggered: x"
    );
    assert_eq!(
        AgentError::ToolOutputGuardrailTriggered("x".to_string()).to_string(),
        "Tool output guardrail triggered: x"
    );
    assert_eq!(
        AgentError::tool_failed("get_weather", "no network").to_string(),
        "Tool execution failed: get_weather: no network"
    );
    assert_eq!(AgentError::ToolTimeout("t".to_string()).to_string(), "Tool timeout: t");
    assert_eq!(AgentError::ModelError("m".to_string()).to_string(), "Model error: m");
    assert_eq!(AgentError::SessionError("s".to_string()).to_string(), "Session error: s");
    assert_eq!(AgentError::ConfigError("c".to_string()).to_string(), "Configuration error: c");
    assert_eq!(
        AgentError::SerializationError("e".to_string()).to_string(),
        "Serialization error: e"
    );
    assert_eq!(AgentError::UserError("u".to_string()).to_string(), "User error: u");
    assert_eq!(
        AgentError::ModelBehaviorError("b".to_string()).to_string(),
        "Model behavior error: b"
    );
    assert_eq!(AgentError::Other("plain".to_string()).to_string(), "plain");
}

#[test]
fn only_backend_and_session_errors_are_retriable() {
    assert!(AgentError::ModelError("m".to_string()).is_retriable());
    assert!(AgentError::SessionError("s".to_string()).is_retriable());
    assert!(!AgentError::ConfigError("c".to_string()).is_retriable());
    assert!(!AgentError::tool_failed("t", "r").is_retriable());
    assert!(!AgentError::ModelBehaviorError("b".to_string()).is_retriable());
    assert!(!AgentError::Other("o".to_string()).is_retriable());
}

#[test]
fn json_is_read_and_written_compactly() {
    let parsed = JsonValue::parse(" { \"b\" : [1, 2.5, null] ,\n \"a\" : \"x\" } ").unwrap();
    let again: serde_json::Value = serde_json::from_str(parsed.as_str()).unwrap();
    assert_eq!(again["a"], "x");
    assert_eq!(again["b"][1], 2.5);
    assert!(!parsed.as_str().contains(' '));
    assert!(!parsed.as_str().contains('\n'));
}

#[test]
fn text_that_is_no_json_does_not_parse() {
    assert!(JsonValue::parse("{\"location\":").is_none());
    assert!(JsonValue::parse("").is_none());
    assert!(JsonValue::parse("{} {}").is_none());
}

#[test]
fn missing_json_has_a_stand_in() {
    assert_eq!(JsonValue::or_empty_object(JsonValue::parse("nonsense")).as_str(), "{}");
    assert_eq!(JsonValue::or_null(JsonValue::parse("nonsense")).as_str(), "null");
    assert_eq!(JsonValue::or_empty_object(JsonValue::parse("[1]")).as_str(), "[1]");
    assert_eq!(JsonValue::null().as_str(), "null");
    assert_eq!(JsonValue::empty_object().as_str(), "{}");
    assert_eq!(JsonValue::from_text("[ 1 ]".to_string()).as_str(), "[ 1 ]");
}

#[test]
fn json_strings_are_quoted_and_escaped() {
    assert_eq!(JsonValue::string("plain").as_str(), "\"plain\"");
    assert_eq!(JsonValue::string("a\"b\\c\n").as_str(), "\"a\\\"b\\\\c\\n\"");
}

#[test]
fn conversation_without_instructions_has_no_system_message() {
    let state = ConversationState::new("", &Vec::new(), "Hi");
    assert_eq!(roles(&state), vec!["user"]);
    assert!(!state.has_system_message());
    assert_eq!(state.len(), 1);
}

#[test]
fn conversation_starts_with_instructions_history_and_input() {
    let history = vec![
        Message::user("earlier question"),
        Message::system("stale instructions"),
        Message::assistant("earlier answer"),
    ];
    let state = ConversationState::new("Be brief", &history, "Hi");
    assert_eq!(roles(&state), vec!["system", "user", "assistant", "user"]);
    assert_eq!(
        contents(&state),
        vec!["Be brief", "earlier question", "earlier answer", "Hi"]
    );
    assert!(state.has_system_message());
}

#[test]
fn system_message_follows_the_active_agent() {
    let state = ConversationState::new("First", &Vec::new(), "Hi");
    let state = state.push_assistant("thinking").push_tool("report");
    let state = state.sync_system_message("Second");
    assert_eq!(roles(&state), vec!["system", "user", "assistant", "tool"]);
    assert_eq!(state.messages()[0].content, "Second");

    let state = state.sync_system_message("");
    assert_eq!(roles(&state), vec!["system", "user", "assistant", "tool"]);
    assert_eq!(state.messages()[0].content, "");
}

#[test]
fn system_message_is_inserted_when_there_was_none() {
    let state = ConversationState::new("", &Vec::new(), "Hi");
    let same = state.sync_system_message("");
    assert_eq!(roles(&same), vec!["user"]);
    let with = same.sync_system_message("Now with instructions");
    assert_eq!(roles(&with), vec!["system", "user"]);
    assert_eq!(with.messages()[0].content, "Now with instructions");
}

#[test]
fn last_message_that_the_model_did_not_write() {
    let state = ConversationState::new("", &Vec::new(), "Hi");
    assert_eq!(state.last_non_assistant().unwrap().content, "Hi");
    let state = state.push_tool("report").push_assistant("one").push_assistant("two");
    let last = state.last_non_assistant().unwrap();
    assert_eq!(last.role, "tool");
    assert_eq!(last.content, "report");
}

fn shop_agent() -> Agent {
    Agent::builder("Shop")
        .tool(FunctionTool::new("search", "Searches", JsonValue::empty_object()))
        .tool(FunctionTool::new("buy", "Buys", JsonValue::empty_object()))
        .handoff(Handoff::new(Agent::builder("Refunds").build()))
        .handoff(Handoff::new(Agent::builder("Help").build()).with_name("search"))
        .build()
}

#[test]
fn names_resolve_to_tools_before_handoffs() {
    let agent = shop_agent();
    assert_eq!(resolve(&agent, "buy"), Resolution::Tool(1));
    assert_eq!(resolve(&agent, "search"), Resolution::Tool(0));
    assert_eq!(resolve(&agent, "transfer_to_refunds"), Resolution::Handoff(0));
    assert_eq!(resolve(&agent, "transfer_to_help"), Resolution::Unresolved);
    assert_eq!(resolve(&agent, ""), Resolution::Unresolved);
}

#[test]
fn catalog_lists_tools_then_handoffs() {
    let agent = Agent::builder("Shop")
        .tool(FunctionTool::new("search", "Searches", JsonValue::empty_object()))
        .handoff(Handoff::new(Agent::builder("Refunds").build()).with_description("Money back"))
        .build();
    let catalog = ToolCatalog::build(&agent).unwrap();
    assert_eq!(catalog.len(), 2);
    let definitions = catalog.definitions();
    assert_eq!(definitions[0].name, "search");
    assert_eq!(definitions[0].description, "Searches");
    assert_eq!(definitions[0].parameters.as_str(), "{}");
    assert_eq!(definitions[1].name, "transfer_to_refunds");
    assert_eq!(definitions[1].description, "Money back");
    assert_eq!(catalog.request_tools().unwrap().len(), 2);
}

#[test]
fn empty_catalog_offers_nothing() {
    let catalog = ToolCatalog::build(&Agent::builder("Bare").build()).unwrap();
    assert_eq!(catalog.len(), 0);
    assert!(catalog.request_tools().is_none());
}

#[test]
fn catalog_with_a_name_twice_is_a_configuration_error() {
    match ToolCatalog::build(&shop_agent()) {
        Err(AgentError::ConfigError(message)) => {
            assert_eq!(message, "Duplicate tool name: search");
        }
        _ => panic!("a catalog with a name twice was accepted"),
    }
}

#[test]
fn hooks_of_the_run_come_first() {
    let calls = plan_hooks(
        &HookEvent::AgentStart,
        &vec![HookId(10), HookId(11)],
        &vec![HookId(1), HookId(2)],
    );
    let order: Vec<(HookScope, HookId)> = calls.iter().map(|c| (c.scope, c.hook)).collect();
    assert_eq!(
        order,
        vec![
            (HookScope::Run, HookId(10)),
            (HookScope::Run, HookId(11)),
            (HookScope::Agent, HookId(1)),
            (HookScope::Agent, HookId(2)),
        ]
    );
    assert!(calls.iter().all(|c| matches!(c.event, HookEvent::AgentStart)));
}

#[test]
fn hooks_of_the_run_do_not_hear_of_tools_or_the_backend() {
    let run_hooks = vec![HookId(10)];
    let agent_hooks = vec![HookId(1)];
    let tool_start = HookEvent::ToolStart {
        name: "t".to_string(),
        arguments: JsonValue::empty_object(),
    };
    let tool_end = HookEvent::ToolEnd { name: "t".to_string(), result: JsonValue::null() };
    for event in [HookEvent::LlmStart, HookEvent::LlmEnd, tool_start, tool_end] {
        let calls = plan_hooks(&event, &run_hooks, &agent_hooks);
        assert_eq!(calls.len(), 1);
        assert_eq!(calls[0].scope, HookScope::Agent);
        assert_eq!(calls[0].hook, HookId(1));
    }
    let end = HookEvent::AgentEnd { output: "done".to_string() };
    let handoff = HookEvent::Handoff { from: "a".to_string(), to: "b".to_string() };
    for event in [end, handoff] {
        let calls = plan_hooks(&event, &run_hooks, &agent_hooks);
        assert_eq!(calls.len(), 2);
        assert_eq!(calls[0].scope, HookScope::Run);
        assert_eq!(calls[1].scope, HookScope::Agent);
    }
}

#[test]
fn fragments_of_one_index_are_concatenated_in_order() {
    let mut accumulator = StreamAccumulator::new();
    let first = chunk(
        None,
        vec![delta(0, Some("call_"), Some("get_"), Some("{\"city\":"))],
        None,
    );
    let second = chunk(None, vec![delta(0, Some("1"), Some("weather"), Some("\"Lima\"}"))], None);
    assert!(accumulator.absorb(&first).is_none());
    assert!(accumulator.absorb(&second).is_none());
    let calls = accumulator.tool_calls();
    assert_eq!(calls.len(), 1);
    assert_eq!(calls[0].id, "call_1");
    assert_eq!(calls[0].name, "get_weather");
    assert_eq!(calls[0].arguments.as_str(), "{\"city\":\"Lima\"}");
}

#[test]
fn fragment_order_matters() {
    let mut accumulator = StreamAccumulator::new();
    accumulator.absorb(&chunk(None, vec![delta(0, None, Some("b"), None)], None));
    accumulator.absorb(&chunk(None, vec![delta(0, None, Some("a"), None)], None));
    assert_eq!(accumulator.tool_calls()[0].name, "ba");
}

#[test]
fn fragments_are_kept_apart_by_index() {
    let mut accumulator = StreamAccumulator::new();
    let mixed = chunk(
        Some("text"),
        vec![
            delta(2, Some("c"), Some("third"), Some("[")),
            delta(0, Some("a"), Some("first"), Some("1")),
            delta(2, None, None, Some("]")),
        ],
        None,
    );
    let event = accumulator.absorb(&mixed).unwrap();
    match event {
        StreamEvent::RawResponse(raw) => assert_eq!(raw.data, "text"),
        _ => panic!("the text of a chunk was not shown as raw text"),
    }
    assert_eq!(accumulator.content(), "text");
    assert_eq!(accumulator.slots(), 3);
    let calls = accumulator.tool_calls();
    assert_eq!(calls.len(), 2);
    assert_eq!(calls[0].name, "first");
    assert_eq!(calls[0].arguments.as_str(), "1");
    assert_eq!(calls[1].name, "third");
    assert_eq!(calls[1].id, "c");
    assert_eq!(calls[1].arguments.as_str(), "[]");
}

#[test]
fn arguments_that_are_no_json_stand_for_the_empty_object() {
    let mut accumulator = StreamAccumulator::new();
    accumulator.absorb(&chunk(None, vec![delta(0, None, Some("f"), Some("{\"broken"))], None));
    assert_eq!(accumulator.tool_calls()[0].arguments.as_str(), "{}");
}

#[test]
fn text_deltas_are_concatenated() {
    let mut accumulator = StreamAccumulator::new();
    accumulator.absorb(&chunk(Some("Hello"), vec![], None));
    accumulator.absorb(&chunk(None, vec![], None));
    accumulator.absorb(&chunk(Some(" world"), vec![], Some("stop")));
    assert_eq!(accumulator.content(), "Hello world");
    assert_eq!(accumulator.slots(), 0);
    assert!(accumulator.tool_calls().is_empty());
}

#[test]
fn in_memory_session_keeps_items_in_order() {
    let mut session = InMemorySession::new();
    assert!(session.get_items(None).unwrap().is_empty());
    assert!(session.pop_item().unwrap().is_none());
    session
        .add_items(vec![JsonValue::string("a"), JsonValue::string("b")])
        .unwrap();
    session.add_items(vec![JsonValue::string("c")]).unwrap();
    let all: Vec<String> =
        session.get_items(None).unwrap().iter().map(|v| v.as_str().to_string()).collect();
    assert_eq!(all, vec!["\"a\"", "\"b\"", "\"c\""]);
    let recent: Vec<String> =
        session.get_items(Some(2)).unwrap().iter().map(|v| v.as_str().to_string()).collect();
    assert_eq!(recent, vec!["\"b\"", "\"c\""]);
    assert_eq!(session.get_items(Some(0)).unwrap().len(), 0);
    assert_eq!(session.get_items(Some(10)).unwrap().len(), 3);
    assert_eq!(session.pop_item().unwrap().unwrap().as_str(), "\"c\"");
    assert_eq!(session.get_items(None).unwrap().len(), 2);
    session.clear_session().unwrap();
    assert!(session.get_items(None).unwrap().is_empty());
}

#[test]
fn session_settings_have_no_limit_by_default() {
    assert!(SessionSettings::default().max_items.is_none());
    assert!(InMemorySession::default().get_items(None).unwrap().is_empty());
}

#[test]
fn streamed_result_hands_out_each_event_once() {
    let mut stream = StreamedRunResult::new();
    stream.send(StreamEvent::raw_text("a"));
    stream.send(StreamEvent::message_output("a"));
    let events = stream.stream_events();
    assert_eq!(events.len(), 2);
    assert_eq!(events[0].event_type(), "raw_response_event");
    assert_eq!(events[1].event_type(), "run_item_stream_event");
    assert!(stream.stream_events().is_empty());
}

#[test]
fn streamed_result_without_a_result_is_a_configuration_error() {
    let mut stream = StreamedRunResult::new();
    stream.send(StreamEvent::raw_text("a"));
    match stream.final_result() {
        Err(AgentError::ConfigError(message)) => assert_eq!(message, "No final result available"),
        _ => panic!("a result was handed out before the run was over"),
    }
    assert!(stream.stream_events().is_empty());
}

#[test]
fn streamed_result_keeps_the_first_result() {
    let mut stream = StreamedRunResult::new();
    stream.send(StreamEvent::raw_text("a"));
    stream.complete(Ok(RunResult::new("first")));
    stream.complete(Ok(RunResult::new("second")));
    stream.send(StreamEvent::raw_text("late"));
    assert_eq!(stream.final_output().unwrap(), "first");
    assert!(stream.stream_events().is_empty());
    assert_eq!(stream.final_result().unwrap().final_output(), "first");
}

#[test]
fn streamed_result_can_be_a_failure() {
    let mut stream = StreamedRunResult::new();
    stream.complete(Err(AgentError::MaxTurnsExceeded(3)));
    assert!(matches!(stream.final_output(), Err(AgentError::MaxTurnsExceeded(3))));
}

#[test]
fn agent_updated_event_has_its_own_type() {
    let agent = std::sync::Arc::new(Agent::builder("Next").build());
    assert_eq!(StreamEvent::agent_updated(agent).event_type(), "agent_updated_stream_event");
}

#[test]
fn run_result_decodes_from_the_structured_answer_first() {
    let plain = RunResult::new("{\"n\":1}");
    assert_eq!(plain.final_output(), "{\"n\":1}");
    assert!(plain.structured_output().is_none());
    assert_eq!(plain.decoding_source(), "{\"n\":1}");

    let structured =
        RunResult::with_structured("ignored text", JsonValue::parse("{\"n\": 2}").unwrap());
    assert_eq!(structured.structured_output().unwrap().as_str(), "{\"n\":2}");
    assert_eq!(structured.decoding_source(), "{\"n\":2}");

    let decode = |text: &str| {
        serde_json::from_str::<serde_json::Value>(text)
            .map(|v| v["n"].as_u64().unwrap())
            .map_err(|e| e.to_string())
    };
    assert_eq!(plain.final_output_as(decode).unwrap(), 1);
    assert_eq!(structured.final_output_as(decode).unwrap(), 2);
}

#[test]
fn run_result_that_does_not_decode_is_model_behaviour() {
    let result = RunResult::new("not json");
    let decoded: Result<u64, AgentError> =
        result.final_output_as(|_text: &str| Err("expected value".to_string()));
    match decoded {
        Err(AgentError::ModelBehaviorError(reason)) => assert_eq!(reason, "expected value"),
        _ => panic!("an answer that does not decode was accepted"),
    }
}

#[test]
fn default_key_is_set_once() {
    let mut defaults = ClientDefaults::new();
    set_default_openai_key(&mut defaults, "sk-first");
    set_default_openai_key(&mut defaults, "sk-second");
    match get_default_client(&mut defaults) {
        ClientSource::ApiKey(key) => assert_eq!(key, "sk-first"),
        _ => panic!("the default key was not used"),
    }
}

#[test]
fn default_client_is_settled_by_the_first_use() {
    let mut defaults = ClientDefaults::new();
    assert!(matches!(get_default_client(&mut defaults), ClientSource::Environment));
    set_default_openai_key(&mut defaults, "sk-late");
    set_default_openai_client(&mut defaults);
    assert!(matches!(get_default_client(&mut defaults), ClientSource::Environment));
}

#[test]
fn custom_client_wins_when_set_first() {
    let mut defaults = ClientDefaults::new();
    set_default_openai_key(&mut defaults, "sk-key");
    set_default_openai_client(&mut defaults);
    assert!(matches!(get_default_client(&mut defaults), ClientSource::Custom));
}

#[test]
fn roles_on_the_wire() {
    assert_eq!(chat_role("user"), ChatRole::User);
    assert_eq!(chat_role("assistant"), ChatRole::Assistant);
    assert_eq!(chat_role("system"), ChatRole::System);
    assert_eq!(chat_role("tool"), ChatRole::User);
    assert_eq!(chat_role(""), ChatRole::User);
}

#[test]
fn request_on_the_wire() {
    let request = CompletionRequest {
        messages: vec![Message::system("s"), Message::tool("t"), Message::assistant("a")],
        model: "gpt-4".to_string(),
        tools: None,
        max_tokens: None,
        response_format: None,
    };
    let sent = convert_request(&request);
    assert_eq!(sent.model, "gpt-4");
    let seen: Vec<(ChatRole, String)> =
        sent.messages.iter().map(|m| (m.role, m.content.clone())).collect();
    assert_eq!(
        seen,
        vec![
            (ChatRole::System, "s".to_string()),
            (ChatRole::User, "t".to_string()),
            (ChatRole::Assistant, "a".to_string()),
        ]
    );
}

#[test]
fn response_without_choices_is_model_behaviour() {
    match convert_response(&Vec::new()) {
        Err(AgentError::ModelBehaviorError(message)) => {
            assert_eq!(message, "No choices in response")
        }
        _ => panic!("a response without choices was accepted"),
    }
}

#[test]
fn response_takes_the_first_choice() {
    let choices = vec![
        ChatChoice {
            content: Some("first".to_string()),
            tool_calls: Some(vec![
                ChatToolCall {
                    id: "1".to_string(),
                    name: "f".to_string(),
                    arguments: "{ \"a\": 1 }".to_string(),
                },
                ChatToolCall {
                    id: "2".to_string(),
                    name: "g".to_string(),
                    arguments: "{broken".to_string(),
                },
            ]),
            finish_reason: Some(FinishReason::ToolCalls),
        },
        ChatChoice { content: Some("second".to_string()), tool_calls: None, finish_reason: None },
    ];
    let response = convert_response(&choices).unwrap();
    assert_eq!(response.content.as_deref(), Some("first"));
    assert_eq!(response.finish_reason.as_deref(), Some("ToolCalls"));
    assert_eq!(response.tool_calls.len(), 2);
    assert_eq!(response.tool_calls[0].name, "f");
    assert_eq!(response.tool_calls[0].arguments.as_str(), "{\"a\":1}");
    assert_eq!(response.tool_calls[1].id, "2");
    assert_eq!(response.tool_calls[1].arguments.as_str(), "null");
}

#[test]
fn finish_reasons_by_name() {
    assert_eq!(finish_reason_name(FinishReason::Stop), "Stop");
    assert_eq!(finish_reason_name(FinishReason::Length), "Length");
    assert_eq!(finish_reason_name(FinishReason::ToolCalls), "ToolCalls");
    assert_eq!(finish_reason_name(FinishReason::ContentFilter), "ContentFilter");
    assert_eq!(finish_reason_name(FinishReason::FunctionCall), "FunctionCall");
}

#[test]
fn chunk_on_the_wire() {
    let empty = convert_chunk(&Vec::new());
    assert!(empty.delta.is_none() && empty.tool_call_deltas.is_empty());
    assert!(empty.finish_reason.is_none());

    let choices = vec![ChatChunkChoice {
        content: Some("He".to_string()),
        tool_calls: Some(vec![
            ChatToolCallChunk {
                index: 3,
                id: Some("call".to_string()),
                function: Some(ChatFunctionChunk {
                    name: Some("f".to_string()),
                    arguments: None,
                }),
            },
            ChatToolCallChunk { index: 0, id: None, function: None },
        ]),
        finish_reason: Some(FinishReason::Stop),
    }];
    let chunk = convert_chunk(&choices);
    assert_eq!(chunk.delta.as_deref(), Some("He"));
    assert_eq!(chunk.finish_reason.as_deref(), Some("Stop"));
    assert_eq!(chunk.tool_call_deltas.len(), 2);
    assert_eq!(chunk.tool_call_deltas[0].index, 3);
    assert_eq!(chunk.tool_call_deltas[0].id.as_deref(), Some("call"));
    assert_eq!(chunk.tool_call_deltas[0].name.as_deref(), Some("f"));
    assert!(chunk.tool_call_deltas[0].arguments.is_none());
    assert_eq!(chunk.tool_call_deltas[1].index, 0);
    assert!(chunk.tool_call_deltas[1].name.is_none());
}

#[test]
fn completion_stream_yields_its_items_in_order() {
    let mut stream = CompletionStream::new(vec![
        Ok(chunk(Some("a"), vec![], None)),
        Err(AgentError::ModelError("broken".to_string())),
    ]);
    match stream.next() {
        Some(Ok(first)) => assert_eq!(first.delta.as_deref(), Some("a")),
        _ => panic!("the first item was not the first chunk"),
    }
    assert!(matches!(stream.next(), Some(Err(AgentError::ModelError(_)))));
    assert!(stream.next().is_none());
    assert!(stream.next().is_none());
}

#[test]
fn path_segments_and_name_characters() {
    assert_eq!(last_path_segment("a::b::c"), "c");
    assert_eq!(last_path_segment("plain"), "plain");
    assert_eq!(last_path_segment("a:::b"), ":b");
    assert_eq!(last_path_segment("a::"), "");
    assert_eq!(last_path_segment(":"), ":");
    assert_eq!(keep_name_chars("a b-c_d!é9"), "ab-c_dé9");
    assert!(may_stand_in_name('_', false));
    assert!(may_stand_in_name('-', false));
    assert!(may_stand_in_name('x', true));
    assert!(!may_stand_in_name(' ', false));
}

#[test]
fn fragments_out_of_reach_are_told_apart() {
    let near = chunk(None, vec![delta(0, None, None, None), delta(5, None, None, None)], None);
    assert!(chunk_in_reach(&near));
    assert!(chunk_in_reach(&chunk(Some("text"), vec![], None)));
    let far = chunk(None, vec![delta(0, None, None, None), delta(usize::MAX, None, None, None)], None);
    assert!(!chunk_in_reach(&far));
}

#[test]
fn handoff_to_a_shared_agent() {
    let target = std::sync::Arc::new(Agent::builder("Night Shift").build());
    let handoff = Handoff::to(target.clone());
    assert_eq!(handoff.name, "transfer_to_night_shift");
    assert!(std::sync::Arc::ptr_eq(&handoff.target_agent, &target));
    assert_eq!(
        handoff_result(&JsonValue::string("Night Shift")).as_str(),
        "{\"assistant\":\"Night Shift\"}"
    );
}

#[test]
fn lines_are_joined_by_single_spaces() {
    assert_eq!(join_lines(&vec![]), "");
    assert_eq!(join_lines(&vec!["one".to_string()]), "one");
    assert_eq!(
        join_lines(&vec!["".to_string(), "one".to_string(), "".to_string(), "two".to_string()]),
        "one  two"
    );
}

#[test]
fn schema_of_string_parameters() {
    assert_eq!(
        string_schema(&vec![JsonValue::string("a")]).as_str(),
        "{\"properties\":{\"a\":{\"type\":\"string\"}},\"required\":[\"a\"],\"type\":\"object\"}"
    );
}

#[test]
fn result_of_a_final_answer() {
    let plain = Agent::builder("Plain").build();
    let result = structured_result(&plain, "text", None).unwrap();
    assert_eq!(result.final_output(), "text");
    assert!(result.structured_output().is_none());

    let typed = Agent::builder("Typed").output_type(JsonValue::empty_object(), "T").build();
    let parsed = JsonValue::parse("[1, 2]");
    let result = structured_result(&typed, "[1, 2]", parsed).unwrap();
    assert_eq!(result.final_output(), "[1, 2]");
    assert_eq!(result.structured_output().unwrap().as_str(), "[1,2]");
    assert!(matches!(
        structured_result(&typed, "text", None),
        Err(AgentError::ModelBehaviorError(_))
    ));
}
