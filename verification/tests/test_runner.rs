//! Tests of synchronous runs, with the test as the host.

use openai_agents::{
    Agent, AgentError, CompletionRequest, CompletionResponse, Effect, FunctionTool, Handoff,
    HookEvent, HookId, HookScope, JsonValue, Message, ResponseFormat, RunConfig, RunMode,
    RunResult, RunStep, Runner, ToolCall,
};
use std::sync::Arc;

/// What the host of a test has seen and done.
struct Host {
    answers: Vec<Result<CompletionResponse, AgentError>>,
    repeat_last_answer: bool,
    tool_results: Vec<Result<JsonValue, AgentError>>,
    requests: Vec<CompletionRequest>,
    executed: Vec<(usize, String, String)>,
    log: Vec<String>,
    session_writes: Vec<Vec<Message>>,
    switches: Vec<usize>,
}

fn host(answers: Vec<Result<CompletionResponse, AgentError>>) -> Host {
    Host {
        answers,
        repeat_last_answer: false,
        tool_results: Vec::new(),
        requests: Vec::new(),
        executed: Vec::new(),
        log: Vec::new(),
        session_writes: Vec::new(),
        switches: Vec::new(),
    }
}

fn copy_answer(answer: &Result<CompletionResponse, AgentError>) -> Result<CompletionResponse, AgentError> {
    match answer {
        Ok(response) => Ok(CompletionResponse {
            content: response.content.clone(),
            tool_calls: response.tool_calls.clone(),
            finish_reason: response.finish_reason.clone(),
        }),
        Err(error) => Err(error.clone()),
    }
}

fn note(host: &mut Host, effects: Vec<Effect>) {
    for effect in effects {
        match effect {
            Effect::Hook(call) => {
                let scope = match call.scope {
                    HookScope::Run => "run",
                    HookScope::Agent => "agent",
                };
                let event = match &call.event {
                    HookEvent::AgentStart => "start".to_string(),
                    HookEvent::AgentEnd { output } => format!("end({})", output),
                    HookEvent::LlmStart => "llm_start".to_string(),
                    HookEvent::LlmEnd => "llm_end".to_string(),
                    HookEvent::ToolStart { name, arguments } => {
                        format!("tool_start({},{})", name, arguments.as_str())
                    }
                    HookEvent::ToolEnd { name, result } => {
                        format!("tool_end({},{})", name, result.as_str())
                    }
                    HookEvent::Handoff { from, to } => format!("handoff({}->{})", from, to),
                };
                host.log.push(format!("{}#{}:{}", scope, call.hook.0, event));
            }
            Effect::Emit(_) => host.log.push("emit".to_string()),
            Effect::Persist(messages) => {
                host.log.push("persist".to_string());
                host.session_writes.push(messages);
            }
            Effect::SwitchAgent { handoff } => {
                host.log.push(format!("switch({})", handoff));
                host.switches.push(handoff);
            }
        }
    }
}

fn drive(first: RunStep, host: &mut Host) -> Result<RunResult, AgentError> {
    let mut step = first;
    loop {
        step = match step {
            RunStep::Complete { effects, request, then } => {
                note(host, effects);
                host.requests.push(request);
                host.log.push("complete".to_string());
                let answer = if host.repeat_last_answer && host.answers.len() == 1 {
                    copy_answer(&host.answers[0])
                } else {
                    host.answers.remove(0)
                };
                then.respond(answer)
            }
            RunStep::Execute { effects, call, then } => {
                note(host, effects);
                host.log.push(format!("execute({})", call.name));
                host.executed.push((call.tool, call.name, call.arguments.as_str().to_string()));
                let result = if host.tool_results.is_empty() {
                    Ok(JsonValue::null())
                } else {
                    host.tool_results.remove(0)
                };
                then.complete(result)
            }
            RunStep::Done { effects, result } => {
                note(host, effects);
                return result;
            }
            RunStep::Stream { .. } | RunStep::Chunk { .. } => {
                panic!("a synchronous run asked for a stream")
            }
        };
    }
}

fn says(content: &str) -> Result<CompletionResponse, AgentError> {
    Ok(CompletionResponse {
        content: Some(content.to_string()),
        tool_calls: Vec::new(),
        finish_reason: Some("stop".to_string()),
    })
}

fn calls(content: Option<&str>, calls: Vec<(&str, &str)>) -> Result<CompletionResponse, AgentError> {
    Ok(CompletionResponse {
        content: content.map(|c| c.to_string()),
        tool_calls: calls
            .into_iter()
            .enumerate()
            .map(|(i, (name, arguments))| ToolCall {
                id: format!("call_{}", i),
                name: name.to_string(),
                arguments: JsonValue::parse(arguments).unwrap(),
            })
            .collect(),
        finish_reason: Some("tool_calls".to_string()),
    })
}

fn config(max_turns: usize) -> RunConfig {
    RunConfig { max_turns, session: false, run_hooks: Vec::new() }
}

fn roles(messages: &[Message]) -> Vec<&str> {
    messages.iter().map(|m| m.role.as_str()).collect()
}

fn weather_agent() -> Agent {
    Agent::builder("Weather")
        .instructions("Answer about the weather")
        .tool(FunctionTool::new("get_weather", "Get weather", JsonValue::empty_object()))
        .build()
}

#[test]
fn one_word_answer_ends_the_run() {
    let agent = Agent::builder("A").instructions("Reply in one word").build();
    let mut host = host(vec![says("Hello")]);
    let result = drive(Runner::run(Arc::new(agent), "Hi"), &mut host).unwrap();
    assert_eq!(result.final_output(), "Hello");
    assert!(result.structured_output().is_none());
    assert_eq!(host.requests.len(), 1);
    assert!(host.executed.is_empty());
    assert!(!host.log.iter().any(|l| l == "emit"));
    let request = &host.requests[0];
    assert_eq!(roles(&request.messages), vec!["system", "user"]);
    assert_eq!(request.messages[0].content, "Reply in one word");
    assert_eq!(request.messages[1].content, "Hi");
    assert_eq!(request.model, "gpt-4");
    assert!(request.tools.is_none());
    assert!(request.response_format.is_none());
    assert!(request.max_tokens.is_none());
}

#[test]
fn agent_without_instructions_sends_no_system_message() {
    let agent = Agent::builder("Quiet").build();
    let mut host = host(vec![calls(None, vec![]), says("done")]);
    let history = vec![Message::user("before"), Message::assistant("earlier answer")];
    let step = Runner::run_with_config(Arc::new(agent), "Hi", config(5), Ok(history));
    drive(step, &mut host).unwrap();
    assert_eq!(host.requests.len(), 2);
    for request in &host.requests {
        assert_eq!(roles(&request.messages), vec!["user", "assistant", "user"]);
    }
}

#[test]
fn final_answer_is_written_to_the_session_once() {
    for max_turns in [1, 2, 100] {
        let mut host = host(vec![says("Sunny")]);
        let run_config = RunConfig { max_turns, session: true, run_hooks: Vec::new() };
        let step = Runner::run_with_config(Arc::new(weather_agent()), "Lima?", run_config, Ok(vec![]));
        let result = drive(step, &mut host).unwrap();
        assert_eq!(result.final_output(), "Sunny");
        assert_eq!(host.requests.len(), 1);
        assert_eq!(host.session_writes.len(), 1);
        let pair = &host.session_writes[0];
        assert_eq!(pair.len(), 2);
        assert_eq!(pair[0].role, "user");
        assert_eq!(pair[0].content, "Lima?");
        assert_eq!(pair[1].role, "assistant");
        assert_eq!(pair[1].content, "Sunny");
        assert_eq!(host.log.last().unwrap(), "persist");
    }
}

#[test]
fn run_without_a_session_writes_nothing() {
    let mut host = host(vec![says("Sunny")]);
    drive(Runner::run(Arc::new(weather_agent()), "Lima?"), &mut host).unwrap();
    assert!(host.session_writes.is_empty());
}

#[test]
fn session_gets_the_last_tool_report_after_a_tool_turn() {
    let mut host = host(vec![
        calls(Some("Let me look"), vec![("get_weather", "{\"city\":\"Lima\"}")]),
        says("It's 20°C"),
    ]);
    host.tool_results = vec![Ok(JsonValue::parse("{\"temp\":20}").unwrap())];
    let run_config = RunConfig { max_turns: 10, session: true, run_hooks: Vec::new() };
    let step = Runner::run_with_config(Arc::new(weather_agent()), "Lima?", run_config, Ok(vec![]));
    let result = drive(step, &mut host).unwrap();
    assert_eq!(result.final_output(), "It's 20°C");
    assert_eq!(host.session_writes.len(), 1);
    let pair = &host.session_writes[0];
    assert_eq!(pair[0].role, "tool");
    assert_eq!(pair[0].content, "Tool 'get_weather' returned: {\"temp\":20}");
    assert_eq!(pair[1].content, "It's 20°C");
}

#[test]
fn tool_turn_then_final_answer() {
    let mut host = host(vec![
        calls(None, vec![("get_weather", "{\"city\":\"Lima\"}")]),
        says("It's 20°C"),
    ]);
    host.tool_results = vec![Ok(JsonValue::parse("{\"temp\":20}").unwrap())];
    let result = drive(Runner::run(Arc::new(weather_agent()), "Lima?"), &mut host).unwrap();
    assert_eq!(result.final_output(), "It's 20°C");
    assert_eq!(
        host.executed,
        vec![(0, "get_weather".to_string(), "{\"city\":\"Lima\"}".to_string())]
    );
    assert_eq!(host.requests.len(), 2);
    let first = &host.requests[0];
    assert_eq!(first.tools.as_ref().unwrap().len(), 1);
    assert_eq!(first.tools.as_ref().unwrap()[0].name, "get_weather");
    let second = &host.requests[1];
    assert_eq!(roles(&second.messages), vec!["system", "user", "tool"]);
    assert_eq!(second.messages[2].content, "Tool 'get_weather' returned: {\"temp\":20}");
}

#[test]
fn content_with_tool_calls_is_commentary() {
    let mut host = host(vec![
        calls(Some("Checking"), vec![("get_weather", "{}"), ("get_weather", "[1]")]),
        says("Done"),
    ]);
    host.tool_results = vec![Ok(JsonValue::string("a")), Ok(JsonValue::string("b"))];
    let result = drive(Runner::run(Arc::new(weather_agent()), "Lima?"), &mut host).unwrap();
    assert_eq!(result.final_output(), "Done");
    let second = &host.requests[1];
    assert_eq!(roles(&second.messages), vec!["system", "user", "assistant", "tool", "tool"]);
    assert_eq!(second.messages[2].content, "Checking");
    assert_eq!(second.messages[3].content, "Tool 'get_weather' returned: \"a\"");
    assert_eq!(second.messages[4].content, "Tool 'get_weather' returned: \"b\"");
    assert_eq!(host.executed[1].2, "[1]");
}

#[test]
fn answer_without_content_and_calls_takes_a_turn() {
    let mut host = host(vec![calls(None, vec![]), says("Now")]);
    let result = drive(Runner::run(Arc::new(weather_agent()), "Hi"), &mut host).unwrap();
    assert_eq!(result.final_output(), "Now");
    assert_eq!(host.requests.len(), 2);
    assert_eq!(roles(&host.requests[1].messages), vec!["system", "user"]);
}

#[test]
fn empty_content_without_calls_is_a_final_answer() {
    let mut host = host(vec![says("")]);
    let result = drive(Runner::run(Arc::new(weather_agent()), "Hi"), &mut host).unwrap();
    assert_eq!(result.final_output(), "");
    assert_eq!(host.requests.len(), 1);
}

#[test]
fn budget_is_used_up_after_exactly_that_many_backend_calls() {
    for k in [1usize, 2, 3, 7] {
        let mut host = host(vec![calls(None, vec![("get_weather", "{}")])]);
        host.repeat_last_answer = true;
        let step = Runner::run_with_config(Arc::new(weather_agent()), "Hi", config(k), Ok(vec![]));
        match drive(step, &mut host) {
            Err(AgentError::MaxTurnsExceeded(n)) => assert_eq!(n, k),
            _ => panic!("a run without a final answer did not fail for its budget"),
        }
        assert_eq!(host.requests.len(), k);
        assert_eq!(host.executed.len(), k);
    }
}

#[test]
fn budget_of_zero_fails_before_any_backend_call() {
    let mut host = host(vec![]);
    let run_config = RunConfig { max_turns: 0, session: true, run_hooks: vec![HookId(1)] };
    let step = Runner::run_with_config(Arc::new(weather_agent()), "Hi", run_config, Ok(vec![]));
    assert!(matches!(drive(step, &mut host), Err(AgentError::MaxTurnsExceeded(0))));
    assert!(host.requests.is_empty());
    assert!(host.log.is_empty());
}

#[test]
fn budget_error_says_the_budget() {
    let mut host = host(vec![calls(None, vec![])]);
    host.repeat_last_answer = true;
    let step = Runner::run_with_config(Arc::new(weather_agent()), "Hi", config(4), Ok(vec![]));
    let error = drive(step, &mut host).unwrap_err();
    assert_eq!(error.to_string(), "Max turns exceeded: 4");
}

#[test]
fn unknown_tool_fails_the_run_and_names_the_tool() {
    let mut host = host(vec![calls(None, vec![("get_weather", "{}"), ("fly", "{}")])]);
    match drive(Runner::run(Arc::new(weather_agent()), "Hi"), &mut host) {
        Err(AgentError::ToolExecutionFailed { tool_name, reason }) => {
            assert_eq!(tool_name, "fly");
            assert_eq!(reason, "Tool 'fly' not found");
        }
        _ => panic!("an unknown tool did not fail the run"),
    }
    assert_eq!(host.executed.len(), 1);
}

#[test]
fn failed_tool_fails_the_run() {
    let mut host = host(vec![calls(None, vec![("get_weather", "{}")])]);
    host.tool_results = vec![Err(AgentError::UserError("no network".to_string()))];
    match drive(Runner::run(Arc::new(weather_agent()), "Hi"), &mut host) {
        Err(AgentError::ToolExecutionFailed { tool_name, reason }) => {
            assert_eq!(tool_name, "get_weather");
            assert_eq!(reason, "User error: no network");
        }
        _ => panic!("a failed tool did not fail the run"),
    }
}

#[test]
fn backend_error_ends_the_run() {
    let mut host = host(vec![Err(AgentError::ModelError("overloaded".to_string()))]);
    match drive(Runner::run(Arc::new(weather_agent()), "Hi"), &mut host) {
        Err(AgentError::ModelError(message)) => assert_eq!(message, "overloaded"),
        _ => panic!("an error of the backend did not end the run"),
    }
    assert_eq!(host.requests.len(), 1);
}

#[test]
fn session_error_ends_a_synchronous_run_at_once() {
    let mut host = host(vec![]);
    let step = Runner::run_with_config(
        Arc::new(weather_agent()),
        "Hi",
        config(3),
        Err(AgentError::SessionError("locked".to_string())),
    );
    assert!(matches!(drive(step, &mut host), Err(AgentError::SessionError(_))));
    assert!(host.requests.is_empty());
}

#[test]
fn agent_with_a_name_twice_does_not_start() {
    let agent = Agent::builder("Twice")
        .tool(FunctionTool::new("same", "one", JsonValue::empty_object()))
        .tool(FunctionTool::new("same", "two", JsonValue::empty_object()))
        .build();
    let mut host = host(vec![]);
    match drive(Runner::run(Arc::new(agent), "Hi"), &mut host) {
        Err(AgentError::ConfigError(message)) => assert_eq!(message, "Duplicate tool name: same"),
        _ => panic!("an agent with a tool name twice was run"),
    }
    assert!(host.requests.is_empty());
}

fn desk() -> Agent {
    let refunds = Agent::builder("Refunds Desk")
        .instructions("You handle refunds")
        .model("gpt-4-refunds")
        .tool(FunctionTool::new("refund", "Pays back", JsonValue::empty_object()))
        .hook(HookId(50))
        .build();
    Agent::builder("Front Desk")
        .instructions("You greet")
        .tool(FunctionTool::new("lookup", "Looks up", JsonValue::empty_object()))
        .handoff(Handoff::new(refunds))
        .hook(HookId(5))
        .build()
}

#[test]
fn handoff_switches_catalog_instructions_and_resolution() {
    let mut host = host(vec![
        calls(None, vec![("transfer_to_refunds_desk", "{}"), ("refund", "{\"id\":7}")]),
        says("Refunded"),
    ]);
    host.tool_results = vec![Ok(JsonValue::parse("true").unwrap())];
    let run_config = RunConfig { max_turns: 5, session: false, run_hooks: vec![HookId(9)] };
    let step = Runner::run_with_config(Arc::new(desk()), "Money back", run_config, Ok(vec![]));
    let result = drive(step, &mut host).unwrap();
    assert_eq!(result.final_output(), "Refunded");

    assert_eq!(host.switches, vec![0]);
    assert_eq!(host.executed, vec![(0, "refund".to_string(), "{\"id\":7}".to_string())]);

    let first = &host.requests[0];
    let offered: Vec<&str> =
        first.tools.as_ref().unwrap().iter().map(|t| t.name.as_str()).collect();
    assert_eq!(offered, vec!["lookup", "transfer_to_refunds_desk"]);
    assert_eq!(first.model, "gpt-4");

    let second = &host.requests[1];
    let offered: Vec<&str> =
        second.tools.as_ref().unwrap().iter().map(|t| t.name.as_str()).collect();
    assert_eq!(offered, vec!["refund"]);
    assert_eq!(second.model, "gpt-4-refunds");
    assert_eq!(roles(&second.messages), vec!["system", "user", "tool", "tool"]);
    assert_eq!(second.messages[0].content, "You handle refunds");
    assert_eq!(
        second.messages[2].content,
        "Tool 'transfer_to_refunds_desk' returned: {\"assistant\":\"Refunds Desk\"}"
    );
    assert_eq!(second.messages[3].content, "Tool 'refund' returned: true");
}

#[test]
fn after_a_handoff_the_old_tools_are_unknown() {
    let mut host = host(vec![calls(
        None,
        vec![("transfer_to_refunds_desk", "{}"), ("lookup", "{}")],
    )]);
    match drive(Runner::run(Arc::new(desk()), "Money back"), &mut host) {
        Err(AgentError::ToolExecutionFailed { tool_name, .. }) => assert_eq!(tool_name, "lookup"),
        _ => panic!("a tool of the agent that handed over was still known"),
    }
    assert!(host.executed.is_empty());
}

#[test]
fn handoff_to_an_agent_without_instructions_keeps_the_system_message_slot() {
    let plain = Agent::builder("Plain").build();
    let agent = Agent::builder("Front").instructions("You greet").handoff(Handoff::new(plain)).build();
    let mut host = host(vec![calls(None, vec![("transfer_to_plain", "{}")]), says("ok")]);
    drive(Runner::run(Arc::new(agent), "Hi"), &mut host).unwrap();
    let second = &host.requests[1];
    assert_eq!(roles(&second.messages), vec!["system", "user", "tool"]);
    assert_eq!(second.messages[0].content, "");
    assert!(second.tools.is_none());
}

#[test]
fn handoff_from_an_agent_without_instructions_inserts_the_system_message() {
    let expert = Agent::builder("Expert").instructions("You know").build();
    let agent = Agent::builder("Front").handoff(Handoff::new(expert)).build();
    let mut host = host(vec![calls(None, vec![("transfer_to_expert", "{}")]), says("ok")]);
    drive(Runner::run(Arc::new(agent), "Hi"), &mut host).unwrap();
    assert_eq!(roles(&host.requests[0].messages), vec!["user"]);
    let second = &host.requests[1];
    assert_eq!(roles(&second.messages), vec!["system", "user", "tool"]);
    assert_eq!(second.messages[0].content, "You know");
}

#[test]
fn handoff_to_an_agent_with_a_name_twice_is_a_configuration_error() {
    let broken = Agent::builder("Broken")
        .tool(FunctionTool::new("x", "one", JsonValue::empty_object()))
        .tool(FunctionTool::new("x", "two", JsonValue::empty_object()))
        .build();
    let agent = Agent::builder("Front").handoff(Handoff::new(broken)).build();
    let mut host = host(vec![calls(None, vec![("transfer_to_broken", "{}")])]);
    match drive(Runner::run(Arc::new(agent), "Hi"), &mut host) {
        Err(AgentError::ConfigError(message)) => assert_eq!(message, "Duplicate tool name: x"),
        _ => panic!("a handoff to an agent with a tool name twice went through"),
    }
}

#[test]
fn hooks_fire_in_order_around_each_phase() {
    let mut host = host(vec![
        calls(None, vec![("lookup", "{}"), ("transfer_to_refunds_desk", "{}")]),
        says("Bye"),
    ]);
    host.tool_results = vec![Ok(JsonValue::parse("1").unwrap())];
    let run_config = RunConfig { max_turns: 5, session: true, run_hooks: vec![HookId(9)] };
    let step = Runner::run_with_config(Arc::new(desk()), "Hi", run_config, Ok(vec![]));
    drive(step, &mut host).unwrap();
    let payload = "{\"assistant\":\"Refunds Desk\"}";
    let expected: Vec<String> = vec![
        "run#9:start".to_string(),
        "agent#5:start".to_string(),
        "agent#5:llm_start".to_string(),
        "complete".to_string(),
        "agent#5:llm_end".to_string(),
        "agent#5:tool_start(lookup,{})".to_string(),
        "execute(lookup)".to_string(),
        "agent#5:tool_end(lookup,1)".to_string(),
        "agent#5:tool_start(transfer_to_refunds_desk,{})".to_string(),
        format!("agent#5:tool_end(transfer_to_refunds_desk,{})", payload),
        "run#9:handoff(Front Desk->Refunds Desk)".to_string(),
        "agent#5:handoff(Front Desk->Refunds Desk)".to_string(),
        "switch(0)".to_string(),
        "run#9:start".to_string(),
        "agent#50:start".to_string(),
        "agent#50:llm_start".to_string(),
        "complete".to_string(),
        "agent#50:llm_end".to_string(),
        "run#9:end(Bye)".to_string(),
        "agent#50:end(Bye)".to_string(),
        "persist".to_string(),
    ];
    assert_eq!(host.log, expected);
}

#[test]
fn structured_answer_is_parsed_and_the_schema_is_sent_strictly() {
    let schema = JsonValue::parse("{\"type\":\"object\"}").unwrap();
    let agent = Agent::builder("Typed").output_type(schema, "models::Report").build();
    let mut host = host(vec![says("{ \"temp\": 20 }")]);
    let result = drive(Runner::run(Arc::new(agent), "Hi"), &mut host).unwrap();
    assert_eq!(result.final_output(), "{ \"temp\": 20 }");
    assert_eq!(result.structured_output().unwrap().as_str(), "{\"temp\":20}");
    match host.requests[0].response_format.as_ref().unwrap() {
        ResponseFormat::JsonSchema { json_schema } => {
            assert_eq!(json_schema.name, "Report");
            assert_eq!(json_schema.schema.as_str(), "{\"type\":\"object\"}");
            assert_eq!(json_schema.strict, Some(true));
            assert!(json_schema.description.is_none());
        }
        _ => panic!("the schema was not sent"),
    }
}

#[test]
fn structured_answer_that_is_no_json_is_model_behaviour() {
    let agent = Agent::builder("Typed").output_type(JsonValue::empty_object(), "Report").build();
    let mut host = host(vec![says("twenty degrees")]);
    match drive(Runner::run(Arc::new(agent), "Hi"), &mut host) {
        Err(AgentError::ModelBehaviorError(message)) => {
            assert_eq!(message, "Final output is not valid JSON for schema Report")
        }
        _ => panic!("an answer that is no JSON was accepted for a schema"),
    }
}

#[test]
fn failures_of_effects_stop_only_synchronous_runs() {
    let failure = AgentError::UserError("hook failed".to_string());
    match RunMode::Synchronous.on_effect_failure(failure.clone()) {
        Some(AgentError::UserError(message)) => assert_eq!(message, "hook failed"),
        _ => panic!("a synchronous run went on after a failed effect"),
    }
    assert!(RunMode::Streaming.on_effect_failure(failure).is_none());
}

#[test]
fn default_configuration() {
    let config = RunConfig::default();
    assert_eq!(config.max_turns, 100);
    assert!(!config.session);
    assert!(config.run_hooks.is_empty());
}
