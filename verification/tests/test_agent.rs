//! Tests of agents, their builder and handoffs.

use openai_agents::{
    function_tool, Agent, FunctionTool, GuardrailId, Handoff, HookId, JsonValue, Tool,
};

#[test]
fn test_agent_builder() {
    let agent = Agent::builder("Test Agent")
        .instructions("Test instructions")
        .model("gpt-4")
        .build();

    assert_eq!(agent.name, "Test Agent");
    assert_eq!(agent.instructions, "Test instructions");
    assert_eq!(agent.model, "gpt-4");
    assert!(agent.tools.is_empty());
    assert!(agent.handoffs.is_empty());
}

#[test]
fn test_agent_with_handoff() {
    let target_agent = Agent::builder("Target").build();
    let handoff = Handoff::new(target_agent);

    let agent = Agent::builder("Main").handoff(handoff).build();

    assert_eq!(agent.handoffs.len(), 1);
}

#[test]
fn test_agent_default_model() {
    let agent = Agent::builder("Test").build();
    assert_eq!(agent.model, "gpt-4");
}

#[test]
fn test_agent_parallel_tool_calls() {
    let agent = Agent::builder("Test").parallel_tool_calls(false).build();

    assert!(!agent.parallel_tool_calls);
}

#[test]
fn builder_defaults() {
    let agent = Agent::builder("Plain").build();
    assert_eq!(agent.name, "Plain");
    assert_eq!(agent.instructions, "");
    assert!(agent.parallel_tool_calls);
    assert!(agent.hooks.is_empty());
    assert!(agent.input_guardrails.is_empty());
    assert!(agent.output_guardrails.is_empty());
    assert!(agent.output_schema.is_none());
    assert!(agent.output_name.is_none());
}

#[test]
fn builder_keeps_registration_order() {
    let agent = Agent::builder("Ordered")
        .tool(FunctionTool::new("first", "the first", JsonValue::empty_object()))
        .tool(FunctionTool::new("second", "the second", JsonValue::empty_object()))
        .hook(HookId(7))
        .hook(HookId(3))
        .input_guardrail(GuardrailId(1))
        .output_guardrail(GuardrailId(2))
        .build();
    assert_eq!(agent.tools.len(), 2);
    assert_eq!(agent.tools[0].name(), "first");
    assert_eq!(agent.tools[1].name(), "second");
    assert_eq!(agent.tools[1].description(), "the second");
    assert_eq!(agent.hooks, vec![HookId(7), HookId(3)]);
    assert_eq!(agent.input_guardrails, vec![GuardrailId(1)]);
    assert_eq!(agent.output_guardrails, vec![GuardrailId(2)]);
}

#[test]
fn output_type_takes_the_last_path_segment() {
    let agent = Agent::builder("Typed")
        .output_type(JsonValue::empty_object(), "my_crate::models::Weather<Report>")
        .build();
    assert_eq!(agent.output_name.as_deref(), Some("WeatherReport"));
    assert_eq!(agent.output_schema.unwrap().as_str(), "{}");
}

#[test]
fn output_type_keeps_underscores_and_hyphens() {
    let agent = Agent::builder("Typed")
        .output_type(JsonValue::empty_object(), "a::b_c-d e")
        .build();
    assert_eq!(agent.output_name.as_deref(), Some("b_c-de"));
}

#[test]
fn output_type_of_a_path_that_ends_in_a_separator_is_empty() {
    let agent = Agent::builder("Typed").output_type(JsonValue::null(), "a::").build();
    assert_eq!(agent.output_name.as_deref(), Some(""));
}

#[test]
fn handoff_name_is_derived_from_the_agent_name() {
    let handoff = Handoff::new(Agent::builder("Billing Support Agent").build());
    assert_eq!(handoff.name, "transfer_to_billing_support_agent");
    assert!(handoff.description.is_none());
    assert_eq!(handoff.target_agent.name, "Billing Support Agent");
}

#[test]
fn handoff_name_and_description_can_be_set() {
    let handoff = Handoff::new(Agent::builder("Refunds").build())
        .with_description("Use for refunds")
        .with_name("to_refunds");
    assert_eq!(handoff.name(), "to_refunds");
    assert_eq!(handoff.description(), "Use for refunds");
}

#[test]
fn handoff_describes_itself_as_a_tool() {
    let handoff = Handoff::new(Agent::builder("Refunds").build());
    assert_eq!(handoff.name(), "transfer_to_refunds");
    assert_eq!(handoff.description(), "Handoff to another agent");
    assert_eq!(
        handoff.parameters_schema().as_str(),
        "{\"additionalProperties\":false,\"properties\":{},\"type\":\"object\"}"
    );
}

#[test]
fn handoff_result_names_the_target() {
    let handoff = Handoff::new(Agent::builder("Say \"hi\"").build());
    let result = handoff.execute(&JsonValue::empty_object()).unwrap();
    assert_eq!(result.as_str(), "{\"assistant\":\"Say \\\"hi\\\"\"}");
    let parsed: serde_json::Value = serde_json::from_str(result.as_str()).unwrap();
    assert_eq!(parsed.get("assistant").and_then(|v| v.as_str()), Some("Say \"hi\""));
}

#[test]
fn function_tool_describes_a_function() {
    let docs = vec!["  Looks up the weather. ".to_string(), "Slowly.".to_string()];
    let parameters = vec!["city".to_string(), "unit".to_string()];
    let tool = function_tool("get_weather", &docs, &parameters);
    assert_eq!(tool.name(), "get_weather");
    assert_eq!(tool.description(), "Looks up the weather. Slowly.");
    assert_eq!(
        tool.parameters_schema().as_str(),
        "{\"properties\":{\"city\":{\"type\":\"string\"},\"unit\":{\"type\":\"string\"}},\
         \"required\":[\"city\",\"unit\"],\"type\":\"object\"}"
    );
    let parsed: serde_json::Value =
        serde_json::from_str(tool.parameters_schema().as_str()).unwrap();
    assert_eq!(parsed["properties"]["unit"]["type"], "string");
}

#[test]
fn function_tool_without_documentation_is_described_by_its_name() {
    let tool = function_tool("ping", &Vec::new(), &Vec::new());
    assert_eq!(tool.description(), "ping");
    assert_eq!(
        tool.parameters_schema().as_str(),
        "{\"properties\":{},\"required\":[],\"type\":\"object\"}"
    );
}
