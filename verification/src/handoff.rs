//! Handoffs: pseudo-tools that pass control to another agent.

use std::sync::Arc;
use vstd::prelude::*;
use vstd::string::*;
use crate::agent::Agent;
use crate::error::AgentError;
use crate::json::{json_quoted, JsonValue};
use crate::text::{lowercase, lowercased, replace_spaces, underscored};
use crate::tool::Tool;

verus! {

/// The name of the tool that hands over to the agent called `agent_name`:
/// `transfer_to_`, then the agent's name in lower case with an underscore
/// for every space.
pub open spec fn handoff_tool_name(agent_name: Seq<char>) -> Seq<char> {
    "transfer_to_"@ + underscored(lowercased(agent_name))
}

/// The description of a handoff that was given none.
pub open spec fn default_handoff_description() -> Seq<char> {
    "Handoff to another agent"@
}

/// The schema of a handoff's parameters: an object without members.
pub open spec fn handoff_schema_text() -> Seq<char> {
    "{\"additionalProperties\":false,\"properties\":{},\"type\":\"object\"}"@
}

/// The object whose member `assistant` is the given JSON text.
pub open spec fn assistant_object(name_literal: Seq<char>) -> Seq<char> {
    "{\"assistant\":"@ + name_literal + "}"@
}

/// What calling a handoff returns: an object whose member `assistant`
/// names the agent that takes over.
pub open spec fn handoff_payload(agent_name: Seq<char>) -> Seq<char> {
    assistant_object(json_quoted(agent_name))
}

/// The result of a handoff call, given the JSON string that names the
/// agent that takes over.
pub fn handoff_result(name_literal: &JsonValue) -> (result: JsonValue)
    ensures
        result@ == assistant_object(name_literal@),
{
    let mut text = String::from_str("{\"assistant\":");
    text.append(name_literal.as_str());
    text.append("}");
    JsonValue::from_text(text)
}

/// A handoff to another agent.
pub struct Handoff {
    /// The agent that takes over.
    pub target_agent: Arc<Agent>,
    /// When to use this handoff, in words for the model.
    pub description: Option<String>,
    /// The name of the tool that stands for this handoff.
    pub name: String,
}

impl Handoff {
    /// A handoff to `agent`, under the name derived from the agent's name
    /// and without a description.
    pub fn new(agent: Agent) -> (handoff: Handoff)
        ensures
            *handoff.target_agent == agent,
            handoff.description is None,
            handoff.name@ == handoff_tool_name(agent.name@),
    {
        Handoff::to(Arc::new(agent))
    }

    /// A handoff to an agent that is already shared, under the name
    /// derived from the agent's name and without a description.
    pub fn to(target_agent: Arc<Agent>) -> (handoff: Handoff)
        ensures
            handoff.target_agent == target_agent,
            handoff.description is None,
            handoff.name@ == handoff_tool_name(target_agent.name@),
    {
        let lower = lowercase(target_agent.name.as_str());
        let tail = replace_spaces(lower.as_str());
        let mut name = String::from_str("transfer_to_");
        name.append(tail.as_str());
        Handoff { target_agent, description: None, name }
    }

    /// The handoff with the given description.
    pub fn with_description(self, description: &str) -> (handoff: Handoff)
        ensures
            handoff.target_agent == self.target_agent,
            handoff.description.deep_view() == Some(description@),
            handoff.name == self.name,
    {
        Handoff {
            target_agent: self.target_agent,
            description: Some(String::from_str(description)),
            name: self.name,
        }
    }

    /// The handoff under the given tool name.
    pub fn with_name(self, name: &str) -> (handoff: Handoff)
        ensures
            handoff.target_agent == self.target_agent,
            handoff.description == self.description,
            handoff.name@ == name@,
    {
        Handoff {
            target_agent: self.target_agent,
            description: self.description,
            name: String::from_str(name),
        }
    }

    /// Carries out the handoff's tool call: the arguments are ignored, and
    /// the result names the agent that takes over.
    pub fn execute(&self, arguments: &JsonValue) -> (result: Result<JsonValue, AgentError>)
        ensures
            result is Ok,
            result->Ok_0@ == handoff_payload(self.target_agent.name@),
    {
        let quoted = JsonValue::string(self.target_agent.name.as_str());
        Ok(handoff_result(&quoted))
    }
}

impl Tool for Handoff {
    open spec fn name_text(&self) -> Seq<char> {
        self.name@
    }

    open spec fn description_text(&self) -> Seq<char> {
        match self.description {
            Some(description) => description@,
            None => default_handoff_description(),
        }
    }

    open spec fn schema_text(&self) -> Seq<char> {
        handoff_schema_text()
    }

    fn name(&self) -> (name: &str) {
        self.name.as_str()
    }

    fn description(&self) -> (description: &str) {
        match &self.description {
            Some(description) => description.as_str(),
            None => "Handoff to another agent",
        }
    }

    fn parameters_schema(&self) -> (schema: JsonValue) {
        JsonValue::from_text(
            String::from_str("{\"additionalProperties\":false,\"properties\":{},\"type\":\"object\"}"),
        )
    }
}

} // verus!
