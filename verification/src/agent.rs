//! Agents and the builder that makes them.

use vstd::prelude::*;
use vstd::string::*;
use crate::guardrail::GuardrailId;
use crate::handoff::Handoff;
use crate::json::JsonValue;
use crate::lifecycle::HookId;
use crate::text::{last_segment, name_chars, schema_name};
use crate::tool::FunctionTool;

verus! {

/// The model of an agent that was given none.
pub open spec fn default_model() -> Seq<char> {
    "gpt-4"@
}

/// A named profile: instructions, model, tools, handoffs, hooks and the
/// form of the answer. An agent never changes once it is built.
pub struct Agent {
    /// The agent's name.
    pub name: String,
    /// The system instructions; empty for none.
    pub instructions: String,
    /// The model that answers for this agent.
    pub model: String,
    /// The tools the agent may call, in the order of registration.
    pub tools: Vec<FunctionTool>,
    /// The agents this agent may hand over to, in the order of
    /// registration.
    pub handoffs: Vec<Handoff>,
    /// The guardrails on the agent's input.
    pub input_guardrails: Vec<GuardrailId>,
    /// The guardrails on the agent's output.
    pub output_guardrails: Vec<GuardrailId>,
    /// Whether the model may ask for several tool calls at once.
    pub parallel_tool_calls: bool,
    /// The agent's lifecycle hooks, in the order of registration.
    pub hooks: Vec<HookId>,
    /// The schema of the answer, where a structured answer is expected.
    pub output_schema: Option<JsonValue>,
    /// The name under which the schema is sent.
    pub output_name: Option<String>,
}

impl Agent {
    /// Starts building an agent with the given name.
    pub fn builder(name: &str) -> (builder: AgentBuilder)
        ensures
            builder@ == AgentDraft::named(name@),
    {
        AgentBuilder::new(name)
    }
}

/// What a builder has been told so far.
pub struct AgentDraft {
    pub name: Seq<char>,
    pub instructions: Option<Seq<char>>,
    pub model: Option<Seq<char>>,
    pub tools: Seq<FunctionTool>,
    pub handoffs: Seq<Handoff>,
    pub input_guardrails: Seq<GuardrailId>,
    pub output_guardrails: Seq<GuardrailId>,
    pub parallel_tool_calls: bool,
    pub hooks: Seq<HookId>,
    pub output_schema: Option<Seq<char>>,
    pub output_name: Option<Seq<char>>,
}

impl AgentDraft {
    /// The draft of an agent of which only the name is known: it has no
    /// tools, handoffs, guardrails or hooks, and allows parallel tool calls.
    pub open spec fn named(name: Seq<char>) -> AgentDraft {
        AgentDraft {
            name,
            instructions: None,
            model: None,
            tools: Seq::empty(),
            handoffs: Seq::empty(),
            input_guardrails: Seq::empty(),
            output_guardrails: Seq::empty(),
            parallel_tool_calls: true,
            hooks: Seq::empty(),
            output_schema: None,
            output_name: None,
        }
    }

    /// Whether `agent` is the agent that this draft describes: missing
    /// instructions are empty, and a missing model is the default one.
    pub open spec fn describes(self, agent: Agent) -> bool {
        &&& agent.name@ == self.name
        &&& agent.instructions@ == match self.instructions {
            Some(text) => text,
            None => Seq::empty(),
        }
        &&& agent.model@ == match self.model {
            Some(model) => model,
            None => default_model(),
        }
        &&& agent.tools@ == self.tools
        &&& agent.handoffs@ == self.handoffs
        &&& agent.input_guardrails@ == self.input_guardrails
        &&& agent.output_guardrails@ == self.output_guardrails
        &&& agent.parallel_tool_calls == self.parallel_tool_calls
        &&& agent.hooks@ == self.hooks
        &&& agent.output_schema.deep_view() == self.output_schema
        &&& agent.output_name.deep_view() == self.output_name
    }
}

/// Collects the parts of an agent.
pub struct AgentBuilder {
    name: String,
    instructions: Option<String>,
    model: Option<String>,
    tools: Vec<FunctionTool>,
    handoffs: Vec<Handoff>,
    input_guardrails: Vec<GuardrailId>,
    output_guardrails: Vec<GuardrailId>,
    parallel_tool_calls: bool,
    hooks: Vec<HookId>,
    output_schema: Option<JsonValue>,
    output_name: Option<String>,
}

impl View for AgentBuilder {
    type V = AgentDraft;

    closed spec fn view(&self) -> AgentDraft {
        AgentDraft {
            name: self.name@,
            instructions: self.instructions.deep_view(),
            model: self.model.deep_view(),
            tools: self.tools@,
            handoffs: self.handoffs@,
            input_guardrails: self.input_guardrails@,
            output_guardrails: self.output_guardrails@,
            parallel_tool_calls: self.parallel_tool_calls,
            hooks: self.hooks@,
            output_schema: self.output_schema.deep_view(),
            output_name: self.output_name.deep_view(),
        }
    }
}

impl AgentBuilder {
    /// A builder for an agent with the given name.
    pub fn new(name: &str) -> (builder: AgentBuilder)
        ensures
            builder@ == AgentDraft::named(name@),
    {
        AgentBuilder {
            name: String::from_str(name),
            instructions: None,
            model: None,
            tools: Vec::new(),
            handoffs: Vec::new(),
            input_guardrails: Vec::new(),
            output_guardrails: Vec::new(),
            parallel_tool_calls: true,
            hooks: Vec::new(),
            output_schema: None,
            output_name: None,
        }
    }

    /// Sets the instructions.
    pub fn instructions(self, instructions: &str) -> (builder: AgentBuilder)
        ensures
            builder@ == (AgentDraft { instructions: Some(instructions@), ..self@ }),
    {
        let mut builder = self;
        builder.instructions = Some(String::from_str(instructions));
        builder
    }

    /// Sets the model.
    pub fn model(self, model: &str) -> (builder: AgentBuilder)
        ensures
            builder@ == (AgentDraft { model: Some(model@), ..self@ }),
    {
        let mut builder = self;
        builder.model = Some(String::from_str(model));
        builder
    }

    /// Adds a tool after those already registered.
    pub fn tool(self, tool: FunctionTool) -> (builder: AgentBuilder)
        ensures
            builder@ == (AgentDraft { tools: self@.tools.push(tool), ..self@ }),
    {
        let mut builder = self;
        builder.tools.push(tool);
        builder
    }

    /// Adds a handoff after those already registered.
    pub fn handoff(self, handoff: Handoff) -> (builder: AgentBuilder)
        ensures
            builder@ == (AgentDraft { handoffs: self@.handoffs.push(handoff), ..self@ }),
    {
        let mut builder = self;
        builder.handoffs.push(handoff);
        builder
    }

    /// Adds a guardrail on the input.
    pub fn input_guardrail(self, guardrail: GuardrailId) -> (builder: AgentBuilder)
        ensures
            builder@ == (AgentDraft {
                input_guardrails: self@.input_guardrails.push(guardrail),
                ..self@
            }),
    {
        let mut builder = self;
        builder.input_guardrails.push(guardrail);
        builder
    }

    /// Adds a guardrail on the output.
    pub fn output_guardrail(self, guardrail: GuardrailId) -> (builder: AgentBuilder)
        ensures
            builder@ == (AgentDraft {
                output_guardrails: self@.output_guardrails.push(guardrail),
                ..self@
            }),
    {
        let mut builder = self;
        builder.output_guardrails.push(guardrail);
        builder
    }

    /// Says whether the model may ask for several tool calls at once.
    pub fn parallel_tool_calls(self, parallel: bool) -> (builder: AgentBuilder)
        ensures
            builder@ == (AgentDraft { parallel_tool_calls: parallel, ..self@ }),
    {
        let mut builder = self;
        builder.parallel_tool_calls = parallel;
        builder
    }

    /// Adds a lifecycle hook after those already registered.
    pub fn hook(self, hook: HookId) -> (builder: AgentBuilder)
        ensures
            builder@ == (AgentDraft { hooks: self@.hooks.push(hook), ..self@ }),
    {
        let mut builder = self;
        builder.hooks.push(hook);
        builder
    }

    /// Asks for a structured answer that follows `schema`. The schema is
    /// sent under the last segment of `type_path`, reduced to the
    /// characters that may stand in a schema name.
    pub fn output_type(self, schema: JsonValue, type_path: &str) -> (builder: AgentBuilder)
        ensures
            builder@ == (AgentDraft {
                output_schema: Some(schema@),
                output_name: Some(name_chars(last_segment(type_path@))),
                ..self@
            }),
    {
        let mut builder = self;
        builder.output_schema = Some(schema);
        builder.output_name = Some(schema_name(type_path));
        builder
    }

    /// The agent that was described.
    pub fn build(self) -> (agent: Agent)
        ensures
            self@.describes(agent),
    {
        let instructions = match self.instructions {
            Some(text) => text,
            None => String::new(),
        };
        let model = match self.model {
            Some(model) => model,
            None => String::from_str("gpt-4"),
        };
        Agent {
            name: self.name,
            instructions,
            model,
            tools: self.tools,
            handoffs: self.handoffs,
            input_guardrails: self.input_guardrails,
            output_guardrails: self.output_guardrails,
            parallel_tool_calls: self.parallel_tool_calls,
            hooks: self.hooks,
            output_schema: self.output_schema,
            output_name: self.output_name,
        }
    }
}

} // verus!
