//! The errors a run can end with.

use vstd::prelude::*;
use vstd::string::*;
use crate::text::{decimal, decimal_string};

verus! {

/// Everything that can go wrong while an agent runs.
#[derive(Debug)]
pub enum AgentError {
    /// The turn budget was used up before a final answer arrived; holds the
    /// configured budget.
    MaxTurnsExceeded(usize),
    /// An input guardrail blocked the run.
    InputGuardrailTriggered(String),
    /// An output guardrail blocked the run.
    OutputGuardrailTriggered(String),
    /// A guardrail blocked the input of a tool.
    ToolInputGuardrailTriggered(String),
    /// A guardrail blocked the output of a tool.
    ToolOutputGuardrailTriggered(String),
    /// A tool could not be found or failed while executing.
    ToolExecutionFailed { tool_name: String, reason: String },
    /// A tool took too long.
    ToolTimeout(String),
    /// The completion backend reported an error.
    ModelError(String),
    /// The session store reported an error.
    SessionError(String),
    /// The configuration is invalid.
    ConfigError(String),
    /// A value could not be serialized or deserialized.
    SerializationError(String),
    /// An error raised by user code.
    UserError(String),
    /// The backend answered in a form the run cannot use.
    ModelBehaviorError(String),
    /// Any other failure, by its message.
    Other(String),
}

/// An [`AgentError`] with its texts as sequences of characters.
pub enum AgentErrorView {
    MaxTurnsExceeded(nat),
    InputGuardrailTriggered(Seq<char>),
    OutputGuardrailTriggered(Seq<char>),
    ToolInputGuardrailTriggered(Seq<char>),
    ToolOutputGuardrailTriggered(Seq<char>),
    ToolExecutionFailed { tool_name: Seq<char>, reason: Seq<char> },
    ToolTimeout(Seq<char>),
    ModelError(Seq<char>),
    SessionError(Seq<char>),
    ConfigError(Seq<char>),
    SerializationError(Seq<char>),
    UserError(Seq<char>),
    ModelBehaviorError(Seq<char>),
    Other(Seq<char>),
}

impl AgentErrorView {
    /// The text shown to a user for this error.
    pub open spec fn message(self) -> Seq<char> {
        match self {
            AgentErrorView::MaxTurnsExceeded(n) => "Max turns exceeded: "@ + decimal(n),
            AgentErrorView::InputGuardrailTriggered(m) => "Input guardrail triggered: "@ + m,
            AgentErrorView::OutputGuardrailTriggered(m) => "Output guardrail triggered: "@ + m,
            AgentErrorView::ToolInputGuardrailTriggered(m) => "Tool input guardrail triggered: "@
                + m,
            AgentErrorView::ToolOutputGuardrailTriggered(m) => "Tool output guardrail triggered: "@
                + m,
            AgentErrorView::ToolExecutionFailed { tool_name, reason } => "Tool execution failed: "@
                + tool_name + ": "@ + reason,
            AgentErrorView::ToolTimeout(m) => "Tool timeout: "@ + m,
            AgentErrorView::ModelError(m) => "Model error: "@ + m,
            AgentErrorView::SessionError(m) => "Session error: "@ + m,
            AgentErrorView::ConfigError(m) => "Configuration error: "@ + m,
            AgentErrorView::SerializationError(m) => "Serialization error: "@ + m,
            AgentErrorView::UserError(m) => "User error: "@ + m,
            AgentErrorView::ModelBehaviorError(m) => "Model behavior error: "@ + m,
            AgentErrorView::Other(m) => m,
        }
    }

    /// Whether trying the failed operation again may succeed: only errors
    /// of the backend and of the session store are marked so.
    pub open spec fn retriable(self) -> bool {
        self is ModelError || self is SessionError
    }
}

impl View for AgentError {
    type V = AgentErrorView;

    open spec fn view(&self) -> AgentErrorView {
        match self {
            AgentError::MaxTurnsExceeded(n) => AgentErrorView::MaxTurnsExceeded(*n as nat),
            AgentError::InputGuardrailTriggered(m) => AgentErrorView::InputGuardrailTriggered(m@),
            AgentError::OutputGuardrailTriggered(m) => AgentErrorView::OutputGuardrailTriggered(
                m@,
            ),
            AgentError::ToolInputGuardrailTriggered(m) => {
                AgentErrorView::ToolInputGuardrailTriggered(m@)
            },
            AgentError::ToolOutputGuardrailTriggered(m) => {
                AgentErrorView::ToolOutputGuardrailTriggered(m@)
            },
            AgentError::ToolExecutionFailed { tool_name, reason } => {
                AgentErrorView::ToolExecutionFailed { tool_name: tool_name@, reason: reason@ }
            },
            AgentError::ToolTimeout(m) => AgentErrorView::ToolTimeout(m@),
            AgentError::ModelError(m) => AgentErrorView::ModelError(m@),
            AgentError::SessionError(m) => AgentErrorView::SessionError(m@),
            AgentError::ConfigError(m) => AgentErrorView::ConfigError(m@),
            AgentError::SerializationError(m) => AgentErrorView::SerializationError(m@),
            AgentError::UserError(m) => AgentErrorView::UserError(m@),
            AgentError::ModelBehaviorError(m) => AgentErrorView::ModelBehaviorError(m@),
            AgentError::Other(m) => AgentErrorView::Other(m@),
        }
    }
}

impl DeepView for AgentError {
    type V = AgentErrorView;

    open spec fn deep_view(&self) -> AgentErrorView {
        self@
    }
}

impl Clone for AgentError {
    fn clone(&self) -> (copy: AgentError)
        ensures
            copy@ == self@,
    {
        match self {
            AgentError::MaxTurnsExceeded(n) => AgentError::MaxTurnsExceeded(*n),
            AgentError::InputGuardrailTriggered(m) => AgentError::InputGuardrailTriggered(
                m.clone(),
            ),
            AgentError::OutputGuardrailTriggered(m) => AgentError::OutputGuardrailTriggered(
                m.clone(),
            ),
            AgentError::ToolInputGuardrailTriggered(m) => AgentError::ToolInputGuardrailTriggered(
                m.clone(),
            ),
            AgentError::ToolOutputGuardrailTriggered(m) => {
                AgentError::ToolOutputGuardrailTriggered(m.clone())
            },
            AgentError::ToolExecutionFailed { tool_name, reason } => {
                AgentError::ToolExecutionFailed {
                    tool_name: tool_name.clone(),
                    reason: reason.clone(),
                }
            },
            AgentError::ToolTimeout(m) => AgentError::ToolTimeout(m.clone()),
            AgentError::ModelError(m) => AgentError::ModelError(m.clone()),
            AgentError::SessionError(m) => AgentError::SessionError(m.clone()),
            AgentError::ConfigError(m) => AgentError::ConfigError(m.clone()),
            AgentError::SerializationError(m) => AgentError::SerializationError(m.clone()),
            AgentError::UserError(m) => AgentError::UserError(m.clone()),
            AgentError::ModelBehaviorError(m) => AgentError::ModelBehaviorError(m.clone()),
            AgentError::Other(m) => AgentError::Other(m.clone()),
        }
    }
}

/// What the fallible operations of this crate return.
pub type Result<T> = std::result::Result<T, AgentError>;

fn labelled(label: &str, detail: &str) -> (s: String)
    ensures
        s@ == label@ + detail@,
{
    let mut s = String::from_str(label);
    s.append(detail);
    s
}

impl AgentError {
    /// The error of a tool that could not be found or failed.
    pub fn tool_failed(tool_name: &str, reason: &str) -> (e: AgentError)
        ensures
            e@ == (AgentErrorView::ToolExecutionFailed { tool_name: tool_name@, reason: reason@ }),
    {
        AgentError::ToolExecutionFailed {
            tool_name: String::from_str(tool_name),
            reason: String::from_str(reason),
        }
    }

    /// Whether the failed operation may be tried again.
    pub fn is_retriable(&self) -> (retriable: bool)
        ensures
            retriable == self@.retriable(),
    {
        match self {
            AgentError::ModelError(_) => true,
            AgentError::SessionError(_) => true,
            _ => false,
        }
    }

    /// The text shown to a user for this error.
    pub fn to_string(&self) -> (s: String)
        ensures
            s@ == self@.message(),
    {
        match self {
            AgentError::MaxTurnsExceeded(n) => {
                let digits = decimal_string(*n);
                labelled("Max turns exceeded: ", digits.as_str())
            },
            AgentError::InputGuardrailTriggered(m) => labelled(
                "Input guardrail triggered: ",
                m.as_str(),
            ),
            AgentError::OutputGuardrailTriggered(m) => labelled(
                "Output guardrail triggered: ",
                m.as_str(),
            ),
            AgentError::ToolInputGuardrailTriggered(m) => labelled(
                "Tool input guardrail triggered: ",
                m.as_str(),
            ),
            AgentError::ToolOutputGuardrailTriggered(m) => labelled(
                "Tool output guardrail triggered: ",
                m.as_str(),
            ),
            AgentError::ToolExecutionFailed { tool_name, reason } => {
                let mut s = String::from_str("Tool execution failed: ");
                s.append(tool_name.as_str());
                s.append(": ");
                s.append(reason.as_str());
                s
            },
            AgentError::ToolTimeout(m) => labelled("Tool timeout: ", m.as_str()),
            AgentError::ModelError(m) => labelled("Model error: ", m.as_str()),
            AgentError::SessionError(m) => labelled("Session error: ", m.as_str()),
            AgentError::ConfigError(m) => labelled("Configuration error: ", m.as_str()),
            AgentError::SerializationError(m) => labelled("Serialization error: ", m.as_str()),
            AgentError::UserError(m) => labelled("User error: ", m.as_str()),
            AgentError::ModelBehaviorError(m) => labelled("Model behavior error: ", m.as_str()),
            AgentError::Other(m) => m.clone(),
        }
    }
}

} // verus!
