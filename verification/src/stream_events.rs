//! What a streamed run lets its observer see.

use std::sync::Arc;
use vstd::prelude::*;
use vstd::string::*;
use crate::agent::Agent;
use crate::json::JsonValue;

verus! {

/// Something a run produced.
#[derive(Clone, Debug)]
pub enum RunItem {
    /// Text that the model wrote.
    MessageOutput { content: String },
    /// A tool call that the model asked for.
    ToolCall { name: String, arguments: JsonValue },
    /// What a tool returned, as JSON text.
    ToolOutput { name: String, output: String },
    /// A handoff was asked for.
    HandoffRequested { agent_name: String },
    /// A handoff took place.
    HandoffOccurred { agent_name: String },
}

/// A [`RunItem`] with its texts as sequences of characters.
pub enum RunItemView {
    MessageOutput { content: Seq<char> },
    ToolCall { name: Seq<char>, arguments: Seq<char> },
    ToolOutput { name: Seq<char>, output: Seq<char> },
    HandoffRequested { agent_name: Seq<char> },
    HandoffOccurred { agent_name: Seq<char> },
}

impl View for RunItem {
    type V = RunItemView;

    open spec fn view(&self) -> RunItemView {
        match self {
            RunItem::MessageOutput { content } => RunItemView::MessageOutput { content: content@ },
            RunItem::ToolCall { name, arguments } => RunItemView::ToolCall {
                name: name@,
                arguments: arguments@,
            },
            RunItem::ToolOutput { name, output } => RunItemView::ToolOutput {
                name: name@,
                output: output@,
            },
            RunItem::HandoffRequested { agent_name } => RunItemView::HandoffRequested {
                agent_name: agent_name@,
            },
            RunItem::HandoffOccurred { agent_name } => RunItemView::HandoffOccurred {
                agent_name: agent_name@,
            },
        }
    }
}

/// Text as it came from the backend.
#[derive(Clone, Debug)]
pub struct RawResponseEvent {
    pub data: String,
}

/// The kinds of run items.
#[derive(Clone, Copy, Debug, PartialEq, Eq, Structural)]
pub enum RunItemEventName {
    MessageOutputCreated,
    HandoffRequested,
    HandoffOccurred,
    ToolCalled,
    ToolOutput,
}

/// A run item together with its kind.
#[derive(Clone, Debug)]
pub struct RunItemStreamEvent {
    pub name: RunItemEventName,
    pub item: RunItem,
}

/// Another agent has become the active one.
#[derive(Clone)]
pub struct AgentUpdatedEvent {
    pub new_agent: Arc<Agent>,
}

/// One event of a streamed run.
#[derive(Clone)]
pub enum StreamEvent {
    /// Text as it came from the backend.
    RawResponse(RawResponseEvent),
    /// Something the run produced.
    RunItem(RunItemStreamEvent),
    /// Another agent has become the active one.
    AgentUpdated(AgentUpdatedEvent),
}

/// A [`StreamEvent`] with its texts as sequences of characters.
pub enum StreamEventView {
    RawResponse { data: Seq<char> },
    RunItem { name: RunItemEventName, item: RunItemView },
    AgentUpdated { new_agent: Agent },
}

impl View for StreamEvent {
    type V = StreamEventView;

    open spec fn view(&self) -> StreamEventView {
        match self {
            StreamEvent::RawResponse(raw) => StreamEventView::RawResponse { data: raw.data@ },
            StreamEvent::RunItem(event) => StreamEventView::RunItem {
                name: event.name,
                item: event.item@,
            },
            StreamEvent::AgentUpdated(update) => StreamEventView::AgentUpdated {
                new_agent: *update.new_agent,
            },
        }
    }
}

impl DeepView for StreamEvent {
    type V = StreamEventView;

    open spec fn deep_view(&self) -> StreamEventView {
        self@
    }
}

/// The event for text as it came from the backend.
pub open spec fn raw_text_event(data: Seq<char>) -> StreamEventView {
    StreamEventView::RawResponse { data }
}

/// The event for text that the model wrote.
pub open spec fn message_output_event(content: Seq<char>) -> StreamEventView {
    StreamEventView::RunItem {
        name: RunItemEventName::MessageOutputCreated,
        item: RunItemView::MessageOutput { content },
    }
}

/// The event for a tool call that the model asked for.
pub open spec fn tool_called_event(name: Seq<char>, arguments: Seq<char>) -> StreamEventView {
    StreamEventView::RunItem {
        name: RunItemEventName::ToolCalled,
        item: RunItemView::ToolCall { name, arguments },
    }
}

/// The event for what a tool returned.
pub open spec fn tool_output_event(name: Seq<char>, output: Seq<char>) -> StreamEventView {
    StreamEventView::RunItem {
        name: RunItemEventName::ToolOutput,
        item: RunItemView::ToolOutput { name, output },
    }
}

/// The event for a handoff that took place.
pub open spec fn handoff_occurred_event(agent_name: Seq<char>) -> StreamEventView {
    StreamEventView::RunItem {
        name: RunItemEventName::HandoffOccurred,
        item: RunItemView::HandoffOccurred { agent_name },
    }
}

/// The event for a change of the active agent.
pub open spec fn agent_updated_event(new_agent: Agent) -> StreamEventView {
    StreamEventView::AgentUpdated { new_agent }
}

/// The name of the kind of event that `event` is.
pub open spec fn event_type_text(event: StreamEventView) -> Seq<char> {
    match event {
        StreamEventView::RawResponse { .. } => "raw_response_event"@,
        StreamEventView::RunItem { .. } => "run_item_stream_event"@,
        StreamEventView::AgentUpdated { .. } => "agent_updated_stream_event"@,
    }
}

impl StreamEvent {
    /// The name of the kind of event.
    pub fn event_type(&self) -> (name: &'static str)
        ensures
            name@ == event_type_text(self@),
    {
        match self {
            StreamEvent::RawResponse(_) => "raw_response_event",
            StreamEvent::RunItem(_) => "run_item_stream_event",
            StreamEvent::AgentUpdated(_) => "agent_updated_stream_event",
        }
    }

    /// The event for text as it came from the backend.
    pub fn raw_text(data: &str) -> (event: StreamEvent)
        ensures
            event@ == raw_text_event(data@),
    {
        StreamEvent::RawResponse(RawResponseEvent { data: String::from_str(data) })
    }

    /// The event for text that the model wrote.
    pub fn message_output(content: &str) -> (event: StreamEvent)
        ensures
            event@ == message_output_event(content@),
    {
        StreamEvent::RunItem(
            RunItemStreamEvent {
                name: RunItemEventName::MessageOutputCreated,
                item: RunItem::MessageOutput { content: String::from_str(content) },
            },
        )
    }

    /// The event for a tool call that the model asked for.
    pub fn tool_called(name: &str, arguments: &JsonValue) -> (event: StreamEvent)
        ensures
            event@ == tool_called_event(name@, arguments@),
    {
        StreamEvent::RunItem(
            RunItemStreamEvent {
                name: RunItemEventName::ToolCalled,
                item: RunItem::ToolCall {
                    name: String::from_str(name),
                    arguments: arguments.clone(),
                },
            },
        )
    }

    /// The event for what a tool returned.
    pub fn tool_output(name: &str, output: &str) -> (event: StreamEvent)
        ensures
            event@ == tool_output_event(name@, output@),
    {
        StreamEvent::RunItem(
            RunItemStreamEvent {
                name: RunItemEventName::ToolOutput,
                item: RunItem::ToolOutput {
                    name: String::from_str(name),
                    output: String::from_str(output),
                },
            },
        )
    }

    /// The event for a handoff that took place.
    pub fn handoff_occurred(agent_name: &str) -> (event: StreamEvent)
        ensures
            event@ == handoff_occurred_event(agent_name@),
    {
        StreamEvent::RunItem(
            RunItemStreamEvent {
                name: RunItemEventName::HandoffOccurred,
                item: RunItem::HandoffOccurred { agent_name: String::from_str(agent_name) },
            },
        )
    }

    /// The event for a change of the active agent.
    pub fn agent_updated(new_agent: Arc<Agent>) -> (event: StreamEvent)
        ensures
            event@ == agent_updated_event(*new_agent),
    {
        StreamEvent::AgentUpdated(AgentUpdatedEvent { new_agent })
    }
}

} // verus!
