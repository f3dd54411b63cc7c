//! Orchestration of multi-turn conversations between a completion backend
//! and a set of callable tools, with handoffs between cooperating agents.
//!
//! An [`Agent`] is a named profile: instructions, a model, tools, handoffs
//! and hooks. The [`Runner`] runs an agent on an input, turn by turn, until
//! the backend gives a final answer or the turn budget is used up.
//!
//! The library decides and its host acts. A run is a chain of
//! [`RunStep`]s. Each step lists effects for the host to carry out in
//! order (hooks to call, events to show, a session write) and says what
//! the run waits for: a completion, the chunks of a stream, or the result
//! of a tool. The host hands the answer to the state that the step
//! carries and gets the next step. The host may be asynchronous; the
//! library never blocks and never calls out.
//!
//! Every step is proved equal to its definition in [`run_model`], and
//! [`laws`] holds what is proved of every run: the turn budget, the single
//! session write, what a handoff changes.


pub mod accumulator;
pub mod agent;
pub mod catalog;
pub mod config;
pub mod conversation;
pub mod error;
pub mod guardrail;
pub mod handoff;
pub mod json;
pub mod laws;
pub mod lifecycle;
pub mod models;
pub mod result;
pub mod run_model;
pub mod runner;
pub mod session;
pub mod stream_events;
pub mod streaming;
pub mod text;
pub mod tool;

pub use accumulator::StreamAccumulator;
pub use agent::{Agent, AgentBuilder};
pub use catalog::{resolve, Resolution, ToolCatalog};
pub use config::{
    get_default_client, set_default_openai_client, set_default_openai_key, ClientDefaults,
    ClientSource,
};
pub use conversation::ConversationState;
pub use error::{AgentError, Result};
pub use guardrail::{GuardrailId, GuardrailResult, InputGuardrail, OutputGuardrail};
pub use handoff::Handoff;
pub use json::JsonValue;
pub use lifecycle::{HookCall, HookEvent, HookId, HookScope};
pub use models::{
    CompletionRequest, CompletionResponse, CompletionStream, JsonSchemaFormat, Message, ResponseFormat, StreamChunk,
    ToolCall, ToolCallDelta, ToolDefinition,
};
pub use streaming::{RunResultStreaming, StreamedRunResult};
pub use tool::{function_tool, FunctionTool, Tool};
pub use result::RunResult;
pub use run_model::RunMode;
pub use runner::{
    AwaitingResponse, AwaitingStream, AwaitingTool, Effect, RunConfig, RunStep, Runner, ToolInvocation,
};
pub use session::{InMemorySession, SessionSettings};
pub use stream_events::{
    AgentUpdatedEvent, RawResponseEvent, RunItem, RunItemEventName, RunItemStreamEvent, StreamEvent,
};
