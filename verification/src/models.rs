//! The values exchanged with a completion backend: messages, requests,
//! responses and the chunks of a streamed response.

use vstd::prelude::*;
use vstd::string::*;
use crate::error::{AgentError, AgentErrorView};
use crate::json::JsonValue;
use crate::text::str_eq;

pub mod openai_responses;

verus! {

/// The role of the message that carries an agent's instructions.
pub open spec fn system_role() -> Seq<char> {
    "system"@
}

/// The role of a message written by the user.
pub open spec fn user_role() -> Seq<char> {
    "user"@
}

/// The role of a message written by the model.
pub open spec fn assistant_role() -> Seq<char> {
    "assistant"@
}

/// The role of a message that reports what a tool returned.
pub open spec fn tool_role() -> Seq<char> {
    "tool"@
}

/// The four role names are pairwise different.
pub proof fn lemma_roles_differ()
    ensures
        system_role() != user_role(),
        system_role() != assistant_role(),
        system_role() != tool_role(),
        user_role() != assistant_role(),
        user_role() != tool_role(),
        assistant_role() != tool_role(),
{
    reveal_strlit("system");
    reveal_strlit("user");
    reveal_strlit("assistant");
    reveal_strlit("tool");
    assert(system_role().len() == 6);
    assert(user_role().len() == 4);
    assert(assistant_role().len() == 9);
    assert(tool_role().len() == 4);
    assert(user_role()[0] == 'u');
    assert(tool_role()[0] == 't');
}

/// One entry of a conversation.
#[derive(Debug)]
pub struct Message {
    pub role: String,
    pub content: String,
}

/// A [`Message`] with its texts as sequences of characters.
pub struct MessageView {
    pub role: Seq<char>,
    pub content: Seq<char>,
}

impl View for Message {
    type V = MessageView;

    open spec fn view(&self) -> MessageView {
        MessageView { role: self.role@, content: self.content@ }
    }
}

impl DeepView for Message {
    type V = MessageView;

    open spec fn deep_view(&self) -> MessageView {
        self@
    }
}

impl Clone for Message {
    fn clone(&self) -> (copy: Message)
        ensures
            copy@ == self@,
    {
        Message { role: self.role.clone(), content: self.content.clone() }
    }
}

impl Message {
    /// A message with the given role and content.
    pub fn new(role: &str, content: &str) -> (m: Message)
        ensures
            m@ == (MessageView { role: role@, content: content@ }),
    {
        Message { role: String::from_str(role), content: String::from_str(content) }
    }

    /// The message that carries an agent's instructions.
    pub fn system(content: &str) -> (m: Message)
        ensures
            m@ == (MessageView { role: system_role(), content: content@ }),
    {
        Message::new("system", content)
    }

    /// A message written by the user.
    pub fn user(content: &str) -> (m: Message)
        ensures
            m@ == (MessageView { role: user_role(), content: content@ }),
    {
        Message::new("user", content)
    }

    /// A message written by the model.
    pub fn assistant(content: &str) -> (m: Message)
        ensures
            m@ == (MessageView { role: assistant_role(), content: content@ }),
    {
        Message::new("assistant", content)
    }

    /// A message that reports what a tool returned.
    pub fn tool(content: &str) -> (m: Message)
        ensures
            m@ == (MessageView { role: tool_role(), content: content@ }),
    {
        Message::new("tool", content)
    }

    /// Whether this message carries an agent's instructions.
    pub fn is_system(&self) -> (b: bool)
        ensures
            b == (self@.role == system_role()),
    {
        str_eq(self.role.as_str(), "system")
    }

    /// Whether this message was written by the model.
    pub fn is_assistant(&self) -> (b: bool)
        ensures
            b == (self@.role == assistant_role()),
    {
        str_eq(self.role.as_str(), "assistant")
    }
}

/// Copies a list of messages.
pub fn clone_messages(messages: &Vec<Message>) -> (copy: Vec<Message>)
    ensures
        copy.deep_view() == messages.deep_view(),
{
    let mut copy: Vec<Message> = Vec::new();
    let mut i: usize = 0;
    while i < messages.len()
        invariant
            i <= messages.len(),
            copy.len() == i,
            forall|j: int| 0 <= j < i ==> copy@[j]@ == messages@[j]@,
        decreases messages.len() - i,
    {
        copy.push(messages[i].clone());
        i += 1;
    }
    assert(copy.deep_view() =~= messages.deep_view());
    copy
}

/// What the backend is told about one callable tool.
#[derive(Debug)]
pub struct ToolDefinition {
    pub name: String,
    pub description: String,
    pub parameters: JsonValue,
}

/// A [`ToolDefinition`] with its texts as sequences of characters.
pub struct ToolDefinitionView {
    pub name: Seq<char>,
    pub description: Seq<char>,
    pub parameters: Seq<char>,
}

impl View for ToolDefinition {
    type V = ToolDefinitionView;

    open spec fn view(&self) -> ToolDefinitionView {
        ToolDefinitionView {
            name: self.name@,
            description: self.description@,
            parameters: self.parameters@,
        }
    }
}

impl DeepView for ToolDefinition {
    type V = ToolDefinitionView;

    open spec fn deep_view(&self) -> ToolDefinitionView {
        self@
    }
}

impl Clone for ToolDefinition {
    fn clone(&self) -> (copy: ToolDefinition)
        ensures
            copy@ == self@,
    {
        ToolDefinition {
            name: self.name.clone(),
            description: self.description.clone(),
            parameters: self.parameters.clone(),
        }
    }
}

/// Copies a list of tool definitions.
pub fn clone_definitions(definitions: &Vec<ToolDefinition>) -> (copy: Vec<ToolDefinition>)
    ensures
        copy.deep_view() == definitions.deep_view(),
{
    let mut copy: Vec<ToolDefinition> = Vec::new();
    let mut i: usize = 0;
    while i < definitions.len()
        invariant
            i <= definitions.len(),
            copy.len() == i,
            forall|j: int| 0 <= j < i ==> copy@[j]@ == definitions@[j]@,
        decreases definitions.len() - i,
    {
        copy.push(definitions[i].clone());
        i += 1;
    }
    assert(copy.deep_view() =~= definitions.deep_view());
    copy
}

/// A JSON schema that the backend must hold its answer to.
#[derive(Clone, Debug)]
pub struct JsonSchemaFormat {
    pub name: String,
    pub description: Option<String>,
    pub schema: JsonValue,
    pub strict: Option<bool>,
}

/// A [`JsonSchemaFormat`] with its texts as sequences of characters.
pub struct JsonSchemaFormatView {
    pub name: Seq<char>,
    pub description: Option<Seq<char>>,
    pub schema: Seq<char>,
    pub strict: Option<bool>,
}

impl View for JsonSchemaFormat {
    type V = JsonSchemaFormatView;

    open spec fn view(&self) -> JsonSchemaFormatView {
        JsonSchemaFormatView {
            name: self.name@,
            description: self.description.deep_view(),
            schema: self.schema@,
            strict: self.strict,
        }
    }
}

impl DeepView for JsonSchemaFormat {
    type V = JsonSchemaFormatView;

    open spec fn deep_view(&self) -> JsonSchemaFormatView {
        self@
    }
}

/// The form in which the backend is asked to answer.
#[derive(Clone, Debug)]
pub enum ResponseFormat {
    Text,
    JsonObject,
    JsonSchema { json_schema: JsonSchemaFormat },
}

/// A [`ResponseFormat`] with its texts as sequences of characters.
pub enum ResponseFormatView {
    Text,
    JsonObject,
    JsonSchema { json_schema: JsonSchemaFormatView },
}

impl View for ResponseFormat {
    type V = ResponseFormatView;

    open spec fn view(&self) -> ResponseFormatView {
        match self {
            ResponseFormat::Text => ResponseFormatView::Text,
            ResponseFormat::JsonObject => ResponseFormatView::JsonObject,
            ResponseFormat::JsonSchema { json_schema } => ResponseFormatView::JsonSchema {
                json_schema: json_schema@,
            },
        }
    }
}

impl DeepView for ResponseFormat {
    type V = ResponseFormatView;

    open spec fn deep_view(&self) -> ResponseFormatView {
        self@
    }
}

/// One request for a completion.
#[derive(Clone, Debug)]
pub struct CompletionRequest {
    pub messages: Vec<Message>,
    pub model: String,
    pub tools: Option<Vec<ToolDefinition>>,
    pub max_tokens: Option<u32>,
    pub response_format: Option<ResponseFormat>,
}

/// A [`CompletionRequest`] with its texts as sequences of characters.
pub struct CompletionRequestView {
    pub messages: Seq<MessageView>,
    pub model: Seq<char>,
    pub tools: Option<Seq<ToolDefinitionView>>,
    pub max_tokens: Option<u32>,
    pub response_format: Option<ResponseFormatView>,
}

impl View for CompletionRequest {
    type V = CompletionRequestView;

    open spec fn view(&self) -> CompletionRequestView {
        CompletionRequestView {
            messages: self.messages.deep_view(),
            model: self.model@,
            tools: self.tools.deep_view(),
            max_tokens: self.max_tokens,
            response_format: self.response_format.deep_view(),
        }
    }
}

impl DeepView for CompletionRequest {
    type V = CompletionRequestView;

    open spec fn deep_view(&self) -> CompletionRequestView {
        self@
    }
}

/// A tool invocation that the model asks for.
#[derive(Debug)]
pub struct ToolCall {
    pub id: String,
    pub name: String,
    pub arguments: JsonValue,
}

/// A [`ToolCall`] with its texts as sequences of characters.
pub struct ToolCallView {
    pub id: Seq<char>,
    pub name: Seq<char>,
    pub arguments: Seq<char>,
}

impl View for ToolCall {
    type V = ToolCallView;

    open spec fn view(&self) -> ToolCallView {
        ToolCallView { id: self.id@, name: self.name@, arguments: self.arguments@ }
    }
}

impl DeepView for ToolCall {
    type V = ToolCallView;

    open spec fn deep_view(&self) -> ToolCallView {
        self@
    }
}

impl Clone for ToolCall {
    fn clone(&self) -> (copy: ToolCall)
        ensures
            copy@ == self@,
    {
        ToolCall {
            id: self.id.clone(),
            name: self.name.clone(),
            arguments: self.arguments.clone(),
        }
    }
}

/// A complete answer of the backend.
#[derive(Clone, Debug)]
pub struct CompletionResponse {
    pub content: Option<String>,
    pub tool_calls: Vec<ToolCall>,
    pub finish_reason: Option<String>,
}

/// A [`CompletionResponse`] with its texts as sequences of characters.
pub struct CompletionResponseView {
    pub content: Option<Seq<char>>,
    pub tool_calls: Seq<ToolCallView>,
    pub finish_reason: Option<Seq<char>>,
}

impl View for CompletionResponse {
    type V = CompletionResponseView;

    open spec fn view(&self) -> CompletionResponseView {
        CompletionResponseView {
            content: self.content.deep_view(),
            tool_calls: self.tool_calls.deep_view(),
            finish_reason: self.finish_reason.deep_view(),
        }
    }
}

impl DeepView for CompletionResponse {
    type V = CompletionResponseView;

    open spec fn deep_view(&self) -> CompletionResponseView {
        self@
    }
}

/// A fragment of a tool call inside a streamed response. Fragments with
/// the same `index` belong to the same call.
#[derive(Clone, Debug)]
pub struct ToolCallDelta {
    pub index: usize,
    pub id: Option<String>,
    pub name: Option<String>,
    pub arguments: Option<String>,
}

/// A [`ToolCallDelta`] with its texts as sequences of characters.
pub struct ToolCallDeltaView {
    pub index: nat,
    pub id: Option<Seq<char>>,
    pub name: Option<Seq<char>>,
    pub arguments: Option<Seq<char>>,
}

impl View for ToolCallDelta {
    type V = ToolCallDeltaView;

    open spec fn view(&self) -> ToolCallDeltaView {
        ToolCallDeltaView {
            index: self.index as nat,
            id: self.id.deep_view(),
            name: self.name.deep_view(),
            arguments: self.arguments.deep_view(),
        }
    }
}

impl DeepView for ToolCallDelta {
    type V = ToolCallDeltaView;

    open spec fn deep_view(&self) -> ToolCallDeltaView {
        self@
    }
}

/// One chunk of a streamed response.
#[derive(Clone, Debug)]
pub struct StreamChunk {
    /// The next piece of the answer's text, if the chunk carries one.
    pub delta: Option<String>,
    /// Fragments of tool calls.
    pub tool_call_deltas: Vec<ToolCallDelta>,
    /// Set on the chunk that ends the response.
    pub finish_reason: Option<String>,
}

/// A [`StreamChunk`] with its texts as sequences of characters.
pub struct StreamChunkView {
    pub delta: Option<Seq<char>>,
    pub tool_call_deltas: Seq<ToolCallDeltaView>,
    pub finish_reason: Option<Seq<char>>,
}

impl View for StreamChunk {
    type V = StreamChunkView;

    open spec fn view(&self) -> StreamChunkView {
        StreamChunkView {
            delta: self.delta.deep_view(),
            tool_call_deltas: self.tool_call_deltas.deep_view(),
            finish_reason: self.finish_reason.deep_view(),
        }
    }
}

impl DeepView for StreamChunk {
    type V = StreamChunkView;

    open spec fn deep_view(&self) -> StreamChunkView {
        self@
    }
}

/// One item of a stream: a chunk, or the error that broke the stream.
pub open spec fn stream_item_view(item: Result<StreamChunk, AgentError>) -> Result<
    StreamChunkView,
    AgentErrorView,
> {
    match item {
        Ok(chunk) => Ok(chunk@),
        Err(error) => Err(error@),
    }
}

/// A streamed response: the items that are still to come, in order.
pub struct CompletionStream {
    items: Vec<Result<StreamChunk, AgentError>>,
}

impl View for CompletionStream {
    type V = Seq<Result<StreamChunkView, AgentErrorView>>;

    closed spec fn view(&self) -> Seq<Result<StreamChunkView, AgentErrorView>> {
        Seq::new(self.items.len() as nat, |i: int| stream_item_view(self.items@[i]))
    }
}

impl CompletionStream {
    /// The stream that yields `items`, in order.
    pub fn new(items: Vec<Result<StreamChunk, AgentError>>) -> (stream: CompletionStream)
        ensures
            stream@ == Seq::new(items.len() as nat, |i: int| stream_item_view(items@[i])),
    {
        CompletionStream { items }
    }

    /// The next item; `None` once the stream is used up.
    pub fn next(&mut self) -> (item: Option<Result<StreamChunk, AgentError>>)
        ensures
            match item {
                Some(first) => old(self)@.len() > 0 && stream_item_view(first) == old(self)@[0]
                    && final(self)@ == old(self)@.drop_first(),
                None => old(self)@.len() == 0 && final(self)@ == old(self)@,
            },
    {
        if self.items.len() == 0 {
            None
        } else {
            let ghost before = self@;
            let first = self.items.remove(0);
            assert(self@ =~= before.drop_first());
            Some(first)
        }
    }
}

} // verus!
