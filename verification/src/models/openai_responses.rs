//! Between this crate's requests and responses and the chat completions
//! of the OpenAI API.
//!
//! The types here hold, as plain values, what an adapter reads from and
//! writes to the wire. The adapter itself does the talking.

use vstd::prelude::*;
use vstd::string::*;
use crate::error::{AgentError, AgentErrorView};
use crate::json::{json_normalized, null_text, JsonValue};
use crate::models::{
    assistant_role, system_role, CompletionRequest, CompletionResponse, CompletionResponseView,
    MessageView, StreamChunk, StreamChunkView, ToolCall, ToolCallDelta, ToolCallDeltaView,
    ToolCallView,
};
use crate::text::str_eq;

verus! {

/// Who wrote a message, as the API knows it.
#[derive(Clone, Copy, Debug, PartialEq, Eq, Structural)]
pub enum ChatRole {
    User,
    Assistant,
    System,
}

/// A message as it is sent.
#[derive(Debug)]
pub struct ChatMessage {
    pub role: ChatRole,
    pub content: String,
}

/// A [`ChatMessage`] with its text as a sequence of characters.
pub struct ChatMessageView {
    pub role: ChatRole,
    pub content: Seq<char>,
}

impl View for ChatMessage {
    type V = ChatMessageView;

    open spec fn view(&self) -> ChatMessageView {
        ChatMessageView { role: self.role, content: self.content@ }
    }
}

impl DeepView for ChatMessage {
    type V = ChatMessageView;

    open spec fn deep_view(&self) -> ChatMessageView {
        self@
    }
}

/// A request as it is sent.
#[derive(Debug)]
pub struct ChatRequest {
    pub model: String,
    pub messages: Vec<ChatMessage>,
}

/// Why the model stopped.
#[derive(Clone, Copy, Debug, PartialEq, Eq, Structural)]
pub enum FinishReason {
    Stop,
    Length,
    ToolCalls,
    ContentFilter,
    FunctionCall,
}

/// A tool call as it arrives: the arguments are the text that the model
/// wrote.
#[derive(Debug)]
pub struct ChatToolCall {
    pub id: String,
    pub name: String,
    pub arguments: String,
}

/// A [`ChatToolCall`] with its texts as sequences of characters.
pub struct ChatToolCallView {
    pub id: Seq<char>,
    pub name: Seq<char>,
    pub arguments: Seq<char>,
}

impl View for ChatToolCall {
    type V = ChatToolCallView;

    open spec fn view(&self) -> ChatToolCallView {
        ChatToolCallView { id: self.id@, name: self.name@, arguments: self.arguments@ }
    }
}

impl DeepView for ChatToolCall {
    type V = ChatToolCallView;

    open spec fn deep_view(&self) -> ChatToolCallView {
        self@
    }
}

/// One choice of a response as it arrives.
#[derive(Debug)]
pub struct ChatChoice {
    pub content: Option<String>,
    pub tool_calls: Option<Vec<ChatToolCall>>,
    pub finish_reason: Option<FinishReason>,
}

/// A [`ChatChoice`] with its texts as sequences of characters.
pub struct ChatChoiceView {
    pub content: Option<Seq<char>>,
    pub tool_calls: Option<Seq<ChatToolCallView>>,
    pub finish_reason: Option<FinishReason>,
}

impl View for ChatChoice {
    type V = ChatChoiceView;

    open spec fn view(&self) -> ChatChoiceView {
        ChatChoiceView {
            content: self.content.deep_view(),
            tool_calls: self.tool_calls.deep_view(),
            finish_reason: self.finish_reason,
        }
    }
}

impl DeepView for ChatChoice {
    type V = ChatChoiceView;

    open spec fn deep_view(&self) -> ChatChoiceView {
        self@
    }
}

/// The function part of a streamed tool-call fragment.
#[derive(Debug)]
pub struct ChatFunctionChunk {
    pub name: Option<String>,
    pub arguments: Option<String>,
}

/// A fragment of a tool call as it arrives in a stream.
#[derive(Debug)]
pub struct ChatToolCallChunk {
    pub index: u32,
    pub id: Option<String>,
    pub function: Option<ChatFunctionChunk>,
}

/// A [`ChatToolCallChunk`] with its texts as sequences of characters.
pub struct ChatToolCallChunkView {
    pub index: u32,
    pub id: Option<Seq<char>>,
    /// Name and arguments, where the fragment has a function part.
    pub function: Option<(Option<Seq<char>>, Option<Seq<char>>)>,
}

impl View for ChatToolCallChunk {
    type V = ChatToolCallChunkView;

    open spec fn view(&self) -> ChatToolCallChunkView {
        ChatToolCallChunkView {
            index: self.index,
            id: self.id.deep_view(),
            function: match self.function {
                Some(function) => Some(
                    (function.name.deep_view(), function.arguments.deep_view()),
                ),
                None => None,
            },
        }
    }
}

impl DeepView for ChatToolCallChunk {
    type V = ChatToolCallChunkView;

    open spec fn deep_view(&self) -> ChatToolCallChunkView {
        self@
    }
}

/// One choice of a streamed response as it arrives.
#[derive(Debug)]
pub struct ChatChunkChoice {
    pub content: Option<String>,
    pub tool_calls: Option<Vec<ChatToolCallChunk>>,
    pub finish_reason: Option<FinishReason>,
}

/// A [`ChatChunkChoice`] with its texts as sequences of characters.
pub struct ChatChunkChoiceView {
    pub content: Option<Seq<char>>,
    pub tool_calls: Option<Seq<ChatToolCallChunkView>>,
    pub finish_reason: Option<FinishReason>,
}

impl View for ChatChunkChoice {
    type V = ChatChunkChoiceView;

    open spec fn view(&self) -> ChatChunkChoiceView {
        ChatChunkChoiceView {
            content: self.content.deep_view(),
            tool_calls: self.tool_calls.deep_view(),
            finish_reason: self.finish_reason,
        }
    }
}

impl DeepView for ChatChunkChoice {
    type V = ChatChunkChoiceView;

    open spec fn deep_view(&self) -> ChatChunkChoiceView {
        self@
    }
}

/// The API's role for a message of role `role`: assistant and system
/// messages keep their role, every other message is sent as the user's.
pub open spec fn chat_role_of(role: Seq<char>) -> ChatRole {
    if role == assistant_role() {
        ChatRole::Assistant
    } else if role == system_role() {
        ChatRole::System
    } else {
        ChatRole::User
    }
}

/// The message as it is sent.
pub open spec fn sent_message(message: MessageView) -> ChatMessageView {
    ChatMessageView { role: chat_role_of(message.role), content: message.content }
}

/// The name of a finish reason.
pub open spec fn finish_reason_text(reason: FinishReason) -> Seq<char> {
    match reason {
        FinishReason::Stop => "Stop"@,
        FinishReason::Length => "Length"@,
        FinishReason::ToolCalls => "ToolCalls"@,
        FinishReason::ContentFilter => "ContentFilter"@,
        FinishReason::FunctionCall => "FunctionCall"@,
    }
}

/// The name of an optional finish reason.
pub open spec fn finish_text(reason: Option<FinishReason>) -> Option<Seq<char>> {
    match reason {
        Some(reason) => Some(finish_reason_text(reason)),
        None => None,
    }
}

/// A tool call as the run sees it: the arguments are what `serde_json`
/// reads from the model's text, and `null` where that is no JSON.
pub open spec fn received_call(call: ChatToolCallView) -> ToolCallView {
    ToolCallView {
        id: call.id,
        name: call.name,
        arguments: match json_normalized(call.arguments) {
            Some(compact) => compact,
            None => null_text(),
        },
    }
}

/// The tool calls of a choice as the run sees them.
pub open spec fn received_calls(calls: Option<Seq<ChatToolCallView>>) -> Seq<ToolCallView> {
    match calls {
        Some(calls) => Seq::new(calls.len(), |i: int| received_call(calls[i])),
        None => Seq::empty(),
    }
}

/// The message of the error for a response without choices.
pub open spec fn no_choices_message() -> Seq<char> {
    "No choices in response"@
}

/// A response as the run sees it: the first choice counts, and a response
/// without choices is unexpected behaviour of the model.
pub open spec fn received_response(choices: Seq<ChatChoiceView>) -> Result<
    CompletionResponseView,
    AgentErrorView,
> {
    if choices.len() == 0 {
        Err(AgentErrorView::ModelBehaviorError(no_choices_message()))
    } else {
        Ok(
            CompletionResponseView {
                content: choices[0].content,
                tool_calls: received_calls(choices[0].tool_calls),
                finish_reason: finish_text(choices[0].finish_reason),
            },
        )
    }
}

/// A streamed fragment as the run sees it.
pub open spec fn received_delta(chunk: ChatToolCallChunkView) -> ToolCallDeltaView {
    ToolCallDeltaView {
        index: chunk.index as nat,
        id: chunk.id,
        name: match chunk.function {
            Some(function) => function.0,
            None => None,
        },
        arguments: match chunk.function {
            Some(function) => function.1,
            None => None,
        },
    }
}

/// A chunk as the run sees it: the first choice counts, and a chunk
/// without choices carries nothing.
pub open spec fn received_chunk(choices: Seq<ChatChunkChoiceView>) -> StreamChunkView {
    if choices.len() == 0 {
        StreamChunkView { delta: None, tool_call_deltas: Seq::empty(), finish_reason: None }
    } else {
        StreamChunkView {
            delta: choices[0].content,
            tool_call_deltas: match choices[0].tool_calls {
                Some(calls) => Seq::new(calls.len(), |i: int| received_delta(calls[i])),
                None => Seq::empty(),
            },
            finish_reason: finish_text(choices[0].finish_reason),
        }
    }
}

/// The API's role for a message of role `role`.
pub fn chat_role(role: &str) -> (chat: ChatRole)
    ensures
        chat == chat_role_of(role@),
{
    if str_eq(role, "assistant") {
        ChatRole::Assistant
    } else if str_eq(role, "system") {
        ChatRole::System
    } else {
        ChatRole::User
    }
}

/// The name of a finish reason.
pub fn finish_reason_name(reason: FinishReason) -> (name: String)
    ensures
        name@ == finish_reason_text(reason),
{
    match reason {
        FinishReason::Stop => String::from_str("Stop"),
        FinishReason::Length => String::from_str("Length"),
        FinishReason::ToolCalls => String::from_str("ToolCalls"),
        FinishReason::ContentFilter => String::from_str("ContentFilter"),
        FinishReason::FunctionCall => String::from_str("FunctionCall"),
    }
}

fn finish_name(reason: Option<FinishReason>) -> (name: Option<String>)
    ensures
        name.deep_view() == finish_text(reason),
{
    match reason {
        Some(reason) => Some(finish_reason_name(reason)),
        None => None,
    }
}

fn copy_text(text: &Option<String>) -> (copy: Option<String>)
    ensures
        copy.deep_view() == text.deep_view(),
{
    match text {
        Some(text) => Some(text.clone()),
        None => None,
    }
}

/// The request as it is sent: the model and the messages, each under the
/// role that the API knows for it.
pub fn convert_request(request: &CompletionRequest) -> (sent: ChatRequest)
    ensures
        sent.model@ == request.model@,
        sent.messages.deep_view() == Seq::new(
            request.messages.len() as nat,
            |i: int| sent_message(request.messages@[i]@),
        ),
{
    let mut messages: Vec<ChatMessage> = Vec::new();
    let mut i: usize = 0;
    while i < request.messages.len()
        invariant
            i <= request.messages.len(),
            messages.len() == i,
            forall|k: int| 0 <= k < i ==> messages@[k]@ == sent_message(request.messages@[k]@),
        decreases request.messages.len() - i,
    {
        let message = &request.messages[i];
        messages.push(
            ChatMessage { role: chat_role(message.role.as_str()), content: message.content.clone() },
        );
        i += 1;
    }
    assert(messages.deep_view() =~= Seq::new(
        request.messages.len() as nat,
        |i: int| sent_message(request.messages@[i]@),
    ));
    ChatRequest { model: request.model.clone(), messages }
}

/// The response as the run sees it.
pub fn convert_response(choices: &Vec<ChatChoice>) -> (response: Result<
    CompletionResponse,
    AgentError,
>)
    ensures
        crate::run_model::outcome_view(response) == received_response(choices.deep_view()),
{
    if choices.len() == 0 {
        return Err(AgentError::ModelBehaviorError(String::from_str("No choices in response")));
    }
    let choice = &choices[0];
    assert(choices.deep_view()[0] == choice@);
    let mut tool_calls: Vec<ToolCall> = Vec::new();
    match &choice.tool_calls {
        Some(calls) => {
            let mut i: usize = 0;
            while i < calls.len()
                invariant
                    i <= calls.len(),
                    tool_calls.len() == i,
                    forall|k: int| 0 <= k < i ==> tool_calls@[k]@ == received_call(calls@[k]@),
                decreases calls.len() - i,
            {
                let call = &calls[i];
                tool_calls.push(
                    ToolCall {
                        id: call.id.clone(),
                        name: call.name.clone(),
                        arguments: JsonValue::or_null(JsonValue::parse(call.arguments.as_str())),
                    },
                );
                i += 1;
            }
            assert(tool_calls.deep_view() =~= received_calls(choice@.tool_calls));
        },
        None => {
            assert(tool_calls.deep_view() =~= received_calls(choice@.tool_calls));
        },
    }
    Ok(
        CompletionResponse {
            content: copy_text(&choice.content),
            tool_calls,
            finish_reason: finish_name(choice.finish_reason),
        },
    )
}

/// The chunk as the run sees it.
pub fn convert_chunk(choices: &Vec<ChatChunkChoice>) -> (chunk: StreamChunk)
    ensures
        chunk@ == received_chunk(choices.deep_view()),
{
    let mut tool_call_deltas: Vec<ToolCallDelta> = Vec::new();
    if choices.len() == 0 {
        assert(tool_call_deltas.deep_view() =~= Seq::empty());
        return StreamChunk { delta: None, tool_call_deltas, finish_reason: None };
    }
    let choice = &choices[0];
    assert(choices.deep_view()[0] == choice@);
    match &choice.tool_calls {
        Some(calls) => {
            let mut i: usize = 0;
            while i < calls.len()
                invariant
                    i <= calls.len(),
                    tool_call_deltas.len() == i,
                    forall|k: int|
                        0 <= k < i ==> tool_call_deltas@[k]@ == received_delta(calls@[k]@),
                decreases calls.len() - i,
            {
                let call = &calls[i];
                let (name, arguments) = match &call.function {
                    Some(function) => (copy_text(&function.name), copy_text(&function.arguments)),
                    None => (None, None),
                };
                tool_call_deltas.push(
                    ToolCallDelta {
                        index: call.index as usize,
                        id: copy_text(&call.id),
                        name,
                        arguments,
                    },
                );
                i += 1;
            }
            assert(tool_call_deltas.deep_view() =~= received_chunk(
                choices.deep_view(),
            ).tool_call_deltas);
        },
        None => {
            assert(tool_call_deltas.deep_view() =~= Seq::empty());
        },
    }
    StreamChunk {
        delta: copy_text(&choice.content),
        tool_call_deltas,
        finish_reason: finish_name(choice.finish_reason),
    }
}

} // verus!
