//! The turn loop as mathematics.
//!
//! A run is a conversation between the library and its host. The library
//! decides; the host acts. Each step of the library hands the host a list
//! of effects to carry out in order (hooks to call, events to show, a
//! session write) and then either asks for one thing (a completion, a
//! stream, the next chunk, the result of a tool) or ends the run.
//!
//! This file says what each step is, as functions on plain values. The
//! executable steps of the runner are proved equal to them, and the laws
//! at the end of the file are proved of them.

use vstd::prelude::*;
use crate::accumulator::{absorb_chunk, chunk_event, finished_calls, AccumulatorView};
use crate::agent::Agent;
use crate::catalog::{
    catalog_entries, catalog_error, names_unique, offered, resolution, ResolutionView,
};
use crate::conversation::{
    assistant_message, initial_log, last_non_assistant_index, resynchronized, tool_message,
    well_formed,
};
use crate::error::AgentErrorView;
use crate::handoff::handoff_payload;
use crate::json::json_normalized;
use crate::lifecycle::{hook_plan, HookCallView, HookEventView, HookId};
use crate::models::{
    CompletionRequestView, CompletionResponseView, JsonSchemaFormatView, MessageView,
    ResponseFormatView, StreamChunkView, ToolCallView,
};
use crate::result::RunResultView;
use crate::stream_events::{
    agent_updated_event, handoff_occurred_event, message_output_event, raw_text_event,
    tool_called_event, tool_output_event, StreamEventView,
};

verus! {

/// How a run deals with its host.
#[derive(Clone, Copy, Debug, PartialEq, Eq, Structural)]
pub enum RunMode {
    /// Every failure ends the run and is reported to the caller.
    Synchronous,
    /// The run shows its progress as events; failures of single steps are
    /// passed over.
    Streaming,
}

/// Something the host is to carry out.
pub enum EffectView {
    /// Call a hook.
    Hook(HookCallView),
    /// Show an event to the observer of a streamed run.
    Emit(StreamEventView),
    /// Append these messages to the session.
    Persist(Seq<MessageView>),
    /// The active agent is now the target of this handoff of the agent
    /// that was active.
    SwitchAgent { handoff: int },
}

/// A tool that the host is to execute.
pub struct ToolInvocationView {
    /// The index of the tool among the active agent's tools.
    pub tool: int,
    pub name: Seq<char>,
    pub arguments: Seq<char>,
}

/// The state of a run between two steps.
pub struct TurnLoopView {
    pub mode: RunMode,
    /// The turn budget.
    pub max_turns: nat,
    /// Whether the run writes to a session.
    pub session: bool,
    /// The hooks of the run, in the order of registration.
    pub run_hooks: Seq<HookId>,
    /// The active agent.
    pub agent: Agent,
    /// The message log.
    pub conversation: Seq<MessageView>,
    /// The number of backend calls that have been answered.
    pub turn: nat,
    /// The text of the last answer that a streamed run has seen.
    pub final_output: Seq<char>,
}

/// A streamed run that waits for the next chunk.
pub struct StreamingView {
    pub run: TurnLoopView,
    pub accumulator: AccumulatorView,
}

/// A run that waits for the result of a tool.
pub struct PendingView {
    pub run: TurnLoopView,
    /// The tool calls of the current turn.
    pub calls: Seq<ToolCallView>,
    /// The index of the call that is being executed.
    pub at: int,
}

/// One step of a run: effects to carry out in order, then what the run
/// waits for.
pub enum RunStepView {
    /// Ask the backend for a completion.
    Complete { effects: Seq<EffectView>, request: CompletionRequestView, then: TurnLoopView },
    /// Ask the backend for a streamed completion.
    Stream { effects: Seq<EffectView>, request: CompletionRequestView, then: StreamingView },
    /// Hand over the next chunk of the stream.
    Chunk { effects: Seq<EffectView>, then: StreamingView },
    /// Execute a tool.
    Execute { effects: Seq<EffectView>, call: ToolInvocationView, then: PendingView },
    /// The run is over.
    Done { effects: Seq<EffectView>, result: Result<RunResultView, AgentErrorView> },
}

impl RunStepView {
    /// The effects of the step.
    pub open spec fn effects(self) -> Seq<EffectView> {
        match self {
            RunStepView::Complete { effects, .. } => effects,
            RunStepView::Stream { effects, .. } => effects,
            RunStepView::Chunk { effects, .. } => effects,
            RunStepView::Execute { effects, .. } => effects,
            RunStepView::Done { effects, .. } => effects,
        }
    }
}

/// A state is sound when its turn count is within the budget, its log is
/// well formed and holds a message that the model did not write, and the
/// active agent's catalog has no name twice.
pub open spec fn sound(run: TurnLoopView) -> bool {
    &&& run.turn < run.max_turns
    &&& well_formed(run.conversation)
    &&& last_non_assistant_index(run.conversation) >= 0
    &&& names_unique(catalog_entries(run.agent))
}

/// The report of a tool's result in the message log.
pub open spec fn tool_report(name: Seq<char>, result: Seq<char>) -> Seq<char> {
    "Tool '"@ + name + "' returned: "@ + result
}

/// Why a call failed whose name the active agent does not know.
pub open spec fn not_found_reason(name: Seq<char>) -> Seq<char> {
    "Tool '"@ + name + "' not found"@
}

/// The text that tells the observer of a streamed run about an error of
/// the backend.
pub open spec fn stream_error_text(error: AgentErrorView) -> Seq<char> {
    "Error: "@ + error.message()
}

/// The name under which the agent's answer schema is sent.
pub open spec fn output_name_of(agent: Agent) -> Seq<char> {
    match agent.output_name {
        Some(name) => name@,
        None => "output"@,
    }
}

/// Why a final answer was refused that should follow a schema and is no
/// JSON.
pub open spec fn unparsable_output_message(name: Seq<char>) -> Seq<char> {
    "Final output is not valid JSON for schema "@ + name
}

/// The form of answer that `agent` asks for: its schema, strictly.
pub open spec fn response_format_for(agent: Agent) -> Option<ResponseFormatView> {
    match agent.output_schema {
        Some(schema) => Some(
            ResponseFormatView::JsonSchema {
                json_schema: JsonSchemaFormatView {
                    name: output_name_of(agent),
                    description: None,
                    schema: schema@,
                    strict: Some(true),
                },
            },
        ),
        None => None,
    }
}

/// The request of a turn: the whole log, the active agent's model, its
/// catalog unless that is empty, and the form of answer it asks for.
pub open spec fn request_for(run: TurnLoopView) -> CompletionRequestView {
    CompletionRequestView {
        messages: run.conversation,
        model: run.agent.model@,
        tools: offered(catalog_entries(run.agent)),
        max_tokens: None,
        response_format: response_format_for(run.agent),
    }
}

/// The hook calls for `event`, as effects: hooks of the run first, where
/// the event concerns them, then the hooks of the active agent.
pub open spec fn hook_effects(event: HookEventView, run: TurnLoopView) -> Seq<EffectView> {
    as_effects(hook_plan(event, run.run_hooks, run.agent.hooks@))
}

/// The calls of a plan as effects, in the plan's order.
pub open spec fn as_effects(plan: Seq<HookCallView>) -> Seq<EffectView> {
    Seq::new(plan.len(), |i: int| EffectView::Hook(plan[i]))
}

/// A result with both of its sides as plain values.
pub open spec fn outcome_view<T: DeepView, E: DeepView>(outcome: Result<T, E>) -> Result<
    T::V,
    E::V,
> {
    match outcome {
        Ok(value) => Ok(value.deep_view()),
        Err(error) => Err(error.deep_view()),
    }
}

/// `events` as effects, but only in a streamed run: a synchronous run has
/// no observer.
pub open spec fn emitted(run: TurnLoopView, events: Seq<StreamEventView>) -> Seq<EffectView> {
    if run.mode == RunMode::Streaming {
        Seq::new(events.len(), |i: int| EffectView::Emit(events[i]))
    } else {
        Seq::empty()
    }
}

/// The result of a run whose final answer is `content`. An agent with an
/// answer schema gets the answer as JSON too; an answer that is no JSON is
/// then unexpected behaviour of the model.
pub open spec fn final_result(agent: Agent, content: Seq<char>) -> Result<
    RunResultView,
    AgentErrorView,
> {
    match agent.output_schema {
        None => Ok(RunResultView { final_output: content, structured_output: None }),
        Some(_) => match json_normalized(content) {
            Some(structured) => Ok(
                RunResultView { final_output: content, structured_output: Some(structured) },
            ),
            None => Err(
                AgentErrorView::ModelBehaviorError(
                    unparsable_output_message(output_name_of(agent)),
                ),
            ),
        },
    }
}

/// The pair that is written to the session at the end of a run: the last
/// message that the model did not write, and the final answer.
pub open spec fn persisted_pair(log: Seq<MessageView>, content: Seq<char>) -> Seq<MessageView> {
    seq![log[last_non_assistant_index(log)], assistant_message(content)]
}

/// The start of a turn: the start hooks, the hooks before the backend call,
/// then the request.
pub open spec fn begin_turn(run: TurnLoopView, effects: Seq<EffectView>) -> RunStepView {
    let effects = effects + hook_effects(HookEventView::AgentStart, run) + hook_effects(
        HookEventView::LlmStart,
        run,
    );
    match run.mode {
        RunMode::Synchronous => RunStepView::Complete {
            effects,
            request: request_for(run),
            then: run,
        },
        RunMode::Streaming => RunStepView::Stream {
            effects,
            request: request_for(run),
            then: StreamingView {
                run,
                accumulator: AccumulatorView { content: Seq::empty(), calls: Seq::empty() },
            },
        },
    }
}

/// The end of a turn that brought no final answer: the run fails when the
/// budget is used up, and else goes on with the next turn.
pub open spec fn end_turn(run: TurnLoopView, effects: Seq<EffectView>) -> RunStepView {
    if run.turn + 1 >= run.max_turns {
        RunStepView::Done {
            effects,
            result: Err(AgentErrorView::MaxTurnsExceeded(run.max_turns)),
        }
    } else {
        begin_turn(TurnLoopView { turn: run.turn + 1, ..run }, effects)
    }
}

/// The end of a run with the final answer `content`, which is already the
/// last message of the log: the end hooks, the session write where the run
/// has a session, and the result.
pub open spec fn finish(run: TurnLoopView, effects: Seq<EffectView>, content: Seq<char>)
    -> RunStepView {
    let effects = effects + hook_effects(HookEventView::AgentEnd { output: content }, run);
    let effects = if run.session {
        effects.push(EffectView::Persist(persisted_pair(run.conversation, content)))
    } else {
        effects
    };
    RunStepView::Done { effects, result: final_result(run.agent, content) }
}

/// The first step of a run.
pub open spec fn start(
    mode: RunMode,
    agent: Agent,
    input: Seq<char>,
    max_turns: nat,
    session: bool,
    run_hooks: Seq<HookId>,
    history: Result<Seq<MessageView>, AgentErrorView>,
) -> RunStepView {
    if mode == RunMode::Synchronous && history is Err {
        RunStepView::Done { effects: Seq::empty(), result: Err(history->Err_0) }
    } else if !names_unique(catalog_entries(agent)) {
        RunStepView::Done { effects: Seq::empty(), result: Err(catalog_error(agent)) }
    } else if max_turns == 0 {
        RunStepView::Done {
            effects: Seq::empty(),
            result: Err(AgentErrorView::MaxTurnsExceeded(0)),
        }
    } else {
        let earlier = match history {
            Ok(messages) => messages,
            Err(_) => Seq::empty(),
        };
        begin_turn(
            TurnLoopView {
                mode,
                max_turns,
                session,
                run_hooks,
                agent,
                conversation: initial_log(agent.instructions@, earlier, input),
                turn: 0,
                final_output: Seq::empty(),
            },
            Seq::empty(),
        )
    }
}

/// What handling one tool result leads to.
pub enum SettledView {
    /// The turn goes on with the next call.
    Continue { run: TurnLoopView, effects: Seq<EffectView> },
    /// The run is over.
    Stop(RunStepView),
}

/// The state after control has passed to the target of handoff `handoff`:
/// the target is the active agent, and the system message holds the
/// target's instructions.
pub open spec fn handed_over(run: TurnLoopView, handoff: int) -> TurnLoopView {
    let target = *run.agent.handoffs@[handoff].target_agent;
    TurnLoopView {
        agent: target,
        conversation: resynchronized(run.conversation, target.instructions@),
        ..run
    }
}

/// Handling the result of call `at`: the hooks after a tool, the report in
/// the log and, for a handoff, the change of the active agent. The report
/// is in the log before the agent changes.
pub open spec fn settle(
    run: TurnLoopView,
    effects: Seq<EffectView>,
    name: Seq<char>,
    result: Seq<char>,
    handoff: Option<int>,
) -> SettledView {
    let effects = effects + hook_effects(HookEventView::ToolEnd { name, result }, run) + emitted(
        run,
        seq![tool_output_event(name, result)],
    );
    let run = TurnLoopView {
        conversation: run.conversation.push(tool_message(tool_report(name, result))),
        ..run
    };
    match handoff {
        None => SettledView::Continue { run, effects },
        Some(j) => {
            let target = *run.agent.handoffs@[j].target_agent;
            let effects = effects + hook_effects(
                HookEventView::Handoff { from: run.agent.name@, to: target.name@ },
                run,
            ) + seq![EffectView::SwitchAgent { handoff: j }] + emitted(
                run,
                seq![handoff_occurred_event(target.name@), agent_updated_event(target)],
            );
            if names_unique(catalog_entries(target)) {
                SettledView::Continue { run: handed_over(run, j), effects }
            } else {
                SettledView::Stop(
                    RunStepView::Done { effects, result: Err(catalog_error(target)) },
                )
            }
        },
    }
}

/// The tool calls of a turn from call `at` on. Before each call the hooks
/// are told and a streamed run shows the call. A tool is handed to the
/// host; a handoff is carried out at once; an unknown name fails a
/// synchronous run and is passed over by a streamed one. After the last
/// call the turn ends.
pub open spec fn dispatch(
    run: TurnLoopView,
    effects: Seq<EffectView>,
    calls: Seq<ToolCallView>,
    at: int,
) -> RunStepView
    decreases calls.len() - at,
{
    if at < 0 || at >= calls.len() {
        end_turn(run, effects)
    } else {
        let call = calls[at];
        let effects = effects + hook_effects(
            HookEventView::ToolStart { name: call.name, arguments: call.arguments },
            run,
        ) + emitted(run, seq![tool_called_event(call.name, call.arguments)]);
        match resolution(run.agent, call.name) {
            ResolutionView::Tool(tool) => RunStepView::Execute {
                effects,
                call: ToolInvocationView { tool, name: call.name, arguments: call.arguments },
                then: PendingView { run, calls, at },
            },
            ResolutionView::Handoff(j) => match settle(
                run,
                effects,
                call.name,
                handoff_payload(run.agent.handoffs@[j].target_agent.name@),
                Some(j),
            ) {
                SettledView::Continue { run, effects } => dispatch(run, effects, calls, at + 1),
                SettledView::Stop(step) => step,
            },
            ResolutionView::Unresolved => match run.mode {
                RunMode::Synchronous => RunStepView::Done {
                    effects,
                    result: Err(
                        AgentErrorView::ToolExecutionFailed {
                            tool_name: call.name,
                            reason: not_found_reason(call.name),
                        },
                    ),
                },
                RunMode::Streaming => dispatch(run, effects, calls, at + 1),
            },
        }
    }
}

/// What an answer of the backend leads to. Content without tool calls is
/// the final answer. Content with tool calls is commentary: it goes into
/// the log, and the calls are carried out.
pub open spec fn process_answer(
    run: TurnLoopView,
    effects: Seq<EffectView>,
    content: Option<Seq<char>>,
    calls: Seq<ToolCallView>,
) -> RunStepView {
    match content {
        Some(text) => {
            let run = TurnLoopView {
                conversation: run.conversation.push(assistant_message(text)),
                ..run
            };
            if calls.len() == 0 {
                finish(run, effects, text)
            } else {
                dispatch(run, effects, calls, 0)
            }
        },
        None => dispatch(run, effects, calls, 0),
    }
}

/// The step of a synchronous run after the backend answered.
pub open spec fn respond(
    run: TurnLoopView,
    response: Result<CompletionResponseView, AgentErrorView>,
) -> RunStepView {
    match response {
        Err(error) => RunStepView::Done { effects: Seq::empty(), result: Err(error) },
        Ok(answer) => process_answer(
            run,
            hook_effects(HookEventView::LlmEnd, run),
            answer.content,
            answer.tool_calls,
        ),
    }
}

/// The step after the host executed the tool of call `pending.at`. A
/// failed tool fails a synchronous run; a streamed run passes it over.
pub open spec fn complete(pending: PendingView, outcome: Result<Seq<char>, AgentErrorView>)
    -> RunStepView {
    let name = pending.calls[pending.at].name;
    match outcome {
        Ok(result) => match settle(pending.run, Seq::empty(), name, result, None) {
            SettledView::Continue { run, effects } => dispatch(
                run,
                effects,
                pending.calls,
                pending.at + 1,
            ),
            SettledView::Stop(step) => step,
        },
        Err(error) => match pending.run.mode {
            RunMode::Synchronous => RunStepView::Done {
                effects: Seq::empty(),
                result: Err(
                    AgentErrorView::ToolExecutionFailed {
                        tool_name: name,
                        reason: error.message(),
                    },
                ),
            },
            RunMode::Streaming => dispatch(
                pending.run,
                Seq::empty(),
                pending.calls,
                pending.at + 1,
            ),
        },
    }
}

/// The step of a streamed run whose backend could not open the stream: the
/// observer is told, and the run ends with the last answer it has seen.
pub open spec fn stream_failed(stream: StreamingView, error: AgentErrorView) -> RunStepView {
    RunStepView::Done {
        effects: seq![EffectView::Emit(raw_text_event(stream_error_text(error)))],
        result: Ok(
            RunResultView { final_output: stream.run.final_output, structured_output: None },
        ),
    }
}

/// The step of a streamed run at the end of a stream. Text that arrived is
/// the turn's content; a round without any tool-call buffer counts as an
/// answer without tool calls, and one without content as no content.
pub open spec fn end_of_stream(stream: StreamingView, effects: Seq<EffectView>) -> RunStepView {
    let run = stream.run;
    let content = stream.accumulator.content;
    let effects = effects + hook_effects(HookEventView::LlmEnd, run);
    if content.len() > 0 {
        let run = TurnLoopView {
            conversation: run.conversation.push(assistant_message(content)),
            final_output: content,
            ..run
        };
        let effects = effects.push(EffectView::Emit(message_output_event(content)));
        if stream.accumulator.calls.len() == 0 {
            finish(run, effects, content)
        } else {
            dispatch(run, effects, finished_calls(stream.accumulator.calls), 0)
        }
    } else {
        dispatch(run, effects, finished_calls(stream.accumulator.calls), 0)
    }
}

/// The step of a streamed run after the host handed over the next item of
/// the stream: a chunk, an error, or nothing at the stream's end. A chunk's
/// text is shown at once. The chunk that carries a finish reason ends the
/// stream, and so does an error, of which the observer is told.
pub open spec fn feed(
    stream: StreamingView,
    item: Option<Result<StreamChunkView, AgentErrorView>>,
) -> RunStepView {
    match item {
        Some(Ok(chunk)) => {
            let next = StreamingView {
                run: stream.run,
                accumulator: absorb_chunk(stream.accumulator, chunk),
            };
            let effects = match chunk_event(chunk) {
                Some(event) => seq![EffectView::Emit(event)],
                None => Seq::empty(),
            };
            if chunk.finish_reason is Some {
                end_of_stream(next, effects)
            } else {
                RunStepView::Chunk { effects, then: next }
            }
        },
        Some(Err(error)) => end_of_stream(
            stream,
            seq![EffectView::Emit(raw_text_event(stream_error_text(error)))],
        ),
        None => end_of_stream(stream, Seq::empty()),
    }
}

} // verus!
