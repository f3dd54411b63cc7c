//! The runner: the turn loop, one step at a time.
//!
//! A run never calls a backend, a tool, a hook or a session itself. Each
//! step returns a [`RunStep`]: effects for the host to carry out in order,
//! and what the run waits for. The host does its part and hands the answer
//! to the state that the step carries, which gives the next step. A state
//! is used up by the step it takes, so a run cannot be continued twice or
//! from the wrong place.

use std::sync::Arc;
use vstd::prelude::*;
use vstd::string::*;
use crate::accumulator::{indices_in_reach, StreamAccumulator};
use crate::agent::Agent;
use crate::catalog::{catalog_entries, names_unique, resolve, Resolution, ToolCatalog};
use crate::conversation::{
    last_non_assistant_index, lemma_initial_log, lemma_non_assistant_found,
    lemma_non_assistant_kept, tool_message, well_formed, ConversationState,
};
use crate::error::AgentError;
use crate::json::JsonValue;
use crate::lifecycle::{plan_hooks, HookCall, HookEvent, HookId};
use crate::models::{
    clone_messages, lemma_roles_differ, CompletionRequest, CompletionResponse, JsonSchemaFormat,
    Message, ResponseFormat, StreamChunk, ToolCall,
};
use crate::result::RunResult;
use crate::run_model::{
    as_effects, begin_turn, complete, dispatch, emitted, end_of_stream, end_turn, feed, finish,
    hook_effects, not_found_reason, outcome_view, output_name_of, process_answer, request_for,
    respond, settle, sound, start, stream_error_text, stream_failed, tool_report,
    unparsable_output_message, EffectView, PendingView, RunMode, RunStepView, SettledView,
    StreamingView, ToolInvocationView, TurnLoopView,
};
use crate::stream_events::StreamEvent;

verus! {

/// How a run is set up.
#[derive(Debug)]
pub struct RunConfig {
    /// The number of backend calls after which a run without a final
    /// answer fails.
    pub max_turns: usize,
    /// Whether the run has a session to write its last exchange to.
    pub session: bool,
    /// The hooks of the run, in the order of registration.
    pub run_hooks: Vec<HookId>,
}

impl Default for RunConfig {
    /// A budget of a hundred turns, no session and no hooks.
    fn default() -> (config: RunConfig)
        ensures
            config.max_turns == 100,
            !config.session,
            config.run_hooks@ == Seq::<HookId>::empty(),
    {
        RunConfig { max_turns: 100, session: false, run_hooks: Vec::new() }
    }
}

/// Something the host is to carry out.
pub enum Effect {
    /// Call a hook.
    Hook(HookCall),
    /// Show an event to the observer of a streamed run.
    Emit(StreamEvent),
    /// Append these messages to the session.
    Persist(Vec<Message>),
    /// The active agent is now the target of this handoff of the agent
    /// that was active.
    SwitchAgent { handoff: usize },
}

impl View for Effect {
    type V = EffectView;

    open spec fn view(&self) -> EffectView {
        match self {
            Effect::Hook(call) => EffectView::Hook(call@),
            Effect::Emit(event) => EffectView::Emit(event@),
            Effect::Persist(messages) => EffectView::Persist(messages.deep_view()),
            Effect::SwitchAgent { handoff } => EffectView::SwitchAgent { handoff: *handoff as int },
        }
    }
}

impl DeepView for Effect {
    type V = EffectView;

    open spec fn deep_view(&self) -> EffectView {
        self@
    }
}

/// A tool that the host is to execute.
#[derive(Debug)]
pub struct ToolInvocation {
    /// The index of the tool among the active agent's tools.
    pub tool: usize,
    pub name: String,
    pub arguments: JsonValue,
}

impl View for ToolInvocation {
    type V = ToolInvocationView;

    open spec fn view(&self) -> ToolInvocationView {
        ToolInvocationView {
            tool: self.tool as int,
            name: self.name@,
            arguments: self.arguments@,
        }
    }
}

/// The state of a run between two steps.
pub struct TurnLoop {
    mode: RunMode,
    max_turns: usize,
    session: bool,
    run_hooks: Vec<HookId>,
    agent: Arc<Agent>,
    catalog: ToolCatalog,
    conversation: ConversationState,
    turn: usize,
    final_output: String,
}

impl View for TurnLoop {
    type V = TurnLoopView;

    closed spec fn view(&self) -> TurnLoopView {
        TurnLoopView {
            mode: self.mode,
            max_turns: self.max_turns as nat,
            session: self.session,
            run_hooks: self.run_hooks@,
            agent: *self.agent,
            conversation: self.conversation@,
            turn: self.turn as nat,
            final_output: self.final_output@,
        }
    }
}

/// A synchronous run that waits for the backend's answer.
pub struct AwaitingResponse {
    run: TurnLoop,
}

impl View for AwaitingResponse {
    type V = TurnLoopView;

    closed spec fn view(&self) -> TurnLoopView {
        self.run@
    }
}

/// A streamed run that waits for the next chunk.
pub struct AwaitingStream {
    run: TurnLoop,
    accumulator: StreamAccumulator,
}

impl View for AwaitingStream {
    type V = StreamingView;

    closed spec fn view(&self) -> StreamingView {
        StreamingView { run: self.run@, accumulator: self.accumulator@ }
    }
}

/// A run that waits for the result of a tool.
pub struct AwaitingTool {
    run: TurnLoop,
    calls: Vec<ToolCall>,
    at: usize,
}

impl View for AwaitingTool {
    type V = PendingView;

    closed spec fn view(&self) -> PendingView {
        PendingView { run: self.run@, calls: self.calls.deep_view(), at: self.at as int }
    }
}

/// One step of a run: effects to carry out in order, then what the run
/// waits for.
pub enum RunStep {
    /// Ask the backend for a completion and hand it to `then`.
    Complete { effects: Vec<Effect>, request: CompletionRequest, then: AwaitingResponse },
    /// Ask the backend for a streamed completion and hand its chunks to
    /// `then`.
    Stream { effects: Vec<Effect>, request: CompletionRequest, then: AwaitingStream },
    /// Hand the next chunk of the stream to `then`.
    Chunk { effects: Vec<Effect>, then: AwaitingStream },
    /// Execute a tool and hand its result to `then`.
    Execute { effects: Vec<Effect>, call: ToolInvocation, then: AwaitingTool },
    /// The run is over.
    Done { effects: Vec<Effect>, result: Result<RunResult, AgentError> },
}

impl View for RunStep {
    type V = RunStepView;

    open spec fn view(&self) -> RunStepView {
        match self {
            RunStep::Complete { effects, request, then } => RunStepView::Complete {
                effects: effects.deep_view(),
                request: request@,
                then: then@,
            },
            RunStep::Stream { effects, request, then } => RunStepView::Stream {
                effects: effects.deep_view(),
                request: request@,
                then: then@,
            },
            RunStep::Chunk { effects, then } => RunStepView::Chunk {
                effects: effects.deep_view(),
                then: then@,
            },
            RunStep::Execute { effects, call, then } => RunStepView::Execute {
                effects: effects.deep_view(),
                call: call@,
                then: then@,
            },
            RunStep::Done { effects, result } => RunStepView::Done {
                effects: effects.deep_view(),
                result: outcome_view(*result),
            },
        }
    }
}

enum Settled {
    Continue { run: TurnLoop, effects: Vec<Effect> },
    Stop(RunStep),
}

impl View for Settled {
    type V = SettledView;

    closed spec fn view(&self) -> SettledView {
        match self {
            Settled::Continue { run, effects } => SettledView::Continue {
                run: run@,
                effects: effects.deep_view(),
            },
            Settled::Stop(step) => SettledView::Stop(step@),
        }
    }
}

fn push_emit(effects: &mut Vec<Effect>, event: StreamEvent)
    ensures
        final(effects).deep_view() == old(effects).deep_view().push(EffectView::Emit(event@)),
{
    let ghost before = effects.deep_view();
    effects.push(Effect::Emit(event));
    assert(effects.deep_view() =~= before.push(EffectView::Emit(event@)));
}

fn tool_report_text(name: &str, result: &str) -> (text: String)
    ensures
        text@ == tool_report(name@, result@),
{
    let mut text = String::from_str("Tool '");
    text.append(name);
    text.append("' returned: ");
    text.append(result);
    text
}

fn not_found_error(name: &str) -> (e: AgentError)
    ensures
        e@ == (crate::error::AgentErrorView::ToolExecutionFailed {
            tool_name: name@,
            reason: not_found_reason(name@),
        }),
{
    let mut reason = String::from_str("Tool '");
    reason.append(name);
    reason.append("' not found");
    AgentError::ToolExecutionFailed { tool_name: String::from_str(name), reason }
}

fn stream_error_event(error: &AgentError) -> (event: StreamEvent)
    ensures
        event@ == crate::stream_events::raw_text_event(stream_error_text(error@)),
{
    let mut text = String::from_str("Error: ");
    let message = error.to_string();
    text.append(message.as_str());
    StreamEvent::raw_text(text.as_str())
}

/// The result of a run whose final answer is `content`, given what reading
/// the answer as JSON gave. An agent without an answer schema takes the
/// answer as text. With a schema the answer must have parsed.
pub fn structured_result(agent: &Agent, content: &str, parsed: Option<JsonValue>) -> (result:
    Result<RunResult, AgentError>)
    ensures
        outcome_view(result) == match agent.output_schema {
            None => Ok::<crate::result::RunResultView, crate::error::AgentErrorView>(
                crate::result::RunResultView { final_output: content@, structured_output: None },
            ),
            Some(_) => match parsed {
                Some(structured) => Ok(
                    crate::result::RunResultView {
                        final_output: content@,
                        structured_output: Some(structured@),
                    },
                ),
                None => Err(
                    crate::error::AgentErrorView::ModelBehaviorError(
                        unparsable_output_message(output_name_of(*agent)),
                    ),
                ),
            },
        },
{
    match &agent.output_schema {
        None => Ok(RunResult::new(content)),
        Some(_) => match parsed {
            Some(structured) => Ok(RunResult::with_structured(content, structured)),
            None => {
                let mut message = String::from_str("Final output is not valid JSON for schema ");
                match &agent.output_name {
                    Some(name) => message.append(name.as_str()),
                    None => message.append("output"),
                }
                Err(AgentError::ModelBehaviorError(message))
            },
        },
    }
}

impl TurnLoop {
    #[verifier::type_invariant]
    spec fn inv(self) -> bool {
        &&& self.turn < self.max_turns
        &&& well_formed(self.conversation@)
        &&& last_non_assistant_index(self.conversation@) >= 0
        &&& names_unique(catalog_entries(*self.agent))
        &&& self.catalog@ == catalog_entries(*self.agent)
    }

    fn fire(&self, effects: &mut Vec<Effect>, event: &HookEvent)
        ensures
            final(effects).deep_view() == old(effects).deep_view() + hook_effects(event@, self@),
            sound(self@),
    {
        proof {
            use_type_invariant(self);
        }
        let ghost before = effects.deep_view();
        let calls = plan_hooks(event, &self.run_hooks, &self.agent.hooks);
        let ghost plan = calls.deep_view();
        let mut i: usize = 0;
        assert(effects.deep_view() =~= before + as_effects(plan.subrange(0, 0)));
        while i < calls.len()
            invariant
                i <= calls.len(),
                plan == calls.deep_view(),
                effects.deep_view() == before + as_effects(plan.subrange(0, i as int)),
            decreases calls.len() - i,
        {
            let ghost so_far = effects.deep_view();
            let call = calls[i].clone();
            effects.push(Effect::Hook(call));
            proof {
                assert(effects.deep_view() =~= so_far.push(EffectView::Hook(call@)));
                assert(effects.deep_view() =~= before + as_effects(plan.subrange(0, i + 1)));
            }
            i += 1;
        }
        assert(plan.subrange(0, i as int) =~= plan);
    }

    fn emit(&self, effects: &mut Vec<Effect>, event: StreamEvent)
        ensures
            final(effects).deep_view() == old(effects).deep_view() + emitted(self@, seq![event@]),
    {
        let ghost before = effects.deep_view();
        match self.mode {
            RunMode::Streaming => {
                push_emit(effects, event);
                assert(effects.deep_view() =~= before + emitted(self@, seq![event@]));
            },
            RunMode::Synchronous => {
                assert(effects.deep_view() =~= before + emitted(self@, seq![event@]));
            },
        }
    }

    fn request(&self) -> (request: CompletionRequest)
        ensures
            request@ == request_for(self@),
    {
        proof {
            use_type_invariant(self);
        }
        let response_format = match &self.agent.output_schema {
            Some(schema) => {
                let name = match &self.agent.output_name {
                    Some(name) => name.clone(),
                    None => String::from_str("output"),
                };
                Some(
                    ResponseFormat::JsonSchema {
                        json_schema: JsonSchemaFormat {
                            name,
                            description: None,
                            schema: schema.clone(),
                            strict: Some(true),
                        },
                    },
                )
            },
            None => None,
        };
        CompletionRequest {
            messages: clone_messages(self.conversation.messages()),
            model: self.agent.model.clone(),
            tools: self.catalog.request_tools(),
            max_tokens: None,
            response_format,
        }
    }

    fn begin_turn(self, effects: Vec<Effect>) -> (step: RunStep)
        ensures
            step@ == begin_turn(self@, effects.deep_view()),
    {
        let mut effects = effects;
        self.fire(&mut effects, &HookEvent::AgentStart);
        self.fire(&mut effects, &HookEvent::LlmStart);
        let request = self.request();
        match self.mode {
            RunMode::Synchronous => RunStep::Complete {
                effects,
                request,
                then: AwaitingResponse { run: self },
            },
            RunMode::Streaming => RunStep::Stream {
                effects,
                request,
                then: AwaitingStream { run: self, accumulator: StreamAccumulator::new() },
            },
        }
    }

    fn end_turn(self, effects: Vec<Effect>) -> (step: RunStep)
        ensures
            step@ == end_turn(self@, effects.deep_view()),
    {
        proof {
            use_type_invariant(&self);
        }
        if self.turn + 1 >= self.max_turns {
            RunStep::Done { effects, result: Err(AgentError::MaxTurnsExceeded(self.max_turns)) }
        } else {
            let next = TurnLoop {
                mode: self.mode,
                max_turns: self.max_turns,
                session: self.session,
                run_hooks: self.run_hooks,
                agent: self.agent,
                catalog: self.catalog,
                conversation: self.conversation,
                turn: self.turn + 1,
                final_output: self.final_output,
            };
            next.begin_turn(effects)
        }
    }

    fn with_conversation(self, conversation: ConversationState) -> (next: TurnLoop)
        requires
            well_formed(conversation@),
            last_non_assistant_index(conversation@) >= 0,
        ensures
            next@ == (TurnLoopView { conversation: conversation@, ..self@ }),
    {
        proof {
            use_type_invariant(&self);
        }
        TurnLoop {
            mode: self.mode,
            max_turns: self.max_turns,
            session: self.session,
            run_hooks: self.run_hooks,
            agent: self.agent,
            catalog: self.catalog,
            conversation,
            turn: self.turn,
            final_output: self.final_output,
        }
    }

    fn push_assistant(self, content: &str) -> (next: TurnLoop)
        ensures
            next@ == (TurnLoopView {
                conversation: self@.conversation.push(
                    crate::conversation::assistant_message(content@),
                ),
                ..self@
            }),
    {
        proof {
            use_type_invariant(&self);
            lemma_non_assistant_kept(
                self.conversation@,
                crate::conversation::assistant_message(content@),
                Seq::empty(),
            );
        }
        let next = TurnLoop {
            mode: self.mode,
            max_turns: self.max_turns,
            session: self.session,
            run_hooks: self.run_hooks,
            agent: self.agent,
            catalog: self.catalog,
            conversation: self.conversation.push_assistant(content),
            turn: self.turn,
            final_output: self.final_output,
        };
        next
    }

    fn finish(self, effects: Vec<Effect>, content: &str) -> (step: RunStep)
        ensures
            step@ == finish(self@, effects.deep_view(), content@),
    {
        proof {
            use_type_invariant(&self);
        }
        let mut effects = effects;
        self.fire(&mut effects, &HookEvent::AgentEnd { output: String::from_str(content) });
        if self.session {
            let ghost before = effects.deep_view();
            let mut pair: Vec<Message> = Vec::new();
            match self.conversation.last_non_assistant() {
                Some(message) => {
                    pair.push(message);
                },
                None => {},
            }
            pair.push(Message::assistant(content));
            assert(pair.deep_view() =~= crate::run_model::persisted_pair(
                self@.conversation,
                content@,
            ));
            effects.push(Effect::Persist(pair));
            assert(effects.deep_view() =~= before.push(
                EffectView::Persist(
                    crate::run_model::persisted_pair(self@.conversation, content@),
                ),
            ));
        }
        let parsed = if self.agent.output_schema.is_some() {
            JsonValue::parse(content)
        } else {
            None
        };
        let result = structured_result(&self.agent, content, parsed);
        RunStep::Done { effects, result }
    }

    fn settle(
        self,
        effects: Vec<Effect>,
        name: &str,
        result: &JsonValue,
        handoff: Option<usize>,
    ) -> (settled: Settled)
        requires
            handoff matches Some(j) ==> j < self@.agent.handoffs.len(),
        ensures
            settled@ == settle(
                self@,
                effects.deep_view(),
                name@,
                result@,
                match handoff {
                    Some(j) => Some(j as int),
                    None => None,
                },
            ),
    {
        proof {
            use_type_invariant(&self);
            lemma_roles_differ();
        }
        let mut effects = effects;
        self.fire(
            &mut effects,
            &HookEvent::ToolEnd { name: String::from_str(name), result: result.clone() },
        );
        self.emit(&mut effects, StreamEvent::tool_output(name, result.as_str()));
        let report = tool_report_text(name, result.as_str());
        let ghost reported = self@.conversation.push(tool_message(report@));
        proof {
            lemma_non_assistant_found(reported, reported.len() - 1);
        }
        let mode = self.mode;
        let max_turns = self.max_turns;
        let session = self.session;
        let turn = self.turn;
        let run = TurnLoop {
            mode,
            max_turns,
            session,
            run_hooks: self.run_hooks,
            agent: self.agent,
            catalog: self.catalog,
            conversation: self.conversation.push_tool(report.as_str()),
            turn,
            final_output: self.final_output,
        };
        match handoff {
            None => Settled::Continue { run, effects },
            Some(j) => {
                let target = run.agent.handoffs[j].target_agent.clone();
                run.fire(
                    &mut effects,
                    &HookEvent::Handoff { from: run.agent.name.clone(), to: target.name.clone() },
                );
                let ghost before = effects.deep_view();
                effects.push(Effect::SwitchAgent { handoff: j });
                assert(effects.deep_view() =~= before + seq![
                    EffectView::SwitchAgent { handoff: j as int },
                ]);
                let ghost before = effects.deep_view();
                match mode {
                    RunMode::Streaming => {
                        push_emit(&mut effects, StreamEvent::handoff_occurred(target.name.as_str()));
                        push_emit(&mut effects, StreamEvent::agent_updated(target.clone()));
                        assert(effects.deep_view() =~= before + emitted(
                            run@,
                            seq![
                                crate::stream_events::handoff_occurred_event(target.name@),
                                crate::stream_events::agent_updated_event(*target),
                            ],
                        ));
                    },
                    RunMode::Synchronous => {
                        assert(effects.deep_view() =~= before + emitted(
                            run@,
                            seq![
                                crate::stream_events::handoff_occurred_event(target.name@),
                                crate::stream_events::agent_updated_event(*target),
                            ],
                        ));
                    },
                }
                match ToolCatalog::build(&target) {
                    Ok(catalog) => {
                        proof {
                            use_type_invariant(&run);
                            lemma_non_assistant_kept(
                                run.conversation@,
                                tool_message(Seq::empty()),
                                target.instructions@,
                            );
                        }
                        let conversation = run.conversation.sync_system_message(
                            target.instructions.as_str(),
                        );
                        let next = TurnLoop {
                            mode,
                            max_turns,
                            session,
                            run_hooks: run.run_hooks,
                            agent: target,
                            catalog,
                            conversation,
                            turn,
                            final_output: run.final_output,
                        };
                        Settled::Continue { run: next, effects }
                    },
                    Err(error) => Settled::Stop(RunStep::Done { effects, result: Err(error) }),
                }
            },
        }
    }

    #[verifier::loop_isolation(false)]
    fn dispatch(self, effects: Vec<Effect>, calls: Vec<ToolCall>, at: usize) -> (step: RunStep)
        ensures
            step@ == dispatch(self@, effects.deep_view(), calls.deep_view(), at as int),
    {
        let ghost goal = dispatch(self@, effects.deep_view(), calls.deep_view(), at as int);
        let mut run = self;
        let mut effects = effects;
        let mut at = at;
        while at < calls.len()
            invariant
                goal == dispatch(run@, effects.deep_view(), calls.deep_view(), at as int),
            decreases calls.len() - at,
        {
            let name = calls[at].name.clone();
            let arguments = calls[at].arguments.clone();
            assert(calls.deep_view()[at as int] == calls@[at as int]@);
            run.fire(
                &mut effects,
                &HookEvent::ToolStart { name: name.clone(), arguments: arguments.clone() },
            );
            run.emit(&mut effects, StreamEvent::tool_called(name.as_str(), &arguments));
            match resolve(&run.agent, name.as_str()) {
                Resolution::Tool(tool) => {
                    return RunStep::Execute {
                        effects,
                        call: ToolInvocation { tool, name, arguments },
                        then: AwaitingTool { run, calls, at },
                    };
                },
                Resolution::Handoff(j) => {
                    let payload = match run.agent.handoffs[j].execute(&arguments) {
                        Ok(payload) => payload,
                        Err(_) => JsonValue::null(),
                    };
                    match run.settle(effects, name.as_str(), &payload, Some(j)) {
                        Settled::Continue { run: next, effects: more } => {
                            run = next;
                            effects = more;
                        },
                        Settled::Stop(step) => {
                            return step;
                        },
                    }
                },
                Resolution::Unresolved => {
                    match run.mode {
                        RunMode::Synchronous => {
                            return RunStep::Done {
                                effects,
                                result: Err(not_found_error(name.as_str())),
                            };
                        },
                        RunMode::Streaming => {},
                    }
                },
            }
            at += 1;
        }
        run.end_turn(effects)
    }

    fn process_answer(
        self,
        effects: Vec<Effect>,
        content: Option<String>,
        calls: Vec<ToolCall>,
    ) -> (step: RunStep)
        ensures
            step@ == process_answer(
                self@,
                effects.deep_view(),
                content.deep_view(),
                calls.deep_view(),
            ),
    {
        match content {
            Some(text) => {
                let run = self.push_assistant(text.as_str());
                if calls.len() == 0 {
                    run.finish(effects, text.as_str())
                } else {
                    run.dispatch(effects, calls, 0)
                }
            },
            None => self.dispatch(effects, calls, 0),
        }
    }

    fn end_of_stream(self, accumulator: StreamAccumulator, effects: Vec<Effect>) -> (step: RunStep)
        ensures
            step@ == end_of_stream(
                StreamingView { run: self@, accumulator: accumulator@ },
                effects.deep_view(),
            ),
    {
        proof {
            use_type_invariant(&self);
        }
        let mut effects = effects;
        self.fire(&mut effects, &HookEvent::LlmEnd);
        let calls = accumulator.tool_calls();
        let no_slots = accumulator.slots() == 0;
        if !accumulator.content().is_empty() {
            let content = accumulator.content();
            proof {
                lemma_non_assistant_kept(
                    self.conversation@,
                    crate::conversation::assistant_message(content@),
                    Seq::empty(),
                );
            }
            let run = TurnLoop {
                mode: self.mode,
                max_turns: self.max_turns,
                session: self.session,
                run_hooks: self.run_hooks,
                agent: self.agent,
                catalog: self.catalog,
                conversation: self.conversation.push_assistant(content),
                turn: self.turn,
                final_output: String::from_str(content),
            };
            push_emit(&mut effects, StreamEvent::message_output(content));
            if no_slots {
                run.finish(effects, content)
            } else {
                run.dispatch(effects, calls, 0)
            }
        } else {
            self.dispatch(effects, calls, 0)
        }
    }
}

impl RunMode {
    /// What the failure of an effect means for the run: a synchronous run
    /// ends with that failure, a streamed run goes on as if the effect had
    /// been carried out.
    pub fn on_effect_failure(self, error: AgentError) -> (stop: Option<AgentError>)
        ensures
            stop == match self {
                RunMode::Synchronous => Some(error),
                RunMode::Streaming => None,
            },
    {
        match self {
            RunMode::Synchronous => Some(error),
            RunMode::Streaming => None,
        }
    }
}

/// Starts runs.
pub struct Runner;

impl Runner {
    fn start(
        mode: RunMode,
        agent: Arc<Agent>,
        input: &str,
        config: RunConfig,
        history: Result<Vec<Message>, AgentError>,
    ) -> (step: RunStep)
        ensures
            step@ == start(
                mode,
                *agent,
                input@,
                config.max_turns as nat,
                config.session,
                config.run_hooks@,
                outcome_view(history),
            ),
    {
        let earlier = match history {
            Ok(messages) => messages,
            Err(error) => {
                match mode {
                    RunMode::Synchronous => {
                        let effects: Vec<Effect> = Vec::new();
                        assert(effects.deep_view() =~= Seq::empty());
                        return RunStep::Done { effects, result: Err(error) };
                    },
                    RunMode::Streaming => {},
                }
                let none: Vec<Message> = Vec::new();
                assert(none.deep_view() =~= Seq::empty());
                none
            },
        };
        let effects: Vec<Effect> = Vec::new();
        assert(effects.deep_view() =~= Seq::empty());
        let catalog = match ToolCatalog::build(&agent) {
            Ok(catalog) => catalog,
            Err(error) => {
                return RunStep::Done { effects, result: Err(error) };
            },
        };
        if config.max_turns == 0 {
            return RunStep::Done { effects, result: Err(AgentError::MaxTurnsExceeded(0)) };
        }
        let conversation = ConversationState::new(agent.instructions.as_str(), &earlier, input);
        proof {
            lemma_initial_log(agent.instructions@, earlier.deep_view(), input@);
            lemma_roles_differ();
            lemma_non_assistant_found(conversation@, conversation@.len() - 1);
        }
        let run = TurnLoop {
            mode,
            max_turns: config.max_turns,
            session: config.session,
            run_hooks: config.run_hooks,
            agent,
            catalog,
            conversation,
            turn: 0,
            final_output: String::new(),
        };
        run.begin_turn(effects)
    }

    /// Starts a synchronous run of `agent` on `input` with the default
    /// configuration and no earlier conversation.
    pub fn run(agent: Arc<Agent>, input: &str) -> (step: RunStep)
        ensures
            step@ == start(
                RunMode::Synchronous,
                *agent,
                input@,
                100,
                false,
                Seq::empty(),
                Ok(Seq::empty()),
            ),
    {
        let history: Vec<Message> = Vec::new();
        assert(history.deep_view() =~= Seq::empty());
        Runner::start(RunMode::Synchronous, agent, input, RunConfig::default(), Ok(history))
    }

    /// Starts a synchronous run. `history` is what reading the session
    /// gave: the earlier conversation, or the error of the session, which
    /// ends the run at once. A run without a session has an empty history.
    pub fn run_with_config(
        agent: Arc<Agent>,
        input: &str,
        config: RunConfig,
        history: Result<Vec<Message>, AgentError>,
    ) -> (step: RunStep)
        ensures
            step@ == start(
                RunMode::Synchronous,
                *agent,
                input@,
                config.max_turns as nat,
                config.session,
                config.run_hooks@,
                outcome_view(history),
            ),
    {
        Runner::start(RunMode::Synchronous, agent, input, config, history)
    }

    /// Starts a streamed run of `agent` on `input` with the default
    /// configuration and no earlier conversation.
    pub fn run_streamed(agent: Arc<Agent>, input: &str) -> (step: RunStep)
        ensures
            step@ == start(
                RunMode::Streaming,
                *agent,
                input@,
                100,
                false,
                Seq::empty(),
                Ok(Seq::empty()),
            ),
    {
        let history: Vec<Message> = Vec::new();
        assert(history.deep_view() =~= Seq::empty());
        Runner::start(RunMode::Streaming, agent, input, RunConfig::default(), Ok(history))
    }

    /// Starts a streamed run. `history` is what reading the session gave;
    /// a streamed run goes on without earlier conversation where the
    /// session failed.
    pub fn run_streamed_with_config(
        agent: Arc<Agent>,
        input: &str,
        config: RunConfig,
        history: Result<Vec<Message>, AgentError>,
    ) -> (step: RunStep)
        ensures
            step@ == start(
                RunMode::Streaming,
                *agent,
                input@,
                config.max_turns as nat,
                config.session,
                config.run_hooks@,
                outcome_view(history),
            ),
    {
        Runner::start(RunMode::Streaming, agent, input, config, history)
    }
}

impl AwaitingResponse {
    /// The agent that is active.
    pub fn agent(&self) -> (agent: &Arc<Agent>)
        ensures
            **agent == self@.agent,
            sound(self@),
    {
        proof {
            use_type_invariant(&self.run);
        }
        &self.run.agent
    }

    /// The message log.
    pub fn messages(&self) -> (messages: &Vec<Message>)
        ensures
            messages.deep_view() == self@.conversation,
    {
        self.run.conversation.messages()
    }

    /// The number of backend calls that have been answered.
    pub fn turn(&self) -> (turn: usize)
        ensures
            turn == self@.turn,
    {
        self.run.turn
    }

    /// The step after the backend answered. An error of the backend ends
    /// the run. Content without tool calls is the final answer; anything
    /// else is a turn that did not end the run.
    pub fn respond(self, response: Result<CompletionResponse, AgentError>) -> (step: RunStep)
        ensures
            step@ == respond(self@, outcome_view(response)),
    {
        let mut effects: Vec<Effect> = Vec::new();
        assert(effects.deep_view() =~= Seq::empty());
        match response {
            Err(error) => RunStep::Done { effects, result: Err(error) },
            Ok(answer) => {
                self.run.fire(&mut effects, &HookEvent::LlmEnd);
                assert(effects.deep_view() =~= hook_effects(
                    crate::lifecycle::HookEventView::LlmEnd,
                    self@,
                ));
                self.run.process_answer(effects, answer.content, answer.tool_calls)
            },
        }
    }
}

impl AwaitingTool {
    #[verifier::type_invariant]
    spec fn inv(self) -> bool {
        self.at < self.calls.len()
    }

    /// The agent that is active.
    pub fn agent(&self) -> (agent: &Arc<Agent>)
        ensures
            **agent == self@.run.agent,
            sound(self@.run),
            0 <= self@.at < self@.calls.len(),
    {
        proof {
            use_type_invariant(self);
            use_type_invariant(&self.run);
        }
        &self.run.agent
    }

    /// The step after the host executed the tool. A failed tool ends a
    /// synchronous run with the tool's name and the failure's text; a
    /// streamed run passes the call over.
    pub fn complete(self, outcome: Result<JsonValue, AgentError>) -> (step: RunStep)
        ensures
            step@ == complete(self@, outcome_view(outcome)),
    {
        proof {
            use_type_invariant(&self);
        }
        let effects: Vec<Effect> = Vec::new();
        assert(effects.deep_view() =~= Seq::empty());
        let name = self.calls[self.at].name.clone();
        assert(self.calls.deep_view()[self.at as int] == self.calls@[self.at as int]@);
        match outcome {
            Ok(result) => match self.run.settle(effects, name.as_str(), &result, None) {
                Settled::Continue { run, effects } => run.dispatch(effects, self.calls, self.at + 1),
                Settled::Stop(step) => step,
            },
            Err(error) => match self.run.mode {
                RunMode::Synchronous => RunStep::Done {
                    effects,
                    result: Err(
                        AgentError::ToolExecutionFailed {
                            tool_name: name,
                            reason: error.to_string(),
                        },
                    ),
                },
                RunMode::Streaming => self.run.dispatch(effects, self.calls, self.at + 1),
            },
        }
    }
}

impl AwaitingStream {
    /// The agent that is active.
    pub fn agent(&self) -> (agent: &Arc<Agent>)
        ensures
            **agent == self@.run.agent,
            sound(self@.run),
    {
        proof {
            use_type_invariant(&self.run);
        }
        &self.run.agent
    }

    /// The step after the backend failed to open the stream: the observer
    /// is told, and the run ends with the last answer it has seen.
    pub fn failed(self, error: AgentError) -> (step: RunStep)
        ensures
            step@ == stream_failed(self@, error@),
    {
        let mut effects: Vec<Effect> = Vec::new();
        assert(effects.deep_view() =~= Seq::empty());
        push_emit(&mut effects, stream_error_event(&error));
        assert(effects.deep_view() =~= seq![
            EffectView::Emit(crate::stream_events::raw_text_event(stream_error_text(error@))),
        ]);
        RunStep::Done { effects, result: Ok(RunResult::new(self.run.final_output.as_str())) }
    }

    /// The step after the host handed over the next item of the stream: a
    /// chunk, an error in the middle of the stream, or `None` at its end.
    pub fn feed(self, item: Option<Result<StreamChunk, AgentError>>) -> (step: RunStep)
        requires
            item matches Some(Ok(chunk)) ==> indices_in_reach(chunk@),
        ensures
            step@ == feed(
                self@,
                match item {
                    Some(outcome) => Some(outcome_view(outcome)),
                    None => None,
                },
            ),
    {
        let mut effects: Vec<Effect> = Vec::new();
        assert(effects.deep_view() =~= Seq::empty());
        match item {
            Some(Ok(chunk)) => {
                let mut accumulator = self.accumulator;
                match accumulator.absorb(&chunk) {
                    Some(event) => {
                        push_emit(&mut effects, event);
                        assert(effects.deep_view() =~= seq![EffectView::Emit(event@)]);
                    },
                    None => {},
                }
                if chunk.finish_reason.is_some() {
                    self.run.end_of_stream(accumulator, effects)
                } else {
                    RunStep::Chunk { effects, then: AwaitingStream { run: self.run, accumulator } }
                }
            },
            Some(Err(error)) => {
                push_emit(&mut effects, stream_error_event(&error));
                assert(effects.deep_view() =~= seq![
                    EffectView::Emit(
                        crate::stream_events::raw_text_event(stream_error_text(error@)),
                    ),
                ]);
                self.run.end_of_stream(self.accumulator, effects)
            },
            None => self.run.end_of_stream(self.accumulator, effects),
        }
    }
}

} // verus!
