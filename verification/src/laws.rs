//! What holds of every run.
//!
//! The statements of this file are about the steps of the turn loop as
//! `run_model` defines them; the executable steps of the runner are proved
//! equal to those.

use vstd::prelude::*;
use crate::accumulator::AccumulatorView;
use crate::agent::Agent;
use crate::catalog::{
    catalog_entries, handoff_entries, lemma_resolution_follows_catalog, names_unique, offered,
    resolution, tool_entries, ResolutionView,
};
use crate::conversation::{
    assistant_message, has_system, initial_log, last_non_assistant_index, lemma_initial_log,
    lemma_last_non_assistant, lemma_non_assistant_found, lemma_non_assistant_kept,
    lemma_resynchronized, resynchronized, system_message, tool_message,
};
use crate::error::AgentErrorView;
use crate::lifecycle::{HookEventView, HookId};
use crate::models::{
    assistant_role, lemma_roles_differ, system_role, CompletionResponseView, MessageView,
    ToolCallView,
};
use crate::run_model::{
    complete, dispatch, emitted, end_of_stream, end_turn, final_result, finish, hook_effects,
    persisted_pair, request_for, respond, settle, sound, start, tool_report, EffectView, PendingView, RunMode,
    RunStepView, SettledView, StreamingView, TurnLoopView,
};

verus! {

/// The session writes among `effects`, in order.
pub open spec fn session_writes(effects: Seq<EffectView>) -> Seq<Seq<MessageView>>
    decreases effects.len(),
{
    if effects.len() == 0 {
        Seq::empty()
    } else {
        match effects.last() {
            EffectView::Persist(messages) => session_writes(effects.drop_last()).push(messages),
            _ => session_writes(effects.drop_last()),
        }
    }
}

/// The session writes of two lists of effects, one after the other, are
/// those of the first followed by those of the second.
pub proof fn lemma_session_writes_add(first: Seq<EffectView>, second: Seq<EffectView>)
    ensures
        session_writes(first + second) == session_writes(first) + session_writes(second),
    decreases second.len(),
{
    if second.len() == 0 {
        assert(first + second =~= first);
        assert(session_writes(first) + session_writes(second) =~= session_writes(first));
    } else {
        lemma_session_writes_add(first, second.drop_last());
        assert((first + second).drop_last() =~= first + second.drop_last());
        assert((first + second).last() == second.last());
        match second.last() {
            EffectView::Persist(messages) => {
                assert(session_writes(first + second) =~= session_writes(first) + session_writes(
                    second,
                ));
            },
            _ => {},
        }
    }
}

/// Hook calls write nothing to the session.
pub proof fn lemma_hooks_write_nothing(event: HookEventView, run: TurnLoopView)
    ensures
        session_writes(hook_effects(event, run)) == Seq::<Seq<MessageView>>::empty(),
{
    lemma_no_writes(hook_effects(event, run));
}

/// Effects without a session write write nothing.
proof fn lemma_no_writes(effects: Seq<EffectView>)
    requires
        forall|i: int| 0 <= i < effects.len() ==> !((#[trigger] effects[i]) is Persist),
    ensures
        session_writes(effects) == Seq::<Seq<MessageView>>::empty(),
    decreases effects.len(),
{
    if effects.len() > 0 {
        assert forall|i: int| 0 <= i < effects.drop_last().len() implies !((
        #[trigger] effects.drop_last()[i]) is Persist) by {
            assert(effects.drop_last()[i] == effects[i]);
        }
        lemma_no_writes(effects.drop_last());
        assert(!(effects[effects.len() - 1] is Persist));
    }
}

/// A run of an agent without instructions starts with a request that holds
/// no system message, whatever the earlier conversation was.
pub proof fn law_no_instructions_no_system_message(
    mode: RunMode,
    agent: Agent,
    input: Seq<char>,
    max_turns: nat,
    session: bool,
    run_hooks: Seq<HookId>,
    history: Result<Seq<MessageView>, AgentErrorView>,
)
    requires
        agent.instructions@.len() == 0,
    ensures
        match start(mode, agent, input, max_turns, session, run_hooks, history) {
            RunStepView::Complete { request, then, .. } => then.conversation == request.messages
                && forall|i: int|
                0 <= i < request.messages.len() ==> (#[trigger] request.messages[i]).role
                    != system_role(),
            RunStepView::Stream { request, then, .. } => then.run.conversation == request.messages
                && forall|i: int|
                0 <= i < request.messages.len() ==> (#[trigger] request.messages[i]).role
                    != system_role(),
            RunStepView::Done { result, .. } => result is Err,
            _ => false,
        },
{
    let earlier = match history {
        Ok(messages) => messages,
        Err(_) => Seq::empty(),
    };
    lemma_initial_log(agent.instructions@, earlier, input);
}

/// The first step of a run is sound: a run that starts at all starts in a
/// sound state, with no backend call answered, and asks the backend.
pub proof fn law_start_is_sound(
    mode: RunMode,
    agent: Agent,
    input: Seq<char>,
    max_turns: nat,
    session: bool,
    run_hooks: Seq<HookId>,
    history: Result<Seq<MessageView>, AgentErrorView>,
)
    ensures
        match start(mode, agent, input, max_turns, session, run_hooks, history) {
            RunStepView::Complete { then, .. } => mode == RunMode::Synchronous && sound(then)
                && then.turn == 0 && then.max_turns == max_turns && then.mode == mode
                && then.agent == agent && then.session == session,
            RunStepView::Stream { then, .. } => mode == RunMode::Streaming && sound(then.run)
                && then.run.turn == 0 && then.run.max_turns == max_turns && then.run.mode == mode
                && then.run.agent == agent && then.run.session == session
                && then.accumulator == (AccumulatorView {
                content: Seq::empty(),
                calls: Seq::empty(),
            }),
            RunStepView::Done { effects, result } => effects.len() == 0 && result is Err && (
            names_unique(catalog_entries(agent)) && !(mode == RunMode::Synchronous && history is Err)
                ==> max_turns == 0 && result == Err::<
                crate::result::RunResultView,
                AgentErrorView,
            >(AgentErrorView::MaxTurnsExceeded(0))),
            _ => false,
        },
{
    let earlier = match history {
        Ok(messages) => messages,
        Err(_) => Seq::empty(),
    };
    lemma_initial_log(agent.instructions@, earlier, input);
    lemma_roles_differ();
    let log = initial_log(agent.instructions@, earlier, input);
    lemma_non_assistant_found(log, log.len() - 1);
}

/// An answer with content and without tool calls ends a synchronous run at
/// once, whatever the turn budget: the run's result is the answer, and the
/// run writes to its session exactly once, namely the last message that
/// the model did not write and the answer. A run without a session writes
/// nothing.
pub proof fn law_final_answer_ends_run(
    run: TurnLoopView,
    content: Seq<char>,
    finish_reason: Option<Seq<char>>,
)
    requires
        sound(run),
    ensures
        ({
            let step = respond(
                run,
                Ok(
                    CompletionResponseView {
                        content: Some(content),
                        tool_calls: Seq::empty(),
                        finish_reason,
                    },
                ),
            );
            let last = last_non_assistant_index(run.conversation);
            &&& step is Done
            &&& step->Done_result == final_result(run.agent, content)
            &&& 0 <= last < run.conversation.len()
            &&& run.conversation[last].role != assistant_role()
            &&& session_writes(step.effects()) == if run.session {
                seq![seq![run.conversation[last], assistant_message(content)]]
            } else {
                Seq::empty()
            }
        }),
{
    let answered = TurnLoopView {
        conversation: run.conversation.push(assistant_message(content)),
        ..run
    };
    lemma_final_answer(answered, hook_effects(HookEventView::LlmEnd, run), content);
    lemma_hooks_write_nothing(HookEventView::LlmEnd, run);
    lemma_last_non_assistant(run.conversation);
    lemma_non_assistant_kept(run.conversation, assistant_message(content), Seq::empty());
    let last = last_non_assistant_index(run.conversation);
    assert(answered.conversation[last] == run.conversation[last]);
}

/// A streamed round that brought text and no tool-call fragment ends the
/// run in the same way: one session write of the last message that the
/// model did not write and the answer, for a run that has a session.
pub proof fn law_streamed_answer_ends_run(stream: StreamingView, effects: Seq<EffectView>)
    requires
        sound(stream.run),
        stream.accumulator.content.len() > 0,
        stream.accumulator.calls.len() == 0,
    ensures
        ({
            let step = end_of_stream(stream, effects);
            let content = stream.accumulator.content;
            let last = last_non_assistant_index(stream.run.conversation);
            &&& step is Done
            &&& step->Done_result == final_result(stream.run.agent, content)
            &&& 0 <= last < stream.run.conversation.len()
            &&& stream.run.conversation[last].role != assistant_role()
            &&& session_writes(step.effects()) == session_writes(effects) + if stream.run.session {
                seq![seq![stream.run.conversation[last], assistant_message(content)]]
            } else {
                Seq::empty()
            }
        }),
{
    let run = stream.run;
    let content = stream.accumulator.content;
    let answered = TurnLoopView {
        conversation: run.conversation.push(assistant_message(content)),
        final_output: content,
        ..run
    };
    let before = (effects + hook_effects(HookEventView::LlmEnd, run)).push(
        EffectView::Emit(crate::stream_events::message_output_event(content)),
    );
    lemma_final_answer(answered, before, content);
    lemma_hooks_write_nothing(HookEventView::LlmEnd, run);
    lemma_session_writes_add(effects, hook_effects(HookEventView::LlmEnd, run));
    assert(before.drop_last() =~= effects + hook_effects(HookEventView::LlmEnd, run));
    assert(session_writes(before) =~= session_writes(effects));
    lemma_last_non_assistant(run.conversation);
    lemma_non_assistant_kept(run.conversation, assistant_message(content), Seq::empty());
    let last = last_non_assistant_index(run.conversation);
    assert(answered.conversation[last] == run.conversation[last]);
    assert(session_writes(effects) + Seq::<Seq<MessageView>>::empty() =~= session_writes(
        effects,
    ));
}

/// The end of a run adds the end hooks and, with a session, one write.
proof fn lemma_final_answer(run: TurnLoopView, effects: Seq<EffectView>, content: Seq<char>)
    ensures
        finish(run, effects, content) is Done,
        finish(run, effects, content)->Done_result == final_result(run.agent, content),
        session_writes(finish(run, effects, content).effects()) == session_writes(effects)
            + if run.session {
            seq![persisted_pair(run.conversation, content)]
        } else {
            Seq::empty()
        },
{
    let end = hook_effects(HookEventView::AgentEnd { output: content }, run);
    lemma_hooks_write_nothing(HookEventView::AgentEnd { output: content }, run);
    lemma_session_writes_add(effects, end);
    assert(session_writes(effects) + Seq::<Seq<MessageView>>::empty() =~= session_writes(
        effects,
    ));
    if run.session {
        let all = (effects + end).push(
            EffectView::Persist(persisted_pair(run.conversation, content)),
        );
        assert(all.drop_last() =~= effects + end);
        assert(session_writes(all) =~= session_writes(effects) + seq![
            persisted_pair(run.conversation, content),
        ]);
    }
}

/// The first answer of a synchronous run, if it has content and no tool
/// calls, ends the run after that one backend call, whatever the budget,
/// as long as there is one.
pub proof fn law_first_answer_ends_run(
    agent: Agent,
    input: Seq<char>,
    max_turns: nat,
    session: bool,
    run_hooks: Seq<HookId>,
    history: Seq<MessageView>,
    content: Seq<char>,
)
    requires
        names_unique(catalog_entries(agent)),
        max_turns > 0,
    ensures
        ({
            let first = start(
                RunMode::Synchronous,
                agent,
                input,
                max_turns,
                session,
                run_hooks,
                Ok(history),
            );
            &&& first is Complete
            &&& first->Complete_then.turn == 0
            &&& respond(
                first->Complete_then,
                Ok(
                    CompletionResponseView {
                        content: Some(content),
                        tool_calls: Seq::empty(),
                        finish_reason: None,
                    },
                ),
            ) is Done
        }),
{
    law_start_is_sound(
        RunMode::Synchronous,
        agent,
        input,
        max_turns,
        session,
        run_hooks,
        Ok(history),
    );
}

/// What a handoff does. Once the result of a handoff call is settled, and
/// the target's catalog has no name twice, the target is the active agent:
/// the catalog that is offered to the backend is the target's tools and
/// handoffs, the log's system message holds the target's instructions, and
/// names are resolved against the target alone. The report of the call
/// stands in the log, and the state is sound again.
pub proof fn law_handoff_switches_agent(
    run: TurnLoopView,
    effects: Seq<EffectView>,
    name: Seq<char>,
    result: Seq<char>,
    handoff: int,
)
    requires
        sound(run),
        0 <= handoff < run.agent.handoffs.len(),
        names_unique(catalog_entries(*run.agent.handoffs@[handoff].target_agent)),
    ensures
        ({
            let target = *run.agent.handoffs@[handoff].target_agent;
            let reported = run.conversation.push(tool_message(tool_report(name, result)));
            &&& settle(run, effects, name, result, Some(handoff)) is Continue
            &&& ({
                let next = settle(run, effects, name, result, Some(handoff))->Continue_run;
                &&& sound(next)
                &&& next.agent == target
                &&& catalog_entries(next.agent) == tool_entries(target.tools@) + handoff_entries(
                    target.handoffs@,
                )
                &&& request_for(next).tools == offered(catalog_entries(target))
                &&& next.conversation == resynchronized(reported, target.instructions@)
                &&& has_system(next.conversation) <==> (has_system(run.conversation)
                    || target.instructions@.len() > 0)
                &&& has_system(next.conversation) ==> next.conversation[0] == system_message(
                    target.instructions@,
                )
                &&& forall|i: int|
                    0 < i < next.conversation.len() ==> (#[trigger] next.conversation[i]).role
                        != system_role()
                &&& forall|called: Seq<char>| #[trigger]
                    resolution(next.agent, called) == resolution(target, called)
                &&& next.turn == run.turn && next.max_turns == run.max_turns && next.mode
                    == run.mode && next.session == run.session && next.run_hooks == run.run_hooks
            })
        }),
{
    let target = *run.agent.handoffs@[handoff].target_agent;
    let reported = run.conversation.push(tool_message(tool_report(name, result)));
    lemma_report_keeps_sound(run, name, result);
    lemma_resynchronized(reported, target.instructions@);
    lemma_non_assistant_kept(reported, tool_message(Seq::empty()), target.instructions@);
    assert(has_system(reported) == has_system(run.conversation)) by {
        lemma_roles_differ();
        if run.conversation.len() > 0 {
            assert(reported[0] == run.conversation[0]);
        }
    }
}

/// The report of a tool's result keeps a state sound.
pub proof fn lemma_report_keeps_sound(run: TurnLoopView, name: Seq<char>, result: Seq<char>)
    requires
        sound(run),
    ensures
        sound(
            TurnLoopView {
                conversation: run.conversation.push(tool_message(tool_report(name, result))),
                ..run
            },
        ),
{
    lemma_roles_differ();
    let reported = run.conversation.push(tool_message(tool_report(name, result)));
    assert forall|i: int| 0 < i < reported.len() implies (#[trigger] reported[i]).role
        != system_role() by {
        if i < run.conversation.len() {
            assert(reported[i] == run.conversation[i]);
        }
    }
    lemma_non_assistant_found(reported, reported.len() - 1);
}

/// Appending what the model said keeps a state sound.
pub proof fn lemma_commentary_keeps_sound(run: TurnLoopView, content: Seq<char>)
    requires
        sound(run),
    ensures
        sound(
            TurnLoopView {
                conversation: run.conversation.push(assistant_message(content)),
                ..run
            },
        ),
{
    lemma_roles_differ();
    let extended = run.conversation.push(assistant_message(content));
    assert forall|i: int| 0 < i < extended.len() implies (#[trigger] extended[i]).role
        != system_role() by {
        if i < run.conversation.len() {
            assert(extended[i] == run.conversation[i]);
        }
    }
    lemma_non_assistant_kept(run.conversation, assistant_message(content), Seq::empty());
}

/// What the host hands back to a run.
pub enum ReplyView {
    /// The backend's answer to a request for a completion.
    Answer(Result<CompletionResponseView, AgentErrorView>),
    /// The backend could not open the stream that was asked for.
    StreamFailed(AgentErrorView),
    /// The next item of a stream: a chunk, an error, or nothing at its end.
    Item(Option<Result<crate::models::StreamChunkView, AgentErrorView>>),
    /// The result of the tool that was to be executed.
    ToolResult(Result<Seq<char>, AgentErrorView>),
}

/// The step that follows `step` once the host handed back `reply`. A reply
/// that the step does not wait for changes nothing.
pub open spec fn after_reply(step: RunStepView, reply: ReplyView) -> RunStepView {
    match (step, reply) {
        (RunStepView::Complete { then, .. }, ReplyView::Answer(answer)) => respond(then, answer),
        (RunStepView::Stream { then, .. }, ReplyView::StreamFailed(error)) => {
            crate::run_model::stream_failed(then, error)
        },
        (RunStepView::Stream { then, .. }, ReplyView::Item(item)) => crate::run_model::feed(
            then,
            item,
        ),
        (RunStepView::Chunk { then, .. }, ReplyView::Item(item)) => crate::run_model::feed(
            then,
            item,
        ),
        (RunStepView::Execute { then, .. }, ReplyView::ToolResult(outcome)) => complete(
            then,
            outcome,
        ),
        _ => step,
    }
}

/// Whether `reply`, handed back at `step`, is the end of the backend's
/// answer to one request: a completion, a stream that could not be opened,
/// or the last item of a stream.
pub open spec fn answers_backend_call(step: RunStepView, reply: ReplyView) -> bool {
    match (step, reply) {
        (RunStepView::Complete { .. }, ReplyView::Answer(_)) => true,
        (RunStepView::Stream { .. }, ReplyView::StreamFailed(_)) => true,
        (RunStepView::Stream { .. }, ReplyView::Item(item)) => ends_stream(item),
        (RunStepView::Chunk { .. }, ReplyView::Item(item)) => ends_stream(item),
        _ => false,
    }
}

/// Whether a stream ends with this item: at its end, at an error, and at
/// the chunk that carries a finish reason.
pub open spec fn ends_stream(
    item: Option<Result<crate::models::StreamChunkView, AgentErrorView>>,
) -> bool {
    match item {
        Some(Ok(chunk)) => chunk.finish_reason is Some,
        _ => true,
    }
}

/// The step that a run has reached after the replies, starting at `step`.
pub open spec fn replay(step: RunStepView, replies: Seq<ReplyView>) -> RunStepView
    decreases replies.len(),
{
    if replies.len() == 0 {
        step
    } else {
        after_reply(replay(step, replies.drop_last()), replies.last())
    }
}

/// The number of backend calls that were answered along the way.
pub open spec fn backend_calls(step: RunStepView, replies: Seq<ReplyView>) -> nat
    decreases replies.len(),
{
    if replies.len() == 0 {
        0
    } else if answers_backend_call(replay(step, replies.drop_last()), replies.last()) {
        backend_calls(step, replies.drop_last()) + 1
    } else {
        backend_calls(step, replies.drop_last())
    }
}

/// Whether a reply is an answer that does not end the run: it is no error,
/// and it has tool calls or no content.
pub open spec fn goes_on(reply: ReplyView) -> bool {
    reply matches ReplyView::Answer(answer) ==> answer matches Ok(response) && !(response.content
        is Some && response.tool_calls.len() == 0)
}

/// Whether an error is one that the run itself raises on the way: a tool
/// that failed or is unknown, a catalog with a name twice, or the budget.
pub open spec fn raised_by_run(error: AgentErrorView) -> bool {
    error is MaxTurnsExceeded || error is ToolExecutionFailed || error is ConfigError
}

/// Whether the log ends with a message that the model did not write.
pub open spec fn ends_with_other(log: Seq<MessageView>) -> bool {
    log.len() > 0 && log.last().role != assistant_role()
}

/// Whether an error can end a streamed run: the budget, a catalog with a
/// name twice, or a final answer that should be JSON and is not. The
/// failures of tools, hooks and the session never end a streamed run.
pub open spec fn survives_streaming(error: AgentErrorView) -> bool {
    error is MaxTurnsExceeded || error is ConfigError || error is ModelBehaviorError
}

/// What holds of a step of a run with budget `budget` after `answered`
/// backend calls. A synchronous run asks the backend only with a log that
/// ends with a message that the model did not write. With `unfinished` set, the run is synchronous and no
/// answer so far would have ended it; with `streamed` set, the run is
/// streamed.
pub open spec fn within_budget(
    step: RunStepView,
    budget: nat,
    answered: nat,
    unfinished: bool,
    streamed: bool,
) -> bool {
    &&& answered <= budget
    &&& match step {
        RunStepView::Complete { then, .. } => !streamed && sound(then) && then.mode
            == RunMode::Synchronous && then.max_turns == budget && then.turn == answered
            && ends_with_other(then.conversation),
        RunStepView::Stream { then, .. } => !unfinished && sound(then.run) && then.run.mode
            == RunMode::Streaming && then.run.max_turns == budget && then.run.turn == answered,
        RunStepView::Chunk { then, .. } => !unfinished && sound(then.run) && then.run.mode
            == RunMode::Streaming && then.run.max_turns == budget && then.run.turn == answered,
        RunStepView::Execute { then, .. } => sound(then.run) && then.run.max_turns == budget
            && then.run.turn + 1 == answered && 0 <= then.at < then.calls.len() && (unfinished
            ==> then.run.mode == RunMode::Synchronous) && (streamed ==> then.run.mode
            == RunMode::Streaming),
        RunStepView::Done { result, .. } => (result matches Err(
            AgentErrorView::MaxTurnsExceeded(n),
        ) ==> n == budget && answered == budget) && (unfinished ==> result is Err && raised_by_run(
            result->Err_0,
        )) && (streamed ==> result is Ok || survives_streaming(result->Err_0)),
    }
}

/// Settling a tool's result keeps the state sound, the turn and the
/// budget, and leaves the report as the last message; it stops a run only
/// for a catalog with a name twice.
proof fn lemma_settle_within_budget(
    run: TurnLoopView,
    effects: Seq<EffectView>,
    name: Seq<char>,
    result: Seq<char>,
    handoff: Option<int>,
)
    requires
        sound(run),
        handoff matches Some(j) ==> 0 <= j < run.agent.handoffs.len(),
    ensures
        match settle(run, effects, name, result, handoff) {
            SettledView::Continue { run: next, .. } => sound(next) && next.turn == run.turn
                && next.max_turns == run.max_turns && next.mode == run.mode && ends_with_other(
                next.conversation,
            ),
            SettledView::Stop(step) => step is Done && step->Done_result is Err
                && step->Done_result->Err_0 is ConfigError,
        },
{
    lemma_report_keeps_sound(run, name, result);
    lemma_roles_differ();
    let reported = run.conversation.push(tool_message(tool_report(name, result)));
    lemma_last_non_assistant(run.conversation);
    assert(reported.len() >= 2);
    match handoff {
        None => {},
        Some(j) => {
            let target = *run.agent.handoffs@[j].target_agent;
            if names_unique(catalog_entries(target)) {
                law_handoff_switches_agent(run, effects, name, result, j);
                let synced = resynchronized(reported, target.instructions@);
                assert(synced.last() == reported.last());
            }
        },
    }
}

/// The end of a turn keeps a run within its budget.
proof fn lemma_end_turn_within_budget(run: TurnLoopView, effects: Seq<EffectView>, unfinished: bool, streamed: bool)
    requires
        sound(run),
        unfinished ==> run.mode == RunMode::Synchronous,
        streamed ==> run.mode == RunMode::Streaming,
        run.mode == RunMode::Synchronous ==> ends_with_other(run.conversation),
    ensures
        within_budget(end_turn(run, effects), run.max_turns, run.turn + 1, unfinished, streamed),
{
}

/// The tool calls of a turn keep a run within its budget.
proof fn lemma_dispatch_within_budget(
    run: TurnLoopView,
    effects: Seq<EffectView>,
    calls: Seq<ToolCallView>,
    at: int,
    unfinished: bool,
    streamed: bool,
)
    requires
        sound(run),
        unfinished ==> run.mode == RunMode::Synchronous,
        streamed ==> run.mode == RunMode::Streaming,
        run.mode == RunMode::Synchronous ==> ends_with_other(run.conversation) || 0 <= at
            < calls.len(),
    ensures
        within_budget(dispatch(run, effects, calls, at), run.max_turns, run.turn + 1, unfinished, streamed),
    decreases calls.len() - at,
{
    if at < 0 || at >= calls.len() {
        lemma_end_turn_within_budget(run, effects, unfinished, streamed);
    } else {
        let call = calls[at];
        let effects = effects + hook_effects(
            HookEventView::ToolStart { name: call.name, arguments: call.arguments },
            run,
        ) + emitted(run, seq![crate::stream_events::tool_called_event(call.name, call.arguments)]);
        lemma_resolution_follows_catalog(run.agent, call.name);
        match resolution(run.agent, call.name) {
            ResolutionView::Tool(_) => {},
            ResolutionView::Handoff(j) => {
                let payload = crate::handoff::handoff_payload(
                    run.agent.handoffs@[j].target_agent.name@,
                );
                lemma_settle_within_budget(run, effects, call.name, payload, Some(j));
                match settle(run, effects, call.name, payload, Some(j)) {
                    SettledView::Continue { run: next, effects: more } => {
                        lemma_dispatch_within_budget(next, more, calls, at + 1, unfinished, streamed);
                    },
                    SettledView::Stop(_) => {},
                }
            },
            ResolutionView::Unresolved => {
                if run.mode == RunMode::Streaming {
                    lemma_dispatch_within_budget(run, effects, calls, at + 1, unfinished, streamed);
                }
            },
        }
    }
}

/// The end of a stream keeps a run within its budget.
proof fn lemma_end_of_stream_within_budget(
    stream: StreamingView,
    effects: Seq<EffectView>,
    streamed: bool,
)
    requires
        sound(stream.run),
        stream.run.mode == RunMode::Streaming,
    ensures
        within_budget(
            end_of_stream(stream, effects),
            stream.run.max_turns,
            stream.run.turn + 1,
            false,
            streamed,
        ),
{
    let run = stream.run;
    let content = stream.accumulator.content;
    let effects = effects + hook_effects(HookEventView::LlmEnd, run);
    let calls = crate::accumulator::finished_calls(stream.accumulator.calls);
    if content.len() > 0 {
        lemma_commentary_keeps_sound(run, content);
        let said = TurnLoopView {
            conversation: run.conversation.push(assistant_message(content)),
            final_output: content,
            ..run
        };
        let effects = effects.push(
            EffectView::Emit(crate::stream_events::message_output_event(content)),
        );
        if stream.accumulator.calls.len() > 0 {
            lemma_dispatch_within_budget(said, effects, calls, 0, false, streamed);
        }
    } else {
        lemma_dispatch_within_budget(run, effects, calls, 0, false, streamed);
    }
}

/// One reply keeps a run within its budget.
proof fn lemma_reply_within_budget(
    step: RunStepView,
    reply: ReplyView,
    budget: nat,
    answered: nat,
    unfinished: bool,
    streamed: bool,
)
    requires
        within_budget(step, budget, answered, unfinished, streamed),
        reply matches ReplyView::Answer(answer) ==> answer is Ok,
        unfinished ==> goes_on(reply),
    ensures
        within_budget(
            after_reply(step, reply),
            budget,
            if answers_backend_call(step, reply) {
                answered + 1
            } else {
                answered
            },
            unfinished,
            streamed,
        ),
{
    match (step, reply) {
        (RunStepView::Complete { then, .. }, ReplyView::Answer(answer)) => {
            let response = answer->Ok_0;
            let effects = hook_effects(HookEventView::LlmEnd, then);
            match response.content {
                Some(text) => {
                    lemma_commentary_keeps_sound(then, text);
                    let said = TurnLoopView {
                        conversation: then.conversation.push(assistant_message(text)),
                        ..then
                    };
                    if response.tool_calls.len() > 0 {
                        lemma_dispatch_within_budget(
                            said,
                            effects,
                            response.tool_calls,
                            0,
                            unfinished,
                            streamed,
                        );
                    }
                },
                None => {
                    lemma_dispatch_within_budget(then, effects, response.tool_calls, 0, unfinished, streamed);
                },
            }
        },
        (RunStepView::Stream { then, .. }, ReplyView::StreamFailed(_)) => {},
        (RunStepView::Stream { then, .. }, ReplyView::Item(item)) => {
            lemma_feed_within_budget(then, item, streamed);
        },
        (RunStepView::Chunk { then, .. }, ReplyView::Item(item)) => {
            lemma_feed_within_budget(then, item, streamed);
        },
        (RunStepView::Execute { then, .. }, ReplyView::ToolResult(outcome)) => {
            let name = then.calls[then.at].name;
            match outcome {
                Ok(result) => {
                    lemma_settle_within_budget(then.run, Seq::empty(), name, result, None);
                    match settle(then.run, Seq::empty(), name, result, None) {
                        SettledView::Continue { run, effects } => {
                            lemma_dispatch_within_budget(
                                run,
                                effects,
                                then.calls,
                                then.at + 1,
                                unfinished,
                                streamed,
                            );
                        },
                        SettledView::Stop(_) => {},
                    }
                },
                Err(_) => {
                    if then.run.mode == RunMode::Streaming {
                        lemma_dispatch_within_budget(
                            then.run,
                            Seq::empty(),
                            then.calls,
                            then.at + 1,
                            unfinished,
                            streamed,
                        );
                    }
                },
            }
        },
        _ => {},
    }
}

/// One item of a stream keeps a run within its budget.
proof fn lemma_feed_within_budget(
    stream: StreamingView,
    item: Option<Result<crate::models::StreamChunkView, AgentErrorView>>,
    streamed: bool,
)
    requires
        sound(stream.run),
        stream.run.mode == RunMode::Streaming,
    ensures
        within_budget(
            crate::run_model::feed(stream, item),
            stream.run.max_turns,
            if ends_stream(item) {
                stream.run.turn + 1
            } else {
                stream.run.turn
            },
            false,
            streamed,
        ),
{
    match item {
        Some(Ok(chunk)) => {
            let next = StreamingView {
                run: stream.run,
                accumulator: crate::accumulator::absorb_chunk(stream.accumulator, chunk),
            };
            let effects = match crate::accumulator::chunk_event(chunk) {
                Some(event) => seq![EffectView::Emit(event)],
                None => Seq::empty(),
            };
            if chunk.finish_reason is Some {
                lemma_end_of_stream_within_budget(next, effects, streamed);
            }
        },
        Some(Err(error)) => {
            lemma_end_of_stream_within_budget(
                stream,
                seq![
                    EffectView::Emit(
                        crate::stream_events::raw_text_event(
                            crate::run_model::stream_error_text(error),
                        ),
                    ),
                ],
                streamed,
            );
        },
        None => {
            lemma_end_of_stream_within_budget(stream, Seq::empty(), streamed);
        },
    }
}

/// The turn budget. Take any run, in either mode, and any replies of the
/// host in which the backend never reports an error. However far the run
/// has come, no more backend calls were answered than the budget allows; a
/// run that asks the backend again has not used up its budget; and a run
/// that has failed for its budget names the configured budget and has had
/// exactly that many backend calls answered. A synchronous run asks the
/// backend only with a log that ends with a message that the model did not
/// write.
pub proof fn law_turn_budget(
    mode: RunMode,
    agent: Agent,
    input: Seq<char>,
    max_turns: nat,
    session: bool,
    run_hooks: Seq<HookId>,
    history: Seq<MessageView>,
    replies: Seq<ReplyView>,
)
    requires
        forall|i: int|
            0 <= i < replies.len() ==> ((#[trigger] replies[i]) matches ReplyView::Answer(answer)
                ==> answer is Ok),
    ensures
        ({
            let first = start(mode, agent, input, max_turns, session, run_hooks, Ok(history));
            let last = replay(first, replies);
            let answered = backend_calls(first, replies);
            &&& answered <= max_turns
            &&& (last is Complete || last is Stream || last is Chunk) ==> answered < max_turns
            &&& last matches RunStepView::Done {
                result: Err(AgentErrorView::MaxTurnsExceeded(n)),
                ..
            } ==> n == max_turns && answered == max_turns
            &&& last matches RunStepView::Complete { then, .. } ==> sound(then) && ends_with_other(
                then.conversation,
            )
        }),
{
    let first = start(mode, agent, input, max_turns, session, run_hooks, Ok(history));
    lemma_start_within_budget(mode, agent, input, max_turns, session, run_hooks, history);
    lemma_replay_within_budget(first, replies, max_turns, false, false);
}

/// The first step of a run is within its budget.
proof fn lemma_start_within_budget(
    mode: RunMode,
    agent: Agent,
    input: Seq<char>,
    max_turns: nat,
    session: bool,
    run_hooks: Seq<HookId>,
    history: Seq<MessageView>,
)
    ensures
        within_budget(
            start(mode, agent, input, max_turns, session, run_hooks, Ok(history)),
            max_turns,
            0,
            mode == RunMode::Synchronous,
            false,
        ),
        within_budget(
            start(mode, agent, input, max_turns, session, run_hooks, Ok(history)),
            max_turns,
            0,
            false,
            mode == RunMode::Streaming,
        ),
        within_budget(
            start(mode, agent, input, max_turns, session, run_hooks, Ok(history)),
            max_turns,
            0,
            false,
            false,
        ),
{
    law_start_is_sound(mode, agent, input, max_turns, session, run_hooks, Ok(history));
    lemma_initial_log(agent.instructions@, history, input);
    lemma_roles_differ();
    if !names_unique(catalog_entries(agent)) {
        assert(crate::catalog::catalog_error(agent) is ConfigError);
    }
}

/// Where the log ends with a message that the model did not write, that
/// message is the one written to the session with the final answer: the
/// last message before the answer.
pub proof fn law_session_write_follows_last_message(log: Seq<MessageView>, content: Seq<char>)
    requires
        ends_with_other(log),
    ensures
        persisted_pair(log.push(assistant_message(content)), content) == seq![
            log.last(),
            assistant_message(content),
        ],
        persisted_pair(log, content) == seq![log.last(), assistant_message(content)],
{
    lemma_non_assistant_found(log, log.len() - 1);
    lemma_last_non_assistant(log);
    lemma_non_assistant_kept(log, assistant_message(content), Seq::empty());
    let extended = log.push(assistant_message(content));
    assert(extended[log.len() - 1] == log.last());
}

/// A synchronous run that never gets a final answer fails. Take any
/// replies of the host in which every answer of the backend has tool calls
/// or no content. If the run has ended, it has failed: for its budget,
/// after exactly as many answered backend calls as the budget allows, or
/// for a tool or a catalog on the way.
pub proof fn law_unfinished_run_fails(
    agent: Agent,
    input: Seq<char>,
    max_turns: nat,
    session: bool,
    run_hooks: Seq<HookId>,
    history: Seq<MessageView>,
    replies: Seq<ReplyView>,
)
    requires
        forall|i: int| 0 <= i < replies.len() ==> goes_on(#[trigger] replies[i]),
    ensures
        ({
            let first = start(
                RunMode::Synchronous,
                agent,
                input,
                max_turns,
                session,
                run_hooks,
                Ok(history),
            );
            let last = replay(first, replies);
            let answered = backend_calls(first, replies);
            last matches RunStepView::Done { result, .. } ==> result is Err && raised_by_run(
                result->Err_0,
            ) && (result->Err_0 is MaxTurnsExceeded ==> result->Err_0
                == AgentErrorView::MaxTurnsExceeded(max_turns) && answered == max_turns)
        }),
{
    let first = start(
        RunMode::Synchronous,
        agent,
        input,
        max_turns,
        session,
        run_hooks,
        Ok(history),
    );
    lemma_start_within_budget(
        RunMode::Synchronous,
        agent,
        input,
        max_turns,
        session,
        run_hooks,
        history,
    );
    assert forall|i: int| 0 <= i < replies.len() implies ((
    #[trigger] replies[i]) matches ReplyView::Answer(answer) ==> answer is Ok) by {
        assert(goes_on(replies[i]));
    }
    lemma_replay_within_budget(first, replies, max_turns, true, false);
}

/// A streamed run passes over what goes wrong on the way. Take any replies
/// of the host. If the run has ended, it has a result, or it failed for
/// its budget, for a catalog with a name twice, or for a final answer that
/// should be JSON and is not: no failure of a tool and no error of the
/// backend ends a streamed run with that failure.
pub proof fn law_streamed_run_passes_over_failures(
    agent: Agent,
    input: Seq<char>,
    max_turns: nat,
    session: bool,
    run_hooks: Seq<HookId>,
    history: Result<Seq<MessageView>, AgentErrorView>,
    replies: Seq<ReplyView>,
)
    ensures
        ({
            let first = start(
                RunMode::Streaming,
                agent,
                input,
                max_turns,
                session,
                run_hooks,
                history,
            );
            let last = replay(first, replies);
            last matches RunStepView::Done { result, .. } ==> result is Ok || survives_streaming(
                result->Err_0,
            )
        }),
{
    let earlier = match history {
        Ok(messages) => messages,
        Err(_) => Seq::empty(),
    };
    let first = start(RunMode::Streaming, agent, input, max_turns, session, run_hooks, history);
    assert(first == start(
        RunMode::Streaming,
        agent,
        input,
        max_turns,
        session,
        run_hooks,
        Ok(earlier),
    ));
    lemma_start_within_budget(
        RunMode::Streaming,
        agent,
        input,
        max_turns,
        session,
        run_hooks,
        earlier,
    );
    lemma_streamed_replay(first, replies, max_turns);
}

/// Replies keep a streamed run within its budget.
proof fn lemma_streamed_replay(first: RunStepView, replies: Seq<ReplyView>, budget: nat)
    requires
        within_budget(first, budget, 0, false, true),
    ensures
        within_budget(replay(first, replies), budget, backend_calls(first, replies), false, true),
    decreases replies.len(),
{
    if replies.len() > 0 {
        let earlier = replies.drop_last();
        lemma_streamed_replay(first, earlier, budget);
        let reply = replies[replies.len() - 1];
        if !(reply is Answer) {
            lemma_reply_within_budget(
                replay(first, earlier),
                reply,
                budget,
                backend_calls(first, earlier),
                false,
                true,
            );
        }
    }
}

/// Replies keep a run within its budget.
proof fn lemma_replay_within_budget(
    first: RunStepView,
    replies: Seq<ReplyView>,
    budget: nat,
    unfinished: bool,
    streamed: bool,
)
    requires
        within_budget(first, budget, 0, unfinished, streamed),
        forall|i: int|
            0 <= i < replies.len() ==> ((#[trigger] replies[i]) matches ReplyView::Answer(answer)
                ==> answer is Ok),
        unfinished ==> forall|i: int| 0 <= i < replies.len() ==> goes_on(#[trigger] replies[i]),
    ensures
        within_budget(replay(first, replies), budget, backend_calls(first, replies), unfinished, streamed),
    decreases replies.len(),
{
    if replies.len() > 0 {
        let earlier = replies.drop_last();
        assert forall|i: int| 0 <= i < earlier.len() implies ((
        #[trigger] earlier[i]) matches ReplyView::Answer(answer) ==> answer is Ok) by {
            assert(earlier[i] == replies[i]);
        }
        if unfinished {
            assert forall|i: int| 0 <= i < earlier.len() implies goes_on(#[trigger] earlier[i]) by {
                assert(earlier[i] == replies[i]);
            }
        }
        lemma_replay_within_budget(first, earlier, budget, unfinished, streamed);
        let reply = replies[replies.len() - 1];
        assert(unfinished ==> goes_on(reply));
        lemma_reply_within_budget(
            replay(first, earlier),
            reply,
            budget,
            backend_calls(first, earlier),
            unfinished,
            streamed,
        );
    }
}

/// The events that a list of effects shows to the observer, in order.
pub open spec fn shown_events(effects: Seq<EffectView>) -> Seq<crate::stream_events::StreamEventView>
    decreases effects.len(),
{
    if effects.len() == 0 {
        Seq::empty()
    } else {
        match effects.last() {
            EffectView::Emit(event) => shown_events(effects.drop_last()).push(event),
            _ => shown_events(effects.drop_last()),
        }
    }
}

/// The events of two lists of effects, one after the other, are those of
/// the first followed by those of the second.
pub proof fn lemma_shown_events_add(first: Seq<EffectView>, second: Seq<EffectView>)
    ensures
        shown_events(first + second) == shown_events(first) + shown_events(second),
    decreases second.len(),
{
    if second.len() == 0 {
        assert(first + second =~= first);
        assert(shown_events(first) + shown_events(second) =~= shown_events(first));
    } else {
        lemma_shown_events_add(first, second.drop_last());
        assert((first + second).drop_last() =~= first + second.drop_last());
        assert((first + second).last() == second.last());
        match second.last() {
            EffectView::Emit(event) => {
                assert(shown_events(first + second) =~= shown_events(first) + shown_events(
                    second,
                ));
            },
            _ => {},
        }
    }
}

/// Hook calls show nothing to the observer.
pub proof fn lemma_hooks_show_nothing(event: HookEventView, run: TurnLoopView)
    ensures
        shown_events(hook_effects(event, run)) == Seq::<
            crate::stream_events::StreamEventView,
        >::empty(),
{
    lemma_nothing_shown(hook_effects(event, run));
}

/// Effects without an event show nothing.
proof fn lemma_nothing_shown(effects: Seq<EffectView>)
    requires
        forall|i: int| 0 <= i < effects.len() ==> !((#[trigger] effects[i]) is Emit),
    ensures
        shown_events(effects) == Seq::<crate::stream_events::StreamEventView>::empty(),
    decreases effects.len(),
{
    if effects.len() > 0 {
        assert forall|i: int| 0 <= i < effects.drop_last().len() implies !((
        #[trigger] effects.drop_last()[i]) is Emit) by {
            assert(effects.drop_last()[i] == effects[i]);
        }
        lemma_nothing_shown(effects.drop_last());
        assert(!(effects[effects.len() - 1] is Emit));
    }
}

/// What a streamed run shows for events that it emits.
proof fn lemma_emitted_is_shown(run: TurnLoopView, events: Seq<crate::stream_events::StreamEventView>)
    requires
        run.mode == RunMode::Streaming,
    ensures
        shown_events(emitted(run, events)) == events,
    decreases events.len(),
{
    if events.len() > 0 {
        lemma_emitted_is_shown(run, events.drop_last());
        assert(emitted(run, events).drop_last() =~= emitted(run, events.drop_last()));
        assert(emitted(run, events).last() == EffectView::Emit(events.last()));
        assert(shown_events(emitted(run, events)) =~= events);
    } else {
        assert(emitted(run, events) =~= Seq::empty());
    }
}

/// Settling a tool's result adds to the effects and takes nothing away. In
/// a streamed run the first event that it adds is the tool's output.
pub proof fn lemma_settle_extends(
    run: TurnLoopView,
    effects: Seq<EffectView>,
    name: Seq<char>,
    result: Seq<char>,
    handoff: Option<int>,
)
    ensures
        ({
            let after = match settle(run, effects, name, result, handoff) {
                SettledView::Continue { effects: more, .. } => more,
                SettledView::Stop(step) => step.effects(),
            };
            &&& effects.is_prefix_of(after)
            &&& run.mode == RunMode::Streaming ==> shown_events(after).len() > shown_events(
                effects,
            ).len() && shown_events(after)[shown_events(effects).len() as int]
                == crate::stream_events::tool_output_event(name, result)
        }),
{
    let hooks = hook_effects(HookEventView::ToolEnd { name, result }, run);
    let output = emitted(run, seq![crate::stream_events::tool_output_event(name, result)]);
    let reported = effects + hooks + output;
    let after = match settle(run, effects, name, result, handoff) {
        SettledView::Continue { effects: more, .. } => more,
        SettledView::Stop(step) => step.effects(),
    };
    assert(effects.is_prefix_of(reported));
    assert(reported.is_prefix_of(after));
    assert(effects.is_prefix_of(after));
    if run.mode == RunMode::Streaming {
        lemma_hooks_show_nothing(HookEventView::ToolEnd { name, result }, run);
        lemma_emitted_is_shown(run, seq![crate::stream_events::tool_output_event(name, result)]);
        lemma_shown_events_add(effects, hooks);
        lemma_shown_events_add(effects + hooks, output);
        assert(shown_events(reported) =~= shown_events(effects).push(
            crate::stream_events::tool_output_event(name, result),
        ));
        lemma_shown_prefix(reported, after);
        let k = shown_events(effects).len() as int;
        let seen = shown_events(reported);
        assert(seen[k] == crate::stream_events::tool_output_event(name, result));
        assert(shown_events(after).subrange(0, seen.len() as int)[k] == shown_events(after)[k]);
    }
}

/// Where one list of effects begins another, its events begin the other's.
pub proof fn lemma_shown_prefix(first: Seq<EffectView>, all: Seq<EffectView>)
    requires
        first.is_prefix_of(all),
    ensures
        shown_events(first).is_prefix_of(shown_events(all)),
{
    let rest = all.subrange(first.len() as int, all.len() as int);
    assert(all =~= first + rest);
    lemma_shown_events_add(first, rest);
}

/// The steps of a turn add to the effects and take nothing away.
pub proof fn lemma_dispatch_extends(
    run: TurnLoopView,
    effects: Seq<EffectView>,
    calls: Seq<ToolCallView>,
    at: int,
)
    ensures
        effects.is_prefix_of(dispatch(run, effects, calls, at).effects()),
    decreases calls.len() - at,
{
    if at < 0 || at >= calls.len() {
    } else {
        let call = calls[at];
        let told = effects + hook_effects(
            HookEventView::ToolStart { name: call.name, arguments: call.arguments },
            run,
        ) + emitted(run, seq![crate::stream_events::tool_called_event(call.name, call.arguments)]);
        assert(effects.is_prefix_of(told));
        match resolution(run.agent, call.name) {
            ResolutionView::Tool(_) => {},
            ResolutionView::Handoff(j) => {
                let payload = crate::handoff::handoff_payload(
                    run.agent.handoffs@[j].target_agent.name@,
                );
                lemma_settle_extends(run, told, call.name, payload, Some(j));
                match settle(run, told, call.name, payload, Some(j)) {
                    SettledView::Continue { run: next, effects: more } => {
                        lemma_dispatch_extends(next, more, calls, at + 1);
                    },
                    SettledView::Stop(_) => {},
                }
            },
            ResolutionView::Unresolved => {
                if run.mode == RunMode::Streaming {
                    lemma_dispatch_extends(run, told, calls, at + 1);
                }
            },
        }
    }
}

/// A streamed run shows a tool call before the tool is executed: where the
/// calls of a turn lead to the execution of a tool, the last event shown
/// before it is that call, with the name and the arguments handed to the
/// host.
pub proof fn law_tool_call_is_shown_first(
    run: TurnLoopView,
    effects: Seq<EffectView>,
    calls: Seq<ToolCallView>,
    at: int,
)
    requires
        run.mode == RunMode::Streaming,
        sound(run),
    ensures
        dispatch(run, effects, calls, at) matches RunStepView::Execute {
            effects: before,
            call,
            then,
        } ==> shown_events(before).len() > 0 && shown_events(before).last()
            == crate::stream_events::tool_called_event(call.name, call.arguments) && then.calls
            == calls && at <= then.at < calls.len() && calls[then.at].name == call.name
            && calls[then.at].arguments == call.arguments && then.run.mode == RunMode::Streaming,
    decreases calls.len() - at,
{
    if at < 0 || at >= calls.len() {
    } else {
        let call = calls[at];
        let hooks = hook_effects(
            HookEventView::ToolStart { name: call.name, arguments: call.arguments },
            run,
        );
        let shown = emitted(
            run,
            seq![crate::stream_events::tool_called_event(call.name, call.arguments)],
        );
        let told = effects + hooks + shown;
        lemma_resolution_follows_catalog(run.agent, call.name);
        match resolution(run.agent, call.name) {
            ResolutionView::Tool(_) => {
                lemma_hooks_show_nothing(
                    HookEventView::ToolStart { name: call.name, arguments: call.arguments },
                    run,
                );
                lemma_emitted_is_shown(
                    run,
                    seq![crate::stream_events::tool_called_event(call.name, call.arguments)],
                );
                lemma_shown_events_add(effects, hooks);
                lemma_shown_events_add(effects + hooks, shown);
                assert(shown_events(told) =~= shown_events(effects).push(
                    crate::stream_events::tool_called_event(call.name, call.arguments),
                ));
            },
            ResolutionView::Handoff(j) => {
                let payload = crate::handoff::handoff_payload(
                    run.agent.handoffs@[j].target_agent.name@,
                );
                lemma_settle_within_budget(run, told, call.name, payload, Some(j));
                match settle(run, told, call.name, payload, Some(j)) {
                    SettledView::Continue { run: next, effects: more } => {
                        law_tool_call_is_shown_first(next, more, calls, at + 1);
                    },
                    SettledView::Stop(_) => {},
                }
            },
            ResolutionView::Unresolved => {
                law_tool_call_is_shown_first(run, told, calls, at + 1);
            },
        }
    }
}

/// A streamed run shows the output of a tool first thing after the tool
/// was executed: the step that takes the tool's result begins what it
/// shows with the output of that call.
pub proof fn law_tool_output_is_shown_next(pending: PendingView, result: Seq<char>)
    requires
        pending.run.mode == RunMode::Streaming,
    ensures
        shown_events(complete(pending, Ok(result)).effects()).len() > 0,
        shown_events(complete(pending, Ok(result)).effects())[0]
            == crate::stream_events::tool_output_event(pending.calls[pending.at].name, result),
{
    let name = pending.calls[pending.at].name;
    lemma_settle_extends(pending.run, Seq::empty(), name, result, None);
    match settle(pending.run, Seq::empty(), name, result, None) {
        SettledView::Continue { run, effects } => {
            lemma_dispatch_extends(run, effects, pending.calls, pending.at + 1);
            let all = dispatch(run, effects, pending.calls, pending.at + 1).effects();
            lemma_shown_prefix(effects, all);
            let seen = shown_events(effects);
            assert(shown_events(all).subrange(0, seen.len() as int)[0] == shown_events(all)[0]);
        },
        SettledView::Stop(_) => {},
    }
}

} // verus!
