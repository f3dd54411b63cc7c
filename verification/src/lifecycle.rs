//! Lifecycle hooks: who is told about which event, and in what order.
//!
//! Hooks are registered by handle. A run never calls a hook itself: it
//! hands the host an ordered list of calls to make. For every event the
//! hooks of the run come before the hooks of the agent, each group in the
//! order of registration.

use vstd::prelude::*;
use vstd::string::*;
use crate::json::JsonValue;

verus! {

/// The handle under which the host knows a registered hook.
#[derive(Clone, Copy, Debug, PartialEq, Eq, Structural)]
pub struct HookId(pub u64);

/// Whether a hook was registered for the whole run or for one agent.
#[derive(Clone, Copy, Debug, PartialEq, Eq, Structural)]
pub enum HookScope {
    Run,
    Agent,
}

/// What a hook is told about.
#[derive(Debug)]
pub enum HookEvent {
    /// An agent is about to be invoked.
    AgentStart,
    /// An agent has produced its final output.
    AgentEnd { output: String },
    /// The backend is about to be called.
    LlmStart,
    /// The backend has answered.
    LlmEnd,
    /// A tool is about to be executed.
    ToolStart { name: String, arguments: JsonValue },
    /// A tool has been executed.
    ToolEnd { name: String, result: JsonValue },
    /// Control passes from one agent to another.
    Handoff { from: String, to: String },
}

/// A [`HookEvent`] with its texts as sequences of characters.
pub enum HookEventView {
    AgentStart,
    AgentEnd { output: Seq<char> },
    LlmStart,
    LlmEnd,
    ToolStart { name: Seq<char>, arguments: Seq<char> },
    ToolEnd { name: Seq<char>, result: Seq<char> },
    Handoff { from: Seq<char>, to: Seq<char> },
}

impl View for HookEvent {
    type V = HookEventView;

    open spec fn view(&self) -> HookEventView {
        match self {
            HookEvent::AgentStart => HookEventView::AgentStart,
            HookEvent::AgentEnd { output } => HookEventView::AgentEnd { output: output@ },
            HookEvent::LlmStart => HookEventView::LlmStart,
            HookEvent::LlmEnd => HookEventView::LlmEnd,
            HookEvent::ToolStart { name, arguments } => HookEventView::ToolStart {
                name: name@,
                arguments: arguments@,
            },
            HookEvent::ToolEnd { name, result } => HookEventView::ToolEnd {
                name: name@,
                result: result@,
            },
            HookEvent::Handoff { from, to } => HookEventView::Handoff { from: from@, to: to@ },
        }
    }
}

impl DeepView for HookEvent {
    type V = HookEventView;

    open spec fn deep_view(&self) -> HookEventView {
        self@
    }
}

impl Clone for HookEvent {
    fn clone(&self) -> (copy: HookEvent)
        ensures
            copy@ == self@,
    {
        match self {
            HookEvent::AgentStart => HookEvent::AgentStart,
            HookEvent::AgentEnd { output } => HookEvent::AgentEnd { output: output.clone() },
            HookEvent::LlmStart => HookEvent::LlmStart,
            HookEvent::LlmEnd => HookEvent::LlmEnd,
            HookEvent::ToolStart { name, arguments } => HookEvent::ToolStart {
                name: name.clone(),
                arguments: arguments.clone(),
            },
            HookEvent::ToolEnd { name, result } => HookEvent::ToolEnd {
                name: name.clone(),
                result: result.clone(),
            },
            HookEvent::Handoff { from, to } => HookEvent::Handoff {
                from: from.clone(),
                to: to.clone(),
            },
        }
    }
}

/// One call that the host is to make: this hook, about this event.
#[derive(Debug)]
pub struct HookCall {
    pub scope: HookScope,
    pub hook: HookId,
    pub event: HookEvent,
}

/// A [`HookCall`] with its texts as sequences of characters.
pub struct HookCallView {
    pub scope: HookScope,
    pub hook: HookId,
    pub event: HookEventView,
}

impl View for HookCall {
    type V = HookCallView;

    open spec fn view(&self) -> HookCallView {
        HookCallView { scope: self.scope, hook: self.hook, event: self.event@ }
    }
}

impl Clone for HookCall {
    fn clone(&self) -> (copy: HookCall)
        ensures
            copy@ == self@,
    {
        HookCall { scope: self.scope, hook: self.hook, event: self.event.clone() }
    }
}

impl DeepView for HookCall {
    type V = HookCallView;

    open spec fn deep_view(&self) -> HookCallView {
        self@
    }
}

/// Whether the hooks of the run are told about the event. They hear of
/// agents starting and ending and of handoffs; the rest goes to the hooks
/// of the agent alone.
pub open spec fn concerns_run(event: HookEventView) -> bool {
    event is AgentStart || event is AgentEnd || event is Handoff
}

/// One call per hook, in the order of `hooks`.
pub open spec fn calls_for(scope: HookScope, hooks: Seq<HookId>, event: HookEventView) -> Seq<
    HookCallView,
> {
    Seq::new(hooks.len(), |i: int| HookCallView { scope, hook: hooks[i], event })
}

/// The calls to make for an event: first the hooks of the run, where the
/// event concerns them, then the hooks of the agent.
pub open spec fn hook_plan(
    event: HookEventView,
    run_hooks: Seq<HookId>,
    agent_hooks: Seq<HookId>,
) -> Seq<HookCallView> {
    let first = if concerns_run(event) {
        calls_for(HookScope::Run, run_hooks, event)
    } else {
        Seq::empty()
    };
    first + calls_for(HookScope::Agent, agent_hooks, event)
}

/// In every plan no hook of an agent is called before a hook of the run,
/// each call is about the planned event, and within a scope the hooks are
/// called in the order in which they were registered.
pub proof fn law_run_hooks_fire_first(
    event: HookEventView,
    run_hooks: Seq<HookId>,
    agent_hooks: Seq<HookId>,
)
    ensures
        forall|i: int, j: int|
            #![trigger hook_plan(event, run_hooks, agent_hooks)[i], hook_plan(event, run_hooks, agent_hooks)[j]]
            0 <= i < j < hook_plan(event, run_hooks, agent_hooks).len() && hook_plan(
                event,
                run_hooks,
                agent_hooks,
            )[j].scope == HookScope::Run ==> hook_plan(event, run_hooks, agent_hooks)[i].scope
                == HookScope::Run,
        forall|i: int|
            0 <= i < hook_plan(event, run_hooks, agent_hooks).len() ==> (#[trigger] hook_plan(
                event,
                run_hooks,
                agent_hooks,
            )[i]).event == event,
        concerns_run(event) ==> hook_plan(event, run_hooks, agent_hooks).len() == run_hooks.len()
            + agent_hooks.len() && (forall|i: int|
            0 <= i < run_hooks.len() ==> (#[trigger] hook_plan(event, run_hooks, agent_hooks)[i])
                == (HookCallView { scope: HookScope::Run, hook: run_hooks[i], event }))
            && (forall|i: int|
            0 <= i < agent_hooks.len() ==> (#[trigger] hook_plan(
                event,
                run_hooks,
                agent_hooks,
            )[run_hooks.len() + i]) == (HookCallView {
                scope: HookScope::Agent,
                hook: agent_hooks[i],
                event,
            })),
        !concerns_run(event) ==> hook_plan(event, run_hooks, agent_hooks) == calls_for(
            HookScope::Agent,
            agent_hooks,
            event,
        ),
{
    if !concerns_run(event) {
        assert(hook_plan(event, run_hooks, agent_hooks) =~= calls_for(
            HookScope::Agent,
            agent_hooks,
            event,
        ));
    }
}

/// Appends to `calls` one call for each hook of `hooks`, in order.
fn push_calls(calls: &mut Vec<HookCall>, scope: HookScope, hooks: &Vec<HookId>, event: &HookEvent)
    ensures
        final(calls).deep_view() == old(calls).deep_view() + calls_for(scope, hooks@, event@),
{
    let ghost before = calls.deep_view();
    let mut i: usize = 0;
    while i < hooks.len()
        invariant
            i <= hooks.len(),
            calls.deep_view() == before + calls_for(scope, hooks@.subrange(0, i as int), event@),
        decreases hooks.len() - i,
    {
        let ghost so_far = calls.deep_view();
        calls.push(HookCall { scope, hook: hooks[i], event: event.clone() });
        proof {
            assert(calls.deep_view() =~= so_far.push(
                HookCallView { scope, hook: hooks@[i as int], event: event@ },
            ));
            assert(calls.deep_view() =~= before + calls_for(
                scope,
                hooks@.subrange(0, i + 1),
                event@,
            ));
        }
        i += 1;
    }
    assert(hooks@.subrange(0, i as int) =~= hooks@);
}

/// The calls to make for `event`, in the order in which to make them.
pub fn plan_hooks(event: &HookEvent, run_hooks: &Vec<HookId>, agent_hooks: &Vec<HookId>) -> (calls:
    Vec<HookCall>)
    ensures
        calls.deep_view() == hook_plan(event@, run_hooks@, agent_hooks@),
{
    let mut calls: Vec<HookCall> = Vec::new();
    assert(calls.deep_view() =~= Seq::empty());
    let concerns_run = match event {
        HookEvent::AgentStart => true,
        HookEvent::AgentEnd { .. } => true,
        HookEvent::Handoff { .. } => true,
        _ => false,
    };
    if concerns_run {
        push_calls(&mut calls, HookScope::Run, run_hooks, event);
    }
    push_calls(&mut calls, HookScope::Agent, agent_hooks, event);
    assert(calls.deep_view() =~= hook_plan(event@, run_hooks@, agent_hooks@));
    calls
}

} // verus!
