//! The tool catalog of an agent, and how a called name is resolved.
//!
//! The catalog lists what the backend may call while an agent is active:
//! the agent's tools, then its handoffs. No name occurs twice in a catalog.

use vstd::prelude::*;
use vstd::string::*;
use crate::agent::Agent;
use crate::error::{AgentError, AgentErrorView};
use crate::handoff::Handoff;
use crate::models::{clone_definitions, ToolDefinition, ToolDefinitionView};
use crate::text::str_eq;
use crate::tool::{definition_of, definition_view, FunctionTool, Tool};

verus! {

/// The catalog entries of a list of tools, in the list's order.
pub open spec fn tool_entries(tools: Seq<FunctionTool>) -> Seq<ToolDefinitionView> {
    Seq::new(tools.len(), |i: int| definition_view(&tools[i]))
}

/// The catalog entries of a list of handoffs, in the list's order.
pub open spec fn handoff_entries(handoffs: Seq<Handoff>) -> Seq<ToolDefinitionView> {
    Seq::new(handoffs.len(), |i: int| definition_view(&handoffs[i]))
}

/// What the backend may call while `agent` is active: the agent's tools,
/// then its handoffs.
pub open spec fn catalog_entries(agent: Agent) -> Seq<ToolDefinitionView> {
    tool_entries(agent.tools@) + handoff_entries(agent.handoffs@)
}

/// Whether no two entries have the same name.
pub open spec fn names_unique(entries: Seq<ToolDefinitionView>) -> bool {
    forall|i: int, j: int|
        0 <= i < j < entries.len() ==> (#[trigger] entries[i]).name != (#[trigger] entries[j]).name
}

/// Whether entry `j` has the name of an entry before it.
pub open spec fn repeats_earlier(entries: Seq<ToolDefinitionView>, j: int) -> bool {
    exists|i: int| 0 <= i < j && (#[trigger] entries[i]).name == entries[j].name
}

/// Whether entry `j` is the first that has the name of an entry before it.
pub open spec fn is_first_repeat(entries: Seq<ToolDefinitionView>, j: int) -> bool {
    &&& 0 <= j < entries.len()
    &&& repeats_earlier(entries, j)
    &&& forall|k: int| 0 <= k < j ==> !repeats_earlier(entries, k)
}

/// The index of the first entry that has the name of an entry before it,
/// in a list where some name occurs twice.
pub open spec fn first_repeat(entries: Seq<ToolDefinitionView>) -> int {
    choose|j: int| is_first_repeat(entries, j)
}

/// The error for an agent whose catalog has a name twice: it names the
/// first entry that repeats an earlier one.
pub open spec fn catalog_error(agent: Agent) -> AgentErrorView {
    let entries = catalog_entries(agent);
    AgentErrorView::ConfigError(duplicate_name_message(entries[first_repeat(entries)].name))
}

/// There is at most one first repeat, and `first_repeat` is it.
pub proof fn lemma_first_repeat(entries: Seq<ToolDefinitionView>, j: int)
    requires
        is_first_repeat(entries, j),
    ensures
        first_repeat(entries) == j,
        !names_unique(entries),
{
    let c = first_repeat(entries);
    assert(is_first_repeat(entries, c));
    if c < j {
        assert(!repeats_earlier(entries, c));
    }
    if j < c {
        assert(!repeats_earlier(entries, j));
    }
    let i = choose|i: int| 0 <= i < j && (#[trigger] entries[i]).name == entries[j].name;
    assert(entries[i].name == entries[j].name);
}

/// The message of the error for a catalog in which `name` occurs twice.
pub open spec fn duplicate_name_message(name: Seq<char>) -> Seq<char> {
    "Duplicate tool name: "@ + name
}

/// What is sent to the backend for a catalog: nothing for an empty one.
pub open spec fn offered(entries: Seq<ToolDefinitionView>) -> Option<Seq<ToolDefinitionView>> {
    if entries.len() == 0 {
        None
    } else {
        Some(entries)
    }
}

/// The index of the first of `names` that equals `name`, or -1.
pub open spec fn first_index(names: Seq<Seq<char>>, name: Seq<char>) -> int
    decreases names.len(),
{
    if names.len() == 0 {
        -1
    } else {
        let earlier = first_index(names.drop_last(), name);
        if earlier >= 0 {
            earlier
        } else if names.last() == name {
            names.len() - 1
        } else {
            -1
        }
    }
}

/// The names of a list of tools.
pub open spec fn tool_names(tools: Seq<FunctionTool>) -> Seq<Seq<char>> {
    Seq::new(tools.len(), |i: int| tools[i].name_text())
}

/// The names of a list of handoffs.
pub open spec fn handoff_names(handoffs: Seq<Handoff>) -> Seq<Seq<char>> {
    Seq::new(handoffs.len(), |i: int| handoffs[i].name@)
}

/// What a called name stands for.
#[derive(Clone, Copy, Debug, PartialEq, Eq, Structural)]
pub enum Resolution {
    /// The agent's tool at this index.
    Tool(usize),
    /// The agent's handoff at this index.
    Handoff(usize),
    /// Nothing the agent knows.
    Unresolved,
}

/// A [`Resolution`] with mathematical indices.
pub enum ResolutionView {
    Tool(int),
    Handoff(int),
    Unresolved,
}

impl View for Resolution {
    type V = ResolutionView;

    open spec fn view(&self) -> ResolutionView {
        match self {
            Resolution::Tool(i) => ResolutionView::Tool(*i as int),
            Resolution::Handoff(i) => ResolutionView::Handoff(*i as int),
            Resolution::Unresolved => ResolutionView::Unresolved,
        }
    }
}

/// What `name` stands for while `agent` is active: the first tool of that
/// name; without one, the first handoff of that name; else nothing.
pub open spec fn resolution(agent: Agent, name: Seq<char>) -> ResolutionView {
    let tool = first_index(tool_names(agent.tools@), name);
    let handoff = first_index(handoff_names(agent.handoffs@), name);
    if tool >= 0 {
        ResolutionView::Tool(tool)
    } else if handoff >= 0 {
        ResolutionView::Handoff(handoff)
    } else {
        ResolutionView::Unresolved
    }
}

/// `first_index` gives the least index at which `name` stands, and -1
/// exactly when it stands nowhere.
pub proof fn lemma_first_index(names: Seq<Seq<char>>, name: Seq<char>)
    ensures
        -1 <= first_index(names, name) < names.len(),
        first_index(names, name) >= 0 ==> names[first_index(names, name)] == name,
        forall|k: int|
            0 <= k < names.len() && (#[trigger] names[k]) == name ==> 0 <= first_index(
                names,
                name,
            ) <= k,
    decreases names.len(),
{
    if names.len() > 0 {
        lemma_first_index(names.drop_last(), name);
        let earlier = first_index(names.drop_last(), name);
        assert forall|k: int| 0 <= k < names.len() && (#[trigger] names[k]) == name implies 0
            <= first_index(names, name) <= k by {
            if k < names.len() - 1 {
                assert(names.drop_last()[k] == names[k]);
            }
        }
    }
}

/// A name resolves exactly when the catalog has an entry of that name, and
/// it resolves to an entry of that name.
pub proof fn lemma_resolution_follows_catalog(agent: Agent, name: Seq<char>)
    ensures
        !(resolution(agent, name) is Unresolved) <==> exists|k: int|
            0 <= k < catalog_entries(agent).len() && (#[trigger] catalog_entries(agent)[k]).name
                == name,
        resolution(agent, name) matches ResolutionView::Tool(i) ==> 0 <= i < agent.tools.len()
            && catalog_entries(agent)[i].name == name,
        resolution(agent, name) matches ResolutionView::Handoff(j) ==> 0 <= j
            < agent.handoffs.len() && catalog_entries(agent)[agent.tools.len() + j].name == name,
{
    let tools = tool_names(agent.tools@);
    let handoffs = handoff_names(agent.handoffs@);
    let entries = catalog_entries(agent);
    lemma_first_index(tools, name);
    lemma_first_index(handoffs, name);
    assert forall|k: int| 0 <= k < entries.len() implies (#[trigger] entries[k]).name == (if k
        < tools.len() {
        tools[k]
    } else {
        handoffs[k - tools.len()]
    }) by {}
    if resolution(agent, name) is Unresolved {
        assert forall|k: int| 0 <= k < entries.len() implies (#[trigger] entries[k]).name
            != name by {
            if k < tools.len() {
                assert(tools[k] != name);
            } else {
                assert(handoffs[k - tools.len()] != name);
            }
        }
    } else if first_index(tools, name) >= 0 {
        assert(entries[first_index(tools, name)].name == name);
    } else {
        assert(entries[tools.len() + first_index(handoffs, name)].name == name);
    }
}

/// Finds what `name` stands for while `agent` is active.
pub fn resolve(agent: &Agent, name: &str) -> (found: Resolution)
    ensures
        found@ == resolution(*agent, name@),
        found matches Resolution::Tool(i) ==> i < agent.tools.len(),
        found matches Resolution::Handoff(j) ==> j < agent.handoffs.len(),
{
    let mut i: usize = 0;
    while i < agent.tools.len()
        invariant
            i <= agent.tools.len(),
            first_index(tool_names(agent.tools@).subrange(0, i as int), name@) == -1,
        decreases agent.tools.len() - i,
    {
        let ghost before = tool_names(agent.tools@).subrange(0, i as int);
        let ghost after = tool_names(agent.tools@).subrange(0, i + 1);
        assert(after.drop_last() =~= before);
        if str_eq(agent.tools[i].name(), name) {
            proof {
                lemma_first_index(tool_names(agent.tools@), name@);
                lemma_first_index(after, name@);
                let whole = first_index(tool_names(agent.tools@), name@);
                assert(tool_names(agent.tools@)[i as int] == name@);
                if whole < i {
                    assert(after[whole] == tool_names(agent.tools@)[whole]);
                }
            }
            return Resolution::Tool(i);
        }
        i += 1;
    }
    assert(tool_names(agent.tools@).subrange(0, i as int) =~= tool_names(agent.tools@));
    let mut j: usize = 0;
    while j < agent.handoffs.len()
        invariant
            j <= agent.handoffs.len(),
            first_index(tool_names(agent.tools@), name@) == -1,
            first_index(handoff_names(agent.handoffs@).subrange(0, j as int), name@) == -1,
        decreases agent.handoffs.len() - j,
    {
        let ghost before = handoff_names(agent.handoffs@).subrange(0, j as int);
        let ghost after = handoff_names(agent.handoffs@).subrange(0, j + 1);
        assert(after.drop_last() =~= before);
        if str_eq(agent.handoffs[j].name(), name) {
            proof {
                lemma_first_index(handoff_names(agent.handoffs@), name@);
                lemma_first_index(after, name@);
                let whole = first_index(handoff_names(agent.handoffs@), name@);
                assert(handoff_names(agent.handoffs@)[j as int] == name@);
                if whole < j {
                    assert(after[whole] == handoff_names(agent.handoffs@)[whole]);
                }
            }
            return Resolution::Handoff(j);
        }
        j += 1;
    }
    assert(handoff_names(agent.handoffs@).subrange(0, j as int) =~= handoff_names(
        agent.handoffs@,
    ));
    Resolution::Unresolved
}

/// The list of what the backend may call while one agent is active.
pub struct ToolCatalog {
    definitions: Vec<ToolDefinition>,
}

impl View for ToolCatalog {
    type V = Seq<ToolDefinitionView>;

    closed spec fn view(&self) -> Seq<ToolDefinitionView> {
        self.definitions.deep_view()
    }
}

fn duplicate_name_error(name: &str) -> (e: AgentError)
    ensures
        e@ == AgentErrorView::ConfigError(duplicate_name_message(name@)),
{
    let mut message = String::from_str("Duplicate tool name: ");
    message.append(name);
    AgentError::ConfigError(message)
}

impl ToolCatalog {
    #[verifier::type_invariant]
    spec fn inv(self) -> bool {
        names_unique(self.definitions.deep_view())
    }

    /// The catalog of `agent`. Two entries of one name are a configuration
    /// error, and nothing else is.
    pub fn build(agent: &Agent) -> (built: Result<ToolCatalog, AgentError>)
        ensures
            match built {
                Ok(catalog) => catalog@ == catalog_entries(*agent) && names_unique(catalog@),
                Err(e) => !names_unique(catalog_entries(*agent)) && e@ == catalog_error(*agent),
            },
    {
        let ghost entries = catalog_entries(*agent);
        let mut definitions: Vec<ToolDefinition> = Vec::new();
        let mut i: usize = 0;
        while i < agent.tools.len()
            invariant
                i <= agent.tools.len(),
                definitions.len() == i,
                forall|k: int| 0 <= k < i ==> definitions@[k]@ == entries[k],
                entries == catalog_entries(*agent),
            decreases agent.tools.len() - i,
        {
            definitions.push(definition_of(&agent.tools[i]));
            i += 1;
        }
        let mut h: usize = 0;
        while h < agent.handoffs.len()
            invariant
                h <= agent.handoffs.len(),
                definitions.len() == agent.tools.len() + h,
                forall|k: int| 0 <= k < agent.tools.len() + h ==> definitions@[k]@ == entries[k],
                entries == catalog_entries(*agent),
            decreases agent.handoffs.len() - h,
        {
            definitions.push(definition_of(&agent.handoffs[h]));
            h += 1;
        }
        assert(definitions.deep_view() =~= entries);
        let mut j: usize = 0;
        while j < definitions.len()
            invariant
                j <= definitions.len(),
                definitions.deep_view() == entries,
                entries == catalog_entries(*agent),
                forall|k: int| 0 <= k < j ==> !repeats_earlier(entries, k),
            decreases definitions.len() - j,
        {
            let mut k: usize = 0;
            while k < j
                invariant
                    k <= j < definitions.len(),
                    definitions.deep_view() == entries,
                    entries == catalog_entries(*agent),
                    forall|m: int| 0 <= m < j ==> !repeats_earlier(entries, m),
                    forall|m: int| 0 <= m < k ==> (#[trigger] entries[m]).name != entries[j as int].name,
                decreases j - k,
            {
                assert(entries[k as int] == definitions@[k as int]@);
                assert(entries[j as int] == definitions@[j as int]@);
                if str_eq(definitions[k].name.as_str(), definitions[j].name.as_str()) {
                    let e = duplicate_name_error(definitions[j].name.as_str());
                    proof {
                        let at = j as int;
                        assert(repeats_earlier(entries, at));
                        lemma_first_repeat(entries, at);
                    }
                    return Err(e);
                }
                k += 1;
            }
            j += 1;
        }
        assert(names_unique(entries)) by {
            assert forall|a: int, b: int| 0 <= a < b < entries.len() implies (#[trigger] entries[a]).name
                != (#[trigger] entries[b]).name by {
                assert(!repeats_earlier(entries, b));
            }
        }
        Ok(ToolCatalog { definitions })
    }

    /// The entries, tools first, then handoffs.
    pub fn definitions(&self) -> (definitions: &Vec<ToolDefinition>)
        ensures
            definitions.deep_view() == self@,
            names_unique(self@),
    {
        proof {
            use_type_invariant(self);
        }
        &self.definitions
    }

    /// The number of entries.
    pub fn len(&self) -> (n: usize)
        ensures
            n == self@.len(),
    {
        self.definitions.len()
    }

    /// What is sent to the backend: a copy of the entries, or nothing for
    /// an empty catalog.
    pub fn request_tools(&self) -> (tools: Option<Vec<ToolDefinition>>)
        ensures
            tools.deep_view() == offered(self@),
    {
        if self.definitions.len() == 0 {
            None
        } else {
            Some(clone_definitions(&self.definitions))
        }
    }
}

} // verus!
