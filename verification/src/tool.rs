//! Tools: what an agent can call, as the backend is told about it.

use vstd::prelude::*;
use vstd::string::*;
use crate::json::{json_quoted, JsonValue};
use crate::models::{ToolDefinition, ToolDefinitionView};
use crate::text::{trim, trimmed};

verus! {

/// Something the model can call by name. A tool describes itself; running
/// it is the host's business.
pub trait Tool {
    /// The tool's name, as a sequence of characters.
    spec fn name_text(&self) -> Seq<char>;

    /// The tool's description, as a sequence of characters.
    spec fn description_text(&self) -> Seq<char>;

    /// The text of the JSON schema of the tool's parameters.
    spec fn schema_text(&self) -> Seq<char>;

    /// The name under which the model calls the tool.
    fn name(&self) -> (name: &str)
        ensures
            name@ == self.name_text(),
    ;

    /// What the tool does, in words for the model.
    fn description(&self) -> (description: &str)
        ensures
            description@ == self.description_text(),
    ;

    /// The JSON schema of the tool's parameters.
    fn parameters_schema(&self) -> (schema: JsonValue)
        ensures
            schema@ == self.schema_text(),
    ;
}

/// What the backend is told about `tool`.
pub open spec fn definition_view<T: Tool>(tool: &T) -> ToolDefinitionView {
    ToolDefinitionView {
        name: tool.name_text(),
        description: tool.description_text(),
        parameters: tool.schema_text(),
    }
}

/// Describes `tool` for the backend.
pub fn definition_of<T: Tool>(tool: &T) -> (definition: ToolDefinition)
    ensures
        definition@ == definition_view(tool),
{
    ToolDefinition {
        name: String::from_str(tool.name()),
        description: String::from_str(tool.description()),
        parameters: tool.parameters_schema(),
    }
}

/// A tool declared by its name, its description and the schema of its
/// parameters.
#[derive(Debug)]
pub struct FunctionTool {
    name: String,
    description: String,
    schema: JsonValue,
}

impl FunctionTool {
    /// Declares a tool.
    pub fn new(name: &str, description: &str, schema: JsonValue) -> (tool: FunctionTool)
        ensures
            tool.name_text() == name@,
            tool.description_text() == description@,
            tool.schema_text() == schema@,
    {
        FunctionTool {
            name: String::from_str(name),
            description: String::from_str(description),
            schema,
        }
    }
}

impl Tool for FunctionTool {
    closed spec fn name_text(&self) -> Seq<char> {
        self.name@
    }

    closed spec fn description_text(&self) -> Seq<char> {
        self.description@
    }

    closed spec fn schema_text(&self) -> Seq<char> {
        self.schema@
    }

    fn name(&self) -> (name: &str) {
        self.name.as_str()
    }

    fn description(&self) -> (description: &str) {
        self.description.as_str()
    }

    fn parameters_schema(&self) -> (schema: JsonValue) {
        self.schema.clone()
    }
}

/// The lines joined by single spaces; lines that come before any text
/// add nothing.
pub open spec fn joined_lines(lines: Seq<Seq<char>>) -> Seq<char>
    decreases lines.len(),
{
    if lines.len() == 0 {
        Seq::empty()
    } else {
        let earlier = joined_lines(lines.drop_last());
        if earlier.len() > 0 {
            earlier + " "@ + lines.last()
        } else {
            lines.last()
        }
    }
}

/// The description that documentation lines give: each line without the
/// white space around it, joined by single spaces.
pub open spec fn doc_description(lines: Seq<Seq<char>>) -> Seq<char> {
    joined_lines(Seq::new(lines.len(), |i: int| trimmed(lines[i])))
}

/// The members of the `properties` object of a schema whose parameters
/// are all strings: one member for each parameter, in order, under the
/// given JSON string literals.
pub open spec fn string_properties(literals: Seq<Seq<char>>) -> Seq<char>
    decreases literals.len(),
{
    if literals.len() == 0 {
        Seq::empty()
    } else {
        let earlier = string_properties(literals.drop_last());
        let separator = if literals.len() > 1 {
            ","@
        } else {
            Seq::empty()
        };
        earlier + separator + literals.last() + ":{\"type\":\"string\"}"@
    }
}

/// The elements of the `required` array of a schema: the given JSON string
/// literals, in order.
pub open spec fn required_names(literals: Seq<Seq<char>>) -> Seq<char>
    decreases literals.len(),
{
    if literals.len() == 0 {
        Seq::empty()
    } else {
        let earlier = required_names(literals.drop_last());
        let separator = if literals.len() > 1 {
            ","@
        } else {
            Seq::empty()
        };
        earlier + separator + literals.last()
    }
}

/// The schema of a function whose parameters are all strings and all
/// required, given the parameters' names as JSON string literals: an
/// object with one string property for each parameter.
pub open spec fn string_schema_text(literals: Seq<Seq<char>>) -> Seq<char> {
    "{\"properties\":{"@ + string_properties(literals) + "},\"required\":["@ + required_names(
        literals,
    ) + "],\"type\":\"object\"}"@
}

/// The schema of a function with the given parameters, all of them
/// required strings.
pub open spec fn string_parameters_schema(parameters: Seq<Seq<char>>) -> Seq<char> {
    string_schema_text(Seq::new(parameters.len(), |i: int| json_quoted(parameters[i])))
}

/// Joins the lines by single spaces; lines that come before any text add
/// nothing.
pub fn join_lines(lines: &Vec<String>) -> (joined: String)
    ensures
        joined@ == joined_lines(lines.deep_view()),
{
    let mut joined = String::new();
    let mut i: usize = 0;
    assert(lines.deep_view().subrange(0, 0) =~= Seq::empty());
    while i < lines.len()
        invariant
            i <= lines.len(),
            joined@ == joined_lines(lines.deep_view().subrange(0, i as int)),
        decreases lines.len() - i,
    {
        let ghost seen = lines.deep_view().subrange(0, i as int);
        let ghost next = lines.deep_view().subrange(0, i + 1);
        assert(next.drop_last() =~= seen);
        assert(next.last() == lines@[i as int]@);
        if !joined.as_str().is_empty() {
            joined.append(" ");
        }
        joined.append(lines[i].as_str());
        i += 1;
    }
    assert(lines.deep_view().subrange(0, i as int) =~= lines.deep_view());
    joined
}

/// The schema of a function whose parameters are all required strings,
/// given the parameters' names as JSON string literals.
pub fn string_schema(literals: &Vec<JsonValue>) -> (schema: JsonValue)
    ensures
        schema@ == string_schema_text(literals.deep_view()),
{
    let mut properties = String::new();
    let mut required = String::new();
    let mut p: usize = 0;
    assert(literals.deep_view().subrange(0, 0) =~= Seq::empty());
    while p < literals.len()
        invariant
            p <= literals.len(),
            properties@ == string_properties(literals.deep_view().subrange(0, p as int)),
            required@ == required_names(literals.deep_view().subrange(0, p as int)),
        decreases literals.len() - p,
    {
        let ghost seen = literals.deep_view().subrange(0, p as int);
        let ghost next = literals.deep_view().subrange(0, p + 1);
        assert(next.drop_last() =~= seen);
        assert(next.last() == literals@[p as int]@);
        if p > 0 {
            properties.append(",");
            required.append(",");
        } else {
            assert(properties@ + Seq::<char>::empty() =~= properties@);
            assert(required@ + Seq::<char>::empty() =~= required@);
        }
        properties.append(literals[p].as_str());
        properties.append(":{\"type\":\"string\"}");
        required.append(literals[p].as_str());
        p += 1;
    }
    assert(literals.deep_view().subrange(0, p as int) =~= literals.deep_view());
    let mut schema = String::from_str("{\"properties\":{");
    schema.append(properties.as_str());
    schema.append("},\"required\":[");
    schema.append(required.as_str());
    schema.append("],\"type\":\"object\"}");
    JsonValue::from_text(schema)
}

/// Declares a function as a tool. The description is what the
/// documentation lines say, and the function's name where they say
/// nothing. Every parameter is a required string.
pub fn function_tool(name: &str, doc_lines: &Vec<String>, parameters: &Vec<String>) -> (tool:
    FunctionTool)
    ensures
        tool.name_text() == name@,
        tool.description_text() == if doc_description(doc_lines.deep_view()).len() > 0 {
            doc_description(doc_lines.deep_view())
        } else {
            name@
        },
        tool.schema_text() == string_parameters_schema(parameters.deep_view()),
{
    let mut lines: Vec<String> = Vec::new();
    let mut i: usize = 0;
    while i < doc_lines.len()
        invariant
            i <= doc_lines.len(),
            lines.len() == i,
            forall|k: int| 0 <= k < i ==> lines@[k]@ == trimmed(doc_lines@[k]@),
        decreases doc_lines.len() - i,
    {
        lines.push(String::from_str(trim(doc_lines[i].as_str())));
        i += 1;
    }
    assert(lines.deep_view() =~= Seq::new(
        doc_lines.deep_view().len(),
        |i: int| trimmed(doc_lines.deep_view()[i]),
    ));
    let mut description = join_lines(&lines);
    if description.as_str().is_empty() {
        description = String::from_str(name);
    }
    let mut literals: Vec<JsonValue> = Vec::new();
    let mut p: usize = 0;
    while p < parameters.len()
        invariant
            p <= parameters.len(),
            literals.len() == p,
            forall|k: int| 0 <= k < p ==> literals@[k]@ == json_quoted(parameters@[k]@),
        decreases parameters.len() - p,
    {
        literals.push(JsonValue::string(parameters[p].as_str()));
        p += 1;
    }
    assert(literals.deep_view() =~= Seq::new(
        parameters.deep_view().len(),
        |i: int| json_quoted(parameters.deep_view()[i]),
    ));
    FunctionTool { name: String::from_str(name), description, schema: string_schema(&literals) }
}

} // verus!
