//! The tools as they are advertised to the model.

use crate::agent::agent_loop::AgentConfig;
use crate::agent::single_call::Strategy;
use crate::agent::tools::{tool_kind_of, ToolKind};
use crate::text::{push_text, views};
use vstd::prelude::*;

verus! {

/// What a parameter of a tool holds.
#[derive(Debug, Clone, Copy, PartialEq, Eq, Structural)]
pub enum ParameterKind {
    Text,
    Integer,
}

impl ParameterKind {
    /// The name of the kind in a JSON schema.
    pub fn as_str(&self) -> (name: &'static str)
        ensures
            name@ == match *self {
                ParameterKind::Text => "string"@,
                ParameterKind::Integer => "integer"@,
            },
    {
        match self {
            ParameterKind::Text => "string",
            ParameterKind::Integer => "integer",
        }
    }
}

/// One parameter of a tool.
#[derive(Debug)]
pub struct Parameter {
    pub name: String,
    pub kind: ParameterKind,
    pub description: String,
    /// The values that the parameter can take, where they are enumerated.
    pub choices: Vec<String>,
}

/// The parameters of a tool.
#[derive(Debug)]
pub struct ParameterSchema {
    pub properties: Vec<Parameter>,
    /// The names of the parameters that a call has to give.
    pub required: Vec<String>,
}

/// The description of a tool.
#[derive(Debug)]
pub struct FunctionDefinition {
    pub name: String,
    pub description: String,
    pub parameters: ParameterSchema,
}

/// Tool definition for the model's tool-calling API.
#[derive(Debug)]
pub struct ToolDefinition {
    pub tool_type: String,
    pub function: FunctionDefinition,
}

/// A parameter by name, kind, description and choices.
pub struct ParameterView {
    pub name: Seq<char>,
    pub kind: ParameterKind,
    pub description: Seq<char>,
    pub choices: Seq<Seq<char>>,
}

impl View for Parameter {
    type V = ParameterView;

    open spec fn view(&self) -> ParameterView {
        ParameterView {
            name: self.name@,
            kind: self.kind,
            description: self.description@,
            choices: views(self.choices@),
        }
    }
}

/// A tool definition with its strings as character sequences.
pub struct ToolDefinitionView {
    pub tool_type: Seq<char>,
    pub name: Seq<char>,
    pub description: Seq<char>,
    pub properties: Seq<ParameterView>,
    pub required: Seq<Seq<char>>,
}

impl View for ToolDefinition {
    type V = ToolDefinitionView;

    open spec fn view(&self) -> ToolDefinitionView {
        ToolDefinitionView {
            tool_type: self.tool_type@,
            name: self.function.name@,
            description: self.function.description@,
            properties: views(self.function.parameters.properties@),
            required: views(self.function.parameters.required@),
        }
    }
}

/// A parameter whose values are not enumerated.
pub open spec fn plain_parameter(
    name: Seq<char>,
    kind: ParameterKind,
    description: Seq<char>,
) -> ParameterView {
    ParameterView { name, kind, description, choices: Seq::empty() }
}

/// A definition of the type `function`.
pub open spec fn function_tool(
    name: Seq<char>,
    description: Seq<char>,
    properties: Seq<ParameterView>,
    required: Seq<Seq<char>>,
) -> ToolDefinitionView {
    ToolDefinitionView { tool_type: "function"@, name, description, properties, required }
}

/// The severities that `report_issue` accepts.
pub open spec fn severity_choices() -> Seq<Seq<char>> {
    Seq::<Seq<char>>::empty().push("critical"@).push("high"@).push("medium"@).push("low"@)
}

/// The categories that `report_issue` accepts.
pub open spec fn category_choices() -> Seq<Seq<char>> {
    Seq::<Seq<char>>::empty().push("bug"@).push("security"@).push("performance"@).push(
        "style"@,
    ).push("best_practice"@)
}

/// The parameters of `report_issue`.
pub open spec fn report_issue_properties() -> Seq<ParameterView> {
    Seq::<ParameterView>::empty().push(
        plain_parameter("file_path"@, ParameterKind::Text, "Path to the file with the issue"@),
    ).push(
        plain_parameter(
            "line_number"@,
            ParameterKind::Integer,
            "Line number where the issue is"@,
        ),
    ).push(
        ParameterView {
            name: "severity"@,
            kind: ParameterKind::Text,
            description: "Severity of the issue"@,
            choices: severity_choices(),
        },
    ).push(
        ParameterView {
            name: "category"@,
            kind: ParameterKind::Text,
            description: "Category of the issue"@,
            choices: category_choices(),
        },
    ).push(plain_parameter("title"@, ParameterKind::Text, "Short title describing the issue"@)).push(
        plain_parameter(
            "description"@,
            ParameterKind::Text,
            "Detailed description of the issue"@,
        ),
    ).push(plain_parameter("suggestion"@, ParameterKind::Text, "How to fix the issue"@))
}

/// The six tools that are advertised, in order.
pub open spec fn tool_table() -> Seq<ToolDefinitionView> {
    Seq::<ToolDefinitionView>::empty().push(
        function_tool(
            "list_files"@,
            "List files and directories in the repository. Use this to explore the codebase structure."@,
            Seq::<ParameterView>::empty().push(
                plain_parameter(
                    "directory"@,
                    ParameterKind::Text,
                    "Directory path relative to repository root. Use '.' for root."@,
                ),
            ),
            Seq::empty(),
        ),
    ).push(
        function_tool(
            "read_file"@,
            "Read the contents of a source code file. Returns content with line numbers."@,
            Seq::<ParameterView>::empty().push(
                plain_parameter(
                    "path"@,
                    ParameterKind::Text,
                    "Path to the file relative to repository root"@,
                ),
            ),
            Seq::<Seq<char>>::empty().push("path"@),
        ),
    ).push(
        function_tool(
            "search_code"@,
            "Search for a pattern in the codebase. Returns matching lines with file and line numbers."@,
            Seq::<ParameterView>::empty().push(
                plain_parameter("pattern"@, ParameterKind::Text, "Text pattern to search for"@),
            ).push(
                plain_parameter(
                    "max_results"@,
                    ParameterKind::Integer,
                    "Maximum number of results (default: 10)"@,
                ),
            ),
            Seq::<Seq<char>>::empty().push("pattern"@),
        ),
    ).push(
        function_tool(
            "get_file_info"@,
            "Get metadata about a file (size, language, line count)."@,
            Seq::<ParameterView>::empty().push(
                plain_parameter("path"@, ParameterKind::Text, "Path to the file"@),
            ),
            Seq::<Seq<char>>::empty().push("path"@),
        ),
    ).push(
        function_tool(
            "report_issue"@,
            "Report a code issue you found. Call this for each bug, security issue, or code quality problem."@,
            report_issue_properties(),
            Seq::<Seq<char>>::empty().push("file_path"@).push("line_number"@).push(
                "severity"@,
            ).push("category"@).push("title"@).push("description"@),
        ),
    ).push(
        function_tool(
            "finish_analysis"@,
            "Call this when you have finished analyzing the repository and reported all issues."@,
            Seq::empty(),
            Seq::empty(),
        ),
    )
}

/// A parameter whose values are not enumerated.
fn plain(name: &str, kind: ParameterKind, description: &str) -> (parameter: Parameter)
    ensures
        parameter@ == plain_parameter(name@, kind, description@),
{
    let parameter = Parameter {
        name: name.to_owned(),
        kind,
        description: description.to_owned(),
        choices: Vec::new(),
    };
    assert(views(parameter.choices@) =~= Seq::<Seq<char>>::empty());
    parameter
}

/// Appends a parameter to a list.
fn push_parameter(list: &mut Vec<Parameter>, parameter: Parameter)
    ensures
        views(final(list)@) == views(old(list)@).push(parameter@),
{
    proof {
        crate::text::lemma_views_push(list@, parameter);
    }
    list.push(parameter);
}

/// A definition of the type `function`.
fn function_definition(
    name: &str,
    description: &str,
    properties: Vec<Parameter>,
    required: Vec<String>,
) -> (definition: ToolDefinition)
    ensures
        definition@ == function_tool(
            name@,
            description@,
            views(properties@),
            views(required@),
        ),
{
    ToolDefinition {
        tool_type: String::from_str("function"),
        function: FunctionDefinition {
            name: name.to_owned(),
            description: description.to_owned(),
            parameters: ParameterSchema { properties, required },
        },
    }
}

/// Appends a definition to a list.
fn push_definition(list: &mut Vec<ToolDefinition>, definition: ToolDefinition)
    ensures
        views(final(list)@) == views(old(list)@).push(definition@),
{
    proof {
        crate::text::lemma_views_push(list@, definition);
    }
    list.push(definition);
}

/// An empty list of names.
fn no_names() -> (list: Vec<String>)
    ensures
        views(list@) == Seq::<Seq<char>>::empty(),
{
    let list: Vec<String> = Vec::new();
    assert(views(list@) =~= Seq::<Seq<char>>::empty());
    list
}

/// An empty list of parameters.
fn no_parameters() -> (list: Vec<Parameter>)
    ensures
        views(list@) == Seq::<ParameterView>::empty(),
{
    let list: Vec<Parameter> = Vec::new();
    assert(views(list@) =~= Seq::<ParameterView>::empty());
    list
}

/// The parameters of `report_issue`.
fn report_issue_parameters() -> (list: Vec<Parameter>)
    ensures
        views(list@) == report_issue_properties(),
{
    let mut severities = no_names();
    push_text(&mut severities, "critical");
    push_text(&mut severities, "high");
    push_text(&mut severities, "medium");
    push_text(&mut severities, "low");
    let mut categories = no_names();
    push_text(&mut categories, "bug");
    push_text(&mut categories, "security");
    push_text(&mut categories, "performance");
    push_text(&mut categories, "style");
    push_text(&mut categories, "best_practice");
    let mut list = no_parameters();
    push_parameter(
        &mut list,
        plain("file_path", ParameterKind::Text, "Path to the file with the issue"),
    );
    push_parameter(
        &mut list,
        plain("line_number", ParameterKind::Integer, "Line number where the issue is"),
    );
    push_parameter(
        &mut list,
        Parameter {
            name: String::from_str("severity"),
            kind: ParameterKind::Text,
            description: String::from_str("Severity of the issue"),
            choices: severities,
        },
    );
    push_parameter(
        &mut list,
        Parameter {
            name: String::from_str("category"),
            kind: ParameterKind::Text,
            description: String::from_str("Category of the issue"),
            choices: categories,
        },
    );
    push_parameter(&mut list, plain("title", ParameterKind::Text, "Short title describing the issue"));
    push_parameter(
        &mut list,
        plain("description", ParameterKind::Text, "Detailed description of the issue"),
    );
    push_parameter(&mut list, plain("suggestion", ParameterKind::Text, "How to fix the issue"));
    list
}

/// Get the tool definitions for the model.
pub fn get_tool_definitions() -> (definitions: Vec<ToolDefinition>)
    ensures
        views(definitions@) == tool_table(),
{
    let mut definitions: Vec<ToolDefinition> = Vec::new();
    assert(views(definitions@) =~= Seq::<ToolDefinitionView>::empty());

    let mut properties = no_parameters();
    push_parameter(
        &mut properties,
        plain(
            "directory",
            ParameterKind::Text,
            "Directory path relative to repository root. Use '.' for root.",
        ),
    );
    push_definition(
        &mut definitions,
        function_definition(
            "list_files",
            "List files and directories in the repository. Use this to explore the codebase structure.",
            properties,
            no_names(),
        ),
    );

    let mut properties = no_parameters();
    push_parameter(
        &mut properties,
        plain("path", ParameterKind::Text, "Path to the file relative to repository root"),
    );
    let mut required = no_names();
    push_text(&mut required, "path");
    push_definition(
        &mut definitions,
        function_definition(
            "read_file",
            "Read the contents of a source code file. Returns content with line numbers.",
            properties,
            required,
        ),
    );

    let mut properties = no_parameters();
    push_parameter(
        &mut properties,
        plain("pattern", ParameterKind::Text, "Text pattern to search for"),
    );
    push_parameter(
        &mut properties,
        plain("max_results", ParameterKind::Integer, "Maximum number of results (default: 10)"),
    );
    let mut required = no_names();
    push_text(&mut required, "pattern");
    push_definition(
        &mut definitions,
        function_definition(
            "search_code",
            "Search for a pattern in the codebase. Returns matching lines with file and line numbers.",
            properties,
            required,
        ),
    );

    let mut properties = no_parameters();
    push_parameter(&mut properties, plain("path", ParameterKind::Text, "Path to the file"));
    let mut required = no_names();
    push_text(&mut required, "path");
    push_definition(
        &mut definitions,
        function_definition(
            "get_file_info",
            "Get metadata about a file (size, language, line count).",
            properties,
            required,
        ),
    );

    let mut required = no_names();
    push_text(&mut required, "file_path");
    push_text(&mut required, "line_number");
    push_text(&mut required, "severity");
    push_text(&mut required, "category");
    push_text(&mut required, "title");
    push_text(&mut required, "description");
    push_definition(
        &mut definitions,
        function_definition(
            "report_issue",
            "Report a code issue you found. Call this for each bug, security issue, or code quality problem.",
            report_issue_parameters(),
            required,
        ),
    );

    push_definition(
        &mut definitions,
        function_definition(
            "finish_analysis",
            "Call this when you have finished analyzing the repository and reported all issues.",
            no_parameters(),
            no_names(),
        ),
    );
    definitions
}

/// Every tool that is advertised is a tool of the registry, and every tool
/// of the registry is advertised.
pub proof fn lemma_advertised_tools_known()
    ensures
        tool_table().len() == 6,
        forall|i: int|
            0 <= i < 6 ==> tool_kind_of((#[trigger] tool_table()[i]).name) != ToolKind::Unknown,
        forall|i: int| 0 <= i < 6 ==> (#[trigger] tool_table()[i]).tool_type == "function"@,
{
}

/// What a chat request carries besides the conversation.
#[derive(Debug)]
pub struct RequestFrame {
    /// The identifier of the model.
    pub model: String,
    /// The tools that are offered; none in a single call.
    pub tools: Vec<ToolDefinition>,
    /// Whether the answer is streamed. It never is.
    pub stream: bool,
    /// The sampling temperature in thousandths.
    pub temperature_permille: u32,
}

/// The frame of a chat request: the configured model and temperature, no
/// streaming, and the tools only where the model is to use them.
pub fn request_frame(config: &AgentConfig, strategy: Strategy) -> (frame: RequestFrame)
    ensures
        frame.model@ == config.model_name@,
        !frame.stream,
        frame.temperature_permille == config.temperature_permille,
        views(frame.tools@) == match strategy {
            Strategy::Iterative => tool_table(),
            Strategy::SingleCall => Seq::<ToolDefinitionView>::empty(),
        },
{
    let tools = match strategy {
        Strategy::Iterative => get_tool_definitions(),
        Strategy::SingleCall => {
            let none: Vec<ToolDefinition> = Vec::new();
            assert(views(none@) =~= Seq::<ToolDefinitionView>::empty());
            none
        },
    };
    RequestFrame {
        model: config.model_name.clone(),
        tools,
        stream: false,
        temperature_permille: config.temperature_permille,
    }
}

} // verus!
