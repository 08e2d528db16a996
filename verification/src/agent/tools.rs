//! The tools that the model can call, and what each call leads to.
//!
//! A call names a tool and carries a JSON object of arguments. The executor
//! turns a call into an `Execution`: either a finished `ToolResult`, for the
//! tools that need nothing outside the process, or a typed `ToolRequest` that
//! the caller has to carry out on the file system.

use crate::json::{json_count, json_counts, json_text, json_texts};
use crate::scanner::{FileScanner, ScanConfig};
use crate::text::{lemma_views_push, opt_text, str_eq, views};
use vstd::prelude::*;

pub use crate::agent::schema::{get_tool_definitions, FunctionDefinition, ToolDefinition};

verus! {

/// A tool call made by the LLM.
#[derive(Debug)]
pub struct ToolCall {
    pub function: FunctionCall,
}

/// The name and the arguments of a tool call.
#[derive(Debug)]
pub struct FunctionCall {
    pub name: String,
    pub arguments: serde_json::Value,
}

/// A tool call by view: its name as a character sequence, and its argument
/// value, whole. Two calls with one view carry the same arguments, members
/// of every kind included.
pub struct CallView {
    pub name: Seq<char>,
    pub arguments: serde_json::Value,
}

impl CallView {
    /// The string members of the argument object, which are what the
    /// library reads of it besides the integer members.
    pub open spec fn texts(self) -> Map<Seq<char>, Seq<char>> {
        json_texts(self.arguments)
    }

    /// The integer members of the argument object.
    pub open spec fn counts(self) -> Map<Seq<char>, u64> {
        json_counts(self.arguments)
    }
}

impl View for FunctionCall {
    type V = CallView;

    open spec fn view(&self) -> CallView {
        CallView { name: self.name@, arguments: self.arguments }
    }
}

impl View for ToolCall {
    type V = CallView;

    open spec fn view(&self) -> CallView {
        self.function@
    }
}

/// Result of executing a tool.
#[derive(Debug, PartialEq, Eq)]
pub struct ToolResult {
    pub success: bool,
    pub output: String,
    pub error: Option<String>,
}

/// A `ToolResult` with its strings as character sequences.
pub struct ToolResultView {
    pub success: bool,
    pub output: Seq<char>,
    pub error: Option<Seq<char>>,
}

impl View for ToolResult {
    type V = ToolResultView;

    open spec fn view(&self) -> ToolResultView {
        ToolResultView { success: self.success, output: self.output@, error: opt_text(self.error) }
    }
}

/// The successful result with the given output.
pub open spec fn success_view(output: Seq<char>) -> ToolResultView {
    ToolResultView { success: true, output, error: None }
}

/// The failed result with the given message.
pub open spec fn failure_view(message: Seq<char>) -> ToolResultView {
    ToolResultView { success: false, output: Seq::<char>::empty(), error: Some(message) }
}

impl ToolResult {
    /// The result of a call that went through, with what it put out.
    pub fn success(output: String) -> (result: Self)
        ensures
            result@ == success_view(output@),
    {
        Self { success: true, output, error: None }
    }

    /// The result of a call that failed, with the reason.
    pub fn error(message: String) -> (result: Self)
        ensures
            result@ == failure_view(message@),
    {
        Self { success: false, output: String::new(), error: Some(message) }
    }
}

/// An issue reported by the LLM via the report_issue tool.
#[derive(Debug, PartialEq, Eq)]
pub struct ReportedIssue {
    pub file_path: String,
    pub line_number: usize,
    pub severity: String,
    pub category: String,
    pub title: String,
    pub description: String,
    pub suggestion: String,
}

/// A `ReportedIssue` with its strings as character sequences.
pub struct ReportedIssueView {
    pub file_path: Seq<char>,
    pub line_number: usize,
    pub severity: Seq<char>,
    pub category: Seq<char>,
    pub title: Seq<char>,
    pub description: Seq<char>,
    pub suggestion: Seq<char>,
}

impl View for ReportedIssue {
    type V = ReportedIssueView;

    open spec fn view(&self) -> ReportedIssueView {
        ReportedIssueView {
            file_path: self.file_path@,
            line_number: self.line_number,
            severity: self.severity@,
            category: self.category@,
            title: self.title@,
            description: self.description@,
            suggestion: self.suggestion@,
        }
    }
}

impl Clone for ReportedIssue {
    fn clone(&self) -> (copy: Self)
        ensures
            copy == *self,
    {
        ReportedIssue {
            file_path: self.file_path.clone(),
            line_number: self.line_number,
            severity: self.severity.clone(),
            category: self.category.clone(),
            title: self.title.clone(),
            description: self.description.clone(),
            suggestion: self.suggestion.clone(),
        }
    }
}

/// The tools of the fixed registry, and `Unknown` for every other name.
#[derive(Debug, Clone, Copy, PartialEq, Eq, Structural)]
pub enum ToolKind {
    ListFiles,
    ReadFile,
    SearchCode,
    GetFileInfo,
    ReportIssue,
    Finish,
    Unknown,
}

/// The tool that a name stands for.
pub open spec fn tool_kind_of(name: Seq<char>) -> ToolKind {
    if name == "list_files"@ {
        ToolKind::ListFiles
    } else if name == "read_file"@ {
        ToolKind::ReadFile
    } else if name == "search_code"@ {
        ToolKind::SearchCode
    } else if name == "get_file_info"@ {
        ToolKind::GetFileInfo
    } else if name == "report_issue"@ {
        ToolKind::ReportIssue
    } else if name == "finish_analysis"@ {
        ToolKind::Finish
    } else {
        ToolKind::Unknown
    }
}

/// Looks a tool name up in the registry.
pub fn classify(name: &str) -> (kind: ToolKind)
    ensures
        kind == tool_kind_of(name@),
{
    if str_eq(name, "list_files") {
        ToolKind::ListFiles
    } else if str_eq(name, "read_file") {
        ToolKind::ReadFile
    } else if str_eq(name, "search_code") {
        ToolKind::SearchCode
    } else if str_eq(name, "get_file_info") {
        ToolKind::GetFileInfo
    } else if str_eq(name, "report_issue") {
        ToolKind::ReportIssue
    } else if str_eq(name, "finish_analysis") {
        ToolKind::Finish
    } else {
        ToolKind::Unknown
    }
}

/// A call that has to be carried out on the file system, with its arguments
/// checked and typed.
#[derive(Debug, PartialEq, Eq)]
pub enum ToolRequest {
    /// List the entries of a directory below the repository root.
    ListFiles { directory: String },
    /// Read a file below the repository root.
    ReadFile { path: String },
    /// Search the scanned files for a text, up to a number of hits.
    SearchCode { pattern: String, max_results: u64 },
    /// Report language, line count and size of a file.
    GetFileInfo { path: String },
}

/// A `ToolRequest` with its strings as character sequences.
pub enum ToolRequestView {
    ListFiles { directory: Seq<char> },
    ReadFile { path: Seq<char> },
    SearchCode { pattern: Seq<char>, max_results: u64 },
    GetFileInfo { path: Seq<char> },
}

impl View for ToolRequest {
    type V = ToolRequestView;

    open spec fn view(&self) -> ToolRequestView {
        match self {
            ToolRequest::ListFiles { directory } => ToolRequestView::ListFiles {
                directory: directory@,
            },
            ToolRequest::ReadFile { path } => ToolRequestView::ReadFile { path: path@ },
            ToolRequest::SearchCode { pattern, max_results } => ToolRequestView::SearchCode {
                pattern: pattern@,
                max_results: *max_results,
            },
            ToolRequest::GetFileInfo { path } => ToolRequestView::GetFileInfo { path: path@ },
        }
    }
}

/// What a call leads to.
#[derive(Debug, PartialEq, Eq)]
pub enum Execution {
    /// The call is finished; this is its result.
    Completed(ToolResult),
    /// The call needs the file system; the caller carries the request out
    /// and hands the result back.
    Pending(ToolRequest),
}

/// An `Execution` by the views of its parts.
pub enum ExecutionView {
    Completed(ToolResultView),
    Pending(ToolRequestView),
}

impl View for Execution {
    type V = ExecutionView;

    open spec fn view(&self) -> ExecutionView {
        match self {
            Execution::Completed(result) => ExecutionView::Completed(result@),
            Execution::Pending(request) => ExecutionView::Pending(request@),
        }
    }
}

/// The string member `key`, or `default` where the object has none.
pub open spec fn text_or(texts: Map<Seq<char>, Seq<char>>, key: Seq<char>, default: Seq<char>) -> Seq<
    char,
> {
    if texts.contains_key(key) {
        texts[key]
    } else {
        default
    }
}

/// The integer member `key`, or `default` where the object has none.
pub open spec fn count_or(counts: Map<Seq<char>, u64>, key: Seq<char>, default: u64) -> u64 {
    if counts.contains_key(key) {
        counts[key]
    } else {
        default
    }
}

/// The issue on `file_path` that an argument object describes. A missing
/// or mistyped member takes its default: line 0, severity `medium`,
/// category `general`, title `Issue`, empty description and suggestion.
/// There is no default for the path: without one there is no issue.
pub open spec fn issue_from_args(
    file_path: Seq<char>,
    texts: Map<Seq<char>, Seq<char>>,
    counts: Map<Seq<char>, u64>,
) -> ReportedIssueView {
    ReportedIssueView {
        file_path,
        line_number: count_or(counts, "line_number"@, 0) as usize,
        severity: text_or(texts, "severity"@, "medium"@),
        category: text_or(texts, "category"@, "general"@),
        title: text_or(texts, "title"@, "Issue"@),
        description: text_or(texts, "description"@, ""@),
        suggestion: text_or(texts, "suggestion"@, ""@),
    }
}

/// Why a `report_issue` call is refused: the name of the first required
/// member that its arguments lack, in the order of the tool's schema;
/// `None` where all are there. Required are the strings `file_path`,
/// `severity`, `category`, `title` and `description` and the integer
/// `line_number`; a member of another type counts as missing. The
/// `suggestion` is optional.
pub open spec fn report_refusal(
    texts: Map<Seq<char>, Seq<char>>,
    counts: Map<Seq<char>, u64>,
) -> Option<Seq<char>> {
    if !texts.contains_key("file_path"@) {
        Some("file_path"@)
    } else if !counts.contains_key("line_number"@) {
        Some("line_number"@)
    } else if !texts.contains_key("severity"@) {
        Some("severity"@)
    } else if !texts.contains_key("category"@) {
        Some("category"@)
    } else if !texts.contains_key("title"@) {
        Some("title"@)
    } else if !texts.contains_key("description"@) {
        Some("description"@)
    } else {
        None
    }
}

/// The issue that a `report_issue` call puts on record: none where the
/// call is refused, else the issue that its arguments describe.
pub open spec fn reported_issue(
    texts: Map<Seq<char>, Seq<char>>,
    counts: Map<Seq<char>, u64>,
) -> Option<ReportedIssueView> {
    if report_refusal(texts, counts) is None {
        Some(issue_from_args(texts["file_path"@], texts, counts))
    } else {
        None
    }
}

/// The answer to a `report_issue` call: `ok` where the issue is recorded,
/// else the failure that names the member which is missing.
pub open spec fn report_answer(
    texts: Map<Seq<char>, Seq<char>>,
    counts: Map<Seq<char>, u64>,
) -> ToolResultView {
    match report_refusal(texts, counts) {
        Some(name) => missing_parameter_view(name),
        None => success_view("ok"@),
    }
}

/// The failure that names a required argument which the call lacks.
pub open spec fn missing_parameter_view(name: Seq<char>) -> ToolResultView {
    failure_view("Missing required parameter: "@ + name)
}

/// What a call leads to, by the registry:
/// - `list_files` asks for a listing of `directory`, the root by default;
/// - `read_file` and `get_file_info` need a string `path`, `search_code` a
///   string `pattern`; without it the call fails at once;
/// - `search_code` returns up to `max_results` hits, ten by default;
/// - `report_issue` needs its required members; with them it answers `ok`,
///   without one it fails and names the first that is missing;
/// - `finish_analysis` answers `done`;
/// - any other name fails as unknown.
pub open spec fn execution_of(call: CallView) -> ExecutionView {
    match tool_kind_of(call.name) {
        ToolKind::ListFiles => ExecutionView::Pending(
            ToolRequestView::ListFiles { directory: text_or(call.texts(), "directory"@, "."@) },
        ),
        ToolKind::ReadFile => if call.texts().contains_key("path"@) {
            ExecutionView::Pending(ToolRequestView::ReadFile { path: call.texts()["path"@] })
        } else {
            ExecutionView::Completed(missing_parameter_view("path"@))
        },
        ToolKind::SearchCode => if call.texts().contains_key("pattern"@) {
            ExecutionView::Pending(
                ToolRequestView::SearchCode {
                    pattern: call.texts()["pattern"@],
                    max_results: count_or(call.counts(), "max_results"@, 10),
                },
            )
        } else {
            ExecutionView::Completed(missing_parameter_view("pattern"@))
        },
        ToolKind::GetFileInfo => if call.texts().contains_key("path"@) {
            ExecutionView::Pending(ToolRequestView::GetFileInfo { path: call.texts()["path"@] })
        } else {
            ExecutionView::Completed(missing_parameter_view("path"@))
        },
        ToolKind::ReportIssue => ExecutionView::Completed(
            report_answer(call.texts(), call.counts()),
        ),
        ToolKind::Finish => ExecutionView::Completed(success_view("done"@)),
        ToolKind::Unknown => ExecutionView::Completed(
            failure_view("Unknown tool: "@ + call.name),
        ),
    }
}

/// The issues on record after a call: a `report_issue` call that is not
/// refused adds the issue that its arguments describe; every other call
/// leaves the record as it is.
pub open spec fn issues_after(issues: Seq<ReportedIssueView>, call: CallView) -> Seq<
    ReportedIssueView,
> {
    if tool_kind_of(call.name) == ToolKind::ReportIssue {
        match reported_issue(call.texts(), call.counts()) {
            Some(issue) => issues.push(issue),
            None => issues,
        }
    } else {
        issues
    }
}

/// The string argument `key`, or `default`.
pub fn text_arg(args: &serde_json::Value, key: &str, default: &str) -> (value: String)
    ensures
        value@ == text_or(json_texts(*args), key@, default@),
{
    match json_text(args, key) {
        Some(s) => s,
        None => default.to_owned(),
    }
}

/// The integer argument `key`, or `default`.
pub fn count_arg(args: &serde_json::Value, key: &str, default: u64) -> (value: u64)
    ensures
        value == count_or(json_counts(*args), key@, default),
{
    match json_count(args, key) {
        Some(n) => n,
        None => default,
    }
}

/// The issue on `file_path` that an argument object describes.
pub fn issue_of_args(file_path: String, args: &serde_json::Value) -> (issue: ReportedIssue)
    ensures
        issue@ == issue_from_args(file_path@, json_texts(*args), json_counts(*args)),
{
    let line = count_arg(args, "line_number", 0);
    ReportedIssue {
        file_path,
        line_number: #[verifier::truncate]
        (line as usize),
        severity: text_arg(args, "severity", "medium"),
        category: text_arg(args, "category", "general"),
        title: text_arg(args, "title", "Issue"),
        description: text_arg(args, "description", ""),
        suggestion: text_arg(args, "suggestion", ""),
    }
}

/// Whether the arguments hold a string member `key`.
pub fn has_text(args: &serde_json::Value, key: &str) -> (found: bool)
    ensures
        found == json_texts(*args).contains_key(key@),
{
    json_text(args, key).is_some()
}

/// Whether the arguments hold an integer member `key`.
pub fn has_count(args: &serde_json::Value, key: &str) -> (found: bool)
    ensures
        found == json_counts(*args).contains_key(key@),
{
    json_count(args, key).is_some()
}

/// The name of the first required member that the arguments of a
/// `report_issue` call lack, if they lack one.
pub fn missing_report_member(args: &serde_json::Value) -> (missing: Option<&'static str>)
    ensures
        match missing {
            Some(name) => report_refusal(json_texts(*args), json_counts(*args)) == Some(name@),
            None => report_refusal(json_texts(*args), json_counts(*args)) is None,
        },
{
    if !has_text(args, "file_path") {
        Some("file_path")
    } else if !has_count(args, "line_number") {
        Some("line_number")
    } else if !has_text(args, "severity") {
        Some("severity")
    } else if !has_text(args, "category") {
        Some("category")
    } else if !has_text(args, "title") {
        Some("title")
    } else if !has_text(args, "description") {
        Some("description")
    } else {
        None
    }
}

/// The request that a call makes of the file system, if it makes one.
pub fn request_of(tool_call: &ToolCall) -> (request: Option<ToolRequest>)
    ensures
        match execution_of(tool_call@) {
            ExecutionView::Pending(wanted) => request matches Some(r) && r@ == wanted,
            ExecutionView::Completed(_) => request is None,
        },
{
    let args = &tool_call.function.arguments;
    match classify(tool_call.function.name.as_str()) {
        ToolKind::ListFiles => Some(
            ToolRequest::ListFiles { directory: text_arg(args, "directory", ".") },
        ),
        ToolKind::ReadFile => match json_text(args, "path") {
            Some(path) => Some(ToolRequest::ReadFile { path }),
            None => None,
        },
        ToolKind::SearchCode => match json_text(args, "pattern") {
            Some(pattern) => Some(
                ToolRequest::SearchCode {
                    pattern,
                    max_results: count_arg(args, "max_results", 10),
                },
            ),
            None => None,
        },
        ToolKind::GetFileInfo => match json_text(args, "path") {
            Some(path) => Some(ToolRequest::GetFileInfo { path }),
            None => None,
        },
        _ => None,
    }
}

/// The failure that reports a missing argument.
fn missing_parameter(name: &str) -> (result: ToolResult)
    ensures
        result@ == missing_parameter_view(name@),
{
    let mut message = String::from_str("Missing required parameter: ");
    message.append(name);
    ToolResult::error(message)
}

/// The tools executor that handles tool calls.
pub struct ToolExecutor {
    /// Collected issues during analysis.
    issues: Vec<ReportedIssue>,
    /// File scanner for the repository being analyzed.
    scanner: FileScanner,
}

impl ToolExecutor {
    /// The issues on record, oldest first.
    pub closed spec fn issues(&self) -> Seq<ReportedIssueView> {
        views(self.issues@)
    }

    /// The root of the repository that the tools work on.
    pub closed spec fn root(&self) -> Seq<char> {
        self.scanner.root()
    }

    /// The configuration that file tools decide by.
    pub closed spec fn scan_config(&self) -> ScanConfig {
        self.scanner.config()
    }

    /// Create a new tool executor for the given repository.
    pub fn new(repo_root: String, scan_config: ScanConfig) -> (executor: Self)
        ensures
            executor.issues() == Seq::<ReportedIssueView>::empty(),
            executor.root() == repo_root@,
            executor.scan_config() == scan_config,
    {
        let scanner = FileScanner::new(repo_root, scan_config);
        let executor = Self { issues: Vec::new(), scanner };
        assert(executor.issues() =~= Seq::<ReportedIssueView>::empty());
        executor
    }

    /// Get all reported issues.
    pub fn get_issues(&self) -> (issues: &Vec<ReportedIssue>)
        ensures
            views(issues@) == self.issues(),
    {
        &self.issues
    }

    /// The number of issues on record.
    pub fn issue_count(&self) -> (count: usize)
        ensures
            count == self.issues().len(),
    {
        self.issues.len()
    }

    /// The root of the repository that the tools work on.
    pub fn repo_root(&self) -> (root: &str)
        ensures
            root@ == self.root(),
    {
        self.scanner.repo_root()
    }

    /// The scanner that file tools decide by.
    pub fn scanner(&self) -> (scanner: &FileScanner)
        ensures
            scanner.config() == self.scan_config(),
            scanner.root() == self.root(),
    {
        &self.scanner
    }

    /// Execute a tool call as far as the process itself can: the result of a
    /// call that needs no file access, or the request to carry out.
    pub fn execute(&mut self, tool_call: &ToolCall) -> (execution: Execution)
        ensures
            execution@ == execution_of(tool_call@),
            final(self).issues() == issues_after(old(self).issues(), tool_call@),
            final(self).root() == old(self).root(),
            final(self).scan_config() == old(self).scan_config(),
    {
        let name = tool_call.function.name.as_str();
        let args = &tool_call.function.arguments;
        match request_of(tool_call) {
            Some(request) => Execution::Pending(request),
            None => match classify(name) {
                ToolKind::ReadFile | ToolKind::GetFileInfo => Execution::Completed(
                    missing_parameter("path"),
                ),
                ToolKind::SearchCode => Execution::Completed(missing_parameter("pattern")),
                ToolKind::ReportIssue => Execution::Completed(self.report_issue(args)),
                ToolKind::Finish => Execution::Completed(
                    ToolResult::success(String::from_str("done")),
                ),
                _ => {
                    let mut message = String::from_str("Unknown tool: ");
                    message.append(name);
                    Execution::Completed(ToolResult::error(message))
                },
            },
        }
    }

    /// Report an issue found in the code. A call that lacks a required
    /// member fails and records nothing; no issue is made up for it.
    pub fn report_issue(&mut self, args: &serde_json::Value) -> (result: ToolResult)
        ensures
            result@ == report_answer(json_texts(*args), json_counts(*args)),
            final(self).issues() == match reported_issue(json_texts(*args), json_counts(*args)) {
                Some(issue) => old(self).issues().push(issue),
                None => old(self).issues(),
            },
            final(self).root() == old(self).root(),
            final(self).scan_config() == old(self).scan_config(),
    {
        match missing_report_member(args) {
            Some(name) => missing_parameter(name),
            None => match json_text(args, "file_path") {
                Some(file_path) => {
                    let issue = issue_of_args(file_path, args);
                    proof {
                        lemma_views_push(self.issues@, issue);
                    }
                    self.issues.push(issue);
                    ToolResult::success(String::from_str("ok"))
                },
                None => missing_parameter("file_path"),
            },
        }
    }
}

} // verus!
