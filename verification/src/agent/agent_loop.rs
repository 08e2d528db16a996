//! The agent's conversation with the model, one turn at a time.

use crate::agent::model::{
    after_deferral, after_local, after_outcome, after_reply, batch_calls, batch_wf, close_batch,
    lemma_pruned_keeps_form,
    core_wf, initial_state, nudged, pending_action, run_batch, settle, step,
    text_turn, unreported, wf, ActionView, AgentState, EventView, Phase, ResponseView, StopReason,
};
use crate::agent::tools::{
    classify, missing_report_member, request_of, text_arg, CallView, Execution, ReportedIssue,
    ToolCall, ToolExecutor, ToolKind, ToolRequest, ToolResult,
    ToolResultView,
};
use crate::scanner::ScanConfig;
use crate::text::{
    contains_text, decimal, join, lemma_noted_distinct, lemma_views_push, list_contains,
    lowercase, note, noted, push_decimal, push_text, str_contains, views,
};
use vstd::prelude::*;

verus! {

/// Who a message is from.
#[derive(Debug, Clone, Copy, PartialEq, Eq, Structural)]
pub enum Role {
    System,
    User,
    Assistant,
    Tool,
}

impl Role {
    /// The name of the role in the chat protocol.
    pub fn as_str(&self) -> (name: &'static str)
        ensures
            name@ == match *self {
                Role::System => "system"@,
                Role::User => "user"@,
                Role::Assistant => "assistant"@,
                Role::Tool => "tool"@,
            },
    {
        match self {
            Role::System => "system",
            Role::User => "user",
            Role::Assistant => "assistant",
            Role::Tool => "tool",
        }
    }
}

/// A tool call as it stands in a message.
pub type ToolCallMessage = ToolCall;

/// The name and arguments of a tool call as they stand in a message.
pub type ToolCallFunction = crate::agent::tools::FunctionCall;

/// Message in the chat history.
#[derive(Debug)]
pub struct ChatMessage {
    pub role: Role,
    pub content: String,
    pub tool_calls: Option<Vec<ToolCallMessage>>,
}

/// A message with its text as a character sequence and its calls by view.
#[verifier::ext_equal]
pub struct MessageView {
    pub role: Role,
    pub content: Seq<char>,
    pub tool_calls: Option<Seq<CallView>>,
}

/// The views of an optional list of calls.
pub open spec fn opt_calls(calls: Option<Vec<ToolCallMessage>>) -> Option<Seq<CallView>> {
    match calls {
        Some(list) => Some(views(list@)),
        None => None,
    }
}

impl View for ChatMessage {
    type V = MessageView;

    open spec fn view(&self) -> MessageView {
        MessageView {
            role: self.role,
            content: self.content@,
            tool_calls: opt_calls(self.tool_calls),
        }
    }
}

/// The number of messages at the head of a conversation that are never
/// evicted: the system instructions and the initial directive.
pub const ANCHOR_COUNT: usize = 2;

/// The longest tool outcome, in characters, that enters the conversation whole.
pub const TRUNCATION_CEILING: usize = 8000;

/// The number of turns in a row without a tool call after which the run is
/// abandoned.
pub const ABANDON_THRESHOLD: usize = 5;

/// The number of turns in a row without a tool call from which on the
/// corrective prompt demands tool use.
pub const REDIRECT_THRESHOLD: usize = 3;

/// The system message of a session that works with tools.
pub const AGENT_SYSTEM_PROMPT: &'static str =
    r#"You are an expert code analyst and security auditor. Your task is to analyze a code repository for issues.

## Available Tools

You have access to tools to explore and analyze the codebase:
- `list_files(directory)` - List files in a directory
- `read_file(path)` - Read a source file's contents
- `search_code(pattern)` - Search for code patterns
- `get_file_info(path)` - Get file metadata
- `report_issue(...)` - Report a found issue
- `finish_analysis()` - Call when done

## Your Process

1. Start by listing files in the root directory
2. Identify source code files to analyze
3. Read and analyze each relevant source file
4. For each issue found, call report_issue
5. When finished, call finish_analysis

## Issues to Look For

- Bugs: Logic errors, null pointer risks, race conditions
- Security: SQL injection, XSS, hardcoded secrets
- Performance: Inefficient algorithms, memory issues
- Code Quality: Duplicated code, complex functions

Be thorough but focused. Report real issues with specific line numbers.
"#;

/// The directive that follows the system message.
pub const INITIAL_DIRECTIVE: &'static str =
    "Please analyze this repository for code issues. Start by exploring the file structure, then read and analyze the source code files. Report any bugs, security issues, performance problems, or code quality concerns you find. When you've finished analyzing all relevant files, call finish_analysis.";

/// The corrective prompt when nothing else applies.
pub const CONTINUE_PROMPT: &'static str =
    "Please continue analyzing or call finish_analysis if you're done.";

/// The corrective prompt while no issue is on record.
pub const REPORT_REMINDER: &'static str =
    "You have not reported any issues yet. Call report_issue for each problem you find in the files you have read; do not describe problems in plain text.";

/// The corrective prompt after several turns in a row without a tool call.
pub const STRONG_REDIRECT: &'static str =
    "You must use the tools now. Answer with a tool call only: list_files, read_file or search_code to explore, report_issue for each problem, finish_analysis when you are done.";

/// The outcome of a finish request that is not honoured; the files that
/// were read and not reported on follow it.
pub const FINISH_DEFERRED: &'static str =
    "Not finished: you have read files but reported no issues. Call report_issue for each problem in these files before you call finish_analysis again: ";

/// The reminder that is appended to the outcome of a batch's last read.
pub const READ_NUDGE: &'static str =
    "\n\n[Report every issue you found in this file with report_issue before you move on.]";

/// A sequence cut down to `keep + max_len` items: the first `keep` stay, and of the rest the
/// `max_len` newest. A sequence that is not longer than that is unchanged.
pub open spec fn pruned<T>(items: Seq<T>, keep: nat, max_len: nat) -> Seq<T> {
    if items.len() > keep + max_len {
        items.take(keep as int) + items.skip(items.len() - max_len)
    } else {
        items
    }
}

/// Evicts the oldest items after the first `keep` until at most `max_len`
/// of them are left. The first `keep` items and the order of the rest stay.
pub fn prune<T>(items: &mut Vec<T>, keep: usize, max_len: usize)
    ensures
        final(items)@ == pruned(old(items)@, keep as nat, max_len as nat),
{
    let len = items.len();
    if len > keep && len - keep > max_len {
        let mut tail = items.split_off(len - max_len);
        items.truncate(keep);
        items.append(&mut tail);
    }
}


/// What is left after pruning is never longer than `keep + max_len` where the
/// sequence was longer before, and the first `keep` items are the same.
pub proof fn lemma_pruned_bounds<T>(items: Seq<T>, keep: nat, max_len: nat)
    ensures
        items.len() > keep + max_len ==> pruned(items, keep, max_len).len() == keep + max_len,
        pruned(items, keep, max_len).len() <= items.len(),
        items.len() >= keep ==> pruned(items, keep, max_len).take(keep as int) == items.take(
            keep as int,
        ),
        forall|i: int|
            0 <= i < pruned(items, keep, max_len).len() ==> items.contains(
                #[trigger] pruned(items, keep, max_len)[i],
            ),
{
    let out = pruned(items, keep, max_len);
    if items.len() > keep + max_len {
        assert(out.take(keep as int) =~= items.take(keep as int));
        assert forall|i: int| 0 <= i < out.len() implies items.contains(#[trigger] out[i]) by {
            if i < keep {
                assert(out[i] == items[i]);
            } else {
                assert(out[i] == items[i - keep + items.len() - max_len]);
            }
        }
    } else {
        assert forall|i: int| 0 <= i < out.len() implies items.contains(#[trigger] out[i]) by {
            assert(out[i] == items[i]);
        }
    }
}

/// The text that enters the conversation for a tool result: the output of
/// a success, and `Error: ` with the message for a failure.
pub open spec fn outcome_text(result: ToolResultView) -> Seq<char> {
    if result.success {
        result.output
    } else {
        "Error: "@ + match result.error {
            Some(message) => message,
            None => Seq::<char>::empty(),
        }
    }
}

/// A text cut to the ceiling: the first `TRUNCATION_CEILING` characters and
/// a marker that gives the length of the whole text. A text within the ceiling is
/// unchanged.
pub open spec fn truncated(text: Seq<char>) -> Seq<char> {
    if text.len() > TRUNCATION_CEILING {
        text.take(TRUNCATION_CEILING as int) + "\n...truncated, "@ + decimal(text.len()) + " total"@
    } else {
        text
    }
}

/// The text that enters the conversation for a tool result.
pub fn outcome_content(result: ToolResult) -> (content: String)
    ensures
        content@ == outcome_text(result@),
{
    let ToolResult { success, output, error } = result;
    if success {
        output
    } else {
        let mut content = String::from_str("Error: ");
        match error {
            Some(message) => {
                content.append(message.as_str());
            },
            None => {
                assert(content@ + Seq::<char>::empty() =~= content@);
            },
        }
        content
    }
}

/// Cuts a text to the ceiling and marks the cut with the length of the whole.
pub fn truncate_outcome(text: String) -> (kept: String)
    ensures
        kept@ == truncated(text@),
{
    let length = text.as_str().unicode_len();
    if length > TRUNCATION_CEILING {
        let mut kept = text.as_str().substring_char(0, TRUNCATION_CEILING).to_owned();
        kept.append("\n...truncated, ");
        push_decimal(&mut kept, length as u64);
        kept.append(" total");
        kept
    } else {
        text
    }
}

/// A text over the ceiling keeps exactly its first `TRUNCATION_CEILING`
/// characters, followed by the marker with the length of the whole in
/// decimal; a text within the ceiling passes unchanged. What is kept of a
/// text over the ceiling is shorter than the text; with the marker, the
/// result is `TRUNCATION_CEILING` characters, 21 for the words of the
/// marker and the digits of the length long.
pub proof fn lemma_truncated_shape(text: Seq<char>)
    ensures
        text.len() <= TRUNCATION_CEILING ==> truncated(text) == text,
        text.len() > TRUNCATION_CEILING ==> {
            &&& truncated(text).take(TRUNCATION_CEILING as int) == text.take(
                TRUNCATION_CEILING as int,
            )
            &&& truncated(text).skip(TRUNCATION_CEILING as int) == "\n...truncated, "@ + decimal(
                text.len(),
            ) + " total"@
            &&& text.take(TRUNCATION_CEILING as int).len() < text.len()
            &&& truncated(text).len() == TRUNCATION_CEILING + 21 + decimal(text.len()).len()
        },
{
    if text.len() > TRUNCATION_CEILING {
        reveal_strlit("\n...truncated, ");
        reveal_strlit(" total");
        let head = text.take(TRUNCATION_CEILING as int);
        let mark = "\n...truncated, "@ + decimal(text.len()) + " total"@;
        assert(truncated(text) =~= head + mark);
        assert((head + mark).take(TRUNCATION_CEILING as int) =~= head);
        assert((head + mark).skip(TRUNCATION_CEILING as int) =~= mark);
    }
}

/// Whether a finish request is honoured: it is deferred while files were
/// read, none was reported on, and no issue is on record.
pub open spec fn finish_honored(
    files_read: Seq<Seq<char>>,
    files_reported: Seq<Seq<char>>,
    issues: nat,
) -> bool {
    !(files_read.len() > 0 && files_reported.len() == 0 && issues == 0)
}

/// Whether a lowercased text holds one of the words that signal completion.
/// This is a heuristic: any occurrence counts, also in prose that speaks of
/// something else, which is why the signal alone never ends a run.
pub open spec fn completion_signalled(lowered: Seq<char>) -> bool {
    ||| contains_text(lowered, "complete"@)
    ||| contains_text(lowered, "finished"@)
    ||| contains_text(lowered, "done"@)
}

/// Whether a lowercased text holds one of the words that signal completion.
pub fn mentions_completion(lowered: &str) -> (signalled: bool)
    ensures
        signalled == completion_signalled(lowered@),
{
    str_contains(lowered, "complete") || str_contains(lowered, "finished") || str_contains(
        lowered,
        "done",
    )
}

/// Whether a free text signals completion, whatever its letter case.
pub fn signals_completion(content: &str) -> (signalled: bool)
    ensures
        signalled == completion_signalled(lowercase(content@)),
{
    let lowered = content.to_lowercase();
    mentions_completion(lowered.as_str())
}


/// Pruning the views of a sequence is pruning the sequence.
pub proof fn lemma_views_pruned<T: View>(items: Seq<T>, keep: nat, max_len: nat)
    ensures
        views(pruned(items, keep, max_len)) == pruned(views(items), keep, max_len),
{
    assert(views(pruned(items, keep, max_len)) =~= pruned(views(items), keep, max_len));
}

/// Configuration for the agent.
#[derive(Debug)]
pub struct AgentConfig {
    pub ollama_url: String,
    pub model_name: String,
    /// The sampling temperature in thousandths.
    pub temperature_permille: u32,
    pub max_iterations: usize,
    pub timeout_seconds: u64,
    /// Use single-call mode instead of tool-calling.
    pub single_call_mode: bool,
    /// The number of messages that are kept after the two anchors.
    pub max_context_messages: usize,
}

impl Default for AgentConfig {
    fn default() -> (config: Self)
        ensures
            config.ollama_url@ == "http://localhost:11434"@,
            config.model_name@ == "llama3.2:latest"@,
            config.temperature_permille == 100,
            config.max_iterations == 50,
            config.timeout_seconds == 300,
            !config.single_call_mode,
            config.max_context_messages == 10,
    {
        Self {
            ollama_url: String::from_str("http://localhost:11434"),
            model_name: String::from_str("llama3.2:latest"),
            temperature_permille: 100,
            max_iterations: 50,
            timeout_seconds: 300,
            single_call_mode: false,
            max_context_messages: 10,
        }
    }
}

/// An answer of the model.
#[derive(Debug)]
pub struct ResponseMessage {
    pub content: String,
    pub tool_calls: Option<Vec<ToolCallMessage>>,
}

impl View for ResponseMessage {
    type V = ResponseView;

    open spec fn view(&self) -> ResponseView {
        ResponseView { content: self.content@, tool_calls: opt_calls(self.tool_calls) }
    }
}

/// What the driver reports back to the agent.
#[derive(Debug)]
pub enum Event {
    /// The model has answered.
    Reply(ResponseMessage),
    /// The tool request that was handed out last has this result.
    Outcome(ToolResult),
}

impl View for Event {
    type V = EventView;

    open spec fn view(&self) -> EventView {
        match self {
            Event::Reply(reply) => EventView::Reply(reply@),
            Event::Outcome(outcome) => EventView::Outcome(outcome@),
        }
    }
}

/// What the driver has to do next.
#[derive(Debug, PartialEq, Eq)]
pub enum Action {
    /// Send the conversation to the model and report its answer.
    CallBackend,
    /// Carry the request out and report its result.
    RunTool(ToolRequest),
    /// Stop; the issues on record are the result.
    Stop(StopReason),
}

impl View for Action {
    type V = ActionView;

    open spec fn view(&self) -> ActionView {
        match self {
            Action::CallBackend => ActionView::CallBackend,
            Action::RunTool(request) => ActionView::RunTool(request@),
            Action::Stop(reason) => ActionView::Stop(*reason),
        }
    }
}

/// Which files the model has read and which it has reported on. A
/// heuristic: it says whether the model appears to have covered the tree,
/// never whether its findings are right.
#[derive(Debug)]
pub struct CoverageState {
    files_read: Vec<String>,
    files_reported: Vec<String>,
}

impl CoverageState {
    /// The files read, each once, in order of first reading.
    pub closed spec fn read(&self) -> Seq<Seq<char>> {
        views(self.files_read@)
    }

    /// The files reported on, each once, in order of first report.
    pub closed spec fn reported(&self) -> Seq<Seq<char>> {
        views(self.files_reported@)
    }

    /// No file is listed twice.
    pub open spec fn wf(&self) -> bool {
        self.read().no_duplicates() && self.reported().no_duplicates()
    }

    /// The state in which nothing is read or reported.
    pub fn new() -> (state: Self)
        ensures
            state.read() == Seq::<Seq<char>>::empty(),
            state.reported() == Seq::<Seq<char>>::empty(),
            state.wf(),
    {
        let state = CoverageState { files_read: Vec::new(), files_reported: Vec::new() };
        assert(state.read() =~= Seq::<Seq<char>>::empty());
        assert(state.reported() =~= Seq::<Seq<char>>::empty());
        state
    }

    /// Notes that `path` was read.
    pub fn note_read(&mut self, path: &str)
        requires
            old(self).wf(),
        ensures
            final(self).wf(),
            final(self).read() == noted(old(self).read(), path@),
            final(self).reported() == old(self).reported(),
    {
        proof {
            lemma_noted_distinct(self.read(), path@);
        }
        note(&mut self.files_read, path);
    }

    /// Notes that an issue was reported on `path`.
    pub fn note_reported(&mut self, path: &str)
        requires
            old(self).wf(),
        ensures
            final(self).wf(),
            final(self).reported() == noted(old(self).reported(), path@),
            final(self).read() == old(self).read(),
    {
        proof {
            lemma_noted_distinct(self.reported(), path@);
        }
        note(&mut self.files_reported, path);
    }

    /// The files read so far.
    pub fn files_read(&self) -> (files: &Vec<String>)
        ensures
            views(files@) == self.read(),
    {
        &self.files_read
    }

    /// The files reported on so far.
    pub fn files_reported(&self) -> (files: &Vec<String>)
        ensures
            views(files@) == self.reported(),
    {
        &self.files_reported
    }

    /// The files that were read and not reported on, in order of reading.
    pub fn unreported_files(&self) -> (files: Vec<String>)
        ensures
            views(files@) == unreported(self.read(), self.reported()),
    {
        let mut files: Vec<String> = Vec::new();
        let mut i: usize = 0;
        assert(views(files@) =~= Seq::<Seq<char>>::empty());
        assert(self.read().take(0) =~= Seq::<Seq<char>>::empty());
        while i < self.files_read.len()
            invariant
                i <= self.files_read.len(),
                views(files@) == unreported(self.read().take(i as int), self.reported()),
            decreases self.files_read.len() - i,
        {
            proof {
                let next = self.read().take(i as int + 1);
                assert(next.drop_last() =~= self.read().take(i as int));
                assert(next.last() == self.files_read@[i as int]@);
            }
            if !list_contains(&self.files_reported, self.files_read[i].as_str()) {
                push_text(&mut files, self.files_read[i].as_str());
            }
            i += 1;
        }
        proof {
            assert(self.read().take(i as int) =~= self.read());
        }
        files
    }
}


/// The code analysis agent: a session with the model, driven from outside
/// one event at a time.
///
/// The driver performs what `Action` asks for (a call of the backend, a
/// tool request on the file system) and reports the result with `advance`.
pub struct CodeAnalysisAgent {
    config: AgentConfig,
    tool_executor: ToolExecutor,
    messages: Vec<ChatMessage>,
    coverage: CoverageState,
    iteration: usize,
    silent_turns: usize,
    phase: Phase,
    batch_message: usize,
    cursor: usize,
    last_read: Option<usize>,
    batch_reported: bool,
}

impl View for CodeAnalysisAgent {
    type V = AgentState;

    closed spec fn view(&self) -> AgentState {
        AgentState {
            max_iterations: self.config.max_iterations as nat,
            max_context: self.config.max_context_messages as nat,
            messages: views(self.messages@),
            issues: self.tool_executor.issues(),
            files_read: self.coverage.read(),
            files_reported: self.coverage.reported(),
            iteration: self.iteration as nat,
            silent_turns: self.silent_turns as nat,
            phase: self.phase,
            batch_message: self.batch_message as int,
            cursor: self.cursor as int,
            last_read: match self.last_read {
                Some(at) => Some(at as int),
                None => None,
            },
            batch_reported: self.batch_reported,
        }
    }
}

impl CodeAnalysisAgent {
    /// The configuration that the agent was made with.
    pub closed spec fn spec_config(&self) -> AgentConfig {
        self.config
    }

    /// The root of the repository under analysis.
    pub closed spec fn root(&self) -> Seq<char> {
        self.tool_executor.root()
    }

    /// The scan configuration that the file tools decide by.
    pub closed spec fn scan_config(&self) -> ScanConfig {
        self.tool_executor.scan_config()
    }

    /// What does not change in the course of a session.
    pub open spec fn same_setup(&self, other: &Self) -> bool {
        &&& self.spec_config() == other.spec_config()
        &&& self.root() == other.root()
        &&& self.scan_config() == other.scan_config()
    }

    /// The agent is in a state that a session can reach.
    pub open spec fn wf(&self) -> bool {
        wf(self@)
    }

    /// Create a new agent for analyzing a repository. The conversation
    /// holds the two anchors, and the first action is pending.
    pub fn new(config: AgentConfig, repo_root: String, scan_config: ScanConfig) -> (agent: Self)
        ensures
            agent.wf(),
            agent@ == initial_state(
                config.max_iterations as nat,
                config.max_context_messages as nat,
            ),
            agent.spec_config() == config,
            agent.root() == repo_root@,
            agent.scan_config() == scan_config,
    {
        let mut messages: Vec<ChatMessage> = Vec::new();
        messages.push(
            ChatMessage {
                role: Role::System,
                content: String::from_str(AGENT_SYSTEM_PROMPT),
                tool_calls: None,
            },
        );
        messages.push(
            ChatMessage {
                role: Role::User,
                content: String::from_str(INITIAL_DIRECTIVE),
                tool_calls: None,
            },
        );
        let phase = if config.max_iterations == 0 {
            Phase::Done(StopReason::BudgetExhausted)
        } else {
            Phase::AwaitingReply
        };
        let agent = CodeAnalysisAgent {
            config,
            tool_executor: ToolExecutor::new(repo_root, scan_config),
            messages,
            coverage: CoverageState::new(),
            iteration: 0,
            silent_turns: 0,
            phase,
            batch_message: 0,
            cursor: 0,
            last_read: None,
            batch_reported: false,
        };
        proof {
            let wanted = initial_state(
                config.max_iterations as nat,
                config.max_context_messages as nat,
            );
            assert(agent@.messages =~= wanted.messages);
            assert(agent@ =~= wanted);
        }
        agent
    }

    /// The configuration that the agent was made with.
    pub fn config(&self) -> (config: &AgentConfig)
        ensures
            *config == self.spec_config(),
    {
        &self.config
    }

    /// The conversation, oldest message first.
    pub fn messages(&self) -> (messages: &Vec<ChatMessage>)
        ensures
            views(messages@) == self@.messages,
    {
        &self.messages
    }

    /// The executor that holds the issues on record.
    pub fn tool_executor(&self) -> (executor: &ToolExecutor)
        ensures
            executor.issues() == self@.issues,
            executor.root() == self.root(),
            executor.scan_config() == self.scan_config(),
    {
        &self.tool_executor
    }

    /// Which files were read and reported on.
    pub fn coverage(&self) -> (coverage: &CoverageState)
        ensures
            coverage.read() == self@.files_read,
            coverage.reported() == self@.files_reported,
    {
        &self.coverage
    }

    /// What the agent is waiting for.
    pub fn phase(&self) -> (phase: Phase)
        ensures
            phase == self@.phase,
    {
        self.phase
    }

    /// The number of answers received.
    pub fn iteration(&self) -> (iteration: usize)
        ensures
            iteration == self@.iteration,
    {
        self.iteration
    }

    /// The number of answers in a row that carried no tool call.
    pub fn silent_turns(&self) -> (turns: usize)
        ensures
            turns == self@.silent_turns,
    {
        self.silent_turns
    }

    /// The action that the agent is waiting on.
    pub fn pending_action(&self) -> (action: Action)
        requires
            self.wf(),
        ensures
            action@ == pending_action(self@),
    {
        match self.phase {
            Phase::AwaitingReply => Action::CallBackend,
            Phase::AwaitingOutcome => match &self.messages[self.batch_message].tool_calls {
                Some(list) => match request_of(&list[self.cursor]) {
                    Some(request) => Action::RunTool(request),
                    None => Action::CallBackend,
                },
                None => Action::CallBackend,
            },
            Phase::Done(reason) => Action::Stop(reason),
        }
    }

    /// Takes in what the driver reports and says what to do next. An event
    /// that the agent is not waiting for changes nothing.
    pub fn advance(&mut self, event: Event) -> (action: Action)
        requires
            old(self).wf(),
        ensures
            final(self).wf(),
            final(self)@ == step(old(self)@, event@).0,
            action@ == step(old(self)@, event@).1,
            final(self).same_setup(old(self)),
    {
        match event {
            Event::Reply(reply) => {
                if self.phase != Phase::AwaitingReply {
                    return self.pending_action();
                }
                let ResponseMessage { content, tool_calls } = reply;
                let batch = match &tool_calls {
                    Some(list) => list.len() > 0,
                    None => false,
                };
                let signalled = if batch {
                    false
                } else {
                    signals_completion(content.as_str())
                };
                let message = ChatMessage { role: Role::Assistant, content, tool_calls };
                proof {
                    lemma_views_push(self.messages@, message);
                }
                self.iteration = self.iteration + 1;
                if batch {
                    self.silent_turns = 0;
                }
                self.batch_message = self.messages.len();
                self.cursor = 0;
                self.last_read = None;
                self.batch_reported = false;
                self.messages.push(message);
                assert(self@ =~= after_reply(old(self)@, reply@));
                if batch {
                    assert(batch_calls(self@) == reply@.tool_calls->0);
                    self.run_batch()
                } else {
                    self.text_turn(signalled)
                }
            },
            Event::Outcome(outcome) => {
                if self.phase != Phase::AwaitingOutcome {
                    return self.pending_action();
                }
                let ghost calls = batch_calls(self@);
                let ghost call = calls[self.cursor as int];
                let read_path = match &self.messages[self.batch_message].tool_calls {
                    Some(list) => {
                        assert(calls == views(list@));
                        assert(self.cursor < list.len());
                        let current = &list[self.cursor];
                        if outcome.success && classify(current.function.name.as_str())
                            == ToolKind::ReadFile {
                            Some(text_arg(&current.function.arguments, "path", ""))
                        } else {
                            None
                        }
                    },
                    None => None,
                };
                match read_path {
                    Some(path) => {
                        self.coverage.note_read(path.as_str());
                        self.last_read = Some(self.messages.len());
                    },
                    None => {},
                }
                let content = truncate_outcome(outcome_content(outcome));
                self.push_message(Role::Tool, content);
                self.cursor = self.cursor + 1;
                assert(self@ =~= after_outcome(old(self)@, call, outcome@));
                assert(batch_calls(self@) == calls);
                self.run_batch()
            },
        }
    }

    /// The issues on record, handed over.
    pub fn into_issues(self) -> (issues: Vec<ReportedIssue>)
        ensures
            views(issues@) == self@.issues,
    {
        let mut issues: Vec<ReportedIssue> = Vec::new();
        let recorded = self.tool_executor.get_issues();
        let mut i: usize = 0;
        assert(views(issues@) =~= views(recorded@).take(0));
        while i < recorded.len()
            invariant
                i <= recorded.len(),
                views(issues@) == views(recorded@).take(i as int),
            decreases recorded.len() - i,
        {
            let issue = recorded[i].clone();
            proof {
                lemma_views_push(issues@, issue);
                assert(views(recorded@).take(i as int + 1) =~= views(recorded@).take(
                    i as int,
                ).push(issue@));
            }
            issues.push(issue);
            i += 1;
        }
        assert(views(recorded@).take(i as int) =~= views(recorded@));
        issues
    }

    /// Appends a message without tool calls to the conversation.
    fn push_message(&mut self, role: Role, content: String)
        ensures
            final(self)@ == (AgentState {
                messages: old(self)@.messages.push(
                    MessageView { role, content: content@, tool_calls: None },
                ),
                ..old(self)@
            }),
            final(self).same_setup(old(self)),
    {
        let message = ChatMessage { role, content, tool_calls: None };
        proof {
            lemma_views_push(self.messages@, message);
        }
        self.messages.push(message);
    }

    /// Ends an iteration.
    fn settle(&mut self) -> (action: Action)
        requires
            core_wf(old(self)@),
            old(self)@.silent_turns < ABANDON_THRESHOLD,
            old(self)@.messages.len() <= old(self)@.max_context + ANCHOR_COUNT,
        ensures
            final(self).wf(),
            final(self)@ == settle(old(self)@).0,
            action@ == settle(old(self)@).1,
            final(self).same_setup(old(self)),
    {
        if self.iteration >= self.config.max_iterations {
            self.phase = Phase::Done(StopReason::BudgetExhausted);
            Action::Stop(StopReason::BudgetExhausted)
        } else {
            self.phase = Phase::AwaitingReply;
            Action::CallBackend
        }
    }

    /// Cuts the conversation down to the anchors and the newest messages.
    fn prune_old_messages(&mut self)
        requires
            core_wf(old(self)@),
        ensures
            core_wf(final(self)@),
            final(self)@ == (AgentState {
                messages: pruned(
                    old(self)@.messages,
                    ANCHOR_COUNT as nat,
                    old(self)@.max_context,
                ),
                ..old(self)@
            }),
            final(self)@.messages.len() <= final(self)@.max_context + ANCHOR_COUNT,
            final(self).same_setup(old(self)),
    {
        proof {
            lemma_views_pruned(
                self.messages@,
                ANCHOR_COUNT as nat,
                self.config.max_context_messages as nat,
            );
            lemma_pruned_keeps_form(self@.messages, self@.max_context);
        }
        prune(&mut self.messages, ANCHOR_COUNT, self.config.max_context_messages);
    }

    /// A turn without tool calls.
    fn text_turn(&mut self, signalled: bool) -> (action: Action)
        requires
            core_wf(old(self)@),
            old(self)@.silent_turns < ABANDON_THRESHOLD,
        ensures
            final(self).wf(),
            final(self)@ == text_turn(old(self)@, signalled).0,
            action@ == text_turn(old(self)@, signalled).1,
            final(self).same_setup(old(self)),
    {
        let turns = self.silent_turns + 1;
        let issues = self.tool_executor.issue_count();
        self.silent_turns = turns;
        if signalled && issues > 0 {
            self.phase = Phase::Done(StopReason::Completed);
            return Action::Stop(StopReason::Completed);
        }
        let prompt = if turns >= REDIRECT_THRESHOLD {
            STRONG_REDIRECT
        } else if issues == 0 {
            REPORT_REMINDER
        } else {
            CONTINUE_PROMPT
        };
        self.push_message(Role::User, String::from_str(prompt));
        if turns >= ABANDON_THRESHOLD {
            self.phase = Phase::Done(StopReason::Abandoned);
            return Action::Stop(StopReason::Abandoned);
        }
        self.prune_old_messages();
        self.settle()
    }

    /// Ends a batch: places the reminder to report, then prunes.
    fn close_batch(&mut self)
        requires
            batch_wf(old(self)@, batch_calls(old(self)@)),
        ensures
            core_wf(final(self)@),
            final(self)@ == close_batch(old(self)@),
            final(self)@.messages.len() <= final(self)@.max_context + ANCHOR_COUNT,
            final(self).same_setup(old(self)),
    {
        match self.last_read {
            Some(at) => {
                if !self.batch_reported {
                    self.messages[at].content.append(READ_NUDGE);
                    proof {
                        assert(views(self.messages@) =~= nudged(old(self)@));
                    }
                }
            },
            None => {},
        }
        assert(self@.messages == nudged(old(self)@));
        self.prune_old_messages();
    }

    /// Executes the calls of the batch from the cursor on.
    fn run_batch(&mut self) -> (action: Action)
        requires
            batch_wf(old(self)@, batch_calls(old(self)@)),
        ensures
            final(self).wf(),
            final(self)@ == run_batch(old(self)@, batch_calls(old(self)@)).0,
            action@ == run_batch(old(self)@, batch_calls(old(self)@)).1,
            final(self).same_setup(old(self)),
    {
        let ghost calls = batch_calls(self@);
        let ghost target = run_batch(self@, calls);
        loop
            invariant
                batch_wf(self@, calls),
                batch_calls(self@) == calls,
                run_batch(self@, calls) == target,
                target == run_batch(old(self)@, batch_calls(old(self)@)),
                self.same_setup(old(self)),
            decreases calls.len() - self.cursor,
        {
            let ghost before = self@;
            let (total, kind, reported_path) = match &self.messages[self.batch_message].tool_calls {
                Some(list) => {
                    if self.cursor < list.len() {
                        let current = &list[self.cursor];
                        let kind = classify(current.function.name.as_str());
                        let recorded = kind == ToolKind::ReportIssue && missing_report_member(
                            &current.function.arguments,
                        ).is_none();
                        let path = if recorded {
                            Some(text_arg(&current.function.arguments, "file_path", ""))
                        } else {
                            None
                        };
                        (list.len(), kind, path)
                    } else {
                        (list.len(), ToolKind::Unknown, None)
                    }
                },
                None => (0, ToolKind::Unknown, None),
            };
            if self.cursor >= total {
                self.close_batch();
                return self.settle();
            }
            let ghost call = calls[self.cursor as int];
            if kind == ToolKind::Finish {
                let honored = !(self.coverage.files_read().len() > 0
                    && self.coverage.files_reported().len() == 0
                    && self.tool_executor.issue_count() == 0);
                if honored {
                    self.phase = Phase::Done(StopReason::Finished);
                    return Action::Stop(StopReason::Finished);
                }
                let files = self.coverage.unreported_files();
                let mut text = String::from_str(FINISH_DEFERRED);
                let listed = join(&files, ", ");
                text.append(listed.as_str());
                self.push_message(Role::Tool, text);
                self.cursor = self.cursor + 1;
                assert(self@ =~= after_deferral(before));
            } else {
                let execution = match &self.messages[self.batch_message].tool_calls {
                    Some(list) => self.tool_executor.execute(&list[self.cursor]),
                    None => Execution::Completed(ToolResult::success(String::new())),
                };
                match execution {
                    Execution::Pending(request) => {
                        self.phase = Phase::AwaitingOutcome;
                        return Action::RunTool(request);
                    },
                    Execution::Completed(result) => {
                        match reported_path {
                            Some(path) => {
                                self.coverage.note_reported(path.as_str());
                            },
                            None => {},
                        }
                        if kind == ToolKind::ReportIssue {
                            self.batch_reported = true;
                        }
                        let ghost shown = result@;
                        let content = truncate_outcome(outcome_content(result));
                        self.push_message(Role::Tool, content);
                        self.cursor = self.cursor + 1;
                        assert(self@ =~= after_local(before, call, shown));
                    },
                }
            }
        }
    }
}

} // verus!
