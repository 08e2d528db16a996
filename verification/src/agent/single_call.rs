//! The single-call strategy: the whole corpus goes to the model in one
//! prompt, and the answer is read line by line.

use crate::agent::agent_loop::{AgentConfig, ChatMessage, MessageView, Role};
use crate::agent::tools::{issue_from_args, issue_of_args, ReportedIssue, ReportedIssueView};
use crate::json::{json_counts, json_reading, json_text, json_texts, parse_json};
use crate::text::{
    chars_of, lemma_views_push, split, split_on, string_of, trim, trimmed, views,
};
use vstd::prelude::*;

verus! {

/// The system message of a single-call session.
pub const SINGLE_CALL_SYSTEM_PROMPT: &'static str =
    r#"You are an expert code analyst and security auditor. 
Analyze the provided code files and identify issues.
Output each issue as a JSON object on its own line.
Only output valid JSON, no explanations or markdown."#;

/// What opens the prompt: the task and the output rules.
pub const PROMPT_HEAD: &'static str =
    "Analyze the following code files and report any issues.\n\nFor each issue found, output it in this exact JSON format:\n{\"file_path\": \"path/to/file.rs\", \"line_number\": 42, \"severity\": \"high\", \"category\": \"security\", \"title\": \"Issue Title\", \"description\": \"Description\", \"suggestion\": \"How to fix\"}\n\nOutput one JSON object per line for each issue. Only output JSON, no other text.\n\n=== FILES TO ANALYZE ===\n\n";

/// What closes the prompt.
pub const PROMPT_TAIL: &'static str =
    "=== END OF FILES ===\n\nNow analyze and output issues as JSON (one per line):";

/// How a run talks to the model.
#[derive(Debug, Clone, Copy, PartialEq, Eq, Structural)]
pub enum Strategy {
    /// One call with every file in the prompt; no tools are offered.
    SingleCall,
    /// A conversation in which the model explores the tree with tools.
    Iterative,
}

/// The strategy that a configuration asks for. It is chosen once per run.
pub fn strategy_of(config: &AgentConfig) -> (strategy: Strategy)
    ensures
        strategy == if config.single_call_mode {
            Strategy::SingleCall
        } else {
            Strategy::Iterative
        },
{
    if config.single_call_mode {
        Strategy::SingleCall
    } else {
        Strategy::Iterative
    }
}

/// The part of the prompt that shows one file.
pub open spec fn file_section(path: Seq<char>, content: Seq<char>) -> Seq<char> {
    "### FILE: "@ + path + "\n```\n"@ + content + "\n```\n\n"@
}

/// The parts of the prompt that show the files, in order.
pub open spec fn file_sections(files: Seq<(Seq<char>, Seq<char>)>) -> Seq<char>
    decreases files.len(),
{
    if files.len() == 0 {
        Seq::<char>::empty()
    } else {
        file_sections(files.drop_last()) + file_section(files.last().0, files.last().1)
    }
}

/// The prompt for a corpus: the head, one section per file, the tail.
pub open spec fn prompt_text(files: Seq<(Seq<char>, Seq<char>)>) -> Seq<char> {
    PROMPT_HEAD@ + file_sections(files) + PROMPT_TAIL@
}

/// Paths and contents by view.
pub open spec fn file_views(files: Seq<(String, String)>) -> Seq<(Seq<char>, Seq<char>)> {
    files.map_values(|file: (String, String)| (file.0@, file.1@))
}

/// Builds the prompt that embeds every file of the corpus.
pub fn build_prompt(files: &Vec<(String, String)>) -> (prompt: String)
    ensures
        prompt@ == prompt_text(file_views(files@)),
{
    let mut prompt = String::from_str(PROMPT_HEAD);
    let mut i: usize = 0;
    let ghost model = file_views(files@);
    assert(model.take(0) =~= Seq::<(Seq<char>, Seq<char>)>::empty());
    assert(prompt@ =~= PROMPT_HEAD@ + file_sections(model.take(0)));
    while i < files.len()
        invariant
            i <= files.len(),
            model == file_views(files@),
            prompt@ == PROMPT_HEAD@ + file_sections(model.take(i as int)),
        decreases files.len() - i,
    {
        proof {
            assert(model.take(i as int + 1).drop_last() =~= model.take(i as int));
            assert(model.take(i as int + 1).last() == (files@[i as int].0@, files@[i as int].1@));
        }
        let ghost before = prompt@;
        prompt.append("### FILE: ");
        prompt.append(files[i].0.as_str());
        prompt.append("\n```\n");
        prompt.append(files[i].1.as_str());
        prompt.append("\n```\n\n");
        assert(prompt@ =~= before + file_section(files@[i as int].0@, files@[i as int].1@));
        assert(prompt@ =~= PROMPT_HEAD@ + file_sections(model.take(i as int + 1)));
        i += 1;
    }
    assert(model.take(i as int) =~= model);
    prompt.append(PROMPT_TAIL);
    prompt
}

/// The conversation of a single call for a corpus, or `None` where the
/// corpus is empty and no call is made.
pub open spec fn single_call_plan(files: Seq<(Seq<char>, Seq<char>)>) -> Option<Seq<MessageView>> {
    if files.len() == 0 {
        None
    } else {
        Some(
            seq![
                MessageView {
                    role: Role::System,
                    content: SINGLE_CALL_SYSTEM_PROMPT@,
                    tool_calls: None,
                },
                MessageView { role: Role::User, content: prompt_text(files), tool_calls: None },
            ],
        )
    }
}

/// The two messages of a single call, or `None` for an empty corpus: then
/// the run ends without a call and without issues.
pub fn single_call_messages(files: &Vec<(String, String)>) -> (plan: Option<Vec<ChatMessage>>)
    ensures
        match plan {
            Some(messages) => Some(views(messages@)) == single_call_plan(file_views(files@)),
            None => single_call_plan(file_views(files@)) is None,
        },
{
    if files.len() == 0 {
        return None;
    }
    let mut messages: Vec<ChatMessage> = Vec::new();
    messages.push(
        ChatMessage {
            role: Role::System,
            content: String::from_str(SINGLE_CALL_SYSTEM_PROMPT),
            tool_calls: None,
        },
    );
    messages.push(ChatMessage { role: Role::User, content: build_prompt(files), tool_calls: None });
    proof {
        let wanted = single_call_plan(file_views(files@))->0;
        assert(views(messages@) =~= wanted);
    }
    Some(messages)
}

/// The issue that a JSON object describes: none without a string member
/// `file_path`; else the members that are there, and the defaults for the
/// others.
pub open spec fn issue_in_object(
    texts: Map<Seq<char>, Seq<char>>,
    counts: Map<Seq<char>, u64>,
) -> Option<ReportedIssueView> {
    if texts.contains_key("file_path"@) {
        Some(issue_from_args(texts["file_path"@], texts, counts))
    } else {
        None
    }
}

/// The issue that a line of the answer describes: none unless the line,
/// trimmed, starts with a brace and is a JSON document that describes one.
pub open spec fn issue_in_line(line: Seq<char>) -> Option<ReportedIssueView> {
    let text = trimmed(line);
    if text.len() > 0 && text[0] == '{' {
        match json_reading(text) {
            Some((texts, counts)) => issue_in_object(texts, counts),
            None => None,
        }
    } else {
        None
    }
}

/// The issues that a list of lines describes, in order.
pub open spec fn issues_in_lines(lines: Seq<Seq<char>>) -> Seq<ReportedIssueView>
    decreases lines.len(),
{
    if lines.len() == 0 {
        Seq::<ReportedIssueView>::empty()
    } else {
        let before = issues_in_lines(lines.drop_last());
        match issue_in_line(lines.last()) {
            Some(issue) => before.push(issue),
            None => before,
        }
    }
}

/// Every line is read by itself: the issues of a list of lines are those
/// of its first part followed by those of the rest. So a line that
/// describes no issue takes nothing from the lines around it.
pub proof fn lemma_lines_independent(first: Seq<Seq<char>>, rest: Seq<Seq<char>>)
    ensures
        issues_in_lines(first + rest) == issues_in_lines(first) + issues_in_lines(rest),
    decreases rest.len(),
{
    if rest.len() == 0 {
        assert(first + rest =~= first);
        assert(issues_in_lines(first) + issues_in_lines(rest) =~= issues_in_lines(first));
    } else {
        lemma_lines_independent(first, rest.drop_last());
        assert((first + rest).drop_last() =~= first + rest.drop_last());
        assert((first + rest).last() == rest.last());
        let before = issues_in_lines(first) + issues_in_lines(rest.drop_last());
        match issue_in_line(rest.last()) {
            Some(issue) => {
                assert(before.push(issue) =~= issues_in_lines(first) + issues_in_lines(
                    rest.drop_last(),
                ).push(issue));
            },
            None => {},
        }
    }
}

/// The issues that an answer describes: those of its lines.
pub open spec fn issues_in_response(response: Seq<char>) -> Seq<ReportedIssueView> {
    issues_in_lines(split_on(response, '\n'))
}

/// The view of an optional issue.
pub open spec fn opt_issue(issue: Option<ReportedIssue>) -> Option<ReportedIssueView> {
    match issue {
        Some(found) => Some(found@),
        None => None,
    }
}

/// The issue that a JSON value describes, if it describes one.
pub fn json_to_issue(json: &serde_json::Value) -> (issue: Option<ReportedIssue>)
    ensures
        opt_issue(issue) == issue_in_object(json_texts(*json), json_counts(*json)),
{
    match json_text(json, "file_path") {
        Some(file_path) => Some(issue_of_args(file_path, json)),
        None => None,
    }
}

/// The issue that one line of an answer describes, if it describes one.
pub fn parse_issue_line(line: &Vec<char>) -> (issue: Option<ReportedIssue>)
    ensures
        opt_issue(issue) == issue_in_line(line@),
{
    let text = trim(line);
    if text.len() == 0 || text[0] != '{' {
        return None;
    }
    let text = string_of(&text);
    match parse_json(text.as_str()) {
        Some(json) => json_to_issue(&json),
        None => None,
    }
}

/// Parse issues from an LLM response, one JSON object per line. Lines that
/// are not JSON objects, and objects without a `file_path`, are skipped.
pub fn parse_issues_from_response(response: &str) -> (issues: Vec<ReportedIssue>)
    ensures
        views(issues@) == issues_in_response(response@),
{
    let chars = chars_of(response);
    let lines = split(&chars, '\n');
    let mut issues: Vec<ReportedIssue> = Vec::new();
    let mut i: usize = 0;
    let ghost model = views(lines@);
    assert(model.take(0) =~= Seq::<Seq<char>>::empty());
    assert(views(issues@) =~= issues_in_lines(model.take(0)));
    while i < lines.len()
        invariant
            i <= lines.len(),
            model == views(lines@),
            views(issues@) == issues_in_lines(model.take(i as int)),
        decreases lines.len() - i,
    {
        proof {
            assert(model.take(i as int + 1).drop_last() =~= model.take(i as int));
            assert(model.take(i as int + 1).last() == lines@[i as int]@);
        }
        match parse_issue_line(&lines[i]) {
            Some(issue) => {
                proof {
                    lemma_views_push(issues@, issue);
                }
                issues.push(issue);
            },
            None => {},
        }
        i += 1;
    }
    assert(model.take(i as int) =~= model);
    issues
}

} // verus!
