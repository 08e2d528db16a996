//! From the issues that the model reported to the report of the audit and
//! the exit code of the run.

use crate::agent::tools::ReportedIssue;
use crate::agent::AgentConfig;
use crate::analysis::aggregator::{
    group_by_file, group_views, groups_of, line_sorted, GroupKey,
};
use crate::cli::{fail_on_to_severity, severity_of_level, FailOnLevel};
use crate::config::Config;
use crate::models::{
    summarizes, AnalyzedFile, Issue, IssueSummary, Report, ReportMetadata, Severity,
};
use crate::text::{lowercase, push_text, str_eq, views};
use vstd::prelude::*;

verus! {

/// The exit code of a run that went through without issues at or above
/// the threshold.
pub const EXIT_OK: i32 = 0;

/// The exit code of a run that found issues at or above the threshold.
pub const EXIT_THRESHOLD: i32 = 2;

/// The number of answers that a tool-calling run asks of the model at most.
pub const MAX_ITERATIONS: usize = 50;

/// The number of messages that a tool-calling run keeps after the anchors.
pub const MAX_CONTEXT_MESSAGES: usize = 10;

/// The overview that every report carries.
pub const OVERVIEW: &'static str = "Analysis performed by AI agent with tool-calling capabilities.";

/// The first recommendation of every report.
pub const RECOMMEND_PRIORITIZE: &'static str =
    "Review all reported issues and prioritize by severity.";

/// The second recommendation of every report.
pub const RECOMMEND_GRAVEST: &'static str = "Address critical and high severity issues first.";

/// The language of a file of which only the issues are known.
pub const LANGUAGE_UNKNOWN: &'static str = "Unknown";

/// The severity that a lowercased name stands for; a name that is not
/// known stands for `Low`.
pub open spec fn severity_named(lowered: Seq<char>) -> Severity {
    if lowered == "critical"@ {
        Severity::Critical
    } else if lowered == "high"@ {
        Severity::High
    } else if lowered == "medium"@ {
        Severity::Medium
    } else {
        Severity::Low
    }
}

/// The severity that a lowercased name stands for.
pub fn severity_of_lowercase(lowered: &str) -> (severity: Severity)
    ensures
        severity == severity_named(lowered@),
{
    if str_eq(lowered, "critical") {
        Severity::Critical
    } else if str_eq(lowered, "high") {
        Severity::High
    } else if str_eq(lowered, "medium") {
        Severity::Medium
    } else {
        Severity::Low
    }
}

/// The severity that a name stands for, whatever its letter case.
pub fn parse_severity(name: &str) -> (severity: Severity)
    ensures
        severity == severity_named(lowercase(name@)),
{
    let lowered = name.to_lowercase();
    severity_of_lowercase(lowered.as_str())
}

/// The issue of the report that a reported issue becomes: the same texts,
/// the reported line as start line, no end line and no snippet.
pub open spec fn converted(reported: ReportedIssue) -> Issue {
    Issue {
        file_path: reported.file_path,
        start_line: reported.line_number,
        end_line: None,
        severity: severity_named(lowercase(reported.severity@)),
        category: reported.category,
        title: reported.title,
        description: reported.description,
        suggestion: reported.suggestion,
        code_snippet: None,
    }
}

/// Converts a reported issue to an issue of the report.
pub fn issue_from_reported(reported: ReportedIssue) -> (issue: Issue)
    ensures
        issue == converted(reported),
{
    let severity = parse_severity(reported.severity.as_str());
    Issue {
        file_path: reported.file_path,
        start_line: reported.line_number,
        end_line: None,
        severity,
        category: reported.category,
        title: reported.title,
        description: reported.description,
        suggestion: reported.suggestion,
        code_snippet: None,
    }
}

/// Converts reported issues to issues of the report, in order.
pub fn issues_from_reported(reported: Vec<ReportedIssue>) -> (issues: Vec<Issue>)
    ensures
        issues@ == reported@.map_values(|r: ReportedIssue| converted(r)),
{
    let ghost wanted = reported@.map_values(|r: ReportedIssue| converted(r));
    let mut issues: Vec<Issue> = Vec::new();
    let mut rest = reported;
    assert(issues@ =~= wanted.take(0));
    assert(rest@ =~= reported@.skip(0));
    while rest.len() > 0
        invariant
            rest@.len() <= reported@.len(),
            wanted == reported@.map_values(|r: ReportedIssue| converted(r)),
            rest@ == reported@.skip(reported@.len() - rest@.len()),
            issues@ == wanted.take(reported@.len() - rest@.len()),
        decreases rest.len(),
    {
        let ghost done = reported@.len() - rest@.len();
        let one = rest.remove(0);
        assert(one == reported@[done]);
        assert(rest@ =~= reported@.skip(done + 1));
        issues.push(issue_from_reported(one));
        assert(issues@ =~= wanted.take(done + 1));
    }
    assert(wanted.take(reported@.len() as int) =~= wanted);
    issues
}

/// The issues of a list that are at least as grave as `floor`, in order.
pub open spec fn at_or_above(issues: Seq<Issue>, floor: Severity) -> Seq<Issue>
    decreases issues.len(),
{
    if issues.len() == 0 {
        Seq::<Issue>::empty()
    } else {
        let before = at_or_above(issues.drop_last(), floor);
        if issues.last().severity.spec_rank() >= floor.spec_rank() {
            before.push(issues.last())
        } else {
            before
        }
    }
}

/// Keeps the issues that are at least as grave as `floor`.
pub fn retain_min_severity(issues: &mut Vec<Issue>, floor: Severity)
    ensures
        final(issues)@ == at_or_above(old(issues)@, floor),
{
    let mut kept: Vec<Issue> = Vec::new();
    let mut i: usize = 0;
    assert(issues@.take(0) =~= Seq::<Issue>::empty());
    while i < issues.len()
        invariant
            i <= issues.len(),
            issues@ == old(issues)@,
            kept@ == at_or_above(issues@.take(i as int), floor),
        decreases issues.len() - i,
    {
        proof {
            assert(issues@.take(i as int + 1).drop_last() =~= issues@.take(i as int));
        }
        if issues[i].severity.at_least(floor) {
            kept.push(issues[i].clone());
        }
        i += 1;
    }
    assert(issues@.take(i as int) =~= issues@);
    *issues = kept;
}

/// Whether a list holds an issue that is at least as grave as `threshold`.
pub open spec fn reaches(issues: Seq<Issue>, threshold: Severity) -> bool {
    exists|i: int|
        0 <= i < issues.len() && (#[trigger] issues[i]).severity.spec_rank()
            >= threshold.spec_rank()
}

/// Whether a list holds an issue that is at least as grave as `threshold`.
pub fn has_issue_at_least(issues: &[Issue], threshold: Severity) -> (found: bool)
    ensures
        found == reaches(issues@, threshold),
{
    let mut i: usize = 0;
    while i < issues.len()
        invariant
            i <= issues.len(),
            forall|k: int|
                0 <= k < i ==> (#[trigger] issues@[k]).severity.spec_rank()
                    < threshold.spec_rank(),
        decreases issues.len() - i,
    {
        if issues[i].severity.at_least(threshold) {
            return true;
        }
        i += 1;
    }
    false
}

/// The exit code of a run that went through: `EXIT_THRESHOLD` where a
/// threshold is set and an issue reaches it, else `EXIT_OK`.
pub fn exit_code(issues: &[Issue], fail_on: Option<FailOnLevel>) -> (code: i32)
    ensures
        code == match fail_on {
            Some(level) => if reaches(issues@, severity_of_level(level)) {
                EXIT_THRESHOLD
            } else {
                EXIT_OK
            },
            None => EXIT_OK,
        },
{
    match fail_on {
        Some(level) => {
            if has_issue_at_least(issues, fail_on_to_severity(level)) {
                EXIT_THRESHOLD
            } else {
                EXIT_OK
            }
        },
        None => EXIT_OK,
    }
}

/// The file of the report that a group of issues becomes.
pub open spec fn file_of_group(file: AnalyzedFile, group: (Seq<char>, Seq<Issue>)) -> bool {
    &&& file.path@ == group.0
    &&& file.language@ == LANGUAGE_UNKNOWN@
    &&& file.line_count == 0
    &&& file.issues@ == group.1
    &&& file.analysis_successful
    &&& file.error is None
}

/// Whether `files` are the files of the report for a list of issues: one
/// per file path, in order of first occurrence, each with its issues
/// sorted by start line.
pub open spec fn files_for(files: Seq<AnalyzedFile>, issues: Seq<Issue>) -> bool {
    let groups = line_sorted(groups_of(issues, GroupKey::File));
    &&& files.len() == groups.len()
    &&& forall|i: int| 0 <= i < files.len() ==> file_of_group(#[trigger] files[i], groups[i])
}

/// The files of the report for a list of issues.
pub fn analyzed_files_of(issues: &[Issue]) -> (files: Vec<AnalyzedFile>)
    ensures
        files_for(files@, issues@),
{
    let groups = group_by_file(issues);
    let ghost model = groups@;
    let mut entries = groups.into_entries();
    let ghost all = entries@;
    let mut files: Vec<AnalyzedFile> = Vec::new();
    assert(entries@ =~= all.skip(0));
    while entries.len() > 0
        invariant
            entries@.len() <= all.len(),
            group_views(all) == model,
            entries@ == all.skip(all.len() - entries@.len()),
            files@.len() == all.len() - entries@.len(),
            forall|i: int| 0 <= i < files@.len() ==> file_of_group(#[trigger] files@[i], model[i]),
        decreases entries.len(),
    {
        let ghost done = all.len() - entries@.len();
        let (path, members) = entries.remove(0);
        proof {
            assert(all[done] == (path, members));
            assert(group_views(all)[done] == (path@, members@));
            assert(entries@ =~= all.skip(done + 1));
        }
        files.push(
            AnalyzedFile {
                path,
                language: String::from_str(LANGUAGE_UNKNOWN),
                line_count: 0,
                issues: members,
                analysis_successful: true,
                error: None,
            },
        );
    }
    files
}

/// Builds the report of an audit from its issues: the files with their
/// issues, the summary, the fixed overview and recommendations, and the
/// metadata with the numbers of files and issues.
pub fn build_report(
    repo_url: String,
    analysis_date: i64,
    model_used: String,
    duration_tenths: u64,
    issues: &[Issue],
) -> (report: Report)
    ensures
        report.metadata.repo_url == repo_url,
        report.metadata.analysis_date == analysis_date,
        report.metadata.model_used == model_used,
        report.metadata.files_analyzed == report.files@.len(),
        report.metadata.files_failed == 0,
        report.metadata.total_issues == issues@.len(),
        report.metadata.duration_tenths == duration_tenths,
        report.project_overview@ == OVERVIEW@,
        files_for(report.files@, issues@),
        summarizes(report.summary, issues@),
        views(report.recommendations@) == seq![RECOMMEND_PRIORITIZE@, RECOMMEND_GRAVEST@],
{
    let summary = IssueSummary::from_issues(issues);
    let files = analyzed_files_of(issues);
    let mut recommendations: Vec<String> = Vec::new();
    assert(views(recommendations@) =~= Seq::<Seq<char>>::empty());
    push_text(&mut recommendations, RECOMMEND_PRIORITIZE);
    push_text(&mut recommendations, RECOMMEND_GRAVEST);
    assert(views(recommendations@) =~= seq![RECOMMEND_PRIORITIZE@, RECOMMEND_GRAVEST@]);
    let metadata = ReportMetadata {
        repo_url,
        analysis_date,
        model_used,
        files_analyzed: files.len(),
        files_failed: 0,
        total_issues: summary.total,
        duration_tenths,
    };
    Report {
        metadata,
        project_overview: String::from_str(OVERVIEW),
        files,
        summary,
        recommendations,
    }
}

/// The configuration of the agent for a run: model, address, temperature,
/// deadline and mode from the settings, and the fixed bounds of the loop.
pub fn agent_config_of(config: &Config) -> (agent: AgentConfig)
    ensures
        agent.ollama_url == config.model.ollama_url,
        agent.model_name == config.model.name,
        agent.temperature_permille == config.model.temperature_permille,
        agent.max_iterations == MAX_ITERATIONS,
        agent.timeout_seconds == config.model.timeout_seconds,
        agent.single_call_mode == config.model.single_call_mode,
        agent.max_context_messages == MAX_CONTEXT_MESSAGES,
{
    AgentConfig {
        ollama_url: config.model.ollama_url.clone(),
        model_name: config.model.name.clone(),
        temperature_permille: config.model.temperature_permille,
        max_iterations: MAX_ITERATIONS,
        timeout_seconds: config.model.timeout_seconds,
        single_call_mode: config.model.single_call_mode,
        max_context_messages: MAX_CONTEXT_MESSAGES,
    }
}

/// How the mode of a run is shown to the user.
pub fn mode_label(single_call_mode: bool) -> (label: &'static str)
    ensures
        label@ == if single_call_mode {
            "Single-call (efficient)"@
        } else {
            "Tool-calling (agentic)"@
        },
{
    if single_call_mode {
        "Single-call (efficient)"
    } else {
        "Tool-calling (agentic)"
    }
}

} // verus!
