//! Data models for the code auditor: issues, analyzed files and summaries.

use crate::text::{
    count_text, decimal, distinct, distinct_texts, lemma_distinct, lemma_occurrences,
    lowercase, occurrences, push_decimal, push_text, str_eq, views,
};
use crate::analysis::aggregator::{aggregate_issues, all_issues};
use vstd::prelude::*;
use vstd::std_specs::cmp::PartialEqSpecImpl;
use vstd::std_specs::convert::FromSpecImpl;

verus! {

/// Severity level of an issue.
#[derive(Debug, Clone, Copy, PartialEq, Eq, PartialOrd, Ord, Hash, Structural)]
pub enum Severity {
    /// Low severity - style issues, minor suggestions
    Low,
    /// Medium severity - code quality issues, potential bugs
    Medium,
    /// High severity - bugs, security concerns
    High,
    /// Critical severity - security vulnerabilities, major bugs
    Critical,
}

impl Severity {
    /// The place of a severity in the order from `Low` to `Critical`.
    pub open spec fn spec_rank(self) -> nat {
        match self {
            Severity::Low => 0,
            Severity::Medium => 1,
            Severity::High => 2,
            Severity::Critical => 3,
        }
    }

    /// The place of a severity in the order from `Low` to `Critical`.
    pub fn rank(&self) -> (rank: u8)
        ensures
            rank == self.spec_rank(),
    {
        match self {
            Severity::Low => 0,
            Severity::Medium => 1,
            Severity::High => 2,
            Severity::Critical => 3,
        }
    }

    /// Whether this severity is at least as grave as `floor`.
    pub fn at_least(&self, floor: Severity) -> (reached: bool)
        ensures
            reached == (self.spec_rank() >= floor.spec_rank()),
    {
        self.rank() >= floor.rank()
    }

    /// The name of the severity.
    pub fn label(&self) -> (name: &'static str)
        ensures
            name@ == match *self {
                Severity::Low => "Low"@,
                Severity::Medium => "Medium"@,
                Severity::High => "High"@,
                Severity::Critical => "Critical"@,
            },
    {
        match self {
            Severity::Low => "Low",
            Severity::Medium => "Medium",
            Severity::High => "High",
            Severity::Critical => "Critical",
        }
    }

    /// The mark that stands for the severity in reports.
    pub open spec fn spec_emoji(self) -> Seq<char> {
        match self {
            Severity::Low => "🟢"@,
            Severity::Medium => "🟡"@,
            Severity::High => "🟠"@,
            Severity::Critical => "🔴"@,
        }
    }

    /// Returns an emoji representation of the severity.
    pub fn emoji(&self) -> (mark: &'static str)
        ensures
            mark@ == self.spec_emoji(),
    {
        match self {
            Severity::Low => "🟢",
            Severity::Medium => "🟡",
            Severity::High => "🟠",
            Severity::Critical => "🔴",
        }
    }
}

/// Category of an issue.
#[derive(Debug, Clone, Eq, Hash)]
pub enum Category {
    Bug,
    Security,
    Performance,
    Style,
    Documentation,
    BestPractice,
    Other(String),
}

/// A category with the text of `Other` as a character sequence.
pub enum CategoryView {
    Bug,
    Security,
    Performance,
    Style,
    Documentation,
    BestPractice,
    Other(Seq<char>),
}

impl View for Category {
    type V = CategoryView;

    open spec fn view(&self) -> CategoryView {
        match self {
            Category::Bug => CategoryView::Bug,
            Category::Security => CategoryView::Security,
            Category::Performance => CategoryView::Performance,
            Category::Style => CategoryView::Style,
            Category::Documentation => CategoryView::Documentation,
            Category::BestPractice => CategoryView::BestPractice,
            Category::Other(text) => CategoryView::Other(text@),
        }
    }
}

impl PartialEq for Category {
    fn eq(&self, other: &Self) -> (same: bool) {
        match (self, other) {
            (Category::Bug, Category::Bug) => true,
            (Category::Security, Category::Security) => true,
            (Category::Performance, Category::Performance) => true,
            (Category::Style, Category::Style) => true,
            (Category::Documentation, Category::Documentation) => true,
            (Category::BestPractice, Category::BestPractice) => true,
            (Category::Other(a), Category::Other(b)) => str_eq(a.as_str(), b.as_str()),
            _ => false,
        }
    }
}

impl PartialEqSpecImpl for Category {
    open spec fn obeys_eq_spec() -> bool {
        true
    }

    open spec fn eq_spec(&self, other: &Self) -> bool {
        self@ == other@
    }
}

/// The category that a lowercased name stands for.
pub open spec fn category_named(lowered: Seq<char>) -> CategoryView {
    if lowered == "bug"@ {
        CategoryView::Bug
    } else if lowered == "security"@ {
        CategoryView::Security
    } else if lowered == "performance"@ {
        CategoryView::Performance
    } else if lowered == "style"@ {
        CategoryView::Style
    } else if lowered == "documentation"@ || lowered == "docs"@ {
        CategoryView::Documentation
    } else if lowered == "best practice"@ || lowered == "bestpractice"@ || lowered
        == "best_practice"@ {
        CategoryView::BestPractice
    } else {
        CategoryView::Other(lowered)
    }
}

impl Category {
    /// The category that a lowercased name stands for; a name that is not
    /// known gives `Other` with that name.
    pub fn of_lowercase(lowered: String) -> (category: Category)
        ensures
            category@ == category_named(lowered@),
    {
        let name = lowered.as_str();
        if str_eq(name, "bug") {
            Category::Bug
        } else if str_eq(name, "security") {
            Category::Security
        } else if str_eq(name, "performance") {
            Category::Performance
        } else if str_eq(name, "style") {
            Category::Style
        } else if str_eq(name, "documentation") || str_eq(name, "docs") {
            Category::Documentation
        } else if str_eq(name, "best practice") || str_eq(name, "bestpractice") || str_eq(
            name,
            "best_practice",
        ) {
            Category::BestPractice
        } else {
            Category::Other(lowered)
        }
    }

    /// The name of the category as reports show it.
    pub fn label(&self) -> (name: String)
        ensures
            name@ == match self@ {
                CategoryView::Bug => "Bug"@,
                CategoryView::Security => "Security"@,
                CategoryView::Performance => "Performance"@,
                CategoryView::Style => "Style"@,
                CategoryView::Documentation => "Documentation"@,
                CategoryView::BestPractice => "Best Practice"@,
                CategoryView::Other(text) => text,
            },
    {
        match self {
            Category::Bug => String::from_str("Bug"),
            Category::Security => String::from_str("Security"),
            Category::Performance => String::from_str("Performance"),
            Category::Style => String::from_str("Style"),
            Category::Documentation => String::from_str("Documentation"),
            Category::BestPractice => String::from_str("Best Practice"),
            Category::Other(text) => text.clone(),
        }
    }
}

impl<'a> From<&'a str> for Category {
    /// The category that a name stands for, whatever its letter case.
    fn from(s: &'a str) -> (category: Category)
        ensures
            category@ == category_named(lowercase(s@)),
    {
        Category::of_lowercase(s.to_lowercase())
    }
}

/// What `from` returns is stated on `from` itself, over views: no
/// specification can name the `String` that an `Other` holds.
impl<'a> FromSpecImpl<&'a str> for Category {
    open spec fn obeys_from_spec() -> bool {
        false
    }

    open spec fn from_spec(s: &'a str) -> Category {
        arbitrary()
    }
}


/// Represents a single issue found during code analysis.
#[derive(Debug)]
pub struct Issue {
    /// Path to the file containing the issue (relative to repo root).
    pub file_path: String,
    /// Starting line number of the issue (1-indexed).
    pub start_line: usize,
    /// Ending line number of the issue (1-indexed, optional).
    pub end_line: Option<usize>,
    /// Severity of the issue.
    pub severity: Severity,
    /// Category of the issue.
    pub category: String,
    /// Short title describing the issue.
    pub title: String,
    /// Detailed description of the issue.
    pub description: String,
    /// Suggested fix or improvement.
    pub suggestion: String,
    /// Optional code snippet showing the issue.
    pub code_snippet: Option<String>,
}

impl Clone for Issue {
    fn clone(&self) -> (copy: Self)
        ensures
            copy == *self,
    {
        Issue {
            file_path: self.file_path.clone(),
            start_line: self.start_line,
            end_line: self.end_line,
            severity: self.severity,
            category: self.category.clone(),
            title: self.title.clone(),
            description: self.description.clone(),
            suggestion: self.suggestion.clone(),
            code_snippet: self.code_snippet.clone(),
        }
    }
}

/// The lines of an issue as reports show them: the start line alone, or
/// start and end with a hyphen where the end is given and differs.
pub open spec fn line_range_text(start_line: usize, end_line: Option<usize>) -> Seq<char> {
    match end_line {
        Some(end) => if end != start_line {
            decimal(start_line as nat) + "-"@ + decimal(end as nat)
        } else {
            decimal(start_line as nat)
        },
        None => decimal(start_line as nat),
    }
}

impl Issue {
    /// Returns the line range as a formatted string.
    pub fn line_range(&self) -> (range: String)
        ensures
            range@ == line_range_text(self.start_line, self.end_line),
    {
        let mut range = String::new();
        push_decimal(&mut range, self.start_line as u64);
        assert(range@ =~= decimal(self.start_line as nat));
        match self.end_line {
            Some(end) => {
                if end != self.start_line {
                    range.append("-");
                    push_decimal(&mut range, end as u64);
                }
            },
            None => {},
        }
        range
    }
}

/// How many issues of a list have the given severity.
pub open spec fn count_severity(issues: Seq<Issue>, severity: Severity) -> nat
    decreases issues.len(),
{
    if issues.len() == 0 {
        0
    } else {
        count_severity(issues.drop_last(), severity) + if issues.last().severity == severity {
            1nat
        } else {
            0nat
        }
    }
}

/// Every issue has exactly one of the four severities.
pub proof fn lemma_severity_counts_add_up(issues: Seq<Issue>)
    ensures
        count_severity(issues, Severity::Critical) + count_severity(issues, Severity::High)
            + count_severity(issues, Severity::Medium) + count_severity(issues, Severity::Low)
            == issues.len(),
    decreases issues.len(),
{
    if issues.len() > 0 {
        lemma_severity_counts_add_up(issues.drop_last());
    }
}

/// Counts the issues of a slice that have the given severity.
pub fn count_with_severity(issues: &[Issue], severity: Severity) -> (count: usize)
    ensures
        count == count_severity(issues@, severity),
{
    let mut count: usize = 0;
    let mut i: usize = 0;
    assert(issues@.take(0) =~= Seq::<Issue>::empty());
    while i < issues.len()
        invariant
            i <= issues.len(),
            count == count_severity(issues@.take(i as int), severity),
            count <= i,
        decreases issues.len() - i,
    {
        proof {
            assert(issues@.take(i as int + 1).drop_last() =~= issues@.take(i as int));
        }
        if issues[i].severity == severity {
            count += 1;
        }
        i += 1;
    }
    assert(issues@.take(i as int) =~= issues@);
    count
}

/// Represents an analyzed source code file.
#[derive(Debug)]
pub struct AnalyzedFile {
    /// Path to the file (relative to repo root).
    pub path: String,
    /// Detected programming language.
    pub language: String,
    /// Total number of lines in the file.
    pub line_count: usize,
    /// Issues found in this file.
    pub issues: Vec<Issue>,
    /// Whether the analysis was successful.
    pub analysis_successful: bool,
    /// Error message if analysis failed.
    pub error: Option<String>,
}

impl AnalyzedFile {
    /// Creates a new analyzed file with no issues.
    pub fn new(path: String, language: String, line_count: usize) -> (file: Self)
        ensures
            file.path == path,
            file.language == language,
            file.line_count == line_count,
            file.issues@ == Seq::<Issue>::empty(),
            file.analysis_successful,
            file.error is None,
    {
        Self { path, language, line_count, issues: Vec::new(), analysis_successful: true, error: None }
    }

    /// Creates a failed analysis result.
    pub fn failed(path: String, error: String) -> (file: Self)
        ensures
            file.path == path,
            file.language@ == Seq::<char>::empty(),
            file.line_count == 0,
            file.issues@ == Seq::<Issue>::empty(),
            !file.analysis_successful,
            file.error == Some(error),
    {
        Self {
            path,
            language: String::new(),
            line_count: 0,
            issues: Vec::new(),
            analysis_successful: false,
            error: Some(error),
        }
    }

    /// Returns the number of issues by severity.
    pub fn issue_count_by_severity(&self, severity: Severity) -> (count: usize)
        ensures
            count == count_severity(self.issues@, severity),
    {
        count_with_severity(self.issues.as_slice(), severity)
    }
}

/// A count per text: each distinct text of a list with the number of its
/// occurrences, in order of first occurrence.
pub open spec fn tally_of(keys: Seq<Seq<char>>) -> Seq<(Seq<char>, usize)> {
    distinct(keys).map_values(|key: Seq<char>| (key, occurrences(keys, key) as usize))
}

/// The entries of a tally with their keys as character sequences.
pub open spec fn entry_views(entries: Seq<(String, usize)>) -> Seq<(Seq<char>, usize)> {
    entries.map_values(|entry: (String, usize)| (entry.0@, entry.1))
}

/// Counts by text, in order of first occurrence. It stands where a hash map
/// from text to count would: no key occurs twice.
#[derive(Debug)]
pub struct Tally {
    entries: Vec<(String, usize)>,
}

impl View for Tally {
    type V = Seq<(Seq<char>, usize)>;

    closed spec fn view(&self) -> Seq<(Seq<char>, usize)> {
        entry_views(self.entries@)
    }
}

/// The keys of a tally, in order.
pub open spec fn tally_keys(entries: Seq<(Seq<char>, usize)>) -> Seq<Seq<char>> {
    entries.map_values(|entry: (Seq<char>, usize)| entry.0)
}

impl Tally {
    /// No key occurs twice.
    pub open spec fn wf(&self) -> bool {
        tally_keys(self@).no_duplicates()
    }

    /// The tally without entries.
    pub fn new() -> (tally: Self)
        ensures
            tally@ == Seq::<(Seq<char>, usize)>::empty(),
            tally.wf(),
    {
        let tally = Tally { entries: Vec::new() };
        assert(tally@ =~= Seq::<(Seq<char>, usize)>::empty());
        tally
    }

    /// Counts the texts of a list.
    pub fn of(keys: &Vec<String>) -> (tally: Self)
        ensures
            tally@ == tally_of(views(keys@)),
            tally.wf(),
    {
        let names = distinct_texts(keys);
        let mut entries: Vec<(String, usize)> = Vec::new();
        let mut i: usize = 0;
        while i < names.len()
            invariant
                i <= names.len(),
                views(names@) == distinct(views(keys@)),
                entry_views(entries@) == tally_of(views(keys@)).take(i as int),
            decreases names.len() - i,
        {
            let count = count_text(keys, names[i].as_str());
            proof {
                lemma_occurrences(views(keys@), names@[i as int]@);
                assert(views(names@)[i as int] == names@[i as int]@);
            }
            let name = names[i].clone();
            let ghost before = entries@;
            entries.push((name, count));
            proof {
                let whole = tally_of(views(keys@));
                assert(entry_views(entries@) =~= entry_views(before).push((name@, count)));
                assert(whole[i as int] == (name@, count));
                assert(whole.take(i as int + 1) =~= whole.take(i as int).push(whole[i as int]));
            }
            i += 1;
        }
        let tally = Tally { entries };
        proof {
            assert(tally_of(views(keys@)).take(i as int) =~= tally_of(views(keys@)));
            lemma_distinct(views(keys@));
            assert(tally_keys(tally@) =~= distinct(views(keys@)));
        }
        tally
    }

    /// The number of entries.
    pub fn len(&self) -> (count: usize)
        ensures
            count == self@.len(),
    {
        self.entries.len()
    }

    /// Whether the tally has no entry.
    pub fn is_empty(&self) -> (empty: bool)
        ensures
            empty == (self@.len() == 0),
    {
        self.entries.len() == 0
    }

    /// The entries, in order of first occurrence.
    pub fn entries(&self) -> (entries: &Vec<(String, usize)>)
        ensures
            entry_views(entries@) == self@,
    {
        &self.entries
    }

    /// The count of `key`, if it has one.
    pub fn get(&self, key: &str) -> (found: Option<&usize>)
        ensures
            match found {
                Some(count) => self@.contains((key@, *count)),
                None => !tally_keys(self@).contains(key@),
            },
    {
        let mut i: usize = 0;
        while i < self.entries.len()
            invariant
                i <= self.entries.len(),
                forall|k: int| 0 <= k < i ==> tally_keys(self@)[k] != key@,
            decreases self.entries.len() - i,
        {
            if str_eq(self.entries[i].0.as_str(), key) {
                assert(self@[i as int] == (key@, self.entries@[i as int].1));
                return Some(&self.entries[i].1);
            }
            i += 1;
        }
        None
    }
}

/// Summary of issues found during analysis.
#[derive(Debug)]
pub struct IssueSummary {
    /// Total number of issues.
    pub total: usize,
    /// Number of critical issues.
    pub critical: usize,
    /// Number of high severity issues.
    pub high: usize,
    /// Number of medium severity issues.
    pub medium: usize,
    /// Number of low severity issues.
    pub low: usize,
    /// Issues grouped by category.
    pub by_category: Tally,
}

impl Default for IssueSummary {
    fn default() -> (summary: Self)
        ensures
            summary.total == 0,
            summary.critical == 0,
            summary.high == 0,
            summary.medium == 0,
            summary.low == 0,
            summary.by_category@ == Seq::<(Seq<char>, usize)>::empty(),
    {
        IssueSummary { total: 0, critical: 0, high: 0, medium: 0, low: 0, by_category: Tally::new() }
    }
}

/// The categories of the issues of a list, in order.
pub open spec fn categories_of(issues: Seq<Issue>) -> Seq<Seq<char>> {
    issues.map_values(|issue: Issue| issue.category@)
}

/// The summary of a list of issues: their number, the number per severity,
/// and the number per category in order of first occurrence.
pub open spec fn summarizes(summary: IssueSummary, issues: Seq<Issue>) -> bool {
    &&& summary.total == issues.len()
    &&& summary.critical == count_severity(issues, Severity::Critical)
    &&& summary.high == count_severity(issues, Severity::High)
    &&& summary.medium == count_severity(issues, Severity::Medium)
    &&& summary.low == count_severity(issues, Severity::Low)
    &&& summary.by_category@ == tally_of(categories_of(issues))
    &&& summary.by_category.wf()
}

impl IssueSummary {
    /// Creates a summary from a list of issues.
    pub fn from_issues(issues: &[Issue]) -> (summary: Self)
        ensures
            summarizes(summary, issues@),
    {
        let mut categories: Vec<String> = Vec::new();
        let mut i: usize = 0;
        assert(views(categories@) =~= categories_of(issues@).take(0));
        while i < issues.len()
            invariant
                i <= issues.len(),
                views(categories@) == categories_of(issues@).take(i as int),
            decreases issues.len() - i,
        {
            push_text(&mut categories, issues[i].category.as_str());
            assert(views(categories@) =~= categories_of(issues@).take(i as int + 1));
            i += 1;
        }
        assert(categories_of(issues@).take(i as int) =~= categories_of(issues@));
        IssueSummary {
            total: issues.len(),
            critical: count_with_severity(issues, Severity::Critical),
            high: count_with_severity(issues, Severity::High),
            medium: count_with_severity(issues, Severity::Medium),
            low: count_with_severity(issues, Severity::Low),
            by_category: Tally::of(&categories),
        }
    }
}

/// Represents a file to be analyzed.
#[derive(Debug)]
pub struct FileToAnalyze {
    /// Absolute path to the file.
    pub absolute_path: String,
    /// Path relative to the repository root.
    pub relative_path: String,
    /// Detected programming language.
    pub language: String,
    /// File content.
    pub content: String,
    /// Number of lines in the file.
    pub line_count: usize,
}

/// Response from the LLM analysis.
#[derive(Debug)]
pub struct AnalysisResponse {
    /// List of issues found.
    pub issues: Vec<Issue>,
    /// Brief summary of the file.
    pub file_summary: Option<String>,
}


/// Metadata about the audit report.
#[derive(Debug)]
pub struct ReportMetadata {
    /// URL of the analyzed repository.
    pub repo_url: String,
    /// The moment of the analysis, in seconds since the Unix epoch, UTC.
    pub analysis_date: i64,
    /// Name of the LLM model used.
    pub model_used: String,
    /// Number of files analyzed.
    pub files_analyzed: usize,
    /// Number of files that failed analysis.
    pub files_failed: usize,
    /// Total number of issues found.
    pub total_issues: usize,
    /// Duration of the analysis in tenths of a second.
    pub duration_tenths: u64,
}

/// The complete code audit report.
#[derive(Debug)]
pub struct Report {
    /// Metadata about the report.
    pub metadata: ReportMetadata,
    /// AI-generated overview of the project.
    pub project_overview: String,
    /// List of analyzed files with their issues.
    pub files: Vec<AnalyzedFile>,
    /// Summary statistics of the issues.
    pub summary: IssueSummary,
    /// High-level improvement recommendations.
    pub recommendations: Vec<String>,
}

impl Report {
    /// Creates a new report with the given metadata: no files, no
    /// recommendations, an empty overview and an empty summary.
    pub fn new(metadata: ReportMetadata) -> (report: Self)
        ensures
            report.metadata == metadata,
            report.project_overview@ == Seq::<char>::empty(),
            report.files@ == Seq::<AnalyzedFile>::empty(),
            report.recommendations@ == Seq::<String>::empty(),
            summarizes(report.summary, Seq::<Issue>::empty()),
    {
        let empty: Vec<Issue> = Vec::new();
        Self {
            metadata,
            project_overview: String::new(),
            files: Vec::new(),
            summary: IssueSummary::from_issues(empty.as_slice()),
            recommendations: Vec::new(),
        }
    }

    /// Calculates and updates the summary from all analyzed files, and the
    /// total of the metadata with it.
    pub fn calculate_summary(&mut self)
        ensures
            summarizes(final(self).summary, all_issues(old(self).files@)),
            final(self).metadata.total_issues == all_issues(old(self).files@).len(),
            final(self).files == old(self).files,
            final(self).project_overview == old(self).project_overview,
            final(self).recommendations == old(self).recommendations,
            final(self).metadata.repo_url == old(self).metadata.repo_url,
            final(self).metadata.analysis_date == old(self).metadata.analysis_date,
            final(self).metadata.model_used == old(self).metadata.model_used,
            final(self).metadata.files_analyzed == old(self).metadata.files_analyzed,
            final(self).metadata.files_failed == old(self).metadata.files_failed,
            final(self).metadata.duration_tenths == old(self).metadata.duration_tenths,
    {
        let issues = aggregate_issues(self.files.as_slice());
        self.summary = IssueSummary::from_issues(issues.as_slice());
        self.metadata.total_issues = self.summary.total;
    }
}

} // verus!
