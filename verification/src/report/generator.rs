//! Markdown report generation.
//!
//! Every section is a function from report data to text, and the text of
//! each is given by a specification of its own.

use crate::analysis::aggregator::{
    by_severity, language_distribution, languages_of, most_problematic, most_problematic_files,
    rank_entries, ranked, sort_by_line, sorted_by_line, sorted_by_severity,
};
use crate::models::{
    entry_views, line_range_text, tally_of, AnalyzedFile, Issue, IssueSummary, Report,
    ReportMetadata, Severity,
};
use crate::text::{chars_of, decimal, lowercase, opt_text, push_decimal, string_of, views};
use vstd::prelude::*;

verus! {

/// How the report writes the moment of the analysis: year, month and day,
/// then hours, minutes and seconds, in UTC.
pub const DATE_PATTERN: &'static str = "%Y-%m-%d %H:%M:%S UTC";

/// The text of a moment in UTC as chrono writes it after a pattern; `None`
/// for a moment outside the range of its calendar.
pub uninterp spec fn utc_text(seconds: i64, pattern: Seq<char>) -> Option<Seq<char>>;

/// `chrono::DateTime::from_timestamp` with no fraction of a second, then
/// `DateTime::format` with the pattern, written out. The first returns
/// `None` for a number of seconds out of range. The text depends on the
/// number and the pattern alone, as the moment is taken in UTC. Writing out
/// panics on a pattern that chrono does not know, so only the pattern of
/// the report is admitted: it has numeric items and plain text only.
#[verifier::external_body]
pub(crate) fn format_utc(seconds: i64, pattern: &str) -> (text: Option<String>)
    requires
        pattern@ == DATE_PATTERN@,
    ensures
        opt_text(text) == utc_text(seconds, pattern@),
{
    let moment = chrono::DateTime::from_timestamp(seconds, 0)?;
    Some(moment.format(pattern).to_string())
}

/// The badge of a critical issue.
pub const BADGE_CRITICAL: &'static str = "\u{f0}\u{178}\u{201d}\u{b4} **CRITICAL**";

/// The badge of an issue of high severity.
pub const BADGE_HIGH: &'static str = "\u{f0}\u{178}\u{178}\u{a0} **HIGH**";

/// The badge of an issue of medium severity.
pub const BADGE_MEDIUM: &'static str = "\u{f0}\u{178}\u{178}\u{a1} **MEDIUM**";

/// The badge of an issue of low severity.
pub const BADGE_LOW: &'static str = "\u{f0}\u{178}\u{178}\u{a2} **LOW**";

/// What introduces a suggestion.
pub const SUGGESTION_LEAD: &'static str = "> \u{f0}\u{178}\u{2019}\u{a1} **Suggestion:** ";

/// What the issues section says where no file has an issue.
pub const NO_ISSUES: &'static str =
    "No issues were found in the analyzed files. Great job! \u{f0}\u{178}\u{17d}\u{2030}\n\n";

/// The badge of a severity.
pub open spec fn badge(severity: Severity) -> Seq<char> {
    match severity {
        Severity::Critical => BADGE_CRITICAL@,
        Severity::High => BADGE_HIGH@,
        Severity::Medium => BADGE_MEDIUM@,
        Severity::Low => BADGE_LOW@,
    }
}

/// A duration in tenths of a second as seconds with one decimal place.
pub open spec fn tenths_text(tenths: u64) -> Seq<char> {
    decimal((tenths / 10) as nat) + "."@ + decimal((tenths % 10) as nat)
}

/// The date line's text: the moment in UTC, or `unknown` where the moment
/// is out of range.
pub open spec fn date_text(moment: Option<Seq<char>>) -> Seq<char> {
    match moment {
        Some(text) => text,
        None => "unknown"@,
    }
}

/// The metadata section, given the text of the analysis date.
pub open spec fn metadata_text(metadata: ReportMetadata, date: Seq<char>) -> Seq<char> {
    "## Metadata\n\n"@ + "- **Repository:** "@ + metadata.repo_url@ + "\n"@
        + "- **Analysis Date:** "@ + date + "\n"@ + "- **Model Used:** `"@ + metadata.model_used@
        + "`\n"@ + "- **Files Analyzed:** "@ + decimal(metadata.files_analyzed as nat) + "\n"@
        + (if metadata.files_failed > 0 {
        "- **Files Failed:** "@ + decimal(metadata.files_failed as nat) + "\n"@
    } else {
        Seq::<char>::empty()
    }) + "- **Total Issues:** "@ + decimal(metadata.total_issues as nat) + "\n"@
        + "- **Analysis Duration:** "@ + tenths_text(metadata.duration_tenths) + "s\n"@ + "\n"@
}

/// Generate the metadata section with the given text for the date.
pub fn metadata_section_with(metadata: &ReportMetadata, date: &str) -> (section: String)
    ensures
        section@ == metadata_text(*metadata, date@),
{
    let mut section = String::from_str("## Metadata\n\n");
    section.append("- **Repository:** ");
    section.append(metadata.repo_url.as_str());
    section.append("\n");
    section.append("- **Analysis Date:** ");
    section.append(date);
    section.append("\n");
    section.append("- **Model Used:** `");
    section.append(metadata.model_used.as_str());
    section.append("`\n");
    section.append("- **Files Analyzed:** ");
    push_decimal(&mut section, metadata.files_analyzed as u64);
    section.append("\n");
    let ghost before = section@;
    if metadata.files_failed > 0 {
        section.append("- **Files Failed:** ");
        push_decimal(&mut section, metadata.files_failed as u64);
        section.append("\n");
        assert(section@ =~= before + ("- **Files Failed:** "@ + decimal(
            metadata.files_failed as nat,
        ) + "\n"@));
    } else {
        assert(section@ =~= before + Seq::<char>::empty());
    }
    section.append("- **Total Issues:** ");
    push_decimal(&mut section, metadata.total_issues as u64);
    section.append("\n");
    section.append("- **Analysis Duration:** ");
    let ghost head = section@;
    push_decimal(&mut section, metadata.duration_tenths / 10);
    section.append(".");
    push_decimal(&mut section, metadata.duration_tenths % 10);
    assert(section@ =~= head + tenths_text(metadata.duration_tenths));
    section.append("s\n");
    section.append("\n");
    section
}

/// Generate the metadata section.
pub fn generate_metadata_section(metadata: &ReportMetadata) -> (section: String)
    ensures
        section@ == metadata_text(*metadata, date_text(utc_text(metadata.analysis_date, DATE_PATTERN@))),
{
    match format_utc(metadata.analysis_date, DATE_PATTERN) {
        Some(date) => metadata_section_with(metadata, date.as_str()),
        None => metadata_section_with(metadata, "unknown"),
    }
}

/// A path with slashes, dots and blanks turned into hyphens.
pub open spec fn hyphenated(path: Seq<char>) -> Seq<char> {
    path.map_values(
        |c: char|
            if c == '/' || c == '.' || c == ' ' {
                '-'
            } else {
                c
            },
    )
}

/// The anchor of a file's section: its path, hyphenated and in lowercase.
pub open spec fn anchor_of(path: Seq<char>) -> Seq<char> {
    lowercase(hyphenated(path))
}

/// The anchor of a file's section.
pub fn anchor(path: &str) -> (anchor: String)
    ensures
        anchor@ == anchor_of(path@),
{
    let chars = chars_of(path);
    let mut out: Vec<char> = Vec::new();
    let mut i: usize = 0;
    assert(out@ =~= hyphenated(chars@).take(0));
    while i < chars.len()
        invariant
            i <= chars.len(),
            out@ == hyphenated(chars@).take(i as int),
        decreases chars.len() - i,
    {
        let c = chars[i];
        if c == '/' || c == '.' || c == ' ' {
            out.push('-');
        } else {
            out.push(c);
        }
        assert(out@ =~= hyphenated(chars@).take(i as int + 1));
        i += 1;
    }
    assert(hyphenated(chars@).take(i as int) =~= hyphenated(chars@));
    string_of(&out).as_str().to_lowercase()
}

/// The entry of the table of contents for one file: a link for a file with
/// issues, nothing for a file without.
pub open spec fn toc_link(file: AnalyzedFile) -> Seq<char> {
    if file.issues@.len() > 0 {
        "  - ["@ + file.path@ + "](#"@ + anchor_of(file.path@) + ")\n"@
    } else {
        Seq::<char>::empty()
    }
}

/// The entries of the table of contents for the files, in order.
pub open spec fn toc_links(files: Seq<AnalyzedFile>) -> Seq<char>
    decreases files.len(),
{
    if files.len() == 0 {
        Seq::<char>::empty()
    } else {
        toc_links(files.drop_last()) + toc_link(files.last())
    }
}

/// The table of contents.
pub open spec fn toc_text(report: Report) -> Seq<char> {
    "## Table of Contents\n\n"@ + "- [Metadata](#metadata)\n"@ + (if report.project_overview@.len()
        > 0 {
        "- [Project Overview](#project-overview)\n"@
    } else {
        Seq::<char>::empty()
    }) + "- [Summary](#summary)\n"@ + "- [Issues by File](#issues-by-file)\n"@ + toc_links(
        report.files@,
    ) + (if report.recommendations@.len() > 0 {
        "- [Recommendations](#recommendations)\n"@
    } else {
        Seq::<char>::empty()
    }) + "\n"@
}

/// Generate the table of contents.
pub fn generate_table_of_contents(report: &Report) -> (toc: String)
    ensures
        toc@ == toc_text(*report),
{
    let mut toc = String::from_str("## Table of Contents\n\n");
    toc.append("- [Metadata](#metadata)\n");
    let ghost before = toc@;
    if !report.project_overview.as_str().is_empty() {
        toc.append("- [Project Overview](#project-overview)\n");
    } else {
        assert(toc@ =~= before + Seq::<char>::empty());
    }
    toc.append("- [Summary](#summary)\n");
    toc.append("- [Issues by File](#issues-by-file)\n");
    let ghost head = toc@;
    let mut i: usize = 0;
    assert(report.files@.take(0) =~= Seq::<AnalyzedFile>::empty());
    assert(toc@ =~= head + toc_links(report.files@.take(0)));
    while i < report.files.len()
        invariant
            i <= report.files.len(),
            toc@ == head + toc_links(report.files@.take(i as int)),
        decreases report.files.len() - i,
    {
        let file = &report.files[i];
        let ghost prior = toc@;
        proof {
            assert(report.files@.take(i as int + 1).drop_last() =~= report.files@.take(i as int));
        }
        if file.issues.len() > 0 {
            let link = anchor(file.path.as_str());
            toc.append("  - [");
            toc.append(file.path.as_str());
            toc.append("](#");
            toc.append(link.as_str());
            toc.append(")\n");
            assert(toc@ =~= prior + toc_link(*file));
        } else {
            assert(toc@ =~= prior + toc_link(*file));
        }
        assert(toc@ =~= head + toc_links(report.files@.take(i as int + 1)));
        i += 1;
    }
    assert(report.files@.take(i as int) =~= report.files@);
    let ghost listed = toc@;
    if report.recommendations.len() > 0 {
        toc.append("- [Recommendations](#recommendations)\n");
    } else {
        assert(toc@ =~= listed + Seq::<char>::empty());
    }
    toc.append("\n");
    toc
}

/// The overview section: nothing for an empty overview.
pub open spec fn overview_text(overview: Seq<char>) -> Seq<char> {
    if overview.len() == 0 {
        Seq::<char>::empty()
    } else {
        "## Project Overview\n\n"@ + overview + "\n\n"@
    }
}

/// Generate the project overview section.
pub fn generate_overview_section(overview: &str) -> (section: String)
    ensures
        section@ == overview_text(overview@),
{
    if overview.is_empty() {
        return String::new();
    }
    let mut section = String::from_str("## Project Overview\n\n");
    section.append(overview);
    section.append("\n\n");
    section
}

/// A row of a table of counted texts.
pub open spec fn tally_row(entry: (Seq<char>, usize)) -> Seq<char> {
    "| "@ + entry.0 + " | "@ + decimal(entry.1 as nat) + " |\n"@
}

/// The rows of a table of counted texts, in order.
pub open spec fn tally_rows(entries: Seq<(Seq<char>, usize)>) -> Seq<char>
    decreases entries.len(),
{
    if entries.len() == 0 {
        Seq::<char>::empty()
    } else {
        tally_rows(entries.drop_last()) + tally_row(entries.last())
    }
}

/// A table of counted texts under a heading, the greatest count first;
/// nothing where nothing is counted.
pub open spec fn tally_table(heading: Seq<char>, entries: Seq<(Seq<char>, usize)>) -> Seq<char> {
    if entries.len() > 0 {
        heading + tally_rows(ranked(entries)) + "\n"@
    } else {
        Seq::<char>::empty()
    }
}

/// Appends a table of counted texts to `out`.
fn push_tally_table(out: &mut String, heading: &str, entries: &Vec<(String, usize)>)
    ensures
        final(out)@ == old(out)@ + tally_table(heading@, entry_views(entries@)),
{
    if entries.len() == 0 {
        assert(out@ =~= old(out)@ + Seq::<char>::empty());
        return ;
    }
    let sorted = rank_entries(entries);
    let ghost rows = entry_views(sorted@);
    out.append(heading);
    let ghost head = out@;
    let mut i: usize = 0;
    assert(rows.take(0) =~= Seq::<(Seq<char>, usize)>::empty());
    assert(out@ =~= head + tally_rows(rows.take(0)));
    while i < sorted.len()
        invariant
            i <= sorted.len(),
            rows == entry_views(sorted@),
            out@ == head + tally_rows(rows.take(i as int)),
        decreases sorted.len() - i,
    {
        let ghost prior = out@;
        proof {
            assert(rows.take(i as int + 1).drop_last() =~= rows.take(i as int));
            assert(rows.take(i as int + 1).last() == (sorted@[i as int].0@, sorted@[i as int].1));
        }
        out.append("| ");
        out.append(sorted[i].0.as_str());
        out.append(" | ");
        push_decimal(out, sorted[i].1 as u64);
        out.append(" |\n");
        assert(out@ =~= prior + tally_row((sorted@[i as int].0@, sorted@[i as int].1)));
        assert(out@ =~= head + tally_rows(rows.take(i as int + 1)));
        i += 1;
    }
    assert(rows.take(i as int) =~= rows);
    out.append("\n");
    assert(out@ =~= old(out)@ + tally_table(heading@, entry_views(entries@)));
}

/// How many files the table of the most problematic files shows at most.
pub const PROBLEMATIC_LIMIT: usize = 5;

/// A row of the table of the most problematic files.
pub open spec fn problem_row(file: AnalyzedFile) -> Seq<char> {
    "| `"@ + file.path@ + "` | "@ + decimal(file.issues@.len()) + " |\n"@
}

/// The rows of the table of the most problematic files, for the files at
/// the given positions.
pub open spec fn problem_rows(files: Seq<AnalyzedFile>, positions: Seq<usize>) -> Seq<char>
    decreases positions.len(),
{
    if positions.len() == 0 {
        Seq::<char>::empty()
    } else {
        problem_rows(files, positions.drop_last()) + problem_row(files[positions.last() as int])
    }
}

/// The table of the most problematic files; nothing where no file has an
/// issue.
pub open spec fn problem_table(files: Seq<AnalyzedFile>) -> Seq<char> {
    let worst = most_problematic(files, PROBLEMATIC_LIMIT);
    if worst.len() > 0 {
        "### Most Problematic Files\n\n| File | Issues |\n|:---|:---:|\n"@ + problem_rows(
            files,
            worst,
        ) + "\n"@
    } else {
        Seq::<char>::empty()
    }
}

/// The heading and the head of the table of categories.
pub const CATEGORY_HEADING: &'static str =
    "### Issues by Category\n\n| Category | Count |\n|:---|:---:|\n";

/// The heading and the head of the table of languages.
pub const LANGUAGE_HEADING: &'static str =
    "### Files by Language\n\n| Language | Files |\n|:---|:---:|\n";

/// The table of the numbers of issues per severity.
pub open spec fn severity_table(summary: IssueSummary) -> Seq<char> {
    "### Issue Severity Breakdown\n\n"@ + "| "@ + Severity::Critical.spec_emoji() + " Critical | "@
        + Severity::High.spec_emoji() + " High | "@ + Severity::Medium.spec_emoji() + " Medium | "@
        + Severity::Low.spec_emoji() + " Low | **Total** |\n"@ + "|:---:|:---:|:---:|:---:|:---:|\n"@
        + "| "@ + decimal(summary.critical as nat) + " | "@ + decimal(summary.high as nat) + " | "@
        + decimal(summary.medium as nat) + " | "@ + decimal(summary.low as nat) + " | **"@
        + decimal(summary.total as nat) + "** |\n\n"@
}

/// The summary section: the severities, then the categories, the languages
/// and the most problematic files, each where there is something to show.
pub open spec fn summary_text(summary: IssueSummary, files: Seq<AnalyzedFile>) -> Seq<char> {
    "## Summary\n\n"@ + severity_table(summary) + tally_table(
        CATEGORY_HEADING@,
        summary.by_category@,
    ) + tally_table(LANGUAGE_HEADING@, tally_of(languages_of(files))) + problem_table(files)
}

/// Generate the summary section.
pub fn generate_summary_section(summary: &IssueSummary, files: &[AnalyzedFile]) -> (section: String)
    ensures
        section@ == summary_text(*summary, files@),
{
    let mut section = String::from_str("## Summary\n\n");
    let ghost start = section@;
    section.append("### Issue Severity Breakdown\n\n");
    section.append("| ");
    section.append(Severity::Critical.emoji());
    section.append(" Critical | ");
    section.append(Severity::High.emoji());
    section.append(" High | ");
    section.append(Severity::Medium.emoji());
    section.append(" Medium | ");
    section.append(Severity::Low.emoji());
    section.append(" Low | **Total** |\n");
    section.append("|:---:|:---:|:---:|:---:|:---:|\n");
    section.append("| ");
    push_decimal(&mut section, summary.critical as u64);
    section.append(" | ");
    push_decimal(&mut section, summary.high as u64);
    section.append(" | ");
    push_decimal(&mut section, summary.medium as u64);
    section.append(" | ");
    push_decimal(&mut section, summary.low as u64);
    section.append(" | **");
    push_decimal(&mut section, summary.total as u64);
    section.append("** |\n\n");
    assert(section@ =~= start + severity_table(*summary));
    push_tally_table(&mut section, CATEGORY_HEADING, summary.by_category.entries());
    let languages = language_distribution(files);
    push_tally_table(&mut section, LANGUAGE_HEADING, languages.entries());
    let worst = most_problematic_files(files, PROBLEMATIC_LIMIT);
    let ghost positions = most_problematic(files@, PROBLEMATIC_LIMIT);
    let ghost before = section@;
    if worst.len() > 0 {
        section.append("### Most Problematic Files\n\n| File | Issues |\n|:---|:---:|\n");
        let ghost head = section@;
        let mut i: usize = 0;
        assert(positions.take(0) =~= Seq::<usize>::empty());
        assert(section@ =~= head + problem_rows(files@, positions.take(0)));
        while i < worst.len()
            invariant
                i <= worst.len(),
                worst@.len() == positions.len(),
                forall|k: int|
                    0 <= k < worst@.len() ==> {
                        let at = #[trigger] positions[k];
                        &&& at < files@.len()
                        &&& *worst@[k].0 == files@[at as int]
                        &&& worst@[k].1 == files@[at as int].issues@.len()
                    },
                section@ == head + problem_rows(files@, positions.take(i as int)),
            decreases worst.len() - i,
        {
            let ghost prior = section@;
            proof {
                assert(positions.take(i as int + 1).drop_last() =~= positions.take(i as int));
                assert(positions.take(i as int + 1).last() == positions[i as int]);
            }
            section.append("| `");
            section.append(worst[i].0.path.as_str());
            section.append("` | ");
            push_decimal(&mut section, worst[i].1 as u64);
            section.append(" |\n");
            assert(section@ =~= prior + problem_row(files@[positions[i as int] as int]));
            assert(section@ =~= head + problem_rows(files@, positions.take(i as int + 1)));
            i += 1;
        }
        assert(positions.take(i as int) =~= positions);
        section.append("\n");
        assert(section@ =~= before + problem_table(files@));
    } else {
        assert(section@ =~= before + problem_table(files@));
    }
    section
}

/// The block of one issue.
pub open spec fn issue_block_text(issue: Issue) -> Seq<char> {
    "#### "@ + badge(issue.severity) + " "@ + issue.category@ + " - "@ + issue.title@ + "\n\n"@
        + "**Lines:** "@ + line_range_text(issue.start_line, issue.end_line) + "\n\n"@
        + (if issue.description@.len() > 0 {
        "**Description:** "@ + issue.description@ + "\n\n"@
    } else {
        Seq::<char>::empty()
    }) + (match issue.code_snippet {
        Some(snippet) => "<details>\n<summary>View Code</summary>\n\n```\n"@ + snippet@
            + "\n```\n</details>\n\n"@,
        None => Seq::<char>::empty(),
    }) + (if issue.suggestion@.len() > 0 {
        SUGGESTION_LEAD@ + issue.suggestion@ + "\n\n"@
    } else {
        Seq::<char>::empty()
    }) + "---\n\n"@
}

/// Generate a single issue block.
pub fn generate_issue_block(issue: &Issue) -> (block: String)
    ensures
        block@ == issue_block_text(*issue),
{
    let mut block = String::from_str("#### ");
    let severity_badge = match issue.severity {
        Severity::Critical => BADGE_CRITICAL,
        Severity::High => BADGE_HIGH,
        Severity::Medium => BADGE_MEDIUM,
        Severity::Low => BADGE_LOW,
    };
    block.append(severity_badge);
    block.append(" ");
    block.append(issue.category.as_str());
    block.append(" - ");
    block.append(issue.title.as_str());
    block.append("\n\n");
    block.append("**Lines:** ");
    let range = issue.line_range();
    block.append(range.as_str());
    block.append("\n\n");
    let ghost first = block@;
    if !issue.description.as_str().is_empty() {
        block.append("**Description:** ");
        block.append(issue.description.as_str());
        block.append("\n\n");
        assert(block@ =~= first + ("**Description:** "@ + issue.description@ + "\n\n"@));
    } else {
        assert(block@ =~= first + Seq::<char>::empty());
    }
    let ghost second = block@;
    match &issue.code_snippet {
        Some(snippet) => {
            block.append("<details>\n<summary>View Code</summary>\n\n```\n");
            block.append(snippet.as_str());
            block.append("\n```\n</details>\n\n");
            assert(block@ =~= second + ("<details>\n<summary>View Code</summary>\n\n```\n"@
                + snippet@ + "\n```\n</details>\n\n"@));
        },
        None => {
            assert(block@ =~= second + Seq::<char>::empty());
        },
    }
    let ghost third = block@;
    if !issue.suggestion.as_str().is_empty() {
        block.append(SUGGESTION_LEAD);
        block.append(issue.suggestion.as_str());
        block.append("\n\n");
        assert(block@ =~= third + (SUGGESTION_LEAD@ + issue.suggestion@ + "\n\n"@));
    } else {
        assert(block@ =~= third + Seq::<char>::empty());
    }
    block.append("---\n\n");
    block
}

/// The blocks of a list of issues, in order.
pub open spec fn issue_blocks(issues: Seq<Issue>) -> Seq<char>
    decreases issues.len(),
{
    if issues.len() == 0 {
        Seq::<char>::empty()
    } else {
        issue_blocks(issues.drop_last()) + issue_block_text(issues.last())
    }
}

/// The section of one file: heading with anchor, a line of facts, and the
/// blocks of its issues, the gravest first and, among issues of one
/// severity, by start line.
pub open spec fn file_issues_text(file: AnalyzedFile) -> Seq<char> {
    "### "@ + file.path@ + " {#"@ + anchor_of(file.path@) + "}\n\n"@ + "*Language: "@
        + file.language@ + " | Lines: "@ + decimal(file.line_count as nat) + " | Issues: "@
        + decimal(file.issues@.len()) + "*\n\n"@ + issue_blocks(
        by_severity(sorted_by_line(file.issues@)),
    )
}

/// Generate the issues section for a single file.
pub fn generate_file_issues_section(file: &AnalyzedFile) -> (section: String)
    ensures
        section@ == file_issues_text(*file),
{
    let mut section = String::from_str("### ");
    section.append(file.path.as_str());
    section.append(" {#");
    let link = anchor(file.path.as_str());
    section.append(link.as_str());
    section.append("}\n\n");
    section.append("*Language: ");
    section.append(file.language.as_str());
    section.append(" | Lines: ");
    push_decimal(&mut section, file.line_count as u64);
    section.append(" | Issues: ");
    push_decimal(&mut section, file.issues.len() as u64);
    section.append("*\n\n");
    let by_line = sort_by_line(&file.issues);
    let issues = sorted_by_severity(by_line.as_slice());
    let ghost head = section@;
    let mut i: usize = 0;
    assert(issues@.take(0) =~= Seq::<Issue>::empty());
    assert(section@ =~= head + issue_blocks(issues@.take(0)));
    while i < issues.len()
        invariant
            i <= issues.len(),
            section@ == head + issue_blocks(issues@.take(i as int)),
        decreases issues.len() - i,
    {
        proof {
            assert(issues@.take(i as int + 1).drop_last() =~= issues@.take(i as int));
        }
        let ghost prior = section@;
        let block = generate_issue_block(&issues[i]);
        section.append(block.as_str());
        assert(section@ =~= head + issue_blocks(issues@.take(i as int + 1)));
        i += 1;
    }
    assert(issues@.take(i as int) =~= issues@);
    section
}

/// The sections of the files that have issues, in order.
pub open spec fn file_sections_text(files: Seq<AnalyzedFile>) -> Seq<char>
    decreases files.len(),
{
    if files.len() == 0 {
        Seq::<char>::empty()
    } else {
        file_sections_text(files.drop_last()) + if files.last().issues@.len() > 0 {
            file_issues_text(files.last())
        } else {
            Seq::<char>::empty()
        }
    }
}

/// Whether one of the files has an issue.
pub open spec fn any_issues(files: Seq<AnalyzedFile>) -> bool
    decreases files.len(),
{
    files.len() > 0 && (any_issues(files.drop_last()) || files.last().issues@.len() > 0)
}

/// The issues section: the sections of the files that have issues, or a
/// sentence that says that there are none.
pub open spec fn issues_text(files: Seq<AnalyzedFile>) -> Seq<char> {
    "## Issues by File\n\n"@ + if any_issues(files) {
        file_sections_text(files)
    } else {
        NO_ISSUES@
    }
}

/// Generate the issues section.
pub fn generate_issues_section(files: &[AnalyzedFile]) -> (section: String)
    ensures
        section@ == issues_text(files@),
{
    let mut section = String::from_str("## Issues by File\n\n");
    let ghost head = section@;
    let mut found = false;
    let mut i: usize = 0;
    assert(files@.take(0) =~= Seq::<AnalyzedFile>::empty());
    assert(section@ =~= head + file_sections_text(files@.take(0)));
    while i < files.len()
        invariant
            i <= files.len(),
            found == any_issues(files@.take(i as int)),
            section@ == head + file_sections_text(files@.take(i as int)),
        decreases files.len() - i,
    {
        proof {
            assert(files@.take(i as int + 1).drop_last() =~= files@.take(i as int));
        }
        let ghost prior = section@;
        if files[i].issues.len() > 0 {
            found = true;
            let part = generate_file_issues_section(&files[i]);
            section.append(part.as_str());
        } else {
            assert(section@ =~= prior + Seq::<char>::empty());
        }
        assert(section@ =~= head + file_sections_text(files@.take(i as int + 1)));
        i += 1;
    }
    assert(files@.take(i as int) =~= files@);
    if !found {
        proof {
            lemma_no_issues_no_sections(files@);
        }
        section.append(NO_ISSUES);
        assert(section@ =~= head + NO_ISSUES@);
    }
    section
}

/// Files without issues have no sections.
pub proof fn lemma_no_issues_no_sections(files: Seq<AnalyzedFile>)
    requires
        !any_issues(files),
    ensures
        file_sections_text(files) == Seq::<char>::empty(),
    decreases files.len(),
{
    if files.len() > 0 {
        lemma_no_issues_no_sections(files.drop_last());
        assert(file_sections_text(files) =~= Seq::<char>::empty());
    }
}

/// The numbered lines of the recommendations, counting from one.
pub open spec fn numbered(recommendations: Seq<Seq<char>>) -> Seq<char>
    decreases recommendations.len(),
{
    if recommendations.len() == 0 {
        Seq::<char>::empty()
    } else {
        numbered(recommendations.drop_last()) + decimal(recommendations.len()) + ". "@
            + recommendations.last() + "\n"@
    }
}

/// The recommendations section: nothing for an empty list.
pub open spec fn recommendations_text(recommendations: Seq<Seq<char>>) -> Seq<char> {
    if recommendations.len() == 0 {
        Seq::<char>::empty()
    } else {
        "## Recommendations\n\n"@
            + "Based on the analysis, here are the top recommendations for improving this codebase:\n\n"@
            + numbered(recommendations) + "\n"@
    }
}

/// Generate the recommendations section.
pub fn generate_recommendations_section(recommendations: &[String]) -> (section: String)
    ensures
        section@ == recommendations_text(views(recommendations@)),
{
    if recommendations.len() == 0 {
        return String::new();
    }
    let mut section = String::from_str("## Recommendations\n\n");
    section.append(
        "Based on the analysis, here are the top recommendations for improving this codebase:\n\n",
    );
    let ghost head = section@;
    let ghost model = views(recommendations@);
    let mut i: usize = 0;
    assert(model.take(0) =~= Seq::<Seq<char>>::empty());
    assert(section@ =~= head + numbered(model.take(0)));
    while i < recommendations.len()
        invariant
            i <= recommendations.len(),
            model == views(recommendations@),
            section@ == head + numbered(model.take(i as int)),
        decreases recommendations.len() - i,
    {
        proof {
            assert(model.take(i as int + 1).drop_last() =~= model.take(i as int));
            assert(model.take(i as int + 1).last() == recommendations@[i as int]@);
        }
        let ghost prior = section@;
        push_decimal(&mut section, (i + 1) as u64);
        section.append(". ");
        section.append(recommendations[i].as_str());
        section.append("\n");
        assert(section@ =~= head + numbered(model.take(i as int + 1)));
        i += 1;
    }
    assert(model.take(i as int) =~= model);
    section.append("\n");
    section
}

/// The footer of every report.
pub const FOOTER: &'static str =
    "---\n\n*Report generated by [YoAuditor](https://github.com/sharafdin/yoauditor)*\n";

/// Generate the report footer.
pub fn generate_footer() -> (footer: String)
    ensures
        footer@ == FOOTER@,
{
    String::from_str(FOOTER)
}

/// The report, given the text of the analysis date: title, metadata, table
/// of contents, overview, summary, issues, recommendations, footer.
pub open spec fn report_text(report: Report, date: Seq<char>) -> Seq<char> {
    "# YoAuditor Report\n\n"@ + metadata_text(report.metadata, date) + toc_text(report)
        + overview_text(report.project_overview@) + summary_text(report.summary, report.files@)
        + issues_text(report.files@) + recommendations_text(views(report.recommendations@))
        + FOOTER@
}

/// Generate a complete Markdown report with the given text for the date.
pub fn markdown_report_with(report: &Report, date: &str) -> (output: String)
    ensures
        output@ == report_text(*report, date@),
{
    let mut output = String::from_str("# YoAuditor Report\n\n");
    let metadata = metadata_section_with(&report.metadata, date);
    output.append(metadata.as_str());
    let toc = generate_table_of_contents(report);
    output.append(toc.as_str());
    let overview = generate_overview_section(report.project_overview.as_str());
    output.append(overview.as_str());
    let summary = generate_summary_section(&report.summary, report.files.as_slice());
    output.append(summary.as_str());
    let issues = generate_issues_section(report.files.as_slice());
    output.append(issues.as_str());
    let recommendations = generate_recommendations_section(report.recommendations.as_slice());
    output.append(recommendations.as_str());
    let footer = generate_footer();
    output.append(footer.as_str());
    output
}

/// Generate a complete Markdown report.
pub fn generate_markdown_report(report: &Report) -> (output: String)
    ensures
        output@ == report_text(*report, date_text(utc_text(report.metadata.analysis_date, DATE_PATTERN@))),
{
    match format_utc(report.metadata.analysis_date, DATE_PATTERN) {
        Some(date) => markdown_report_with(report, date.as_str()),
        None => markdown_report_with(report, "unknown"),
    }
}

} // verus!
