//! Issue aggregation and statistics.
//!
//! Lists are grouped and counted in order of first occurrence, and sorted
//! stably, so every result is determined by its input.

use crate::analysis::order::{stable_order, stable_order_of};
use crate::models::{entry_views, tally_of, AnalyzedFile, Issue, IssueSummary, Severity, Tally};
use crate::text::{
    decimal, distinct, distinct_texts, join, join_with, lemma_distinct, lemma_views_push, lowercase,
    push_decimal,
    push_text, str_eq, views,
};
use vstd::prelude::*;

verus! {

/// The issues of a list of files, file by file.
pub open spec fn all_issues(files: Seq<AnalyzedFile>) -> Seq<Issue>
    decreases files.len(),
{
    if files.len() == 0 {
        Seq::<Issue>::empty()
    } else {
        all_issues(files.drop_last()) + files.last().issues@
    }
}

/// Appends copies of `more` to `out`.
pub fn extend_issues(out: &mut Vec<Issue>, more: &Vec<Issue>)
    ensures
        final(out)@ == old(out)@ + more@,
{
    let mut i: usize = 0;
    assert(out@ =~= old(out)@ + more@.take(0));
    while i < more.len()
        invariant
            i <= more.len(),
            out@ == old(out)@ + more@.take(i as int),
        decreases more.len() - i,
    {
        out.push(more[i].clone());
        assert(out@ =~= old(out)@ + more@.take(i as int + 1));
        i += 1;
    }
    assert(more@.take(i as int) =~= more@);
}

/// Aggregate all issues from analyzed files.
pub fn aggregate_issues(files: &[AnalyzedFile]) -> (issues: Vec<Issue>)
    ensures
        issues@ == all_issues(files@),
{
    let mut issues: Vec<Issue> = Vec::new();
    let mut i: usize = 0;
    assert(files@.take(0) =~= Seq::<AnalyzedFile>::empty());
    while i < files.len()
        invariant
            i <= files.len(),
            issues@ == all_issues(files@.take(i as int)),
        decreases files.len() - i,
    {
        proof {
            assert(files@.take(i as int + 1).drop_last() =~= files@.take(i as int));
        }
        extend_issues(&mut issues, &files[i].issues);
        i += 1;
    }
    assert(files@.take(i as int) =~= files@);
    issues
}

/// The issues of a list that have the given severity, in order.
pub open spec fn only(issues: Seq<Issue>, severity: Severity) -> Seq<Issue>
    decreases issues.len(),
{
    if issues.len() == 0 {
        Seq::<Issue>::empty()
    } else {
        let before = only(issues.drop_last(), severity);
        if issues.last().severity == severity {
            before.push(issues.last())
        } else {
            before
        }
    }
}

/// A list of issues sorted by severity, gravest first; issues of one
/// severity keep their order.
pub open spec fn by_severity(issues: Seq<Issue>) -> Seq<Issue> {
    only(issues, Severity::Critical) + only(issues, Severity::High) + only(
        issues,
        Severity::Medium,
    ) + only(issues, Severity::Low)
}

/// What `only` selects has the severity asked for, and the four selections
/// together are as long as the list.
pub proof fn lemma_only(issues: Seq<Issue>, severity: Severity)
    ensures
        forall|i: int|
            0 <= i < only(issues, severity).len() ==> (#[trigger] only(issues, severity)[i]).severity
                == severity,
        only(issues, severity).len() <= issues.len(),
    decreases issues.len(),
{
    if issues.len() > 0 {
        lemma_only(issues.drop_last(), severity);
    }
}

/// Sorting by severity keeps every issue and puts no issue before a graver
/// one.
pub proof fn lemma_by_severity_sorted(issues: Seq<Issue>)
    ensures
        by_severity(issues).len() == issues.len(),
        forall|a: int, b: int|
            #![trigger by_severity(issues)[a], by_severity(issues)[b]]
            0 <= a < b < issues.len() ==> by_severity(issues)[a].severity.spec_rank()
                >= by_severity(issues)[b].severity.spec_rank(),
{
    lemma_only(issues, Severity::Critical);
    lemma_only(issues, Severity::High);
    lemma_only(issues, Severity::Medium);
    lemma_only(issues, Severity::Low);
    lemma_only_lengths(issues);
    let c = only(issues, Severity::Critical);
    let h = only(issues, Severity::High);
    let m = only(issues, Severity::Medium);
    let l = only(issues, Severity::Low);
    let out = by_severity(issues);
    assert forall|a: int| 0 <= a < out.len() implies (#[trigger] out[a]).severity.spec_rank() == (if a
        < c.len() {
        3nat
    } else if a < c.len() + h.len() {
        2nat
    } else if a < c.len() + h.len() + m.len() {
        1nat
    } else {
        0nat
    }) by {
        if a < c.len() {
            assert(out[a] == c[a]);
        } else if a < c.len() + h.len() {
            assert(out[a] == h[a - c.len()]);
        } else if a < c.len() + h.len() + m.len() {
            assert(out[a] == m[a - c.len() - h.len()]);
        } else {
            assert(out[a] == l[a - c.len() - h.len() - m.len()]);
        }
    }
}

/// Sorting by severity rearranges a list: what comes out holds every issue
/// as often as the list does.
pub proof fn lemma_by_severity_permutes(issues: Seq<Issue>)
    ensures
        by_severity(issues).to_multiset() == issues.to_multiset(),
    decreases issues.len(),
{
    broadcast use vstd::seq_lib::to_multiset_build;

    let c = only(issues, Severity::Critical);
    let h = only(issues, Severity::High);
    let m = only(issues, Severity::Medium);
    let l = only(issues, Severity::Low);
    vstd::seq_lib::lemma_multiset_commutative(c, h);
    vstd::seq_lib::lemma_multiset_commutative(c + h, m);
    vstd::seq_lib::lemma_multiset_commutative(c + h + m, l);
    if issues.len() == 0 {
        assert(by_severity(issues) =~= issues);
    } else {
        let front = issues.drop_last();
        let last = issues.last();
        lemma_by_severity_permutes(front);
        let fc = only(front, Severity::Critical);
        let fh = only(front, Severity::High);
        let fm = only(front, Severity::Medium);
        let fl = only(front, Severity::Low);
        vstd::seq_lib::lemma_multiset_commutative(fc, fh);
        vstd::seq_lib::lemma_multiset_commutative(fc + fh, fm);
        vstd::seq_lib::lemma_multiset_commutative(fc + fh + fm, fl);
        assert(issues =~= front.push(last));
        assert(issues.to_multiset() =~= front.to_multiset().insert(last));
        assert(by_severity(issues).to_multiset() =~= by_severity(front).to_multiset().insert(last));
    }
}

/// The four selections by severity are together as long as the list.
pub proof fn lemma_only_lengths(issues: Seq<Issue>)
    ensures
        only(issues, Severity::Critical).len() + only(issues, Severity::High).len() + only(
            issues,
            Severity::Medium,
        ).len() + only(issues, Severity::Low).len() == issues.len(),
    decreases issues.len(),
{
    if issues.len() > 0 {
        lemma_only_lengths(issues.drop_last());
    }
}

/// Appends copies of the issues of the given severity to `out`.
fn append_only(out: &mut Vec<Issue>, issues: &[Issue], severity: Severity)
    ensures
        final(out)@ == old(out)@ + only(issues@, severity),
{
    let mut i: usize = 0;
    assert(issues@.take(0) =~= Seq::<Issue>::empty());
    assert(out@ =~= old(out)@ + only(issues@.take(0), severity));
    while i < issues.len()
        invariant
            i <= issues.len(),
            out@ == old(out)@ + only(issues@.take(i as int), severity),
        decreases issues.len() - i,
    {
        proof {
            assert(issues@.take(i as int + 1).drop_last() =~= issues@.take(i as int));
        }
        if issues[i].severity == severity {
            out.push(issues[i].clone());
            assert(out@ =~= old(out)@ + only(issues@.take(i as int + 1), severity));
        }
        i += 1;
    }
    assert(issues@.take(i as int) =~= issues@);
}

/// The issues of a slice sorted by severity, gravest first.
pub fn sorted_by_severity(issues: &[Issue]) -> (sorted: Vec<Issue>)
    ensures
        sorted@ == by_severity(issues@),
{
    let mut sorted: Vec<Issue> = Vec::new();
    append_only(&mut sorted, issues, Severity::Critical);
    append_only(&mut sorted, issues, Severity::High);
    append_only(&mut sorted, issues, Severity::Medium);
    append_only(&mut sorted, issues, Severity::Low);
    assert(sorted@ =~= by_severity(issues@));
    sorted
}

/// Sort issues by severity (critical first).
pub fn sort_issues_by_severity(issues: &mut Vec<Issue>)
    ensures
        final(issues)@ == by_severity(old(issues)@),
{
    let sorted = sorted_by_severity(issues.as_slice());
    *issues = sorted;
}

/// Get the top N issues by severity.
pub fn top_issues(issues: &[Issue], n: usize) -> (top: Vec<Issue>)
    ensures
        top@ == by_severity(issues@).take(
            if n <= issues@.len() {
                n as int
            } else {
                issues@.len() as int
            },
        ),
{
    let mut sorted = sorted_by_severity(issues);
    proof {
        lemma_by_severity_sorted(issues@);
        assert(sorted@.take(sorted@.len() as int) =~= sorted@);
    }
    sorted.truncate(n);
    sorted
}

/// The items at the given positions, in the order of the positions.
pub open spec fn arranged<T>(items: Seq<T>, order: Seq<usize>) -> Seq<T> {
    order.map_values(|at: usize| items[at as int])
}

/// The start lines of the issues of a list, in order.
pub open spec fn lines_of(issues: Seq<Issue>) -> Seq<usize> {
    issues.map_values(|issue: Issue| issue.start_line)
}

/// A list of issues sorted by start line; issues on one line keep their
/// order.
pub open spec fn sorted_by_line(issues: Seq<Issue>) -> Seq<Issue> {
    arranged(issues, stable_order_of(lines_of(issues), issues.len(), false))
}

/// Copies of the issues at the given positions.
fn arrange_issues(issues: &Vec<Issue>, order: &Vec<usize>) -> (out: Vec<Issue>)
    requires
        forall|j: int| 0 <= j < order@.len() ==> (#[trigger] order@[j]) < issues@.len(),
    ensures
        out@ == arranged(issues@, order@),
{
    let mut out: Vec<Issue> = Vec::new();
    let mut k: usize = 0;
    assert(out@ =~= arranged(issues@, order@).take(0));
    while k < order.len()
        invariant
            k <= order.len(),
            forall|j: int| 0 <= j < order@.len() ==> (#[trigger] order@[j]) < issues@.len(),
            out@ == arranged(issues@, order@).take(k as int),
        decreases order.len() - k,
    {
        out.push(issues[order[k]].clone());
        assert(out@ =~= arranged(issues@, order@).take(k as int + 1));
        k += 1;
    }
    assert(arranged(issues@, order@).take(k as int) =~= arranged(issues@, order@));
    out
}

/// The issues sorted by start line.
pub fn sort_by_line(issues: &Vec<Issue>) -> (sorted: Vec<Issue>)
    ensures
        sorted@ == sorted_by_line(issues@),
{
    let mut lines: Vec<usize> = Vec::new();
    let mut i: usize = 0;
    assert(lines@ =~= lines_of(issues@).take(0));
    while i < issues.len()
        invariant
            i <= issues.len(),
            lines@ == lines_of(issues@).take(i as int),
        decreases issues.len() - i,
    {
        lines.push(issues[i].start_line);
        assert(lines@ =~= lines_of(issues@).take(i as int + 1));
        i += 1;
    }
    assert(lines_of(issues@).take(i as int) =~= lines_of(issues@));
    let order = stable_order(&lines, false);
    arrange_issues(issues, &order)
}

/// What issues are grouped by.
#[derive(Debug, Clone, Copy, PartialEq, Eq, Structural)]
pub enum GroupKey {
    /// The path of the file that holds the issue.
    File,
    /// The category of the issue.
    Category,
}

/// The text that an issue is grouped under.
pub open spec fn key_text(issue: Issue, by: GroupKey) -> Seq<char> {
    match by {
        GroupKey::File => issue.file_path@,
        GroupKey::Category => issue.category@,
    }
}

/// The group keys of the issues of a list, in order.
pub open spec fn keys_of(issues: Seq<Issue>, by: GroupKey) -> Seq<Seq<char>> {
    issues.map_values(|issue: Issue| key_text(issue, by))
}

/// The issues of a list that are grouped under `key`, in order.
pub open spec fn with_key(issues: Seq<Issue>, by: GroupKey, key: Seq<char>) -> Seq<Issue>
    decreases issues.len(),
{
    if issues.len() == 0 {
        Seq::<Issue>::empty()
    } else {
        let before = with_key(issues.drop_last(), by, key);
        if key_text(issues.last(), by) == key {
            before.push(issues.last())
        } else {
            before
        }
    }
}

/// The groups of a list of issues: one per key, in order of first
/// occurrence, each with its issues in their order.
pub open spec fn groups_of(issues: Seq<Issue>, by: GroupKey) -> Seq<(Seq<char>, Seq<Issue>)> {
    distinct(keys_of(issues, by)).map_values(|key: Seq<char>| (key, with_key(issues, by, key)))
}

/// The groups with each group's issues sorted by start line.
pub open spec fn line_sorted(groups: Seq<(Seq<char>, Seq<Issue>)>) -> Seq<(Seq<char>, Seq<Issue>)> {
    groups.map_values(|group: (Seq<char>, Seq<Issue>)| (group.0, sorted_by_line(group.1)))
}

/// The entries of a grouping with keys and lists by view.
pub open spec fn group_views(entries: Seq<(String, Vec<Issue>)>) -> Seq<(Seq<char>, Seq<Issue>)> {
    entries.map_values(|entry: (String, Vec<Issue>)| (entry.0@, entry.1@))
}

/// Issues grouped under text keys, in order of first occurrence. It stands
/// where a hash map from text to issues would.
#[derive(Debug)]
pub struct IssueGroups {
    entries: Vec<(String, Vec<Issue>)>,
}

impl View for IssueGroups {
    type V = Seq<(Seq<char>, Seq<Issue>)>;

    closed spec fn view(&self) -> Seq<(Seq<char>, Seq<Issue>)> {
        group_views(self.entries@)
    }
}

/// The keys of a grouping, in order.
pub open spec fn group_keys(groups: Seq<(Seq<char>, Seq<Issue>)>) -> Seq<Seq<char>> {
    groups.map_values(|group: (Seq<char>, Seq<Issue>)| group.0)
}

/// The groups of a list of issues have the distinct keys of the list as
/// their keys, each once, whether or not the groups are sorted by line.
pub proof fn lemma_group_keys(issues: Seq<Issue>, by: GroupKey)
    ensures
        group_keys(groups_of(issues, by)) == distinct(keys_of(issues, by)),
        group_keys(line_sorted(groups_of(issues, by))) == distinct(keys_of(issues, by)),
        group_keys(groups_of(issues, by)).no_duplicates(),
        group_keys(line_sorted(groups_of(issues, by))).no_duplicates(),
{
    lemma_distinct(keys_of(issues, by));
    assert(group_keys(groups_of(issues, by)) =~= distinct(keys_of(issues, by)));
    assert(group_keys(line_sorted(groups_of(issues, by))) =~= distinct(keys_of(issues, by)));
}

impl IssueGroups {
    /// No key has two groups.
    pub open spec fn wf(&self) -> bool {
        group_keys(self@).no_duplicates()
    }

    /// The number of groups.
    pub fn len(&self) -> (count: usize)
        ensures
            count == self@.len(),
    {
        self.entries.len()
    }

    /// The groups, in order of first occurrence.
    pub fn entries(&self) -> (entries: &Vec<(String, Vec<Issue>)>)
        ensures
            group_views(entries@) == self@,
    {
        &self.entries
    }

    /// The groups, handed over.
    pub fn into_entries(self) -> (entries: Vec<(String, Vec<Issue>)>)
        ensures
            group_views(entries@) == self@,
    {
        self.entries
    }

    /// The issues of the first group under `key`, if there is one.
    pub fn get(&self, key: &str) -> (found: Option<&Vec<Issue>>)
        ensures
            match found {
                Some(issues) => exists|i: int|
                    0 <= i < self@.len() && #[trigger] self@[i] == (key@, issues@),
                None => forall|i: int| 0 <= i < self@.len() ==> (#[trigger] self@[i]).0 != key@,
            },
    {
        let mut i: usize = 0;
        while i < self.entries.len()
            invariant
                i <= self.entries.len(),
                forall|k: int| 0 <= k < i ==> (#[trigger] self@[k]).0 != key@,
            decreases self.entries.len() - i,
        {
            if str_eq(self.entries[i].0.as_str(), key) {
                assert(self@[i as int] == (key@, self.entries@[i as int].1@));
                return Some(&self.entries[i].1);
            }
            i += 1;
        }
        None
    }
}

/// Copies of the issues that are grouped under `key`.
fn select_with_key(issues: &[Issue], by: GroupKey, key: &str) -> (out: Vec<Issue>)
    ensures
        out@ == with_key(issues@, by, key@),
{
    let mut out: Vec<Issue> = Vec::new();
    let mut i: usize = 0;
    assert(issues@.take(0) =~= Seq::<Issue>::empty());
    while i < issues.len()
        invariant
            i <= issues.len(),
            out@ == with_key(issues@.take(i as int), by, key@),
        decreases issues.len() - i,
    {
        proof {
            assert(issues@.take(i as int + 1).drop_last() =~= issues@.take(i as int));
        }
        let same = match by {
            GroupKey::File => str_eq(issues[i].file_path.as_str(), key),
            GroupKey::Category => str_eq(issues[i].category.as_str(), key),
        };
        if same {
            out.push(issues[i].clone());
        }
        i += 1;
    }
    assert(issues@.take(i as int) =~= issues@);
    out
}

/// Groups issues by file path or by category; with `sort_lines` each
/// group's issues are sorted by start line.
fn group_issues(issues: &[Issue], by: GroupKey, sort_lines: bool) -> (groups: IssueGroups)
    ensures
        groups@ == if sort_lines {
            line_sorted(groups_of(issues@, by))
        } else {
            groups_of(issues@, by)
        },
        groups.wf(),
{
    let mut keys: Vec<String> = Vec::new();
    let mut i: usize = 0;
    assert(views(keys@) =~= keys_of(issues@, by).take(0));
    while i < issues.len()
        invariant
            i <= issues.len(),
            views(keys@) == keys_of(issues@, by).take(i as int),
        decreases issues.len() - i,
    {
        match by {
            GroupKey::File => push_text(&mut keys, issues[i].file_path.as_str()),
            GroupKey::Category => push_text(&mut keys, issues[i].category.as_str()),
        }
        assert(views(keys@) =~= keys_of(issues@, by).take(i as int + 1));
        i += 1;
    }
    assert(keys_of(issues@, by).take(i as int) =~= keys_of(issues@, by));
    let names = distinct_texts(&keys);
    let ghost wanted = if sort_lines {
        line_sorted(groups_of(issues@, by))
    } else {
        groups_of(issues@, by)
    };
    let mut entries: Vec<(String, Vec<Issue>)> = Vec::new();
    let mut k: usize = 0;
    assert(group_views(entries@) =~= wanted.take(0));
    while k < names.len()
        invariant
            k <= names.len(),
            views(names@) == distinct(keys_of(issues@, by)),
            wanted == if sort_lines {
                line_sorted(groups_of(issues@, by))
            } else {
                groups_of(issues@, by)
            },
            group_views(entries@) == wanted.take(k as int),
        decreases names.len() - k,
    {
        let name = names[k].clone();
        let members = select_with_key(issues, by, name.as_str());
        let members = if sort_lines {
            sort_by_line(&members)
        } else {
            members
        };
        let ghost before = entries@;
        proof {
            assert(views(names@)[k as int] == names@[k as int]@);
        }
        entries.push((name, members));
        proof {
            assert(group_views(entries@) =~= group_views(before).push((name@, members@)));
            assert(wanted.take(k as int + 1) =~= wanted.take(k as int).push(wanted[k as int]));
        }
        k += 1;
    }
    assert(wanted.take(k as int) =~= wanted);
    proof {
        lemma_group_keys(issues@, by);
    }
    IssueGroups { entries }
}

/// Group issues by file path. The groups stand in order of first
/// occurrence; within a group the issues are sorted by start line.
pub fn group_by_file(issues: &[Issue]) -> (groups: IssueGroups)
    ensures
        groups@ == line_sorted(groups_of(issues@, GroupKey::File)),
        groups.wf(),
{
    group_issues(issues, GroupKey::File, true)
}

/// Group issues by category, in order of first occurrence.
pub fn group_by_category(issues: &[Issue]) -> (groups: IssueGroups)
    ensures
        groups@ == groups_of(issues@, GroupKey::Category),
        groups.wf(),
{
    group_issues(issues, GroupKey::Category, false)
}

/// The severities that occur in a list of issues, each once, in order of
/// first occurrence.
pub open spec fn severities_of(issues: Seq<Issue>) -> Seq<Severity>
    decreases issues.len(),
{
    if issues.len() == 0 {
        Seq::<Severity>::empty()
    } else {
        let before = severities_of(issues.drop_last());
        if before.contains(issues.last().severity) {
            before
        } else {
            before.push(issues.last().severity)
        }
    }
}

/// The groups of a list of issues by severity: one per severity that
/// occurs, in order of first occurrence.
pub open spec fn severity_groups_of(issues: Seq<Issue>) -> Seq<(Severity, Seq<Issue>)> {
    severities_of(issues).map_values(|severity: Severity| (severity, only(issues, severity)))
}

/// The entries of a grouping by severity with the lists by view.
pub open spec fn severity_group_views(entries: Seq<(Severity, Vec<Issue>)>) -> Seq<
    (Severity, Seq<Issue>),
> {
    entries.map_values(|entry: (Severity, Vec<Issue>)| (entry.0, entry.1@))
}

/// Issues grouped by severity, in order of first occurrence. It stands
/// where a hash map from severity to issues would.
#[derive(Debug)]
pub struct SeverityGroups {
    entries: Vec<(Severity, Vec<Issue>)>,
}

impl View for SeverityGroups {
    type V = Seq<(Severity, Seq<Issue>)>;

    closed spec fn view(&self) -> Seq<(Severity, Seq<Issue>)> {
        severity_group_views(self.entries@)
    }
}

/// The severities of a grouping, in order.
pub open spec fn severity_keys(groups: Seq<(Severity, Seq<Issue>)>) -> Seq<Severity> {
    groups.map_values(|group: (Severity, Seq<Issue>)| group.0)
}

/// The severities that occur in a list are listed once each, so the groups
/// by severity have no severity twice.
pub proof fn lemma_severity_keys(issues: Seq<Issue>)
    ensures
        severities_of(issues).no_duplicates(),
        severity_keys(severity_groups_of(issues)) == severities_of(issues),
    decreases issues.len(),
{
    if issues.len() > 0 {
        lemma_severity_keys(issues.drop_last());
    }
    assert(severity_keys(severity_groups_of(issues)) =~= severities_of(issues));
}

impl SeverityGroups {
    /// No severity has two groups.
    pub open spec fn wf(&self) -> bool {
        severity_keys(self@).no_duplicates()
    }

    /// The number of groups.
    pub fn len(&self) -> (count: usize)
        ensures
            count == self@.len(),
    {
        self.entries.len()
    }

    /// The groups, in order of first occurrence.
    pub fn entries(&self) -> (entries: &Vec<(Severity, Vec<Issue>)>)
        ensures
            severity_group_views(entries@) == self@,
    {
        &self.entries
    }

    /// The issues of the first group of the given severity, if there is one.
    pub fn get(&self, severity: &Severity) -> (found: Option<&Vec<Issue>>)
        ensures
            match found {
                Some(issues) => exists|i: int|
                    0 <= i < self@.len() && #[trigger] self@[i] == (*severity, issues@),
                None => forall|i: int|
                    0 <= i < self@.len() ==> (#[trigger] self@[i]).0 != *severity,
            },
    {
        let mut i: usize = 0;
        while i < self.entries.len()
            invariant
                i <= self.entries.len(),
                forall|k: int| 0 <= k < i ==> (#[trigger] self@[k]).0 != *severity,
            decreases self.entries.len() - i,
        {
            if self.entries[i].0 == *severity {
                assert(self@[i as int] == (*severity, self.entries@[i as int].1@));
                return Some(&self.entries[i].1);
            }
            i += 1;
        }
        None
    }
}

/// Whether `list` holds `severity`.
fn has_severity(list: &Vec<Severity>, severity: Severity) -> (found: bool)
    ensures
        found == list@.contains(severity),
{
    let mut i: usize = 0;
    while i < list.len()
        invariant
            i <= list.len(),
            forall|k: int| 0 <= k < i ==> list@[k] != severity,
        decreases list.len() - i,
    {
        if list[i] == severity {
            return true;
        }
        i += 1;
    }
    false
}

/// Group issues by severity, in order of first occurrence.
pub fn group_by_severity(issues: &[Issue]) -> (groups: SeverityGroups)
    ensures
        groups@ == severity_groups_of(issues@),
        groups.wf(),
{
    let mut seen: Vec<Severity> = Vec::new();
    let mut i: usize = 0;
    assert(issues@.take(0) =~= Seq::<Issue>::empty());
    while i < issues.len()
        invariant
            i <= issues.len(),
            seen@ == severities_of(issues@.take(i as int)),
        decreases issues.len() - i,
    {
        proof {
            assert(issues@.take(i as int + 1).drop_last() =~= issues@.take(i as int));
        }
        if !has_severity(&seen, issues[i].severity) {
            seen.push(issues[i].severity);
        }
        i += 1;
    }
    assert(issues@.take(i as int) =~= issues@);
    let ghost wanted = severity_groups_of(issues@);
    let mut entries: Vec<(Severity, Vec<Issue>)> = Vec::new();
    let mut k: usize = 0;
    assert(severity_group_views(entries@) =~= wanted.take(0));
    while k < seen.len()
        invariant
            k <= seen.len(),
            seen@ == severities_of(issues@),
            wanted == severity_groups_of(issues@),
            severity_group_views(entries@) == wanted.take(k as int),
        decreases seen.len() - k,
    {
        let mut members: Vec<Issue> = Vec::new();
        append_only(&mut members, issues, seen[k]);
        assert(members@ =~= only(issues@, seen@[k as int]));
        let ghost before = entries@;
        entries.push((seen[k], members));
        proof {
            assert(severity_group_views(entries@) =~= severity_group_views(before).push(
                (seen@[k as int], members@),
            ));
            assert(wanted.take(k as int + 1) =~= wanted.take(k as int).push(wanted[k as int]));
        }
        k += 1;
    }
    assert(wanted.take(k as int) =~= wanted);
    proof {
        lemma_severity_keys(issues@);
    }
    SeverityGroups { entries }
}

/// The languages of a list of files, in order.
pub open spec fn languages_of(files: Seq<AnalyzedFile>) -> Seq<Seq<char>> {
    files.map_values(|file: AnalyzedFile| file.language@)
}

/// Compute language distribution from analyzed files: the number of files
/// per language, in order of first occurrence.
pub fn language_distribution(files: &[AnalyzedFile]) -> (distribution: Tally)
    ensures
        distribution@ == tally_of(languages_of(files@)),
        distribution.wf(),
{
    let mut languages: Vec<String> = Vec::new();
    let mut i: usize = 0;
    assert(views(languages@) =~= languages_of(files@).take(0));
    while i < files.len()
        invariant
            i <= files.len(),
            views(languages@) == languages_of(files@).take(i as int),
        decreases files.len() - i,
    {
        push_text(&mut languages, files[i].language.as_str());
        assert(views(languages@) =~= languages_of(files@).take(i as int + 1));
        i += 1;
    }
    assert(languages_of(files@).take(i as int) =~= languages_of(files@));
    Tally::of(&languages)
}

/// The counts of the entries of a tally, in order.
pub open spec fn counts_of(entries: Seq<(Seq<char>, usize)>) -> Seq<usize> {
    entries.map_values(|entry: (Seq<char>, usize)| entry.1)
}

/// The entries of a tally sorted by count, greatest first; entries of one
/// count keep their order.
pub open spec fn ranked(entries: Seq<(Seq<char>, usize)>) -> Seq<(Seq<char>, usize)> {
    arranged(entries, stable_order_of(counts_of(entries), entries.len(), true))
}

/// Copies of counted texts, sorted by count, greatest first.
pub fn rank_entries(entries: &Vec<(String, usize)>) -> (out: Vec<(String, usize)>)
    ensures
        entry_views(out@) == ranked(entry_views(entries@)),
{
    let mut counts: Vec<usize> = Vec::new();
    let mut i: usize = 0;
    let ghost model = entry_views(entries@);
    assert(counts@ =~= counts_of(model).take(0));
    while i < entries.len()
        invariant
            i <= entries.len(),
            model == entry_views(entries@),
            counts@ == counts_of(model).take(i as int),
        decreases entries.len() - i,
    {
        counts.push(entries[i].1);
        assert(counts@ =~= counts_of(model).take(i as int + 1));
        i += 1;
    }
    assert(counts_of(model).take(i as int) =~= counts_of(model));
    let order = stable_order(&counts, true);
    let mut out: Vec<(String, usize)> = Vec::new();
    let mut k: usize = 0;
    assert(entry_views(out@) =~= ranked(model).take(0));
    while k < order.len()
        invariant
            k <= order.len(),
            model == entry_views(entries@),
            order@ == stable_order_of(counts_of(model), model.len(), true),
            forall|j: int| 0 <= j < order@.len() ==> (#[trigger] order@[j]) < entries@.len(),
            entry_views(out@) == ranked(model).take(k as int),
        decreases order.len() - k,
    {
        let entry = &entries[order[k]];
        let ghost before = out@;
        let name = entry.0.clone();
        out.push((name, entry.1));
        proof {
            assert(entry_views(out@) =~= entry_views(before).push((name@, entry.1)));
            assert(ranked(model).take(k as int + 1) =~= ranked(model).take(k as int).push(
                ranked(model)[k as int],
            ));
        }
        k += 1;
    }
    assert(ranked(model).take(k as int) =~= ranked(model));
    out
}

/// A line of a summary that gives a count under a label.
pub open spec fn count_line(label: Seq<char>, count: usize) -> Seq<char> {
    label + decimal(count as nat)
}

/// The line of a summary for one category.
pub open spec fn category_line(entry: (Seq<char>, usize)) -> Seq<char> {
    "- "@ + entry.0 + ": "@ + decimal(entry.1 as nat)
}

/// The lines of the text summary: the total, one line per severity, and,
/// where categories are counted, a blank line, a heading and one line per
/// category, the most frequent first.
pub open spec fn summary_lines(
    total: usize,
    critical: usize,
    high: usize,
    medium: usize,
    low: usize,
    by_category: Seq<(Seq<char>, usize)>,
) -> Seq<Seq<char>> {
    let head = seq![
        count_line("Total Issues: "@, total),
        count_line("- "@ + Severity::Critical.spec_emoji() + " Critical: "@, critical),
        count_line("- "@ + Severity::High.spec_emoji() + " High: "@, high),
        count_line("- "@ + Severity::Medium.spec_emoji() + " Medium: "@, medium),
        count_line("- "@ + Severity::Low.spec_emoji() + " Low: "@, low),
    ];
    if by_category.len() > 0 {
        head.push(Seq::<char>::empty()).push("By Category:"@) + ranked(by_category).map_values(
            |entry: (Seq<char>, usize)| category_line(entry),
        )
    } else {
        head
    }
}

/// A line that gives the count of a severity under its mark and name.
fn severity_line(severity: Severity, name: &str, count: usize) -> (line: String)
    ensures
        line@ == count_line("- "@ + severity.spec_emoji() + name@, count),
{
    let mut line = String::from_str("- ");
    line.append(severity.emoji());
    line.append(name);
    push_decimal(&mut line, count as u64);
    line
}

/// Generate a text summary of issue statistics.
pub fn generate_summary_text(summary: &IssueSummary) -> (text: String)
    ensures
        text@ == join_with(
            summary_lines(
                summary.total,
                summary.critical,
                summary.high,
                summary.medium,
                summary.low,
                summary.by_category@,
            ),
            "\n"@,
        ),
{
    let ghost wanted = summary_lines(
        summary.total,
        summary.critical,
        summary.high,
        summary.medium,
        summary.low,
        summary.by_category@,
    );
    let mut lines: Vec<String> = Vec::new();
    let mut total = String::from_str("Total Issues: ");
    push_decimal(&mut total, summary.total as u64);
    proof {
        lemma_views_push(lines@, total);
    }
    lines.push(total);
    let critical = severity_line(Severity::Critical, " Critical: ", summary.critical);
    proof {
        lemma_views_push(lines@, critical);
    }
    lines.push(critical);
    let high = severity_line(Severity::High, " High: ", summary.high);
    proof {
        lemma_views_push(lines@, high);
    }
    lines.push(high);
    let medium = severity_line(Severity::Medium, " Medium: ", summary.medium);
    proof {
        lemma_views_push(lines@, medium);
    }
    lines.push(medium);
    let low = severity_line(Severity::Low, " Low: ", summary.low);
    proof {
        lemma_views_push(lines@, low);
    }
    lines.push(low);
    let ghost head = views(lines@);
    assert(head =~= seq![
        count_line("Total Issues: "@, summary.total),
        count_line("- "@ + Severity::Critical.spec_emoji() + " Critical: "@, summary.critical),
        count_line("- "@ + Severity::High.spec_emoji() + " High: "@, summary.high),
        count_line("- "@ + Severity::Medium.spec_emoji() + " Medium: "@, summary.medium),
        count_line("- "@ + Severity::Low.spec_emoji() + " Low: "@, summary.low),
    ]);
    if !summary.by_category.is_empty() {
        push_text(&mut lines, "");
        push_text(&mut lines, "By Category:");
        let ghost opening = views(lines@);
        assert(""@ =~= Seq::<char>::empty()) by {
            reveal_strlit("");
        }
        let entries = rank_entries(summary.by_category.entries());
        let ghost rows = ranked(summary.by_category@).map_values(
            |entry: (Seq<char>, usize)| category_line(entry),
        );
        let mut k: usize = 0;
        assert(views(lines@) =~= opening + rows.take(0));
        while k < entries.len()
            invariant
                k <= entries.len(),
                entry_views(entries@) == ranked(summary.by_category@),
                rows == ranked(summary.by_category@).map_values(
                    |entry: (Seq<char>, usize)| category_line(entry),
                ),
                views(lines@) == opening + rows.take(k as int),
            decreases entries.len() - k,
        {
            let mut line = String::from_str("- ");
            line.append(entries[k].0.as_str());
            line.append(": ");
            push_decimal(&mut line, entries[k].1 as u64);
            proof {
                lemma_views_push(lines@, line);
                assert(entry_views(entries@)[k as int] == (entries@[k as int].0@, entries@[k as int].1));
                assert(line@ == category_line(ranked(summary.by_category@)[k as int]));
                assert(rows.take(k as int + 1) =~= rows.take(k as int).push(rows[k as int]));
            }
            lines.push(line);
            assert(views(lines@) =~= opening + rows.take(k as int + 1));
            k += 1;
        }
        assert(rows.take(k as int) =~= rows);
        assert(views(lines@) =~= wanted);
    } else {
        assert(views(lines@) =~= wanted);
    }
    join(&lines, "\n")
}

/// The positions of the files that have issues, among the first `count`.
pub open spec fn busy_files(files: Seq<AnalyzedFile>, count: nat) -> Seq<usize>
    decreases count,
{
    if count == 0 {
        Seq::<usize>::empty()
    } else {
        let before = busy_files(files, (count - 1) as nat);
        if files[count - 1].issues@.len() > 0 {
            before.push((count - 1) as usize)
        } else {
            before
        }
    }
}

/// The number of issues of the file at each of the given positions.
pub open spec fn issue_counts(files: Seq<AnalyzedFile>, positions: Seq<usize>) -> Seq<usize> {
    positions.map_values(|at: usize| files[at as int].issues@.len() as usize)
}

/// The positions of the at most `n` files with the most issues, the file
/// with the most first; files without issues are left out, and files with
/// equally many issues keep their order.
pub open spec fn most_problematic(files: Seq<AnalyzedFile>, n: usize) -> Seq<usize> {
    let busy = busy_files(files, files.len());
    let ranked = arranged(busy, stable_order_of(issue_counts(files, busy), busy.len(), true));
    if n <= ranked.len() {
        ranked.take(n as int)
    } else {
        ranked
    }
}

/// Identify the most problematic files (by issue count).
pub fn most_problematic_files<'a>(files: &'a [AnalyzedFile], n: usize) -> (worst: Vec<
    (&'a AnalyzedFile, usize),
>)
    ensures
        worst@.len() == most_problematic(files@, n).len(),
        forall|k: int|
            0 <= k < worst@.len() ==> {
                let at = #[trigger] most_problematic(files@, n)[k];
                &&& at < files@.len()
                &&& *worst@[k].0 == files@[at as int]
                &&& worst@[k].1 == files@[at as int].issues@.len()
            },
{
    let mut busy: Vec<usize> = Vec::new();
    let mut counts: Vec<usize> = Vec::new();
    let mut i: usize = 0;
    assert(counts@ =~= issue_counts(files@, busy@));
    while i < files.len()
        invariant
            i <= files.len(),
            busy@ == busy_files(files@, i as nat),
            counts@ == issue_counts(files@, busy@),
            forall|j: int| 0 <= j < busy@.len() ==> (#[trigger] busy@[j]) < i,
        decreases files.len() - i,
    {
        if files[i].issues.len() > 0 {
            let ghost before = busy@;
            busy.push(i);
            counts.push(files[i].issues.len());
            assert(counts@ =~= issue_counts(files@, busy@));
        }
        i += 1;
    }
    let order = stable_order(&counts, true);
    let ghost ranked = arranged(busy@, order@);
    let limit = if n <= order.len() {
        n
    } else {
        order.len()
    };
    let mut worst: Vec<(&'a AnalyzedFile, usize)> = Vec::new();
    let mut k: usize = 0;
    while k < limit
        invariant
            k <= limit <= order.len(),
            order@.len() == busy@.len(),
            ranked == arranged(busy@, order@),
            forall|j: int| 0 <= j < order@.len() ==> (#[trigger] order@[j]) < busy@.len(),
            forall|j: int| 0 <= j < busy@.len() ==> (#[trigger] busy@[j]) < files@.len(),
            worst@.len() == k,
            forall|j: int|
                0 <= j < k ==> {
                    let at = #[trigger] ranked[j];
                    &&& at < files@.len()
                    &&& *worst@[j].0 == files@[at as int]
                    &&& worst@[j].1 == files@[at as int].issues@.len()
                },
        decreases limit - k,
    {
        let at = busy[order[k]];
        assert(ranked[k as int] == at);
        let file = &files[at];
        worst.push((file, file.issues.len()));
        k += 1;
    }
    proof {
        let wanted = most_problematic(files@, n);
        assert(wanted =~= ranked.take(limit as int));
        assert forall|j: int| 0 <= j < worst@.len() implies {
            let at = #[trigger] wanted[j];
            &&& at < files@.len()
            &&& *worst@[j].0 == files@[at as int]
            &&& worst@[j].1 == files@[at as int].issues@.len()
        } by {
            assert(wanted[j] == ranked[j]);
        }
    }
    worst
}

/// The lowercased titles of the issues of a list, in order.
pub open spec fn lowered_titles(issues: Seq<Issue>) -> Seq<Seq<char>> {
    issues.map_values(|issue: Issue| lowercase(issue.title@))
}

/// The entries of a tally that count more than one occurrence, in order.
pub open spec fn repeated(entries: Seq<(Seq<char>, usize)>) -> Seq<(Seq<char>, usize)>
    decreases entries.len(),
{
    if entries.len() == 0 {
        Seq::<(Seq<char>, usize)>::empty()
    } else {
        let before = repeated(entries.drop_last());
        if entries.last().1 > 1 {
            before.push(entries.last())
        } else {
            before
        }
    }
}

/// Identify patterns in issues: the titles that occur more than once,
/// whatever their letter case, with the number of their occurrences, the
/// most frequent first.
pub fn identify_patterns(issues: &[Issue]) -> (patterns: Vec<(String, usize)>)
    ensures
        entry_views(patterns@) == ranked(repeated(tally_of(lowered_titles(issues@)))),
{
    let mut titles: Vec<String> = Vec::new();
    let mut i: usize = 0;
    assert(views(titles@) =~= lowered_titles(issues@).take(0));
    while i < issues.len()
        invariant
            i <= issues.len(),
            views(titles@) == lowered_titles(issues@).take(i as int),
        decreases issues.len() - i,
    {
        let title = issues[i].title.as_str().to_lowercase();
        proof {
            lemma_views_push(titles@, title);
        }
        titles.push(title);
        assert(views(titles@) =~= lowered_titles(issues@).take(i as int + 1));
        i += 1;
    }
    assert(lowered_titles(issues@).take(i as int) =~= lowered_titles(issues@));
    let tally = Tally::of(&titles);
    let counted = tally.entries();
    let ghost model = entry_views(counted@);
    let mut kept: Vec<(String, usize)> = Vec::new();
    let mut k: usize = 0;
    assert(model.take(0) =~= Seq::<(Seq<char>, usize)>::empty());
    assert(entry_views(kept@) =~= repeated(model.take(0)));
    while k < counted.len()
        invariant
            k <= counted.len(),
            model == entry_views(counted@),
            entry_views(kept@) == repeated(model.take(k as int)),
        decreases counted.len() - k,
    {
        proof {
            assert(model.take(k as int + 1).drop_last() =~= model.take(k as int));
            assert(model.take(k as int + 1).last() == (counted@[k as int].0@, counted@[k as int].1));
        }
        if counted[k].1 > 1 {
            let ghost before = kept@;
            let name = counted[k].0.clone();
            kept.push((name, counted[k].1));
            assert(entry_views(kept@) =~= entry_views(before).push((name@, counted@[k as int].1)));
        }
        k += 1;
    }
    assert(model.take(k as int) =~= model);
    rank_entries(&kept)
}

} // verus!
