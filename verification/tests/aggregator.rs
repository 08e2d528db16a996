use yoauditor::analysis::aggregator::{
    aggregate_issues, generate_summary_text, group_by_category, group_by_file, group_by_severity,
    identify_patterns, language_distribution, most_problematic_files, sort_by_line,
    sort_issues_by_severity, top_issues,
};
use yoauditor::analysis::order::stable_order;
use yoauditor::models::{AnalyzedFile, Issue, IssueSummary, Severity};

fn create_test_issue(severity: Severity, category: &str) -> Issue {
    Issue {
        file_path: "test.rs".to_string(),
        start_line: 1,
        end_line: None,
        severity,
        category: category.to_string(),
        title: "Test issue".to_string(),
        description: "Test description".to_string(),
        suggestion: "Fix it".to_string(),
        code_snippet: None,
    }
}

fn issue_at(path: &str, line: usize, severity: Severity, title: &str) -> Issue {
    Issue {
        file_path: path.to_string(),
        start_line: line,
        end_line: None,
        severity,
        category: "Bug".to_string(),
        title: title.to_string(),
        description: String::new(),
        suggestion: String::new(),
        code_snippet: None,
    }
}

fn file_with(path: &str, language: &str, issues: Vec<Issue>) -> AnalyzedFile {
    AnalyzedFile {
        path: path.to_string(),
        language: language.to_string(),
        line_count: 100,
        issues,
        analysis_successful: true,
        error: None,
    }
}

#[test]
fn test_aggregate_issues() {
    let files = vec![
        AnalyzedFile {
            path: "file1.rs".to_string(),
            language: "Rust".to_string(),
            line_count: 100,
            issues: vec![create_test_issue(Severity::High, "Bug")],
            analysis_successful: true,
            error: None,
        },
        AnalyzedFile {
            path: "file2.rs".to_string(),
            language: "Rust".to_string(),
            line_count: 50,
            issues: vec![
                create_test_issue(Severity::Critical, "Security"),
                create_test_issue(Severity::Low, "Style"),
            ],
            analysis_successful: true,
            error: None,
        },
    ];

    let issues = aggregate_issues(&files);
    assert_eq!(issues.len(), 3);
}

#[test]
fn test_sort_issues_by_severity() {
    let mut issues = vec![
        create_test_issue(Severity::Low, "Style"),
        create_test_issue(Severity::Critical, "Security"),
        create_test_issue(Severity::Medium, "Bug"),
    ];

    sort_issues_by_severity(&mut issues);

    assert_eq!(issues[0].severity, Severity::Critical);
    assert_eq!(issues[1].severity, Severity::Medium);
    assert_eq!(issues[2].severity, Severity::Low);
}

#[test]
fn test_group_by_category() {
    let issues = vec![
        create_test_issue(Severity::High, "Bug"),
        create_test_issue(Severity::High, "Security"),
        create_test_issue(Severity::Low, "Bug"),
    ];

    let grouped = group_by_category(&issues);

    assert_eq!(grouped.get("Bug").map(|v| v.len()), Some(2));
    assert_eq!(grouped.get("Security").map(|v| v.len()), Some(1));
}

#[test]
fn test_top_issues() {
    let issues = vec![
        create_test_issue(Severity::Low, "Style"),
        create_test_issue(Severity::Critical, "Security"),
        create_test_issue(Severity::High, "Bug"),
    ];

    let top = top_issues(&issues, 2);

    assert_eq!(top.len(), 2);
    assert_eq!(top[0].severity, Severity::Critical);
    assert_eq!(top[1].severity, Severity::High);
}

#[test]
fn aggregate_keeps_the_order_of_files_and_issues() {
    let files = vec![
        file_with("a.rs", "Rust", vec![issue_at("a.rs", 3, Severity::Low, "one")]),
        file_with("b.rs", "Rust", vec![]),
        file_with(
            "c.rs",
            "Rust",
            vec![
                issue_at("c.rs", 9, Severity::High, "two"),
                issue_at("c.rs", 1, Severity::Low, "three"),
            ],
        ),
    ];
    let titles: Vec<String> = aggregate_issues(&files).into_iter().map(|i| i.title).collect();
    assert_eq!(titles, vec!["one", "two", "three"]);
    assert!(aggregate_issues(&[]).is_empty());
}

#[test]
fn sort_by_severity_is_stable() {
    let mut issues = vec![
        issue_at("x", 1, Severity::Low, "l1"),
        issue_at("x", 2, Severity::High, "h1"),
        issue_at("x", 3, Severity::Low, "l2"),
        issue_at("x", 4, Severity::Critical, "c1"),
        issue_at("x", 5, Severity::High, "h2"),
        issue_at("x", 6, Severity::Medium, "m1"),
    ];
    sort_issues_by_severity(&mut issues);
    let titles: Vec<&str> = issues.iter().map(|i| i.title.as_str()).collect();
    assert_eq!(titles, vec!["c1", "h1", "h2", "m1", "l1", "l2"]);
}

#[test]
fn top_issues_with_a_large_limit_returns_all() {
    let issues = vec![
        create_test_issue(Severity::Low, "Style"),
        create_test_issue(Severity::High, "Bug"),
    ];
    let top = top_issues(&issues, 10);
    assert_eq!(top.len(), 2);
    assert_eq!(top[0].severity, Severity::High);
    assert!(top_issues(&issues, 0).is_empty());
}

#[test]
fn stable_order_sorts_positions_and_keeps_ties() {
    let keys = vec![5usize, 1, 5, 3, 1];
    assert_eq!(stable_order(&keys, false), vec![1, 4, 3, 0, 2]);
    assert_eq!(stable_order(&keys, true), vec![0, 2, 3, 1, 4]);
    assert!(stable_order(&Vec::new(), true).is_empty());
}

#[test]
fn sort_by_line_orders_by_start_line() {
    let issues = vec![
        issue_at("x", 30, Severity::Low, "c"),
        issue_at("x", 10, Severity::Low, "a1"),
        issue_at("x", 20, Severity::Low, "b"),
        issue_at("x", 10, Severity::High, "a2"),
    ];
    let titles: Vec<String> = sort_by_line(&issues).into_iter().map(|i| i.title).collect();
    assert_eq!(titles, vec!["a1", "a2", "b", "c"]);
}

#[test]
fn group_by_file_groups_in_order_and_sorts_lines() {
    let issues = vec![
        issue_at("b.rs", 7, Severity::Low, "b7"),
        issue_at("a.rs", 9, Severity::Low, "a9"),
        issue_at("b.rs", 2, Severity::High, "b2"),
        issue_at("a.rs", 1, Severity::Low, "a1"),
    ];
    let groups = group_by_file(&issues);
    assert_eq!(groups.len(), 2);
    let entries = groups.entries();
    assert_eq!(entries[0].0, "b.rs");
    assert_eq!(entries[1].0, "a.rs");
    let b: Vec<&str> = entries[0].1.iter().map(|i| i.title.as_str()).collect();
    let a: Vec<&str> = entries[1].1.iter().map(|i| i.title.as_str()).collect();
    assert_eq!(b, vec!["b2", "b7"]);
    assert_eq!(a, vec!["a1", "a9"]);
    assert!(groups.get("c.rs").is_none());
}

#[test]
fn group_by_severity_groups_in_order_of_first_occurrence() {
    let issues = vec![
        issue_at("x", 1, Severity::Low, "l1"),
        issue_at("x", 2, Severity::Critical, "c1"),
        issue_at("x", 3, Severity::Low, "l2"),
    ];
    let groups = group_by_severity(&issues);
    assert_eq!(groups.len(), 2);
    assert_eq!(groups.entries()[0].0, Severity::Low);
    assert_eq!(groups.entries()[1].0, Severity::Critical);
    assert_eq!(groups.get(&Severity::Low).map(|v| v.len()), Some(2));
    assert_eq!(groups.get(&Severity::Critical).map(|v| v.len()), Some(1));
    assert!(groups.get(&Severity::High).is_none());
}

#[test]
fn language_distribution_counts_files() {
    let files = vec![
        file_with("a.rs", "Rust", vec![]),
        file_with("b.py", "Python", vec![]),
        file_with("c.rs", "Rust", vec![]),
    ];
    let distribution = language_distribution(&files);
    assert_eq!(distribution.get("Rust"), Some(&2));
    assert_eq!(distribution.get("Python"), Some(&1));
    assert_eq!(distribution.get("Go"), None);
    assert_eq!(distribution.len(), 2);
}

#[test]
fn summary_text_lists_counts_and_categories() {
    let issues = vec![
        Issue { category: "Bug".to_string(), ..issue_at("x", 1, Severity::Critical, "t") },
        Issue { category: "Style".to_string(), ..issue_at("x", 2, Severity::Low, "t") },
        Issue { category: "Style".to_string(), ..issue_at("x", 3, Severity::Low, "t") },
    ];
    let summary = IssueSummary::from_issues(&issues);
    let text = generate_summary_text(&summary);
    assert_eq!(
        text,
        "Total Issues: 3\n- 🔴 Critical: 1\n- 🟠 High: 0\n- 🟡 Medium: 0\n- 🟢 Low: 2\n\nBy Category:\n- Style: 2\n- Bug: 1"
    );
}

#[test]
fn summary_text_without_categories_has_five_lines() {
    let text = generate_summary_text(&IssueSummary::default());
    assert_eq!(
        text,
        "Total Issues: 0\n- 🔴 Critical: 0\n- 🟠 High: 0\n- 🟡 Medium: 0\n- 🟢 Low: 0"
    );
}

#[test]
fn most_problematic_files_ranks_by_issue_count() {
    let files = vec![
        file_with("one.rs", "Rust", vec![issue_at("one.rs", 1, Severity::Low, "a")]),
        file_with("none.rs", "Rust", vec![]),
        file_with(
            "three.rs",
            "Rust",
            vec![
                issue_at("three.rs", 1, Severity::Low, "a"),
                issue_at("three.rs", 2, Severity::Low, "b"),
                issue_at("three.rs", 3, Severity::Low, "c"),
            ],
        ),
        file_with("also_one.rs", "Rust", vec![issue_at("also_one.rs", 1, Severity::Low, "a")]),
    ];
    let worst = most_problematic_files(&files, 5);
    let names: Vec<(&str, usize)> = worst.iter().map(|(f, n)| (f.path.as_str(), *n)).collect();
    assert_eq!(names, vec![("three.rs", 3), ("one.rs", 1), ("also_one.rs", 1)]);
    let two = most_problematic_files(&files, 2);
    assert_eq!(two.len(), 2);
    assert_eq!(two[1].0.path, "one.rs");
}

#[test]
fn identify_patterns_counts_repeated_titles() {
    let issues = vec![
        issue_at("x", 1, Severity::Low, "Unused import"),
        issue_at("x", 2, Severity::Low, "Missing docs"),
        issue_at("x", 3, Severity::Low, "unused IMPORT"),
        issue_at("x", 4, Severity::Low, "Unwrap"),
        issue_at("x", 5, Severity::Low, "unwrap"),
        issue_at("x", 6, Severity::Low, "UNWRAP"),
    ];
    let patterns = identify_patterns(&issues);
    assert_eq!(
        patterns,
        vec![("unwrap".to_string(), 3), ("unused import".to_string(), 2)]
    );
}
