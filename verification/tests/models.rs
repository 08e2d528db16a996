use yoauditor::models::{AnalyzedFile, Category, Issue, IssueSummary, Severity};

#[test]
fn test_severity_ordering() {
    assert!(Severity::Low < Severity::Medium);
    assert!(Severity::Medium < Severity::High);
    assert!(Severity::High < Severity::Critical);
}

#[test]
fn test_severity_emoji() {
    assert_eq!(Severity::Critical.emoji(), "🔴");
    assert_eq!(Severity::High.emoji(), "🟠");
    assert_eq!(Severity::Medium.emoji(), "🟡");
    assert_eq!(Severity::Low.emoji(), "🟢");
}

#[test]
fn test_category_from_str() {
    assert_eq!(Category::from("bug"), Category::Bug);
    assert_eq!(Category::from("Security"), Category::Security);
    assert_eq!(Category::from("PERFORMANCE"), Category::Performance);
    assert_eq!(
        Category::from("custom"),
        Category::Other("custom".to_string())
    );
}

#[test]
fn test_issue_line_range() {
    let issue = Issue {
        file_path: "test.rs".to_string(),
        start_line: 10,
        end_line: Some(15),
        severity: Severity::Medium,
        category: "Bug".to_string(),
        title: "Test".to_string(),
        description: "Test description".to_string(),
        suggestion: "Test suggestion".to_string(),
        code_snippet: None,
    };
    assert_eq!(issue.line_range(), "10-15");

    let single_line_issue = Issue {
        start_line: 10,
        end_line: None,
        ..issue.clone()
    };
    assert_eq!(single_line_issue.line_range(), "10");
}

fn summary_issue(line: usize, severity: Severity, category: &str) -> Issue {
    Issue {
        file_path: "test.rs".to_string(),
        start_line: line,
        end_line: None,
        severity,
        category: category.to_string(),
        title: "Test".to_string(),
        description: "".to_string(),
        suggestion: "".to_string(),
        code_snippet: None,
    }
}

#[test]
fn test_issue_summary() {
    let issues = vec![
        summary_issue(1, Severity::Critical, "Security"),
        summary_issue(2, Severity::High, "Bug"),
        summary_issue(3, Severity::Low, "Security"),
    ];

    let summary = IssueSummary::from_issues(&issues);
    assert_eq!(summary.total, 3);
    assert_eq!(summary.critical, 1);
    assert_eq!(summary.high, 1);
    assert_eq!(summary.low, 1);
    assert_eq!(summary.by_category.get("Security"), Some(&2));
    assert_eq!(summary.by_category.get("Bug"), Some(&1));
}

#[test]
fn issue_summary_counts_in_order_of_first_occurrence() {
    let issues = vec![
        summary_issue(1, Severity::Medium, "Style"),
        summary_issue(2, Severity::Medium, "Bug"),
        summary_issue(3, Severity::Medium, "Style"),
    ];
    let summary = IssueSummary::from_issues(&issues);
    assert_eq!(summary.medium, 3);
    assert_eq!(summary.critical + summary.high + summary.low, 0);
    let entries = summary.by_category.entries();
    assert_eq!(entries.len(), 2);
    assert_eq!(entries[0], ("Style".to_string(), 2));
    assert_eq!(entries[1], ("Bug".to_string(), 1));
    assert_eq!(summary.by_category.get("Docs"), None);
}

#[test]
fn default_summary_is_empty() {
    let summary = IssueSummary::default();
    assert_eq!(summary.total, 0);
    assert!(summary.by_category.is_empty());
    assert_eq!(summary.by_category.len(), 0);
}

#[test]
fn line_range_of_equal_start_and_end_is_one_number() {
    let mut issue = summary_issue(7, Severity::Low, "Bug");
    issue.end_line = Some(7);
    assert_eq!(issue.line_range(), "7");
    issue.start_line = 0;
    issue.end_line = Some(120);
    assert_eq!(issue.line_range(), "0-120");
}

#[test]
fn category_names_and_labels() {
    assert_eq!(Category::from("docs"), Category::Documentation);
    assert_eq!(Category::from("Documentation"), Category::Documentation);
    assert_eq!(Category::from("best practice"), Category::BestPractice);
    assert_eq!(Category::from("BestPractice"), Category::BestPractice);
    assert_eq!(Category::from("best_practice"), Category::BestPractice);
    assert_eq!(Category::from("Style"), Category::Style);
    assert_eq!(Category::from("Custom Thing"), Category::Other("custom thing".to_string()));
    assert_ne!(Category::Other("a".to_string()), Category::Other("b".to_string()));
    assert_eq!(Category::BestPractice.label(), "Best Practice");
    assert_eq!(Category::Other("x y".to_string()).label(), "x y");
    assert_eq!(Category::Bug.label(), "Bug");
}

#[test]
fn severity_ranks_and_labels() {
    assert_eq!(Severity::Low.rank(), 0);
    assert_eq!(Severity::Critical.rank(), 3);
    assert!(Severity::High.at_least(Severity::Medium));
    assert!(Severity::High.at_least(Severity::High));
    assert!(!Severity::Low.at_least(Severity::Medium));
    assert_eq!(Severity::Medium.label(), "Medium");
    assert_eq!(Severity::Critical.label(), "Critical");
}

#[test]
fn analyzed_file_constructors() {
    let file = AnalyzedFile::new("a.rs".to_string(), "Rust".to_string(), 12);
    assert_eq!(file.path, "a.rs");
    assert_eq!(file.language, "Rust");
    assert_eq!(file.line_count, 12);
    assert!(file.issues.is_empty());
    assert!(file.analysis_successful);
    assert_eq!(file.error, None);

    let mut failed = AnalyzedFile::failed("b.rs".to_string(), "boom".to_string());
    assert_eq!(failed.path, "b.rs");
    assert_eq!(failed.language, "");
    assert_eq!(failed.line_count, 0);
    assert!(!failed.analysis_successful);
    assert_eq!(failed.error, Some("boom".to_string()));

    failed.issues.push(summary_issue(1, Severity::High, "Bug"));
    failed.issues.push(summary_issue(2, Severity::Low, "Bug"));
    failed.issues.push(summary_issue(3, Severity::High, "Bug"));
    assert_eq!(failed.issue_count_by_severity(Severity::High), 2);
    assert_eq!(failed.issue_count_by_severity(Severity::Low), 1);
    assert_eq!(failed.issue_count_by_severity(Severity::Critical), 0);
}
