use yoauditor::repo::cloner::{parse_github_url, CloneOptions};

#[test]
fn test_parse_github_url_https() {
    let result = parse_github_url("https://github.com/rust-lang/rust");
    assert_eq!(result, Some(("rust-lang".to_string(), "rust".to_string())));
}

#[test]
fn test_parse_github_url_https_with_git() {
    let result = parse_github_url("https://github.com/rust-lang/rust.git");
    assert_eq!(result, Some(("rust-lang".to_string(), "rust".to_string())));
}

#[test]
fn test_parse_github_url_ssh() {
    let result = parse_github_url("git@github.com:rust-lang/rust");
    assert_eq!(result, Some(("rust-lang".to_string(), "rust".to_string())));
}

#[test]
fn test_parse_github_url_invalid() {
    let result = parse_github_url("https://gitlab.com/user/repo");
    assert_eq!(result, None);
}

#[test]
fn test_clone_options_default() {
    let opts = CloneOptions::default();
    assert!(opts.branch.is_none());
    assert_eq!(opts.depth, Some(1));
    assert!(opts.show_progress);
}

#[test]
fn parse_github_url_edge_cases() {
    assert_eq!(parse_github_url("https://github.com/owner"), None);
    assert_eq!(parse_github_url(""), None);
    assert_eq!(
        parse_github_url("https://github.com/owner/name/tree/main"),
        Some(("owner".to_string(), "name".to_string()))
    );
    assert_eq!(
        parse_github_url("git@github.com:owner/name.git.git"),
        Some(("owner".to_string(), "name".to_string()))
    );
    assert_eq!(
        parse_github_url("https://github.com//"),
        Some((String::new(), String::new()))
    );
    assert_eq!(
        parse_github_url("https://github.com/a/.git"),
        Some(("a".to_string(), String::new()))
    );
    assert!(CloneOptions::default().target_dir.is_none());
}
