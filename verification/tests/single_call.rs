use yoauditor::agent::agent_loop::Role;
use yoauditor::agent::single_call::{
    build_prompt, json_to_issue, parse_issues_from_response, single_call_messages, PROMPT_HEAD,
    PROMPT_TAIL, SINGLE_CALL_SYSTEM_PROMPT,
};

#[test]
fn a_complete_line_yields_one_issue_with_its_fields() {
    let line = r#"{"file_path":"a.rs","line_number":3,"severity":"high","category":"bug","title":"t","description":"d","suggestion":"s"}"#;
    let issues = parse_issues_from_response(line);
    assert_eq!(issues.len(), 1);
    assert_eq!(issues[0].file_path, "a.rs");
    assert_eq!(issues[0].line_number, 3);
    assert_eq!(issues[0].severity, "high");
    assert_eq!(issues[0].category, "bug");
    assert_eq!(issues[0].title, "t");
    assert_eq!(issues[0].description, "d");
    assert_eq!(issues[0].suggestion, "s");
}

#[test]
fn a_line_without_file_path_yields_nothing() {
    let line = r#"{"line_number":3,"severity":"high","category":"bug","title":"t","description":"d","suggestion":"s"}"#;
    assert!(parse_issues_from_response(line).is_empty());
    assert!(parse_issues_from_response(r#"{"file_path":17}"#).is_empty());
}

#[test]
fn lines_that_are_not_json_are_skipped() {
    let response = "Here are the issues:\n{not json}\n  {\"file_path\":\"b.rs\"}  \r\n\n```\n{\"file_path\":\"c.rs\",\"line_number\":-1,\"title\":5}\n[1,2]\n{\"file_path\":\"d.rs\"} trailing";
    let issues = parse_issues_from_response(response);
    assert_eq!(issues.len(), 2);
    assert_eq!(issues[0].file_path, "b.rs");
    assert_eq!(issues[0].line_number, 0);
    assert_eq!(issues[0].severity, "medium");
    assert_eq!(issues[0].category, "general");
    assert_eq!(issues[0].title, "Issue");
    assert_eq!(issues[0].description, "");
    assert_eq!(issues[0].suggestion, "");
    assert_eq!(issues[1].file_path, "c.rs");
    assert_eq!(issues[1].line_number, 0);
    assert_eq!(issues[1].title, "Issue");
    assert!(parse_issues_from_response("").is_empty());
}

#[test]
fn json_to_issue_needs_a_file_path() {
    let with: serde_json::Value = serde_json::from_str(r#"{"file_path":"x.rs","line_number":9}"#).unwrap();
    let issue = json_to_issue(&with).unwrap();
    assert_eq!(issue.file_path, "x.rs");
    assert_eq!(issue.line_number, 9);
    let without: serde_json::Value = serde_json::from_str(r#"{"title":"x"}"#).unwrap();
    assert_eq!(json_to_issue(&without), None);
    let list: serde_json::Value = serde_json::from_str(r#"["file_path"]"#).unwrap();
    assert_eq!(json_to_issue(&list), None);
}

#[test]
fn the_prompt_embeds_every_file() {
    let files = vec![
        ("src/a.rs".to_string(), "fn a() {}".to_string()),
        ("b.py".to_string(), "print(1)".to_string()),
    ];
    let prompt = build_prompt(&files);
    assert_eq!(
        prompt,
        format!(
            "{}### FILE: src/a.rs\n```\nfn a() {{}}\n```\n\n### FILE: b.py\n```\nprint(1)\n```\n\n{}",
            PROMPT_HEAD, PROMPT_TAIL
        )
    );
    assert!(prompt.starts_with("Analyze the following code files and report any issues.\n\n"));
    assert!(prompt.ends_with("Now analyze and output issues as JSON (one per line):"));
    assert_eq!(build_prompt(&Vec::new()), format!("{}{}", PROMPT_HEAD, PROMPT_TAIL));
}

#[test]
fn a_single_call_has_two_messages_and_no_call_for_no_files() {
    assert!(single_call_messages(&Vec::new()).is_none());
    let files = vec![("a.rs".to_string(), "x".to_string())];
    let messages = single_call_messages(&files).unwrap();
    assert_eq!(messages.len(), 2);
    assert_eq!(messages[0].role, Role::System);
    assert_eq!(messages[0].content, SINGLE_CALL_SYSTEM_PROMPT);
    assert!(messages[0].tool_calls.is_none());
    assert_eq!(messages[1].role, Role::User);
    assert_eq!(messages[1].content, build_prompt(&files));
    assert!(messages[1].tool_calls.is_none());
}
