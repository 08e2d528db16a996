use yoauditor::agent::agent_loop::{
    mentions_completion, outcome_content, prune, signals_completion, truncate_outcome, Action,
    ChatMessage, CoverageState, Event, ResponseMessage, Role, ABANDON_THRESHOLD,
    AGENT_SYSTEM_PROMPT, CONTINUE_PROMPT, FINISH_DEFERRED, INITIAL_DIRECTIVE, READ_NUDGE,
    REPORT_REMINDER, STRONG_REDIRECT, TRUNCATION_CEILING,
};
use yoauditor::agent::model::{Phase, StopReason};
use yoauditor::agent::schema::{get_tool_definitions, request_frame, ParameterKind};
use yoauditor::agent::single_call::{strategy_of, Strategy};
use yoauditor::agent::tools::{
    classify, missing_report_member, request_of, Execution, FunctionCall, ToolCall, ToolExecutor,
    ToolKind, ToolRequest, ToolResult,
};
use yoauditor::agent::{AgentConfig, CodeAnalysisAgent};
use yoauditor::scanner::ScanConfig;

fn call(name: &str, arguments: &str) -> ToolCall {
    ToolCall {
        function: FunctionCall {
            name: name.to_string(),
            arguments: serde_json::from_str(arguments).unwrap(),
        },
    }
}

fn reply(content: &str, calls: Vec<ToolCall>) -> Event {
    Event::Reply(ResponseMessage { content: content.to_string(), tool_calls: Some(calls) })
}

fn text_reply(content: &str) -> Event {
    Event::Reply(ResponseMessage { content: content.to_string(), tool_calls: None })
}

fn ok(output: &str) -> Event {
    Event::Outcome(ToolResult::success(output.to_string()))
}

fn agent_with(max_iterations: usize, max_context_messages: usize) -> CodeAnalysisAgent {
    let config = AgentConfig { max_iterations, max_context_messages, ..AgentConfig::default() };
    CodeAnalysisAgent::new(config, "/repo".to_string(), ScanConfig::default())
}

fn read(path: &str) -> ToolCall {
    call("read_file", &format!("{{\"path\":\"{}\"}}", path))
}

fn report(path: &str) -> ToolCall {
    call(
        "report_issue",
        &format!(
            "{{\"file_path\":\"{}\",\"line_number\":3,\"severity\":\"high\",\"category\":\"bug\",\"title\":\"t\",\"description\":\"d\"}}",
            path
        ),
    )
}

fn read_request(path: &str) -> Action {
    Action::RunTool(ToolRequest::ReadFile { path: path.to_string() })
}

#[test]
fn test_agent_config_default() {
    let config = AgentConfig::default();
    assert_eq!(config.model_name, "llama3.2:latest");
    assert!(!config.single_call_mode);
}

#[test]
fn agent_config_default_values() {
    let config = AgentConfig::default();
    assert_eq!(config.ollama_url, "http://localhost:11434");
    assert_eq!(config.temperature_permille, 100);
    assert_eq!(config.max_iterations, 50);
    assert_eq!(config.timeout_seconds, 300);
    assert_eq!(config.max_context_messages, 10);
    assert_eq!(strategy_of(&config), Strategy::Iterative);
    let single = AgentConfig { single_call_mode: true, ..AgentConfig::default() };
    assert_eq!(strategy_of(&single), Strategy::SingleCall);
}

#[test]
fn test_tool_definitions() {
    let tools = get_tool_definitions();
    assert_eq!(tools.len(), 6);

    let names: Vec<_> = tools.iter().map(|t| t.function.name.as_str()).collect();
    assert!(names.contains(&"list_files"));
    assert!(names.contains(&"read_file"));
    assert!(names.contains(&"report_issue"));
    assert!(names.contains(&"finish_analysis"));
}

#[test]
fn tool_definitions_match_the_registry() {
    let tools = get_tool_definitions();
    let names: Vec<_> = tools.iter().map(|t| t.function.name.as_str()).collect();
    assert_eq!(
        names,
        vec![
            "list_files",
            "read_file",
            "search_code",
            "get_file_info",
            "report_issue",
            "finish_analysis"
        ]
    );
    for tool in &tools {
        assert_eq!(tool.tool_type, "function");
        assert_ne!(classify(&tool.function.name), ToolKind::Unknown);
        for required in &tool.function.parameters.required {
            assert!(tool.function.parameters.properties.iter().any(|p| &p.name == required));
        }
    }
    let report = &tools[4].function.parameters;
    assert_eq!(report.properties.len(), 7);
    assert_eq!(
        report.required,
        vec!["file_path", "line_number", "severity", "category", "title", "description"]
    );
    assert_eq!(report.properties[1].kind, ParameterKind::Integer);
    assert_eq!(report.properties[1].kind.as_str(), "integer");
    assert_eq!(report.properties[0].kind.as_str(), "string");
    assert_eq!(report.properties[2].choices, vec!["critical", "high", "medium", "low"]);
    assert_eq!(
        report.properties[3].choices,
        vec!["bug", "security", "performance", "style", "best_practice"]
    );
    assert!(tools[0].function.parameters.required.is_empty());
    assert_eq!(tools[2].function.parameters.properties[1].name, "max_results");
    assert!(tools[5].function.parameters.properties.is_empty());
}

#[test]
fn request_frame_offers_tools_only_to_the_iterative_strategy() {
    let config = AgentConfig::default();
    let iterative = request_frame(&config, Strategy::Iterative);
    assert_eq!(iterative.model, "llama3.2:latest");
    assert!(!iterative.stream);
    assert_eq!(iterative.temperature_permille, 100);
    assert_eq!(iterative.tools.len(), 6);
    let single = request_frame(&config, Strategy::SingleCall);
    assert!(single.tools.is_empty());
    assert!(!single.stream);
}

#[test]
fn roles_have_protocol_names() {
    assert_eq!(Role::System.as_str(), "system");
    assert_eq!(Role::User.as_str(), "user");
    assert_eq!(Role::Assistant.as_str(), "assistant");
    assert_eq!(Role::Tool.as_str(), "tool");
}

#[test]
fn prune_keeps_the_prefix_and_the_newest() {
    let mut items: Vec<u32> = (0..10).collect();
    prune(&mut items, 2, 3);
    assert_eq!(items, vec![0, 1, 7, 8, 9]);

    let mut short: Vec<u32> = (0..5).collect();
    prune(&mut short, 2, 3);
    assert_eq!(short, vec![0, 1, 2, 3, 4]);

    let mut none_kept: Vec<u32> = (0..6).collect();
    prune(&mut none_kept, 2, 0);
    assert_eq!(none_kept, vec![0, 1]);

    let mut tiny: Vec<u32> = vec![7];
    prune(&mut tiny, 2, 0);
    assert_eq!(tiny, vec![7]);

    let mut no_prefix: Vec<u32> = (0..4).collect();
    prune(&mut no_prefix, 0, 1);
    assert_eq!(no_prefix, vec![3]);
}

#[test]
fn pruning_never_removes_the_anchors() {
    for max_context in [0usize, 1, 2, 5] {
        let mut agent = agent_with(40, max_context);
        for round in 0..12 {
            let batch = (0..(round % 4 + 1)).map(|i| read(&format!("f{}_{}.rs", round, i))).collect();
            let mut action = agent.advance(reply("reading", batch));
            while let Action::RunTool(_) = action {
                action = agent.advance(ok("fn main() {}"));
            }
            assert_eq!(action, Action::CallBackend);
            let messages = agent.messages();
            assert!(messages.len() <= max_context + 2);
            assert_eq!(messages[0].role, Role::System);
            assert_eq!(messages[0].content, AGENT_SYSTEM_PROMPT);
            assert_eq!(messages[1].role, Role::User);
            assert_eq!(messages[1].content, INITIAL_DIRECTIVE);
        }
    }
}

#[test]
fn a_new_agent_waits_for_the_first_answer() {
    let agent = agent_with(3, 10);
    assert_eq!(agent.pending_action(), Action::CallBackend);
    assert_eq!(agent.phase(), Phase::AwaitingReply);
    assert_eq!(agent.iteration(), 0);
    assert_eq!(agent.silent_turns(), 0);
    assert_eq!(agent.messages().len(), 2);
    assert!(agent.tool_executor().get_issues().is_empty());
    assert_eq!(agent.tool_executor().repo_root(), "/repo");
    assert_eq!(agent.config().max_iterations, 3);

    let spent = agent_with(0, 10);
    assert_eq!(spent.pending_action(), Action::Stop(StopReason::BudgetExhausted));
    assert_eq!(spent.phase(), Phase::Done(StopReason::BudgetExhausted));
}

#[test]
fn finish_is_deferred_while_nothing_is_reported() {
    let mut agent = agent_with(10, 10);
    assert_eq!(agent.advance(reply("", vec![read("a.rs")])), read_request("a.rs"));
    assert_eq!(agent.advance(ok("fn a() {}")), Action::CallBackend);
    let action = agent.advance(reply("", vec![call("finish_analysis", "{}")]));
    assert_eq!(action, Action::CallBackend);
    assert_eq!(agent.phase(), Phase::AwaitingReply);
    let messages = agent.messages();
    let last = &messages[messages.len() - 1];
    assert_eq!(last.role, Role::Tool);
    assert_eq!(last.content, format!("{}a.rs", FINISH_DEFERRED));
}

#[test]
fn finish_deferral_lists_every_unreported_file() {
    let mut agent = agent_with(10, 10);
    assert_eq!(
        agent.advance(reply("", vec![read("a.rs"), read("b.rs"), read("a.rs")])),
        read_request("a.rs")
    );
    assert_eq!(agent.advance(ok("1")), read_request("b.rs"));
    assert_eq!(agent.advance(ok("2")), read_request("a.rs"));
    assert_eq!(agent.advance(ok("1")), Action::CallBackend);
    assert_eq!(agent.coverage().files_read(), &vec!["a.rs".to_string(), "b.rs".to_string()]);
    agent.advance(reply("", vec![call("finish_analysis", "{}")]));
    let messages = agent.messages();
    assert_eq!(messages[messages.len() - 1].content, format!("{}a.rs, b.rs", FINISH_DEFERRED));
}

#[test]
fn finish_is_honored_when_nothing_was_read() {
    let mut agent = agent_with(10, 10);
    let action = agent.advance(reply("", vec![call("finish_analysis", "{}")]));
    assert_eq!(action, Action::Stop(StopReason::Finished));
    assert_eq!(agent.phase(), Phase::Done(StopReason::Finished));
    assert_eq!(agent.pending_action(), Action::Stop(StopReason::Finished));
}

#[test]
fn an_honored_finish_ends_the_batch() {
    let mut agent = agent_with(10, 10);
    let action = agent.advance(reply("", vec![call("finish_analysis", "{}"), read("a.rs")]));
    assert_eq!(action, Action::Stop(StopReason::Finished));
    assert_eq!(agent.messages().len(), 3);
}

#[test]
fn a_failed_read_does_not_count_as_read() {
    let mut agent = agent_with(10, 10);
    assert_eq!(agent.advance(reply("", vec![read("gone.rs")])), read_request("gone.rs"));
    let failure = ToolResult::error("File not found: gone.rs".to_string());
    assert_eq!(agent.advance(Event::Outcome(failure)), Action::CallBackend);
    assert!(agent.coverage().files_read().is_empty());
    let messages = agent.messages();
    assert_eq!(messages[messages.len() - 1].content, "Error: File not found: gone.rs");
    let action = agent.advance(reply("", vec![call("finish_analysis", "{}")]));
    assert_eq!(action, Action::Stop(StopReason::Finished));
}

#[test]
fn a_turn_with_tool_calls_resets_the_silence_count() {
    let mut agent = agent_with(20, 10);
    assert_eq!(agent.advance(text_reply("thinking")), Action::CallBackend);
    assert_eq!(agent.advance(text_reply("thinking more")), Action::CallBackend);
    assert_eq!(agent.silent_turns(), 2);
    assert_eq!(agent.advance(reply("", vec![read("a.rs")])), read_request("a.rs"));
    assert_eq!(agent.silent_turns(), 0);
    assert_eq!(agent.advance(ok("x")), Action::CallBackend);
    assert_eq!(agent.silent_turns(), 0);
    assert_eq!(agent.advance(text_reply("hm")), Action::CallBackend);
    assert_eq!(agent.silent_turns(), 1);
}

#[test]
fn an_empty_batch_counts_as_a_turn_without_tool_calls() {
    let mut agent = agent_with(20, 10);
    assert_eq!(agent.advance(reply("nothing to call", vec![])), Action::CallBackend);
    assert_eq!(agent.silent_turns(), 1);
    let messages = agent.messages();
    assert_eq!(messages[messages.len() - 1].role, Role::User);
    assert_eq!(messages[messages.len() - 1].content, REPORT_REMINDER);
}

#[test]
fn corrective_prompts_follow_the_priority() {
    let mut agent = agent_with(20, 10);
    agent.advance(text_reply("one"));
    assert_eq!(agent.messages().last().unwrap().content, REPORT_REMINDER);
    agent.advance(reply("", vec![report("a.rs")]));
    assert_eq!(agent.silent_turns(), 0);
    agent.advance(text_reply("one"));
    assert_eq!(agent.messages().last().unwrap().content, CONTINUE_PROMPT);
    agent.advance(text_reply("two"));
    assert_eq!(agent.messages().last().unwrap().content, CONTINUE_PROMPT);
    agent.advance(text_reply("three"));
    assert_eq!(agent.messages().last().unwrap().content, STRONG_REDIRECT);
    assert_eq!(agent.messages().last().unwrap().role, Role::User);
}

#[test]
fn the_run_is_abandoned_after_five_silent_turns() {
    let mut agent = agent_with(50, 10);
    for turn in 1..ABANDON_THRESHOLD {
        assert_eq!(agent.advance(text_reply("I will look into it")), Action::CallBackend);
        assert_eq!(agent.silent_turns(), turn);
    }
    let action = agent.advance(text_reply("still looking"));
    assert_eq!(action, Action::Stop(StopReason::Abandoned));
    assert_eq!(agent.phase(), Phase::Done(StopReason::Abandoned));
    assert_eq!(agent.iteration(), 5);
    assert_eq!(agent.advance(text_reply("late")), Action::Stop(StopReason::Abandoned));
    assert_eq!(agent.iteration(), 5);
}

#[test]
fn the_run_stops_when_the_budget_is_used_up() {
    let mut agent = agent_with(3, 10);
    assert_eq!(agent.advance(reply("", vec![read("a.rs")])), read_request("a.rs"));
    assert_eq!(agent.advance(ok("x")), Action::CallBackend);
    assert_eq!(agent.advance(reply("", vec![read("b.rs")])), read_request("b.rs"));
    assert_eq!(agent.advance(ok("y")), Action::CallBackend);
    assert_eq!(agent.advance(reply("", vec![read("c.rs")])), read_request("c.rs"));
    assert_eq!(agent.advance(ok("z")), Action::Stop(StopReason::BudgetExhausted));
    assert_eq!(agent.iteration(), 3);
    assert_eq!(agent.phase(), Phase::Done(StopReason::BudgetExhausted));
    assert!(agent.into_issues().is_empty());
}

#[test]
fn completion_in_text_ends_the_run_only_with_issues() {
    let mut agent = agent_with(20, 10);
    assert_eq!(agent.advance(text_reply("Analysis COMPLETE.")), Action::CallBackend);
    assert_eq!(agent.advance(reply("", vec![report("a.rs")])), Action::CallBackend);
    let action = agent.advance(text_reply("I am Done"));
    assert_eq!(action, Action::Stop(StopReason::Completed));
    let issues = agent.into_issues();
    assert_eq!(issues.len(), 1);
    assert_eq!(issues[0].file_path, "a.rs");
    assert_eq!(issues[0].line_number, 3);
    assert_eq!(issues[0].severity, "high");
    assert_eq!(issues[0].suggestion, "");
}

#[test]
fn completion_words() {
    assert!(mentions_completion("analysis complete"));
    assert!(mentions_completion("i have finished"));
    assert!(mentions_completion("abandoned"));
    assert!(!mentions_completion("Complete"));
    assert!(!mentions_completion("still working"));
    assert!(signals_completion("All DONE here"));
    assert!(signals_completion("FINISHED"));
    assert!(!signals_completion("working"));
}

#[test]
fn outcomes_over_the_ceiling_are_truncated() {
    let long: String = "x".repeat(TRUNCATION_CEILING + 1);
    let kept = truncate_outcome(long);
    assert_eq!(
        kept,
        format!("{}\n...truncated, {} total", "x".repeat(TRUNCATION_CEILING), TRUNCATION_CEILING + 1)
    );

    let exact: String = "y".repeat(TRUNCATION_CEILING);
    assert_eq!(truncate_outcome(exact.clone()), exact);
    assert_eq!(truncate_outcome("short".to_string()), "short");
    assert_eq!(truncate_outcome(String::new()), "");

    let wide: String = "é".repeat(TRUNCATION_CEILING + 5);
    let kept = truncate_outcome(wide);
    assert!(kept.starts_with(&"é".repeat(TRUNCATION_CEILING)));
    assert!(kept.ends_with("\n...truncated, 8005 total"));
}

#[test]
fn outcome_content_marks_failures() {
    assert_eq!(outcome_content(ToolResult::success("out".to_string())), "out");
    assert_eq!(outcome_content(ToolResult::error("bad".to_string())), "Error: bad");
    let odd = ToolResult { success: false, output: "ignored".to_string(), error: None };
    assert_eq!(outcome_content(odd), "Error: ");
}

#[test]
fn a_long_outcome_enters_the_conversation_truncated() {
    let mut agent = agent_with(10, 10);
    agent.advance(reply("", vec![call("list_files", "{}")]));
    agent.advance(ok(&"z".repeat(9000)));
    let messages = agent.messages();
    let last = &messages[messages.len() - 1];
    assert_eq!(last.content.chars().count(), 8000 + "\n...truncated, 9000 total".len());
    assert!(last.content.ends_with("\n...truncated, 9000 total"));
}

#[test]
fn an_unknown_tool_fails_and_the_batch_goes_on() {
    let mut agent = agent_with(10, 10);
    let action = agent.advance(reply("", vec![call("teleport", "{}"), read("a.rs")]));
    assert_eq!(action, read_request("a.rs"));
    let messages = agent.messages();
    assert_eq!(messages[messages.len() - 1].role, Role::Tool);
    assert_eq!(messages[messages.len() - 1].content, "Error: Unknown tool: teleport");
    assert_eq!(agent.advance(ok("fn a() {}")), Action::CallBackend);
    assert_eq!(agent.coverage().files_read(), &vec!["a.rs".to_string()]);
}

#[test]
fn the_last_read_of_a_batch_without_report_gets_the_nudge() {
    let mut agent = agent_with(10, 10);
    agent.advance(reply("", vec![read("a.rs"), read("b.rs"), call("list_files", "{}")]));
    agent.advance(ok("content a"));
    agent.advance(ok("content b"));
    assert_eq!(agent.advance(ok("a.rs\nb.rs")), Action::CallBackend);
    let messages = agent.messages();
    let n = messages.len();
    assert_eq!(messages[n - 3].content, "content a");
    assert_eq!(messages[n - 2].content, format!("content b{}", READ_NUDGE));
    assert_eq!(messages[n - 1].content, "a.rs\nb.rs");
}

#[test]
fn a_batch_with_a_report_gets_no_nudge() {
    let mut agent = agent_with(10, 10);
    agent.advance(reply("", vec![read("a.rs"), report("a.rs")]));
    assert_eq!(agent.advance(ok("content a")), Action::CallBackend);
    let messages = agent.messages();
    let n = messages.len();
    assert_eq!(messages[n - 2].content, "content a");
    assert_eq!(messages[n - 1].content, "ok");
    assert_eq!(agent.coverage().files_reported(), &vec!["a.rs".to_string()]);
}

#[test]
fn finish_is_honored_after_a_report_on_another_file() {
    let mut agent = agent_with(10, 10);
    assert_eq!(
        agent.advance(reply("", vec![read("a.rs"), read("b.rs")])),
        read_request("a.rs")
    );
    assert_eq!(agent.advance(ok("fn a() {}")), read_request("b.rs"));
    assert_eq!(agent.advance(ok("fn b() {}")), Action::CallBackend);
    assert_eq!(agent.advance(reply("", vec![report("a.rs")])), Action::CallBackend);
    let action = agent.advance(reply("", vec![call("finish_analysis", "{}")]));
    assert_eq!(action, Action::Stop(StopReason::Finished));
    assert_eq!(agent.coverage().files_read(), &vec!["a.rs".to_string(), "b.rs".to_string()]);
    assert_eq!(agent.coverage().files_reported(), &vec!["a.rs".to_string()]);
    assert_eq!(agent.iteration(), 3);
    let issues = agent.into_issues();
    assert_eq!(issues.len(), 1);
    assert_eq!(issues[0].file_path, "a.rs");
}

#[test]
fn an_unexpected_event_changes_nothing() {
    let mut agent = agent_with(10, 10);
    assert_eq!(agent.advance(ok("nobody asked")), Action::CallBackend);
    assert_eq!(agent.messages().len(), 2);
    assert_eq!(agent.iteration(), 0);
    assert_eq!(agent.advance(reply("", vec![read("a.rs")])), read_request("a.rs"));
    assert_eq!(agent.phase(), Phase::AwaitingOutcome);
    assert_eq!(agent.advance(text_reply("not now")), read_request("a.rs"));
    assert_eq!(agent.pending_action(), read_request("a.rs"));
    assert_eq!(agent.iteration(), 1);
    assert_eq!(agent.messages().len(), 3);
}

#[test]
fn the_assistant_message_carries_the_calls() {
    let mut agent = agent_with(10, 10);
    agent.advance(reply("let me look", vec![read("a.rs")]));
    let messages = agent.messages();
    let message: &ChatMessage = &messages[2];
    assert_eq!(message.role, Role::Assistant);
    assert_eq!(message.content, "let me look");
    assert_eq!(message.tool_calls.as_ref().map(|c| c.len()), Some(1));
    assert!(messages[0].tool_calls.is_none());
    assert!(messages[1].tool_calls.is_none());
}

#[test]
fn executor_decodes_calls() {
    let mut executor = ToolExecutor::new("/repo".to_string(), ScanConfig::default());
    assert_eq!(
        executor.execute(&call("list_files", "{}")),
        Execution::Pending(ToolRequest::ListFiles { directory: ".".to_string() })
    );
    assert_eq!(
        executor.execute(&call("list_files", "{\"directory\":\"src\"}")),
        Execution::Pending(ToolRequest::ListFiles { directory: "src".to_string() })
    );
    assert_eq!(
        executor.execute(&call("read_file", "{\"path\":\"a.rs\"}")),
        Execution::Pending(ToolRequest::ReadFile { path: "a.rs".to_string() })
    );
    assert_eq!(
        executor.execute(&call("read_file", "{\"path\":7}")),
        Execution::Completed(ToolResult::error("Missing required parameter: path".to_string()))
    );
    assert_eq!(
        executor.execute(&call("search_code", "{\"pattern\":\"unsafe\"}")),
        Execution::Pending(ToolRequest::SearchCode { pattern: "unsafe".to_string(), max_results: 10 })
    );
    assert_eq!(
        executor.execute(&call("search_code", "{\"pattern\":\"unsafe\",\"max_results\":3}")),
        Execution::Pending(ToolRequest::SearchCode { pattern: "unsafe".to_string(), max_results: 3 })
    );
    assert_eq!(
        executor.execute(&call("search_code", "{\"pattern\":\"x\",\"max_results\":-3}")),
        Execution::Pending(ToolRequest::SearchCode { pattern: "x".to_string(), max_results: 10 })
    );
    assert_eq!(
        executor.execute(&call("search_code", "{}")),
        Execution::Completed(ToolResult::error("Missing required parameter: pattern".to_string()))
    );
    assert_eq!(
        executor.execute(&call("get_file_info", "{\"path\":\"b.py\"}")),
        Execution::Pending(ToolRequest::GetFileInfo { path: "b.py".to_string() })
    );
    assert_eq!(
        executor.execute(&call("get_file_info", "[]")),
        Execution::Completed(ToolResult::error("Missing required parameter: path".to_string()))
    );
    assert_eq!(
        executor.execute(&call("finish_analysis", "{}")),
        Execution::Completed(ToolResult::success("done".to_string()))
    );
    assert_eq!(
        executor.execute(&call("format_disk", "{}")),
        Execution::Completed(ToolResult::error("Unknown tool: format_disk".to_string()))
    );
    assert!(executor.get_issues().is_empty());
    assert_eq!(request_of(&call("report_issue", "{}")), None);
    assert_eq!(
        request_of(&call("read_file", "{\"path\":\"z\"}")),
        Some(ToolRequest::ReadFile { path: "z".to_string() })
    );
}

#[test]
fn report_issue_records_an_issue_with_its_members() {
    let mut executor = ToolExecutor::new("/repo".to_string(), ScanConfig::default());
    let result = executor.execute(&call(
        "report_issue",
        "{\"file_path\":\"a.rs\",\"line_number\":12,\"severity\":\"low\",\"category\":\"style\",\"title\":\"T\",\"description\":\"D\",\"suggestion\":\"S\"}",
    ));
    assert_eq!(result, Execution::Completed(ToolResult::success("ok".to_string())));
    let result = executor.execute(&call(
        "report_issue",
        "{\"file_path\":\"b.rs\",\"line_number\":0,\"severity\":\"high\",\"category\":\"bug\",\"title\":\"U\",\"description\":\"\",\"extra\":[1,true]}",
    ));
    assert_eq!(result, Execution::Completed(ToolResult::success("ok".to_string())));
    assert_eq!(executor.issue_count(), 2);
    let issues = executor.get_issues();
    assert_eq!(issues[0].file_path, "a.rs");
    assert_eq!(issues[0].line_number, 12);
    assert_eq!(issues[0].severity, "low");
    assert_eq!(issues[0].category, "style");
    assert_eq!(issues[0].title, "T");
    assert_eq!(issues[0].description, "D");
    assert_eq!(issues[0].suggestion, "S");
    assert_eq!(issues[1].file_path, "b.rs");
    assert_eq!(issues[1].line_number, 0);
    assert_eq!(issues[1].description, "");
    assert_eq!(issues[1].suggestion, "");
}

fn missing(name: &str) -> Execution {
    Execution::Completed(ToolResult::error(format!("Missing required parameter: {}", name)))
}

#[test]
fn report_issue_without_a_required_member_fails_and_records_nothing() {
    let mut executor = ToolExecutor::new("/repo".to_string(), ScanConfig::default());
    assert_eq!(executor.execute(&call("report_issue", "{}")), missing("file_path"));
    assert_eq!(
        executor.execute(&call(
            "report_issue",
            "{\"line_number\":3,\"severity\":\"high\",\"category\":\"bug\",\"title\":\"t\",\"description\":\"d\"}"
        )),
        missing("file_path")
    );
    assert_eq!(
        executor.execute(&call(
            "report_issue",
            "{\"file_path\":17,\"line_number\":3,\"severity\":\"high\",\"category\":\"bug\",\"title\":\"t\",\"description\":\"d\"}"
        )),
        missing("file_path")
    );
    assert_eq!(
        executor.execute(&call(
            "report_issue",
            "{\"file_path\":\"a.rs\",\"severity\":\"high\",\"category\":\"bug\",\"title\":\"t\",\"description\":\"d\"}"
        )),
        missing("line_number")
    );
    assert_eq!(
        executor.execute(&call(
            "report_issue",
            "{\"file_path\":\"a.rs\",\"line_number\":-4,\"severity\":\"high\",\"category\":\"bug\",\"title\":\"t\",\"description\":\"d\"}"
        )),
        missing("line_number")
    );
    assert_eq!(
        executor.execute(&call(
            "report_issue",
            "{\"file_path\":\"a.rs\",\"line_number\":3,\"category\":\"bug\",\"title\":\"t\",\"description\":\"d\"}"
        )),
        missing("severity")
    );
    assert_eq!(
        executor.execute(&call(
            "report_issue",
            "{\"file_path\":\"a.rs\",\"line_number\":3,\"severity\":\"high\",\"title\":\"t\",\"description\":\"d\"}"
        )),
        missing("category")
    );
    assert_eq!(
        executor.execute(&call(
            "report_issue",
            "{\"file_path\":\"a.rs\",\"line_number\":3,\"severity\":\"high\",\"category\":\"bug\",\"description\":\"d\"}"
        )),
        missing("title")
    );
    assert_eq!(
        executor.execute(&call(
            "report_issue",
            "{\"file_path\":\"a.rs\",\"line_number\":3,\"severity\":\"high\",\"category\":\"bug\",\"title\":\"t\"}"
        )),
        missing("description")
    );
    assert_eq!(executor.execute(&call("report_issue", "[]")), missing("file_path"));
    assert!(executor.get_issues().is_empty());
    assert_eq!(executor.issue_count(), 0);
    let arguments = serde_json::from_str(
        "{\"line_number\":3,\"severity\":\"high\",\"category\":\"bug\",\"title\":\"t\",\"description\":\"d\"}",
    )
    .unwrap();
    let result = executor.report_issue(&arguments);
    assert!(!result.success);
    assert_eq!(result.error, Some("Missing required parameter: file_path".to_string()));
    assert!(executor.get_issues().is_empty());
    assert_eq!(missing_report_member(&arguments), Some("file_path"));
    let whole = serde_json::from_str(
        "{\"file_path\":\"a.rs\",\"line_number\":3,\"severity\":\"high\",\"category\":\"bug\",\"title\":\"t\",\"description\":\"d\"}",
    )
    .unwrap();
    assert_eq!(missing_report_member(&whole), None);
}

#[test]
fn a_refused_report_does_not_open_the_finish_guard() {
    let mut agent = agent_with(10, 10);
    assert_eq!(agent.advance(reply("", vec![read("a.rs")])), read_request("a.rs"));
    assert_eq!(agent.advance(ok("fn a() {}")), Action::CallBackend);
    let action = agent.advance(reply(
        "",
        vec![call("report_issue", "{\"title\":\"no path\"}"), call("finish_analysis", "{}")],
    ));
    assert_eq!(action, Action::CallBackend);
    assert_eq!(agent.phase(), Phase::AwaitingReply);
    assert!(agent.coverage().files_reported().is_empty());
    assert!(agent.tool_executor().get_issues().is_empty());
    let messages = agent.messages();
    let n = messages.len();
    assert_eq!(messages[n - 2].content, "Error: Missing required parameter: file_path");
    assert_eq!(messages[n - 1].content, format!("{}a.rs", FINISH_DEFERRED));
    let action = agent.advance(reply("", vec![report("a.rs"), call("finish_analysis", "{}")]));
    assert_eq!(action, Action::Stop(StopReason::Finished));
    assert_eq!(agent.into_issues().len(), 1);
}

#[test]
fn the_conversation_keeps_the_arguments_of_a_call_whole() {
    let mut agent = agent_with(10, 10);
    agent.advance(reply(
        "",
        vec![call("read_file", "{\"path\":\"a.rs\",\"follow\":true,\"range\":[1,2]}")],
    ));
    let messages = agent.messages();
    let stored = &messages[2].tool_calls.as_ref().unwrap()[0];
    assert_eq!(stored.function.name, "read_file");
    let expected: serde_json::Value =
        serde_json::from_str("{\"path\":\"a.rs\",\"follow\":true,\"range\":[1,2]}").unwrap();
    assert_eq!(stored.function.arguments, expected);
}

#[test]
fn tool_result_constructors() {
    let good = ToolResult::success("out".to_string());
    assert!(good.success);
    assert_eq!(good.output, "out");
    assert_eq!(good.error, None);
    let bad = ToolResult::error("why".to_string());
    assert!(!bad.success);
    assert_eq!(bad.output, "");
    assert_eq!(bad.error, Some("why".to_string()));
}

#[test]
fn coverage_notes_each_file_once() {
    let mut coverage = CoverageState::new();
    coverage.note_read("a.rs");
    coverage.note_read("b.rs");
    coverage.note_read("a.rs");
    coverage.note_reported("b.rs");
    coverage.note_reported("b.rs");
    assert_eq!(coverage.files_read(), &vec!["a.rs".to_string(), "b.rs".to_string()]);
    assert_eq!(coverage.files_reported(), &vec!["b.rs".to_string()]);
    assert_eq!(coverage.unreported_files(), vec!["a.rs".to_string()]);
}

#[test]
fn classify_knows_the_registry() {
    assert_eq!(classify("list_files"), ToolKind::ListFiles);
    assert_eq!(classify("read_file"), ToolKind::ReadFile);
    assert_eq!(classify("search_code"), ToolKind::SearchCode);
    assert_eq!(classify("get_file_info"), ToolKind::GetFileInfo);
    assert_eq!(classify("report_issue"), ToolKind::ReportIssue);
    assert_eq!(classify("finish_analysis"), ToolKind::Finish);
    assert_eq!(classify("Read_File"), ToolKind::Unknown);
    assert_eq!(classify(""), ToolKind::Unknown);
}
