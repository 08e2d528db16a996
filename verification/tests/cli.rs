use yoauditor::cli::{fail_on_to_severity, Args, FailOnLevel, LogLevel, OutputFormat, PathFacts};
use yoauditor::config::{
    default_concurrency, default_excludes, default_extensions, default_max_chunk_lines,
    default_max_file_size, default_max_files, default_model, default_ollama_url, default_output,
    default_retries, default_single_call, default_snippet_lines, default_temperature,
    default_timeout, default_true, Config, GeneralConfig, ModelConfig, ReportConfig, ScannerConfig,
};
use yoauditor::models::Severity;
use yoauditor::scanner::ScanConfig;

fn make_args() -> Args {
    Args {
        repo: Some("https://github.com/test/repo".to_string()),
        model: "test".to_string(),
        output: "test.md".to_string(),
        max_files: 100,
        ollama_url: "http://localhost:11434".to_string(),
        config: None,
        verbose: false,
        quiet: false,
        branch: None,
        extensions: None,
        exclude: None,
        concurrency: 4,
        skip_clone: false,
        local: None,
        format: OutputFormat::Markdown,
        temperature_permille: 100,
        max_chunk_lines: 4000,
        timeout: None,
        single_call: false,
        no_single_call: false,
        fail_on: None,
        min_severity: None,
        dry_run: false,
        init_config: false,
    }
}

fn no_local() -> PathFacts {
    PathFacts { exists: false, is_dir: false }
}

fn a_directory() -> PathFacts {
    PathFacts { exists: true, is_dir: true }
}

#[test]
fn test_default_extensions() {
    let args = make_args();
    let exts = args.effective_extensions();
    assert!(exts.contains(&"rs".to_string()));
    assert!(exts.contains(&"py".to_string()));
    assert!(exts.contains(&"js".to_string()));
}

#[test]
fn test_validation_invalid_url() {
    let mut args = make_args();
    args.repo = Some("invalid-url".to_string());
    assert!(args.validate(no_local()).is_err());
}

#[test]
fn test_validation_conflicting_options() {
    let mut args = make_args();
    args.verbose = true;
    args.quiet = true;
    assert!(args.validate(no_local()).is_err());
}

#[test]
fn test_log_level() {
    let mut args = make_args();
    assert_eq!(args.log_level(), LogLevel::Info);

    args.verbose = true;
    assert_eq!(args.log_level(), LogLevel::Debug);

    args.verbose = false;
    args.quiet = true;
    assert_eq!(args.log_level(), LogLevel::Error);
}

#[test]
fn test_default_config() {
    let config = Config::default();
    assert_eq!(config.model.name, "llama3.2:latest");
    assert_eq!(config.scanner.max_files, 100);
    assert!(config.scanner.extensions.contains(&"rs".to_string()));
}

#[test]
fn valid_arguments_pass() {
    assert_eq!(make_args().validate(no_local()), Ok(()));
    let mut ssh = make_args();
    ssh.repo = Some("git@github.com:a/b".to_string());
    assert_eq!(ssh.validate(no_local()), Ok(()));
    let mut local = make_args();
    local.repo = Some("local".to_string());
    local.local = Some("./project".to_string());
    assert_eq!(local.validate(a_directory()), Ok(()));
    let mut init = make_args();
    init.init_config = true;
    init.repo = None;
    init.concurrency = 0;
    assert_eq!(init.validate(no_local()), Ok(()));
}

#[test]
fn each_rule_has_its_message() {
    let mut args = make_args();
    args.repo = None;
    assert_eq!(
        args.validate(no_local()),
        Err("Repository URL must start with 'https://' or 'git@'".to_string())
    );

    let mut args = make_args();
    args.ollama_url = "localhost:11434".to_string();
    assert_eq!(
        args.validate(no_local()),
        Err("Ollama URL must start with 'http://' or 'https://'".to_string())
    );
    args.dry_run = true;
    assert_eq!(args.validate(no_local()), Ok(()));

    let mut args = make_args();
    args.temperature_permille = 1001;
    assert_eq!(
        args.validate(no_local()),
        Err("Temperature must be between 0.0 and 1.0".to_string())
    );
    args.temperature_permille = 1000;
    assert_eq!(args.validate(no_local()), Ok(()));
    args.temperature_permille = 0;
    assert_eq!(args.validate(no_local()), Ok(()));

    let mut args = make_args();
    args.concurrency = 0;
    assert_eq!(args.validate(no_local()), Err("Concurrency must be at least 1".to_string()));

    let mut args = make_args();
    args.max_files = 0;
    assert_eq!(args.validate(no_local()), Err("Max files must be at least 1".to_string()));

    let mut args = make_args();
    args.verbose = true;
    args.quiet = true;
    assert_eq!(
        args.validate(no_local()),
        Err("Cannot use both --verbose and --quiet".to_string())
    );

    let mut args = make_args();
    args.timeout = Some(0);
    assert_eq!(args.validate(no_local()), Err("Timeout must be at least 1 second".to_string()));
    args.timeout = Some(1);
    assert_eq!(args.validate(no_local()), Ok(()));

    let mut args = make_args();
    args.local = Some("/nowhere".to_string());
    assert_eq!(
        args.validate(no_local()),
        Err("Local directory does not exist: /nowhere".to_string())
    );
    assert_eq!(
        args.validate(PathFacts { exists: true, is_dir: false }),
        Err("Local path is not a directory: /nowhere".to_string())
    );
}

#[test]
fn the_first_broken_rule_is_reported() {
    let mut args = make_args();
    args.repo = Some("ftp://x".to_string());
    args.concurrency = 0;
    args.max_files = 0;
    assert_eq!(
        args.validate(no_local()),
        Err("Repository URL must start with 'https://' or 'git@'".to_string())
    );
    args.repo = Some("https://x".to_string());
    assert_eq!(args.validate(no_local()), Err("Concurrency must be at least 1".to_string()));
}

#[test]
fn repo_url_is_empty_when_not_set() {
    let mut args = make_args();
    assert_eq!(args.repo_url(), "https://github.com/test/repo");
    args.repo = None;
    assert_eq!(args.repo_url(), "");
}

#[test]
fn effective_lists_prefer_what_is_given() {
    let mut args = make_args();
    assert_eq!(args.effective_extensions().len(), 20);
    assert_eq!(args.effective_extensions(), ScanConfig::default().extensions);
    let excludes = args.effective_excludes();
    assert_eq!(excludes.len(), 16);
    assert_eq!(excludes[0], ".git");
    assert_eq!(excludes[11], "*.min.js");
    assert_eq!(excludes[15], "yarn.lock");
    args.extensions = Some(vec!["rs".to_string()]);
    args.exclude = Some(vec![]);
    assert_eq!(args.effective_extensions(), vec!["rs".to_string()]);
    assert!(args.effective_excludes().is_empty());
}

#[test]
fn levels_map_to_severities() {
    assert_eq!(fail_on_to_severity(FailOnLevel::Low), Severity::Low);
    assert_eq!(fail_on_to_severity(FailOnLevel::Medium), Severity::Medium);
    assert_eq!(fail_on_to_severity(FailOnLevel::High), Severity::High);
    assert_eq!(fail_on_to_severity(FailOnLevel::Critical), Severity::Critical);
    assert!(FailOnLevel::Low < FailOnLevel::Critical);
    assert_eq!(OutputFormat::default(), OutputFormat::Markdown);
}

#[test]
fn defaults_of_the_configuration() {
    assert_eq!(default_output(), "yoaudit_report.md");
    assert_eq!(default_concurrency(), 4);
    assert_eq!(default_model(), "llama3.2:latest");
    assert_eq!(default_ollama_url(), "http://localhost:11434");
    assert_eq!(default_temperature(), 100);
    assert_eq!(default_timeout(), 1800);
    assert_eq!(default_retries(), 3);
    assert!(default_single_call());
    assert_eq!(default_max_files(), 100);
    assert_eq!(default_max_chunk_lines(), 4000);
    assert_eq!(default_extensions().len(), 20);
    assert_eq!(default_extensions()[19], "svelte");
    assert_eq!(
        default_excludes(),
        vec![
            ".git", "target", "node_modules", "vendor", "dist", "build", "__pycache__", ".venv",
            "venv", ".idea", ".vscode"
        ]
    );
    assert_eq!(default_max_file_size(), 1024 * 1024);
    assert!(default_true());
    assert_eq!(default_snippet_lines(), 10);

    let general = GeneralConfig::default();
    assert_eq!(general.output, "yoaudit_report.md");
    assert!(!general.verbose);
    assert_eq!(general.concurrency, 4);
    let model = ModelConfig::default();
    assert_eq!(model.temperature_permille, 100);
    assert_eq!(model.max_tokens, None);
    assert_eq!(model.timeout_seconds, 1800);
    assert!(model.single_call_mode);
    let scanner = ScannerConfig::default();
    assert_eq!(scanner.max_file_size, 1048576);
    assert_eq!(scanner.excludes.len(), 11);
    let report = ReportConfig::default();
    assert!(report.include_snippets && report.include_summaries && report.group_by_file);
    assert_eq!(report.max_snippet_lines, 10);
}

#[test]
fn scan_config_from_scanner_settings() {
    let settings = ScannerConfig {
        max_files: 7,
        max_chunk_lines: 1,
        extensions: vec!["rs".to_string()],
        excludes: vec!["target".to_string()],
        max_file_size: 99,
    };
    let scan = ScanConfig::from(&settings);
    assert_eq!(scan.extensions, vec!["rs".to_string()]);
    assert_eq!(scan.excludes, vec!["target".to_string()]);
    assert_eq!(scan.max_file_size, 99);
    assert_eq!(scan.max_files, Some(7));
    let same = ScanConfig::from_settings(&settings);
    assert_eq!(same.max_files, Some(7));
}

#[test]
fn arguments_override_the_configuration() {
    let mut config = Config::default();
    config.general.verbose = true;
    let mut args = make_args();
    args.model = "codellama:34b".to_string();
    args.ollama_url = "http://other:1".to_string();
    args.temperature_permille = 700;
    args.max_files = 5;
    args.max_chunk_lines = 50;
    args.concurrency = 9;
    config.merge_with_args(&args);
    assert_eq!(config.model.name, "codellama:34b");
    assert_eq!(config.model.ollama_url, "http://other:1");
    assert_eq!(config.model.temperature_permille, 700);
    assert_eq!(config.model.timeout_seconds, 1800);
    assert!(config.model.single_call_mode);
    assert_eq!(config.scanner.max_files, 5);
    assert_eq!(config.scanner.max_chunk_lines, 50);
    assert_eq!(config.scanner.extensions.len(), 20);
    assert_eq!(config.scanner.excludes.len(), 11);
    assert_eq!(config.general.concurrency, 9);
    assert!(config.general.verbose);
    assert_eq!(config.general.output, "yoaudit_report.md");

    args.timeout = Some(30);
    args.no_single_call = true;
    args.extensions = Some(vec!["go".to_string()]);
    args.exclude = Some(vec!["vendor".to_string()]);
    args.verbose = true;
    config.general.verbose = false;
    config.merge_with_args(&args);
    assert_eq!(config.model.timeout_seconds, 30);
    assert!(!config.model.single_call_mode);
    assert_eq!(config.scanner.extensions, vec!["go".to_string()]);
    assert_eq!(config.scanner.excludes, vec!["vendor".to_string()]);
    assert!(config.general.verbose);

    args.no_single_call = false;
    args.single_call = true;
    config.merge_with_args(&args);
    assert!(config.model.single_call_mode);
}
