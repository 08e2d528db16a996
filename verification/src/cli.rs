//! The command line as the library sees it: plain values and the rules
//! that they have to meet.

use crate::models::Severity;
use crate::scanner::{default_scan_extensions, scan_extensions};
use crate::text::{has_prefix, push_text, str_starts_with, views};
use vstd::prelude::*;

verus! {

/// Output format for the report.
#[derive(Debug, Clone, Copy, PartialEq, Eq, Structural)]
pub enum OutputFormat {
    /// Markdown format (default)
    Markdown,
    /// JSON format
    Json,
}

impl Default for OutputFormat {
    fn default() -> (format: Self)
        ensures
            format == OutputFormat::Markdown,
    {
        OutputFormat::Markdown
    }
}

/// Severity level for the failure threshold and the report filter.
#[derive(Debug, Clone, Copy, PartialEq, Eq, PartialOrd, Ord, Structural)]
pub enum FailOnLevel {
    Low,
    Medium,
    High,
    Critical,
}

/// The severity that a threshold level stands for.
pub open spec fn severity_of_level(level: FailOnLevel) -> Severity {
    match level {
        FailOnLevel::Low => Severity::Low,
        FailOnLevel::Medium => Severity::Medium,
        FailOnLevel::High => Severity::High,
        FailOnLevel::Critical => Severity::Critical,
    }
}

/// Convert a threshold level to a severity for comparison.
pub fn fail_on_to_severity(level: FailOnLevel) -> (severity: Severity)
    ensures
        severity == severity_of_level(level),
{
    match level {
        FailOnLevel::Low => Severity::Low,
        FailOnLevel::Medium => Severity::Medium,
        FailOnLevel::High => Severity::High,
        FailOnLevel::Critical => Severity::Critical,
    }
}

/// How much is logged.
#[derive(Debug, Clone, Copy, PartialEq, Eq, Structural)]
pub enum LogLevel {
    Error,
    Info,
    Debug,
}

/// What is known of the local directory that is named on the command line.
#[derive(Debug, Clone, Copy, PartialEq, Eq, Structural)]
pub struct PathFacts {
    /// Whether the path exists.
    pub exists: bool,
    /// Whether it is a directory.
    pub is_dir: bool,
}

/// The arguments of a run.
#[derive(Debug)]
pub struct Args {
    /// GitHub repository URL to analyze.
    pub repo: Option<String>,
    /// Model to use for analysis.
    pub model: String,
    /// Output file path for the report.
    pub output: String,
    /// Maximum number of files to analyze.
    pub max_files: usize,
    /// Backend API endpoint URL.
    pub ollama_url: String,
    /// Path to configuration file.
    pub config: Option<String>,
    /// Enable verbose logging output.
    pub verbose: bool,
    /// Run in quiet mode.
    pub quiet: bool,
    /// Specific branch to analyze.
    pub branch: Option<String>,
    /// File extensions to include.
    pub extensions: Option<Vec<String>>,
    /// Patterns to exclude from analysis.
    pub exclude: Option<Vec<String>>,
    /// Number of concurrent file analyses.
    pub concurrency: usize,
    /// Skip cloning if directory already exists.
    pub skip_clone: bool,
    /// Local directory to analyze instead of cloning.
    pub local: Option<String>,
    /// Output format.
    pub format: OutputFormat,
    /// Sampling temperature in thousandths; valid from 0 to 1000.
    pub temperature_permille: u32,
    /// Maximum context window size for chunking large files.
    pub max_chunk_lines: usize,
    /// Request timeout in seconds.
    pub timeout: Option<u64>,
    /// Use single-call mode.
    pub single_call: bool,
    /// Use tool-calling mode.
    pub no_single_call: bool,
    /// Fail if issues at or above this severity are found.
    pub fail_on: Option<FailOnLevel>,
    /// Minimum severity to include in the report.
    pub min_severity: Option<FailOnLevel>,
    /// Scan files without calling the model.
    pub dry_run: bool,
    /// Generate a default configuration file.
    pub init_config: bool,
}

/// The text of an optional string, empty where there is none.
pub open spec fn text_or_empty(text: Option<String>) -> Seq<char> {
    match text {
        Some(s) => s@,
        None => Seq::<char>::empty(),
    }
}

/// The first rule that the arguments break, as the message for the user;
/// `None` where they break none. With `init_config` nothing is checked.
pub open spec fn validation_error(args: Args, local: PathFacts) -> Option<Seq<char>> {
    let repo = text_or_empty(args.repo);
    if args.init_config {
        None
    } else if !has_prefix(repo, "https://"@) && !has_prefix(repo, "git@"@) && args.local is None {
        Some("Repository URL must start with 'https://' or 'git@'"@)
    } else if !args.dry_run && !has_prefix(args.ollama_url@, "http://"@) && !has_prefix(
        args.ollama_url@,
        "https://"@,
    ) {
        Some("Ollama URL must start with 'http://' or 'https://'"@)
    } else if args.temperature_permille > 1000 {
        Some("Temperature must be between 0.0 and 1.0"@)
    } else if args.concurrency == 0 {
        Some("Concurrency must be at least 1"@)
    } else if args.max_files == 0 {
        Some("Max files must be at least 1"@)
    } else if args.verbose && args.quiet {
        Some("Cannot use both --verbose and --quiet"@)
    } else if args.timeout == Some(0u64) {
        Some("Timeout must be at least 1 second"@)
    } else if args.local is Some && !local.exists {
        Some("Local directory does not exist: "@ + text_or_empty(args.local))
    } else if args.local is Some && !local.is_dir {
        Some("Local path is not a directory: "@ + text_or_empty(args.local))
    } else {
        None
    }
}

/// The exclusion patterns that apply when none are given.
pub open spec fn default_exclude_patterns() -> Seq<Seq<char>> {
    Seq::<Seq<char>>::empty().push(".git"@).push("target"@).push("node_modules"@).push(
        "vendor"@,
    ).push("dist"@).push("build"@).push("__pycache__"@).push(".venv"@).push("venv"@).push(
        ".idea"@,
    ).push(".vscode"@).push("*.min.js"@).push("*.min.css"@).push("package-lock.json"@).push(
        "Cargo.lock"@,
    ).push("yarn.lock"@)
}

/// A copy of a list of strings.
pub fn clone_texts(list: &Vec<String>) -> (copy: Vec<String>)
    ensures
        copy@ == list@,
{
    list.clone()
}

impl Args {
    /// Get the repo URL, empty if not set.
    pub fn repo_url(&self) -> (url: &str)
        ensures
            url@ == text_or_empty(self.repo),
    {
        match &self.repo {
            Some(url) => url.as_str(),
            None => {
                proof {
                    reveal_strlit("");
                    assert(""@ =~= Seq::<char>::empty());
                }
                ""
            },
        }
    }

    /// Validate the parsed arguments. `local` says what the file system
    /// holds at the local directory, where one is named.
    pub fn validate(&self, local: PathFacts) -> (checked: Result<(), String>)
        ensures
            match checked {
                Ok(_) => validation_error(*self, local) is None,
                Err(message) => validation_error(*self, local) == Some(message@),
            },
    {
        if self.init_config {
            return Ok(());
        }
        let repo = self.repo_url();
        if !str_starts_with(repo, "https://") && !str_starts_with(repo, "git@") {
            if self.local.is_none() {
                return Err(
                    String::from_str("Repository URL must start with 'https://' or 'git@'"),
                );
            }
        }
        if !self.dry_run {
            if !str_starts_with(self.ollama_url.as_str(), "http://") && !str_starts_with(
                self.ollama_url.as_str(),
                "https://",
            ) {
                return Err(
                    String::from_str("Ollama URL must start with 'http://' or 'https://'"),
                );
            }
        }
        if self.temperature_permille > 1000 {
            return Err(String::from_str("Temperature must be between 0.0 and 1.0"));
        }
        if self.concurrency == 0 {
            return Err(String::from_str("Concurrency must be at least 1"));
        }
        if self.max_files == 0 {
            return Err(String::from_str("Max files must be at least 1"));
        }
        if self.verbose && self.quiet {
            return Err(String::from_str("Cannot use both --verbose and --quiet"));
        }
        match self.timeout {
            Some(timeout) => {
                if timeout == 0 {
                    return Err(String::from_str("Timeout must be at least 1 second"));
                }
            },
            None => {},
        }
        match &self.local {
            Some(path) => {
                if !local.exists {
                    let mut message = String::from_str("Local directory does not exist: ");
                    message.append(path.as_str());
                    return Err(message);
                }
                if !local.is_dir {
                    let mut message = String::from_str("Local path is not a directory: ");
                    message.append(path.as_str());
                    return Err(message);
                }
            },
            None => {},
        }
        Ok(())
    }

    /// Returns the log level based on verbosity settings: quiet goes
    /// before verbose.
    pub fn log_level(&self) -> (level: LogLevel)
        ensures
            level == if self.quiet {
                LogLevel::Error
            } else if self.verbose {
                LogLevel::Debug
            } else {
                LogLevel::Info
            },
    {
        if self.quiet {
            LogLevel::Error
        } else if self.verbose {
            LogLevel::Debug
        } else {
            LogLevel::Info
        }
    }

    /// Returns the effective list of file extensions to analyze.
    pub fn effective_extensions(&self) -> (extensions: Vec<String>)
        ensures
            views(extensions@) == match self.extensions {
                Some(given) => views(given@),
                None => default_scan_extensions(),
            },
    {
        match &self.extensions {
            Some(given) => clone_texts(given),
            None => scan_extensions(),
        }
    }

    /// Returns the effective list of exclude patterns.
    pub fn effective_excludes(&self) -> (excludes: Vec<String>)
        ensures
            views(excludes@) == match self.exclude {
                Some(given) => views(given@),
                None => default_exclude_patterns(),
            },
    {
        match &self.exclude {
            Some(given) => clone_texts(given),
            None => {
                let mut list: Vec<String> = Vec::new();
                assert(views(list@) =~= Seq::<Seq<char>>::empty());
                push_text(&mut list, ".git");
                push_text(&mut list, "target");
                push_text(&mut list, "node_modules");
                push_text(&mut list, "vendor");
                push_text(&mut list, "dist");
                push_text(&mut list, "build");
                push_text(&mut list, "__pycache__");
                push_text(&mut list, ".venv");
                push_text(&mut list, "venv");
                push_text(&mut list, ".idea");
                push_text(&mut list, ".vscode");
                push_text(&mut list, "*.min.js");
                push_text(&mut list, "*.min.css");
                push_text(&mut list, "package-lock.json");
                push_text(&mut list, "Cargo.lock");
                push_text(&mut list, "yarn.lock");
                list
            },
        }
    }
}

} // verus!
