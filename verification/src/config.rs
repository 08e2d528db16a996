//! Settings of a run: what the configuration file holds, its defaults, and
//! how the command line overrides it.

use crate::cli::{clone_texts, Args};
use crate::scanner::{default_scan_extensions, scan_extensions, ScanConfig};
use crate::text::{push_text, views};
use vstd::prelude::*;
use vstd::std_specs::convert::FromSpecImpl;

verus! {

/// General application settings.
#[derive(Debug)]
pub struct GeneralConfig {
    /// Default output file path.
    pub output: String,
    /// Enable verbose logging by default.
    pub verbose: bool,
    /// Number of concurrent file analyses.
    pub concurrency: usize,
}

/// The default path of the report.
pub fn default_output() -> (path: String)
    ensures
        path@ == "yoaudit_report.md"@,
{
    String::from_str("yoaudit_report.md")
}

/// The default number of concurrent analyses.
pub fn default_concurrency() -> (count: usize)
    ensures
        count == 4,
{
    4
}

impl Default for GeneralConfig {
    fn default() -> (config: Self)
        ensures
            config.output@ == "yoaudit_report.md"@,
            !config.verbose,
            config.concurrency == 4,
    {
        Self { output: default_output(), verbose: false, concurrency: default_concurrency() }
    }
}

/// LLM model settings.
#[derive(Debug)]
pub struct ModelConfig {
    /// Default model name.
    pub name: String,
    /// Backend API URL.
    pub ollama_url: String,
    /// Temperature for generation, in thousandths.
    pub temperature_permille: u32,
    /// Maximum tokens in response.
    pub max_tokens: Option<usize>,
    /// Request timeout in seconds.
    pub timeout_seconds: u64,
    /// Number of retries on failure.
    pub retries: usize,
    /// Use single-call mode: all files go to the model in one request.
    pub single_call_mode: bool,
}

/// The default model.
pub fn default_model() -> (name: String)
    ensures
        name@ == "llama3.2:latest"@,
{
    String::from_str("llama3.2:latest")
}

/// The default address of the backend.
pub fn default_ollama_url() -> (url: String)
    ensures
        url@ == "http://localhost:11434"@,
{
    String::from_str("http://localhost:11434")
}

/// The default temperature, in thousandths.
pub fn default_temperature() -> (permille: u32)
    ensures
        permille == 100,
{
    100
}

/// The default deadline of a request, in seconds.
pub fn default_timeout() -> (seconds: u64)
    ensures
        seconds == 1800,
{
    1800
}

/// The default number of retries.
pub fn default_retries() -> (count: usize)
    ensures
        count == 3,
{
    3
}

/// Whether single-call mode is the default.
pub fn default_single_call() -> (enabled: bool)
    ensures
        enabled,
{
    true
}

impl Default for ModelConfig {
    fn default() -> (config: Self)
        ensures
            config.name@ == "llama3.2:latest"@,
            config.ollama_url@ == "http://localhost:11434"@,
            config.temperature_permille == 100,
            config.max_tokens is None,
            config.timeout_seconds == 1800,
            config.retries == 3,
            config.single_call_mode,
    {
        Self {
            name: default_model(),
            ollama_url: default_ollama_url(),
            temperature_permille: default_temperature(),
            max_tokens: None,
            timeout_seconds: default_timeout(),
            retries: default_retries(),
            single_call_mode: default_single_call(),
        }
    }
}

/// File scanner settings.
#[derive(Debug)]
pub struct ScannerConfig {
    /// Maximum files to analyze.
    pub max_files: usize,
    /// Maximum lines per file chunk.
    pub max_chunk_lines: usize,
    /// File extensions to include.
    pub extensions: Vec<String>,
    /// Patterns to exclude.
    pub excludes: Vec<String>,
    /// Maximum file size in bytes.
    pub max_file_size: usize,
}

/// The default limit on the number of files.
pub fn default_max_files() -> (count: usize)
    ensures
        count == 100,
{
    100
}

/// The default limit on the lines of a chunk.
pub fn default_max_chunk_lines() -> (count: usize)
    ensures
        count == 4000,
{
    4000
}

/// The extensions that are included by default.
pub fn default_extensions() -> (list: Vec<String>)
    ensures
        views(list@) == default_scan_extensions(),
{
    scan_extensions()
}

/// The entry names that the configuration excludes by default.
pub open spec fn default_config_excludes() -> Seq<Seq<char>> {
    Seq::<Seq<char>>::empty().push(".git"@).push("target"@).push("node_modules"@).push(
        "vendor"@,
    ).push("dist"@).push("build"@).push("__pycache__"@).push(".venv"@).push("venv"@).push(
        ".idea"@,
    ).push(".vscode"@)
}

/// The entry names that are excluded by default.
pub fn default_excludes() -> (list: Vec<String>)
    ensures
        views(list@) == default_config_excludes(),
{
    let mut list: Vec<String> = Vec::new();
    assert(views(list@) =~= Seq::<Seq<char>>::empty());
    push_text(&mut list, ".git");
    push_text(&mut list, "target");
    push_text(&mut list, "node_modules");
    push_text(&mut list, "vendor");
    push_text(&mut list, "dist");
    push_text(&mut list, "build");
    push_text(&mut list, "__pycache__");
    push_text(&mut list, ".venv");
    push_text(&mut list, "venv");
    push_text(&mut list, ".idea");
    push_text(&mut list, ".vscode");
    list
}

/// The default limit on the size of a file: one mebibyte.
pub fn default_max_file_size() -> (bytes: usize)
    ensures
        bytes == 1048576,
{
    1048576
}

impl Default for ScannerConfig {
    fn default() -> (config: Self)
        ensures
            config.max_files == 100,
            config.max_chunk_lines == 4000,
            views(config.extensions@) == default_scan_extensions(),
            views(config.excludes@) == default_config_excludes(),
            config.max_file_size == 1048576,
    {
        Self {
            max_files: default_max_files(),
            max_chunk_lines: default_max_chunk_lines(),
            extensions: default_extensions(),
            excludes: default_excludes(),
            max_file_size: default_max_file_size(),
        }
    }
}

impl ScanConfig {
    /// The scan configuration that scanner settings ask for: the same
    /// extensions, exclusions and size limit, and the file limit in force.
    pub fn from_settings(config: &ScannerConfig) -> (scan: ScanConfig)
        ensures
            scan.extensions@ == config.extensions@,
            scan.excludes@ == config.excludes@,
            scan.max_file_size == config.max_file_size,
            scan.max_files == Some(config.max_files),
    {
        ScanConfig {
            extensions: clone_texts(&config.extensions),
            excludes: clone_texts(&config.excludes),
            max_file_size: config.max_file_size,
            max_files: Some(config.max_files),
        }
    }
}

impl<'a> From<&'a ScannerConfig> for ScanConfig {
    fn from(config: &'a ScannerConfig) -> (scan: ScanConfig)
        ensures
            scan.extensions@ == config.extensions@,
            scan.excludes@ == config.excludes@,
            scan.max_file_size == config.max_file_size,
            scan.max_files == Some(config.max_files),
    {
        ScanConfig::from_settings(config)
    }
}

/// What `from` returns is stated on `from` itself: no specification can
/// name the vectors that the result holds.
impl<'a> FromSpecImpl<&'a ScannerConfig> for ScanConfig {
    open spec fn obeys_from_spec() -> bool {
        false
    }

    open spec fn from_spec(config: &'a ScannerConfig) -> ScanConfig {
        arbitrary()
    }
}

/// Report generation settings.
#[derive(Debug)]
pub struct ReportConfig {
    /// Include code snippets in the report.
    pub include_snippets: bool,
    /// Include file summary sections.
    pub include_summaries: bool,
    /// Maximum code snippet lines.
    pub max_snippet_lines: usize,
    /// Group issues by file (true) or by severity (false).
    pub group_by_file: bool,
}

/// The default of the switches that are on unless turned off.
pub fn default_true() -> (enabled: bool)
    ensures
        enabled,
{
    true
}

/// The default limit on the lines of a snippet.
pub fn default_snippet_lines() -> (count: usize)
    ensures
        count == 10,
{
    10
}

impl Default for ReportConfig {
    fn default() -> (config: Self)
        ensures
            config.include_snippets,
            config.include_summaries,
            config.max_snippet_lines == 10,
            config.group_by_file,
    {
        Self {
            include_snippets: true,
            include_summaries: true,
            max_snippet_lines: default_snippet_lines(),
            group_by_file: true,
        }
    }
}

/// Root configuration structure.
#[derive(Debug)]
pub struct Config {
    /// General settings.
    pub general: GeneralConfig,
    /// Model settings.
    pub model: ModelConfig,
    /// Scanner settings.
    pub scanner: ScannerConfig,
    /// Report settings.
    pub report: ReportConfig,
}

impl Default for Config {
    fn default() -> (config: Self)
        ensures
            config.general.output@ == "yoaudit_report.md"@,
            !config.general.verbose,
            config.general.concurrency == 4,
            config.model.name@ == "llama3.2:latest"@,
            config.model.ollama_url@ == "http://localhost:11434"@,
            config.model.temperature_permille == 100,
            config.model.max_tokens is None,
            config.model.timeout_seconds == 1800,
            config.model.retries == 3,
            config.model.single_call_mode,
            config.scanner.max_files == 100,
            config.scanner.max_chunk_lines == 4000,
            views(config.scanner.extensions@) == default_scan_extensions(),
            views(config.scanner.excludes@) == default_config_excludes(),
            config.scanner.max_file_size == 1048576,
            config.report.include_snippets,
            config.report.include_summaries,
            config.report.max_snippet_lines == 10,
            config.report.group_by_file,
    {
        Self {
            general: GeneralConfig::default(),
            model: ModelConfig::default(),
            scanner: ScannerConfig::default(),
            report: ReportConfig::default(),
        }
    }
}

impl Config {
    /// Merge this configuration with command-line arguments, which take
    /// precedence. Model name, address, temperature, the file and chunk
    /// limits and the concurrency are always taken from the arguments; the
    /// timeout, the mode, the extensions and the exclusions only where the
    /// arguments give them; verbosity is switched on, never off.
    pub fn merge_with_args(&mut self, args: &Args)
        ensures
            final(self).model.name == args.model,
            final(self).model.ollama_url == args.ollama_url,
            final(self).model.temperature_permille == args.temperature_permille,
            final(self).model.timeout_seconds == match args.timeout {
                Some(timeout) => timeout,
                None => old(self).model.timeout_seconds,
            },
            final(self).model.single_call_mode == if args.single_call {
                true
            } else if args.no_single_call {
                false
            } else {
                old(self).model.single_call_mode
            },
            final(self).model.max_tokens == old(self).model.max_tokens,
            final(self).model.retries == old(self).model.retries,
            final(self).scanner.max_files == args.max_files,
            final(self).scanner.max_chunk_lines == args.max_chunk_lines,
            final(self).scanner.extensions@ == match args.extensions {
                Some(given) => given@,
                None => old(self).scanner.extensions@,
            },
            final(self).scanner.excludes@ == match args.exclude {
                Some(given) => given@,
                None => old(self).scanner.excludes@,
            },
            final(self).scanner.max_file_size == old(self).scanner.max_file_size,
            final(self).general.concurrency == args.concurrency,
            final(self).general.verbose == (old(self).general.verbose || args.verbose),
            final(self).general.output == old(self).general.output,
            final(self).report == old(self).report,
    {
        self.model.name = args.model.clone();
        self.model.ollama_url = args.ollama_url.clone();
        self.model.temperature_permille = args.temperature_permille;
        match args.timeout {
            Some(timeout) => {
                self.model.timeout_seconds = timeout;
            },
            None => {},
        }
        if args.single_call {
            self.model.single_call_mode = true;
        } else if args.no_single_call {
            self.model.single_call_mode = false;
        }
        self.scanner.max_files = args.max_files;
        self.scanner.max_chunk_lines = args.max_chunk_lines;
        match &args.extensions {
            Some(extensions) => {
                self.scanner.extensions = clone_texts(extensions);
            },
            None => {},
        }
        match &args.exclude {
            Some(excludes) => {
                self.scanner.excludes = clone_texts(excludes);
            },
            None => {},
        }
        self.general.concurrency = args.concurrency;
        if args.verbose {
            self.general.verbose = true;
        }
    }
}

} // verus!
