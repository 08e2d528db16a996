//! What the file tools decide.
//!
//! The caller looks at the file system and hands over what it found; the
//! functions here decide whether a request is served and shape its result.

use crate::agent::tools::{failure_view, success_view, ToolResult, ToolResultView};
use crate::scanner::{
    entry_names, extension_of, file_accepted, file_extension, listing_refusal, shown_entries,
    FileScanner, PathProbe, ScanConfig,
};
use crate::text::{
    chars_of, concat, contains, contains_text, decimal, join, join_with, lemma_views_push, lines,
    push_decimal, sorted_texts, str_eq, text_lines, views,
};
use vstd::prelude::*;

verus! {

/// Why `read_file` is refused for a path, as the message for the model;
/// `None` where the file may be read. A path outside the repository is
/// refused before all; then a missing path, then one that is no file, then
/// a file that the scan criteria leave out.
pub open spec fn read_refusal(config: ScanConfig, path: Seq<char>, probe: PathProbe) -> Option<
    Seq<char>,
> {
    if !probe.inside_repo {
        Some("Access denied: path outside repository"@)
    } else if !probe.exists {
        Some("File not found: "@ + path)
    } else if !probe.is_file {
        Some("Not a file: "@ + path)
    } else if probe.size matches Some(size) && !file_accepted(config, probe.file_name@, size) {
        Some("File too large or doesn't match scan criteria."@)
    } else {
        None
    }
}

/// Why `get_file_info` is refused for a path; `None` where it is served.
pub open spec fn info_refusal(path: Seq<char>, probe: PathProbe) -> Option<Seq<char>> {
    if !probe.inside_repo {
        Some("Access denied: path outside repository"@)
    } else if !probe.exists {
        Some("File not found: "@ + path)
    } else {
        None
    }
}

/// The view of a refusal as a result.
pub open spec fn refusal_view(refusal: Option<Seq<char>>) -> Option<ToolResultView> {
    match refusal {
        Some(message) => Some(failure_view(message)),
        None => None,
    }
}

/// The view of an optional result.
pub open spec fn opt_result(result: Option<ToolResult>) -> Option<ToolResultView> {
    match result {
        Some(found) => Some(found@),
        None => None,
    }
}

/// Decides whether a file may be read: the failure to answer with, or
/// `None` where the caller goes on to read.
pub fn check_read(scanner: &FileScanner, path: &str, probe: &PathProbe) -> (refused: Option<
    ToolResult,
>)
    ensures
        opt_result(refused) == refusal_view(read_refusal(scanner.config(), path@, *probe)),
{
    if !probe.inside_repo {
        return Some(ToolResult::error(String::from_str("Access denied: path outside repository")));
    }
    if !probe.exists {
        return Some(ToolResult::error(concat("File not found: ", path)));
    }
    if !probe.is_file {
        return Some(ToolResult::error(concat("Not a file: ", path)));
    }
    match probe.size {
        Some(size) => {
            if !scanner.matches(probe.file_name.as_str(), size) {
                return Some(
                    ToolResult::error(
                        String::from_str("File too large or doesn't match scan criteria."),
                    ),
                );
            }
        },
        None => {},
    }
    None
}

/// Decides whether facts about a path are given out.
pub fn check_info(path: &str, probe: &PathProbe) -> (refused: Option<ToolResult>)
    ensures
        opt_result(refused) == refusal_view(info_refusal(path@, *probe)),
{
    if !probe.inside_repo {
        return Some(ToolResult::error(String::from_str("Access denied: path outside repository")));
    }
    if !probe.exists {
        return Some(ToolResult::error(concat("File not found: ", path)));
    }
    None
}

/// The result of reading a file: its content, or the failure with the
/// reason.
pub fn read_outcome(content: Result<String, String>) -> (result: ToolResult)
    ensures
        result@ == match content {
            Ok(text) => success_view(text@),
            Err(reason) => failure_view("Failed to read file: "@ + reason@),
        },
{
    match content {
        Ok(text) => ToolResult::success(text),
        Err(reason) => ToolResult::error(concat("Failed to read file: ", reason.as_str())),
    }
}

/// The failure of `get_file_info` where the facts cannot be had.
pub fn metadata_failure(reason: &str) -> (result: ToolResult)
    ensures
        result@ == failure_view("Failed to get metadata: "@ + reason@),
{
    ToolResult::error(concat("Failed to get metadata: ", reason))
}

/// The language that an extension stands for: a name for the extensions
/// that are known, the extension itself for the others, and `Unknown`
/// for a file without extension.
pub open spec fn language_of(extension: Option<Seq<char>>) -> Seq<char> {
    match extension {
        None => "Unknown"@,
        Some(ext) => if ext == "rs"@ {
            "Rust"@
        } else if ext == "py"@ {
            "Python"@
        } else if ext == "js"@ {
            "JavaScript"@
        } else if ext == "ts"@ {
            "TypeScript"@
        } else if ext == "go"@ {
            "Go"@
        } else if ext == "java"@ {
            "Java"@
        } else if ext == "c"@ || ext == "h"@ {
            "C"@
        } else if ext == "cpp"@ || ext == "hpp"@ {
            "C++"@
        } else {
            ext
        },
    }
}

/// The language that the extension of a file name stands for.
pub fn language_name(file_name: &str) -> (language: String)
    ensures
        language@ == language_of(extension_of(file_name@)),
{
    match file_extension(file_name) {
        None => String::from_str("Unknown"),
        Some(extension) => {
            let ext = extension.as_str();
            if str_eq(ext, "rs") {
                String::from_str("Rust")
            } else if str_eq(ext, "py") {
                String::from_str("Python")
            } else if str_eq(ext, "js") {
                String::from_str("JavaScript")
            } else if str_eq(ext, "ts") {
                String::from_str("TypeScript")
            } else if str_eq(ext, "go") {
                String::from_str("Go")
            } else if str_eq(ext, "java") {
                String::from_str("Java")
            } else if str_eq(ext, "c") || str_eq(ext, "h") {
                String::from_str("C")
            } else if str_eq(ext, "cpp") || str_eq(ext, "hpp") {
                String::from_str("C++")
            } else {
                extension
            }
        },
    }
}

/// The answer of `get_file_info`: language, number of lines and size in
/// bytes, separated by commas.
pub fn file_info_outcome(file_name: &str, line_count: usize, size: u64) -> (result: ToolResult)
    ensures
        result@ == success_view(
            language_of(extension_of(file_name@)) + ","@ + decimal(line_count as nat) + ","@
                + decimal(size as nat),
        ),
{
    let mut output = language_name(file_name);
    output.append(",");
    push_decimal(&mut output, line_count as u64);
    output.append(",");
    push_decimal(&mut output, size);
    ToolResult::success(output)
}

/// The number of lines of a text.
pub fn count_lines(content: &str) -> (count: usize)
    ensures
        count == text_lines(content@).len(),
{
    lines(content).len()
}

/// The hits of a search after the lines of one more file are looked at:
/// every line that holds the pattern adds `path:number`, lines counted
/// from one, as long as fewer than `max` hits are found.
pub open spec fn hits_after(
    found: Seq<Seq<char>>,
    path: Seq<char>,
    file_lines: Seq<Seq<char>>,
    pattern: Seq<char>,
    max: nat,
) -> Seq<Seq<char>>
    decreases file_lines.len(),
{
    if file_lines.len() == 0 {
        found
    } else {
        let before = hits_after(found, path, file_lines.drop_last(), pattern, max);
        if before.len() < max && contains_text(file_lines.last(), pattern) {
            before.push(path + ":"@ + decimal(file_lines.len()))
        } else {
            before
        }
    }
}

/// Adds the hits of a search in one file to `results`.
pub fn search_content(
    results: &mut Vec<String>,
    path: &str,
    content: &str,
    pattern: &str,
    max: usize,
)
    ensures
        views(final(results)@) == hits_after(
            views(old(results)@),
            path@,
            text_lines(content@),
            pattern@,
            max as nat,
        ),
{
    let file_lines = lines(content);
    let needle = chars_of(pattern);
    let ghost model = views(file_lines@);
    let ghost start = views(results@);
    let mut i: usize = 0;
    assert(model.take(0) =~= Seq::<Seq<char>>::empty());
    while i < file_lines.len()
        invariant
            i <= file_lines.len(),
            model == views(file_lines@),
            needle@ == pattern@,
            views(results@) == hits_after(start, path@, model.take(i as int), pattern@, max as nat),
        decreases file_lines.len() - i,
    {
        proof {
            assert(model.take(i as int + 1).drop_last() =~= model.take(i as int));
            assert(model.take(i as int + 1).last() == file_lines@[i as int]@);
        }
        if results.len() < max && contains(&file_lines[i], &needle) {
            let mut hit = String::from_str(path);
            hit.append(":");
            push_decimal(&mut hit, (i + 1) as u64);
            proof {
                lemma_views_push(results@, hit);
            }
            results.push(hit);
        }
        i += 1;
    }
    assert(model.take(i as int) =~= model);
}

/// The answer of `search_code`: the hits, one per line.
pub fn search_outcome(results: &Vec<String>) -> (result: ToolResult)
    ensures
        result@ == success_view(join_with(views(results@), "\n"@)),
{
    ToolResult::success(join(results, "\n"))
}

/// The answer of `list_files`: the entries of the listing, one per line, or
/// the failure with the reason why the directory is not listed.
pub open spec fn list_files_view(
    config: ScanConfig,
    directory: Seq<char>,
    probe: PathProbe,
    entries: Seq<(Seq<char>, bool)>,
) -> ToolResultView {
    match listing_refusal(directory, probe) {
        Some(reason) => failure_view(reason),
        None => success_view(
            join_with(sorted_texts(shown_entries(views(config.excludes@), entries)), "\n"@),
        ),
    }
}

/// List files in a directory, given what the file system holds there.
pub fn list_files(
    scanner: &FileScanner,
    directory: &str,
    probe: &PathProbe,
    entries: &Vec<(String, bool)>,
) -> (result: ToolResult)
    ensures
        result@ == list_files_view(scanner.config(), directory@, *probe, entry_names(entries@)),
{
    match scanner.list_directory(directory, probe, entries) {
        Ok(listing) => ToolResult::success(join(&listing, "\n")),
        Err(reason) => ToolResult::error(reason),
    }
}

} // verus!
