//! Which files of a source tree are worth reading.
//!
//! The scanner decides by name, extension and size. Walking the tree is left
//! to the caller, who asks about one entry at a time.

use crate::text::{
    chars_of, concat, lemma_views_push, list_contains, opt_text, push_text, slice_of, sort_texts, sorted_texts,
    string_of, views,
};
use vstd::prelude::*;

verus! {

/// Configuration for file scanning.
#[derive(Debug, Clone)]
pub struct ScanConfig {
    /// File extensions to include, without the dot.
    pub extensions: Vec<String>,
    /// Entry names to skip.
    pub excludes: Vec<String>,
    /// Maximum file size in bytes.
    pub max_file_size: usize,
    /// Maximum number of files to scan.
    pub max_files: Option<usize>,
}

/// The extensions that are scanned when nothing else is configured.
pub open spec fn default_scan_extensions() -> Seq<Seq<char>> {
    Seq::<Seq<char>>::empty().push("rs"@).push("py"@).push("js"@).push("ts"@).push("jsx"@).push(
        "tsx"@,
    ).push("go"@).push("java"@).push("c"@).push("cpp"@).push("h"@).push("hpp"@).push("cs"@).push(
        "rb"@,
    ).push("php"@).push("swift"@).push("kt"@).push("scala"@).push("vue"@).push("svelte"@)
}

/// The entry names that are skipped when nothing else is configured.
pub open spec fn default_scan_excludes() -> Seq<Seq<char>> {
    Seq::<Seq<char>>::empty().push(".git"@).push("target"@).push("node_modules"@).push(
        "vendor"@,
    ).push("dist"@).push("build"@).push("__pycache__"@).push(".venv"@).push("venv"@)
}

/// The list of `default_scan_extensions`.
pub fn scan_extensions() -> (list: Vec<String>)
    ensures
        views(list@) == default_scan_extensions(),
{
    let mut list: Vec<String> = Vec::new();
    assert(views(list@) =~= Seq::<Seq<char>>::empty());
    push_text(&mut list, "rs");
    push_text(&mut list, "py");
    push_text(&mut list, "js");
    push_text(&mut list, "ts");
    push_text(&mut list, "jsx");
    push_text(&mut list, "tsx");
    push_text(&mut list, "go");
    push_text(&mut list, "java");
    push_text(&mut list, "c");
    push_text(&mut list, "cpp");
    push_text(&mut list, "h");
    push_text(&mut list, "hpp");
    push_text(&mut list, "cs");
    push_text(&mut list, "rb");
    push_text(&mut list, "php");
    push_text(&mut list, "swift");
    push_text(&mut list, "kt");
    push_text(&mut list, "scala");
    push_text(&mut list, "vue");
    push_text(&mut list, "svelte");
    list
}

impl Default for ScanConfig {
    fn default() -> (config: Self)
        ensures
            views(config.extensions@) == default_scan_extensions(),
            views(config.excludes@) == default_scan_excludes(),
            config.max_file_size == 102400,
            config.max_files is None,
    {
        let mut excludes: Vec<String> = Vec::new();
        assert(views(excludes@) =~= Seq::<Seq<char>>::empty());
        push_text(&mut excludes, ".git");
        push_text(&mut excludes, "target");
        push_text(&mut excludes, "node_modules");
        push_text(&mut excludes, "vendor");
        push_text(&mut excludes, "dist");
        push_text(&mut excludes, "build");
        push_text(&mut excludes, "__pycache__");
        push_text(&mut excludes, ".venv");
        push_text(&mut excludes, "venv");
        ScanConfig {
            extensions: scan_extensions(),
            excludes,
            max_file_size: 102400,
            max_files: None,
        }
    }
}

/// Scanned file information.
#[derive(Debug, Clone)]
pub struct ScannedFile {
    /// Relative path from the repository root.
    pub path: String,
    /// File size in bytes.
    pub size: u64,
    /// File extension, without the dot.
    pub extension: String,
}

/// Whether an entry name is skipped: hidden entries (a leading dot) and the
/// names on the exclusion list.
pub open spec fn name_excluded(excludes: Seq<Seq<char>>, name: Seq<char>) -> bool {
    (name.len() > 0 && name[0] == '.') || excludes.contains(name)
}

/// The extension of a file name: what follows its last dot. A name
/// without a dot, with a leading dot only, and the name `..` have none.
pub open spec fn extension_of(name: Seq<char>) -> Option<Seq<char>> {
    let dot = last_dot(name);
    if name == seq!['.', '.'] || dot <= 0 {
        None
    } else {
        Some(name.subrange(dot + 1, name.len() as int))
    }
}

/// The extension of a file name, empty where it has none.
pub open spec fn extension_text(name: Seq<char>) -> Seq<char> {
    match extension_of(name) {
        Some(extension) => extension,
        None => Seq::<char>::empty(),
    }
}

/// The position of the last dot in `name`, or -1 where it has none.
pub open spec fn last_dot(name: Seq<char>) -> int
    decreases name.len(),
{
    if name.len() == 0 {
        -1
    } else if name.last() == '.' {
        name.len() - 1
    } else {
        last_dot(name.drop_last())
    }
}

/// `last_dot` is the greatest index that holds a dot.
pub proof fn lemma_last_dot(name: Seq<char>)
    ensures
        -1 <= last_dot(name) < name.len(),
        last_dot(name) >= 0 ==> name[last_dot(name)] == '.',
        forall|i: int| last_dot(name) < i < name.len() ==> name[i] != '.',
    decreases name.len(),
{
    if name.len() > 0 && name.last() != '.' {
        let front = name.drop_last();
        lemma_last_dot(front);
        assert forall|i: int| last_dot(name) < i < name.len() implies name[i] != '.' by {
            if i < front.len() {
                assert(front[i] == name[i]);
            }
        }
    }
}

/// Whether a file of this name and size is scanned: the name is not
/// excluded, its extension is on the list, and it is not over the size limit.
pub open spec fn file_accepted(config: ScanConfig, name: Seq<char>, size: u64) -> bool {
    &&& !name_excluded(views(config.excludes@), name)
    &&& views(config.extensions@).contains(extension_text(name))
    &&& size <= config.max_file_size as u64
}

/// The extension of a file name, if it has one.
pub fn file_extension(name: &str) -> (extension: Option<String>)
    ensures
        opt_text(extension) == extension_of(name@),
{
    let chars = chars_of(name);
    let n = chars.len();
    if n == 2 && chars[0] == '.' && chars[1] == '.' {
        assert(chars@ =~= seq!['.', '.']);
        return None;
    }
    let mut i: usize = n;
    proof {
        assert(chars@.take(n as int) =~= chars@);
    }
    while i > 0 && chars[i - 1] != '.'
        invariant
            i <= n,
            n == chars.len(),
            last_dot(chars@) == last_dot(chars@.take(i as int)),
        decreases i,
    {
        proof {
            assert(chars@.take(i as int).drop_last() =~= chars@.take(i as int - 1));
        }
        i -= 1;
    }
    proof {
        if i > 0 {
            assert(chars@.take(i as int).last() == '.');
        }
        assert(last_dot(chars@) == i - 1);
    }
    if i <= 1 {
        return None;
    }
    let tail = slice_of(&chars, i, n);
    Some(string_of(&tail))
}

/// What is known of a file that the walk of a tree came by.
#[derive(Debug)]
pub struct Candidate {
    /// Path relative to the repository root.
    pub path: String,
    /// The name of the file, the last part of its path.
    pub name: String,
    /// File size in bytes.
    pub size: u64,
}

/// File scanner for discovering source files.
pub struct FileScanner {
    config: ScanConfig,
    repo_root: String,
}

impl FileScanner {
    /// The configuration that the scanner decides by.
    pub closed spec fn config(&self) -> ScanConfig {
        self.config
    }

    /// The root of the tree that the scanner is for.
    pub closed spec fn root(&self) -> Seq<char> {
        self.repo_root@
    }

    /// Create a new file scanner.
    pub fn new(repo_root: String, config: ScanConfig) -> (scanner: Self)
        ensures
            scanner.config() == config,
            scanner.root() == repo_root@,
    {
        Self { config, repo_root }
    }

    /// The root of the tree that the scanner is for.
    pub fn repo_root(&self) -> (root: &str)
        ensures
            root@ == self.root(),
    {
        self.repo_root.as_str()
    }

    /// The configuration that the scanner decides by.
    pub fn scan_config(&self) -> (config: &ScanConfig)
        ensures
            *config == self.config(),
    {
        &self.config
    }

    /// Check if a name matches exclusion patterns.
    pub fn is_excluded(&self, name: &str) -> (excluded: bool)
        ensures
            excluded == name_excluded(views(self.config().excludes@), name@),
    {
        let chars = chars_of(name);
        if chars.len() > 0 && chars[0] == '.' {
            return true;
        }
        list_contains(&self.config.excludes, name)
    }

    /// Check if a file of the given name and size matches the scan criteria.
    pub fn matches(&self, file_name: &str, size: u64) -> (accepted: bool)
        ensures
            accepted == file_accepted(self.config(), file_name@, size),
    {
        if self.is_excluded(file_name) {
            return false;
        }
        let found = match file_extension(file_name) {
            Some(extension) => list_contains(&self.config.extensions, extension.as_str()),
            None => {
                proof {
                    reveal_strlit("");
                    assert(""@ =~= Seq::<char>::empty());
                }
                list_contains(&self.config.extensions, "")
            },
        };
        if !found {
            return false;
        }
        size <= self.config.max_file_size as u64
    }
}

/// A scanned file by view: path, size and extension.
pub struct ScannedFileView {
    pub path: Seq<char>,
    pub size: u64,
    pub extension: Seq<char>,
}

impl View for ScannedFile {
    type V = ScannedFileView;

    open spec fn view(&self) -> ScannedFileView {
        ScannedFileView { path: self.path@, size: self.size, extension: self.extension@ }
    }
}

/// The candidates of a list that are accepted, as scanned files, in order.
pub open spec fn accepted(config: ScanConfig, candidates: Seq<Candidate>) -> Seq<ScannedFileView>
    decreases candidates.len(),
{
    if candidates.len() == 0 {
        Seq::<ScannedFileView>::empty()
    } else {
        let before = accepted(config, candidates.drop_last());
        let last = candidates.last();
        if file_accepted(config, last.name@, last.size) {
            before.push(
                ScannedFileView {
                    path: last.path@,
                    size: last.size,
                    extension: extension_text(last.name@),
                },
            )
        } else {
            before
        }
    }
}

/// The result of a scan: the accepted candidates in the order of the walk,
/// cut off at the limit on the number of files where one is set.
pub open spec fn scanned(config: ScanConfig, candidates: Seq<Candidate>) -> Seq<ScannedFileView> {
    let all = accepted(config, candidates);
    match config.max_files {
        Some(max) => if max < all.len() {
            all.take(max as int)
        } else {
            all
        },
        None => all,
    }
}

impl FileScanner {
    /// Scan for all matching files among the files that a walk of the tree
    /// came by, in the order of the walk.
    pub fn scan(&self, candidates: &Vec<Candidate>) -> (files: Vec<ScannedFile>)
        ensures
            views(files@) == scanned(self.config(), candidates@),
    {
        let mut files: Vec<ScannedFile> = Vec::new();
        let mut i: usize = 0;
        assert(candidates@.take(0) =~= Seq::<Candidate>::empty());
        assert(views(files@) =~= accepted(self.config(), candidates@.take(0)));
        while i < candidates.len()
            invariant
                i <= candidates.len(),
                views(files@) == accepted(self.config(), candidates@.take(i as int)),
            decreases candidates.len() - i,
        {
            proof {
                assert(candidates@.take(i as int + 1).drop_last() =~= candidates@.take(i as int));
            }
            let candidate = &candidates[i];
            if self.matches(candidate.name.as_str(), candidate.size) {
                let extension = match file_extension(candidate.name.as_str()) {
                    Some(extension) => extension,
                    None => String::new(),
                };
                let file = ScannedFile {
                    path: candidate.path.clone(),
                    size: candidate.size,
                    extension,
                };
                proof {
                    crate::text::lemma_views_push(files@, file);
                }
                files.push(file);
            }
            i += 1;
        }
        assert(candidates@.take(i as int) =~= candidates@);
        match self.config.max_files {
            Some(max) => {
                let ghost all = views(files@);
                files.truncate(max);
                assert(views(files@) =~= scanned(self.config(), candidates@));
            },
            None => {},
        }
        files
    }
}

/// What the file system holds at a path that was asked about.
#[derive(Debug)]
pub struct PathProbe {
    /// Whether the path, resolved, lies inside the repository.
    pub inside_repo: bool,
    /// Whether anything is there.
    pub exists: bool,
    /// Whether it is a regular file.
    pub is_file: bool,
    /// Whether it is a directory.
    pub is_dir: bool,
    /// The last part of the path.
    pub file_name: String,
    /// The size in bytes, where it could be had.
    pub size: Option<u64>,
}

/// Why a directory is not listed, as the message for the asker; `None`
/// where it is listed. A missing path is refused before all, then one
/// that is no directory, then one outside the repository.
pub open spec fn listing_refusal(directory: Seq<char>, probe: PathProbe) -> Option<Seq<char>> {
    if !probe.exists {
        Some("Directory not found: "@ + directory)
    } else if !probe.is_dir {
        Some("Not a directory: "@ + directory)
    } else if !probe.inside_repo {
        Some("Access denied: path outside repository"@)
    } else {
        None
    }
}

/// The entries of a directory as a listing shows them: the names that are
/// not excluded, directories with a slash behind.
pub open spec fn shown_entries(excludes: Seq<Seq<char>>, entries: Seq<(Seq<char>, bool)>) -> Seq<
    Seq<char>,
>
    decreases entries.len(),
{
    if entries.len() == 0 {
        Seq::<Seq<char>>::empty()
    } else {
        let before = shown_entries(excludes, entries.drop_last());
        let last = entries.last();
        if name_excluded(excludes, last.0) {
            before
        } else if last.1 {
            before.push(last.0 + "/"@)
        } else {
            before.push(last.0)
        }
    }
}

/// Names and kinds by view.
pub open spec fn entry_names(entries: Seq<(String, bool)>) -> Seq<(Seq<char>, bool)> {
    entries.map_values(|entry: (String, bool)| (entry.0@, entry.1))
}

impl FileScanner {
    /// List files in a directory. `probe` says what the file system holds
    /// at the directory, `entries` what it holds in it: names, and whether
    /// each is a directory. The listing shows the entries that are not
    /// excluded, sorted.
    pub fn list_directory(
        &self,
        relative_dir: &str,
        probe: &PathProbe,
        entries: &Vec<(String, bool)>,
    ) -> (listing: Result<Vec<String>, String>)
        ensures
            match listing {
                Ok(shown) => listing_refusal(relative_dir@, *probe) is None && views(shown@)
                    == sorted_texts(
                    shown_entries(views(self.config().excludes@), entry_names(entries@)),
                ),
                Err(reason) => listing_refusal(relative_dir@, *probe) == Some(reason@),
            },
    {
        if !probe.exists {
            return Err(concat("Directory not found: ", relative_dir));
        }
        if !probe.is_dir {
            return Err(concat("Not a directory: ", relative_dir));
        }
        if !probe.inside_repo {
            return Err(String::from_str("Access denied: path outside repository"));
        }
        let mut shown: Vec<String> = Vec::new();
        let ghost model = entry_names(entries@);
        let ghost excludes = views(self.config().excludes@);
        let mut i: usize = 0;
        assert(model.take(0) =~= Seq::<(Seq<char>, bool)>::empty());
        assert(views(shown@) =~= shown_entries(excludes, model.take(0)));
        while i < entries.len()
            invariant
                i <= entries.len(),
                model == entry_names(entries@),
                excludes == views(self.config().excludes@),
                views(shown@) == shown_entries(excludes, model.take(i as int)),
            decreases entries.len() - i,
        {
            proof {
                assert(model.take(i as int + 1).drop_last() =~= model.take(i as int));
                assert(model.take(i as int + 1).last() == (
                    entries@[i as int].0@,
                    entries@[i as int].1,
                ));
            }
            if !self.is_excluded(entries[i].0.as_str()) {
                let mut name = entries[i].0.clone();
                if entries[i].1 {
                    name.append("/");
                }
                proof {
                    lemma_views_push(shown@, name);
                }
                shown.push(name);
            }
            i += 1;
        }
        assert(model.take(i as int) =~= model);
        Ok(sort_texts(shown))
    }
}

} // verus!
