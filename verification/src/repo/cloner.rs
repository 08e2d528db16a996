//! Options for fetching a repository, and the reading of GitHub addresses.

use crate::text::{
    chars_of, has_prefix, has_suffix, lemma_split_on_nonempty, matches_at, slice_of, split,
    split_on, string_of, views,
};
use vstd::prelude::*;

verus! {

/// Options for cloning a repository.
#[derive(Debug)]
pub struct CloneOptions {
    /// Branch to checkout (None for default branch).
    pub branch: Option<String>,
    /// Depth for shallow clone (None for full clone).
    pub depth: Option<i32>,
    /// Whether to show progress.
    pub show_progress: bool,
    /// Target directory (None for a temporary directory).
    pub target_dir: Option<String>,
}

impl Default for CloneOptions {
    fn default() -> (options: Self)
        ensures
            options.branch is None,
            options.depth == Some(1i32),
            options.show_progress,
            options.target_dir is None,
    {
        Self { branch: None, depth: Some(1), show_progress: true, target_dir: None }
    }
}

/// `s` without any `suffix` at its end, however often it is repeated.
pub open spec fn without_suffix(s: Seq<char>, suffix: Seq<char>) -> Seq<char>
    decreases s.len(),
{
    if suffix.len() > 0 && has_suffix(s, suffix) {
        without_suffix(s.take(s.len() - suffix.len()), suffix)
    } else {
        s
    }
}

/// The first two of the parts that slashes divide `rest` into, if there
/// are two.
pub open spec fn owner_and_name(rest: Seq<char>) -> Option<(Seq<char>, Seq<char>)> {
    let parts = split_on(rest, '/');
    if parts.len() >= 2 {
        Some((parts[0], parts[1]))
    } else {
        None
    }
}

/// What follows `prefix` in `s`, read as owner and name, if `s` starts
/// with `prefix`.
pub open spec fn after_prefix(s: Seq<char>, prefix: Seq<char>) -> Option<(Seq<char>, Seq<char>)> {
    if has_prefix(s, prefix) {
        owner_and_name(s.skip(prefix.len() as int))
    } else {
        None
    }
}

/// Owner and name of the repository that a GitHub address names, in the
/// HTTPS form or the SSH form, with or without `.git` at its end.
pub open spec fn github_parts(url: Seq<char>) -> Option<(Seq<char>, Seq<char>)> {
    let bare = without_suffix(url, ".git"@);
    match after_prefix(bare, "https://github.com/"@) {
        Some(parts) => Some(parts),
        None => after_prefix(bare, "git@github.com:"@),
    }
}

/// Owner and name by view.
pub open spec fn opt_pair(pair: Option<(String, String)>) -> Option<(Seq<char>, Seq<char>)> {
    match pair {
        Some((owner, name)) => Some((owner@, name@)),
        None => None,
    }
}

/// What follows `prefix` in `s`, read as owner and name.
fn parts_after(s: &Vec<char>, prefix: &str) -> (parts: Option<(String, String)>)
    ensures
        opt_pair(parts) == after_prefix(s@, prefix@),
{
    let lead = chars_of(prefix);
    if !matches_at(s, &lead, 0) {
        return None;
    }
    let rest = slice_of(s, lead.len(), s.len());
    assert(rest@ =~= s@.skip(prefix@.len() as int));
    let pieces = split(&rest, '/');
    proof {
        lemma_split_on_nonempty(rest@, '/');
    }
    if pieces.len() >= 2 {
        let owner = string_of(&pieces[0]);
        let name = string_of(&pieces[1]);
        assert(views(pieces@)[0] == pieces@[0]@);
        assert(views(pieces@)[1] == pieces@[1]@);
        Some((owner, name))
    } else {
        None
    }
}

/// Parse a GitHub URL to extract owner and repo name.
pub fn parse_github_url(url: &str) -> (parts: Option<(String, String)>)
    ensures
        opt_pair(parts) == github_parts(url@),
{
    let mut chars = chars_of(url);
    let suffix = chars_of(".git");
    while suffix.len() > 0 && suffix.len() <= chars.len() && matches_at(
        &chars,
        &suffix,
        chars.len() - suffix.len(),
    )
        invariant
            suffix@ == ".git"@,
            without_suffix(chars@, suffix@) == without_suffix(url@, suffix@),
        decreases chars.len(),
    {
        let keep = chars.len() - suffix.len();
        chars.truncate(keep);
    }
    assert(without_suffix(chars@, suffix@) == chars@);
    match parts_after(&chars, "https://github.com/") {
        Some(parts) => Some(parts),
        None => parts_after(&chars, "git@github.com:"),
    }
}

} // verus!
