//! Glob patterns, as the `glob` crate reads and matches them.

use crate::text::same_text;
use vstd::prelude::*;

verus! {

/// What is wrong with a glob pattern, if anything is.
pub uninterp spec fn glob_error(pattern: Seq<char>) -> Option<Seq<char>>;

/// The path matches the glob pattern.
pub uninterp spec fn glob_matches(pattern: Seq<char>, path: Seq<char>) -> bool;

/// The pattern is a glob pattern and the path matches it.
pub open spec fn glob_holds(pattern: Seq<char>, path: Seq<char>) -> bool {
    glob_error(pattern) is None && glob_matches(pattern, path)
}

/// Compiles a pattern with `glob::Pattern::new` and gives the text of the
/// error if the pattern is refused. The contract gives the answer a name.
#[verifier::external_body]
fn refusal_of(pattern: &str) -> (error: Option<String>)
    ensures
        match error {
            Some(error) => glob_error(pattern@) == Some(error@),
            None => glob_error(pattern@) is None,
        },
{
    glob::Pattern::new(pattern).err().map(|e| e.to_string())
}

/// Compiles a pattern with `glob::Pattern::new` and asks
/// `glob::Pattern::matches_path` whether a path matches it. A pattern that
/// is refused matches nothing. The contract gives the answer a name.
#[verifier::external_body]
pub(crate) fn compiled_matches(pattern: &str, path: &str) -> (matched: bool)
    ensures
        matched == (glob_error(pattern@) is None && glob_matches(pattern@, path@)),
{
    glob::Pattern::new(pattern).map(|p| p.matches_path(std::path::Path::new(path))).unwrap_or(false)
}

/// What is wrong with a glob pattern, if anything is.
pub fn pattern_error(pattern: &str) -> (error: Option<String>)
    ensures
        match error {
            Some(error) => glob_error(pattern@) == Some(error@),
            None => glob_error(pattern@) is None,
        },
{
    refusal_of(pattern)
}

/// Whether an entry is kept when a directory is walked with a pattern: the
/// directory itself is not, and of the others those whose path matches.
pub fn keeps_entry(base_path: &str, path: &str, pattern: &str) -> (kept: bool)
    ensures
        kept == (path@ != base_path@ && glob_holds(pattern@, path@)),
{
    !same_text(path, base_path) && compiled_matches(pattern, path)
}

} // verus!
