//! Listing a directory for a session, marking directories and files.

use crate::arguments::text_of;
use crate::arguments::texts_of;
use crate::globbing::compiled_matches;
use crate::globbing::glob_holds;
use crate::paths::path_difference;
use crate::paths::relative_to;
use crate::sorting::ordered;
use crate::sorting::sort_strings;
use crate::state::change_tracked;
use crate::state::lookup_tracked;
use crate::state::resolves_to;
use crate::state::FsTools;
use crate::state::ResolveError;
use crate::state::DEFAULT_SESSION_ID;
use crate::text::joined_lines;
use crate::text::push_str;
use crate::text::same_text;
use crate::text::string_of;
use crate::tools::list::path_and_pattern;
use crate::tools::list::split_path_and_pattern;
use vstd::prelude::*;

verus! {

/// List what a directory holds, for the session that the request names or,
/// where it names none, for the shared default session.
#[derive(Debug)]
pub struct ListDirectory {
    pub path: String,
    pub session_id: Option<String>,
    pub include_gitignore: Option<bool>,
    pub recursive: Option<bool>,
}

/// What a listing is made from: the directory, and the pattern that entries
/// must match.
#[derive(Debug)]
pub struct ListingPlan {
    pub base_path: String,
    pub pattern: Option<String>,
}

/// The note that a listing without a session ends with.
pub open spec fn session_notice() -> Seq<char> {
    "\n[Session Notice: This operation used global state. Consider providing --session-id for better isolation and context management. See set_context for details.]"@
}

/// The line that lists an entry: a mark for a directory or a file, and the
/// way to the entry from the directory listed, or its path where there is no
/// such way.
pub open spec fn marked_entry(path: Seq<char>, base: Seq<char>, is_dir: bool) -> Seq<char> {
    (if is_dir {
        "[DIR] "@
    } else {
        "[FILE] "@
    }) + match path_difference(path, base) {
        Some(way) => way,
        None => path,
    }
}

impl ListDirectory {
    /// The session that the request works with: the one it names, or the
    /// shared default where it names none.
    pub open spec fn session(&self) -> Seq<char> {
        match self.session_id {
            Some(id) => id@,
            None => DEFAULT_SESSION_ID@,
        }
    }

    /// What is shown of `lines` for this request: a heading that names the
    /// path asked for, the lines, and a note where the request names no
    /// session.
    pub open spec fn report_text(&self, lines: Seq<Seq<char>>) -> Seq<char> {
        "Directory listing for "@ + self.path@ + ":\n"@ + joined_lines(lines) + seq!['\n'] + (
        if self.session_id is None {
            session_notice()
        } else {
            Seq::empty()
        })
    }

    pub open spec fn spec_include_gitignore(&self) -> bool {
        match self.include_gitignore {
            Some(value) => value,
            None => false,
        }
    }

    pub open spec fn spec_recursive(&self) -> bool {
        match self.recursive {
            Some(value) => value,
            None => false,
        }
    }

    /// Whether files that are hidden or ignored are listed too.
    #[verifier::when_used_as_spec(spec_include_gitignore)]
    pub fn include_gitignore(&self) -> (value: bool)
        ensures
            value == self.spec_include_gitignore(),
    {
        match self.include_gitignore {
            Some(value) => value,
            None => false,
        }
    }

    /// Whether what is below the directory is listed too.
    #[verifier::when_used_as_spec(spec_recursive)]
    pub fn recursive(&self) -> (value: bool)
        ensures
            value == self.spec_recursive(),
    {
        match self.recursive {
            Some(value) => value,
            None => false,
        }
    }

    /// Whether only the directory itself is listed, and not what is below
    /// it: that is so unless a pattern is given or recursion is asked for.
    pub fn depth_limited(&self, has_pattern: bool) -> (limited: bool)
        ensures
            limited == (!has_pattern && !self.spec_recursive()),
    {
        !has_pattern && !self.recursive()
    }

    /// Resolve a path relative to session context if needed. A request that
    /// names no session works with the shared default session.
    pub fn resolve_path(&self, path_str: &str, state: &mut FsTools) -> (resolved: Result<
        String,
        ResolveError,
    >)
        requires
            old(state).wf(),
        ensures
            final(state).wf(),
            change_tracked(
                old(state).unsaved(),
                final(state).unsaved(),
                old(state)@,
                final(state)@,
            ),
            lookup_tracked(old(state).unsaved(), final(state).unsaved(), path_str@),
            resolves_to(old(state)@, final(state)@, path_str@, self.session(), resolved),
    {
        match &self.session_id {
            Some(session_id) => state.resolve_path(path_str, Some(session_id.as_str())),
            None => state.resolve_path(path_str, None),
        }
    }

    /// Parse a path string that might contain glob patterns, and resolve the
    /// directory that it names.
    pub fn parse_path_and_pattern(&self, state: &mut FsTools) -> (plan: Result<
        ListingPlan,
        ResolveError,
    >)
        requires
            old(state).wf(),
        ensures
            final(state).wf(),
            change_tracked(
                old(state).unsaved(),
                final(state).unsaved(),
                old(state)@,
                final(state)@,
            ),
            lookup_tracked(old(state).unsaved(), final(state).unsaved(), path_and_pattern(self.path@).0),
            exists|resolved: Result<String, ResolveError>|
                {
                    &&& #[trigger] resolves_to(
                        old(state)@,
                        final(state)@,
                        path_and_pattern(self.path@).0,
                        self.session(),
                        resolved,
                    )
                    &&& match resolved {
                        Ok(base_path) => {
                            &&& plan is Ok
                            &&& plan->Ok_0.base_path == base_path
                            &&& text_of(plan->Ok_0.pattern) == path_and_pattern(self.path@).1
                        },
                        Err(error) => plan == Err::<ListingPlan, ResolveError>(error),
                    }
                },
    {
        let (directory, pattern) = split_path_and_pattern(self.path.as_str());
        let resolved = self.resolve_path(directory.as_str(), state);
        assert(resolves_to(
            old(state)@,
            state@,
            path_and_pattern(self.path@).0,
            self.session(),
            resolved,
        ));
        match resolved {
            Ok(base_path) => Ok(ListingPlan { base_path, pattern }),
            Err(error) => Err(error),
        }
    }

    /// The line that lists the entry at `path`, found below `base_path`.
    pub fn entry_line(path: &str, base_path: &str, is_dir: bool) -> (line: String)
        ensures
            line@ == marked_entry(path@, base_path@, is_dir),
    {
        let mut out: Vec<char> = Vec::new();
        if is_dir {
            push_str(&mut out, "[DIR] ");
        } else {
            push_str(&mut out, "[FILE] ");
        }
        match relative_to(path, base_path) {
            Some(way) => {
                push_str(&mut out, way.as_str());
            },
            None => {
                push_str(&mut out, path);
            },
        }
        string_of(&out)
    }

    /// The answer that lists `entries`, in the order given. A request that
    /// names no session is told so at the end.
    pub fn report(&self, entries: &Vec<String>) -> (text: String)
        ensures
            text@ == self.report_text(texts_of(entries@)),
    {
        let mut out: Vec<char> = Vec::new();
        push_str(&mut out, "Directory listing for ");
        push_str(&mut out, self.path.as_str());
        push_str(&mut out, ":\n");
        let ghost head = out@;
        let mut i: usize = 0;
        proof {
            assert(texts_of(entries@).take(0) =~= Seq::<Seq<char>>::empty());
            assert(out@ =~= head + joined_lines(texts_of(entries@).take(0)));
        }
        while i < entries.len()
            invariant
                i <= entries.len(),
                out@ == head + joined_lines(texts_of(entries@).take(i as int)),
            decreases entries.len() - i,
        {
            let ghost before = texts_of(entries@).take(i as int);
            let ghost after = texts_of(entries@).take(i + 1);
            proof {
                assert(after.drop_last() =~= before);
                assert(after.last() == entries@[i as int]@);
            }
            if i > 0 {
                out.push('\n');
            }
            push_str(&mut out, entries[i].as_str());
            proof {
                if i > 0 {
                    assert(out@ =~= head + (joined_lines(before) + seq!['\n'] + entries@[i as int]@));
                } else {
                    assert(after.len() == 1);
                    assert(joined_lines(before) =~= Seq::<char>::empty());
                    assert(out@ =~= head + entries@[i as int]@);
                }
            }
            i += 1;
        }
        proof {
            assert(texts_of(entries@).take(i as int) =~= texts_of(entries@));
        }
        out.push('\n');
        if self.session_id.is_none() {
            push_str(
                &mut out,
                "\n[Session Notice: This operation used global state. Consider providing --session-id for better isolation and context management. See set_context for details.]",
            );
        }
        proof {
            assert(out@ =~= self.report_text(texts_of(entries@)));
        }
        string_of(&out)
    }

    /// The answer that lists `entries` in order.
    pub fn build_entries(&self, entries: Vec<String>) -> (text: String)
        ensures
            exists|sorted: Seq<String>|
                {
                    &&& #[trigger] ordered(sorted)
                    &&& sorted.to_multiset() == entries@.to_multiset()
                    &&& text@ == self.report_text(texts_of(sorted))
                },
    {
        let sorted = sort_strings(entries);
        let text = self.report(&sorted);
        assert(ordered(sorted@));
        text
    }
}

impl ListDirectory {
    /// Whether the walk goes on to an entry: every directory is walked, so
    /// that what is below it can match, and of the files those that match the
    /// pattern, if there is one.
    pub fn walks_entry(is_dir: bool, path: &str, pattern: Option<&str>) -> (walked: bool)
        ensures
            walked == (is_dir || match pattern {
                Some(pattern) => glob_holds(pattern@, path@),
                None => true,
            }),
    {
        if is_dir {
            return true;
        }
        match pattern {
            Some(pattern) => compiled_matches(pattern, path),
            None => true,
        }
    }

    /// Whether an entry is listed: the directory listed is not, and of the
    /// others those that match the pattern, if there is one.
    pub fn shows_entry(path: &str, base_path: &str, pattern: Option<&str>) -> (shown: bool)
        ensures
            shown == (path@ != base_path@ && match pattern {
                Some(pattern) => glob_holds(pattern@, path@),
                None => true,
            }),
    {
        if same_text(path, base_path) {
            return false;
        }
        match pattern {
            Some(pattern) => compiled_matches(pattern, path),
            None => true,
        }
    }
}

} // verus!
