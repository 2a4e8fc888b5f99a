//! Removing a file.

use crate::state::resolves_to;
use crate::state::FsTools;
use crate::state::ResolveError;
use crate::state::DEFAULT_SESSION_ID;
use crate::text::push_str;
use crate::text::string_of;
use crate::arguments::read_required_text;
use crate::arguments::required_text;
use crate::json::Json;
use crate::json::JsonValue;
use crate::state::change_tracked;
use crate::state::lookup_tracked;
use vstd::prelude::*;

verus! {

/// Remove a file from disk
#[derive(Debug)]
pub struct Delete {
    /// Path to delete
    /// Can be absolute, or relative to working directory.
    pub path: String,
}

impl Delete {
    /// The answer after `path` was removed.
    pub open spec fn report_text(path: Seq<char>) -> Seq<char> {
        "Successfully deleted "@ + path
    }

    /// Resolves the path of the file to remove.
    pub fn prepare(&self, state: &mut FsTools) -> (target: Result<String, ResolveError>)
        requires
            old(state).wf(),
        ensures
            final(state).wf(),
            change_tracked(
                old(state).unsaved(),
                final(state).unsaved(),
                old(state)@,
                final(state)@,
            ),
            lookup_tracked(old(state).unsaved(), final(state).unsaved(), self.path@),
            resolves_to(old(state)@, final(state)@, self.path@, DEFAULT_SESSION_ID@, target),
    {
        state.resolve_path(self.path.as_str(), None)
    }

    /// The answer after `path` was removed.
    pub fn report(path: &str) -> (text: String)
        ensures
            text@ == Self::report_text(path@),
    {
        let mut out: Vec<char> = Vec::new();
        push_str(&mut out, "Successfully deleted ");
        push_str(&mut out, path);
        string_of(&out)
    }
}

impl Delete {
    /// The arguments `args` can be read as a request to delete.
    pub open spec fn readable(args: JsonValue) -> bool {
        required_text(args, "path"@) is Some
    }

    /// This request is what the arguments `args` say.
    pub open spec fn reads(&self, args: JsonValue) -> bool {
        required_text(args, "path"@) == Some(self.path@)
    }

    /// Reads the request from its arguments.
    pub fn decode(args: &Json) -> (tool: Option<Delete>)
        ensures
            tool is Some == Delete::readable(args@),
            tool is Some ==> tool->0.reads(args@),
    {
        match read_required_text(args, "path") {
            Some(path) => Some(Delete { path }),
            None => None,
        }
    }
}

} // verus!
