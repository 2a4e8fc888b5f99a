//! Setting the working directory that relative paths are taken from.

use crate::clock::system_now;
use crate::clock::Timestamp;
use crate::paths::expand_tilde;
use crate::paths::tilde_outcome;
use crate::session::SessionEntry;
use crate::state::context_of;
use crate::state::context_written;
use crate::state::resolved_from;
use crate::state::FsTools;
use crate::state::ResolveError;
use crate::state::SharedContextData;
use crate::state::DEFAULT_SESSION_ID;
use crate::text::push_str;
use crate::text::string_of;
use crate::arguments::read_required_text;
use crate::arguments::required_text;
use crate::json::Json;
use crate::json::JsonValue;
use crate::paths::is_absolute;
use crate::paths::joined;
use crate::paths::names_home;
use crate::state::resolves_to;
use vstd::prelude::*;

verus! {

/// Set the working context path
#[derive(Debug)]
pub struct SetWorkingDirectory {
    /// New working directory. All relative paths will be relative to this path
    pub path: String,
}

/// What setting the working directory to `path` does and answers, where
/// `expanded` is `path` after tilde expansion: the path is resolved like any
/// other, against the working directory that was set before; if that
/// succeeds, the resolved path becomes the working directory of the shared
/// default session and is named in the answer; if not, no working directory
/// is set.
pub open spec fn directory_set(
    before: Map<Seq<char>, SessionEntry<SharedContextData>>,
    after: Map<Seq<char>, SessionEntry<SharedContextData>>,
    path: Seq<char>,
    expanded: Seq<char>,
    answer: Result<String, ResolveError>,
) -> bool {
    exists|between: Map<Seq<char>, SessionEntry<SharedContextData>>, resolved: Result<String, ResolveError>|
        {
            &&& #[trigger] resolved_from(
                before,
                between,
                path,
                expanded,
                DEFAULT_SESSION_ID@,
                resolved,
            )
            &&& match resolved {
                Err(error) => after == between && answer == Err::<String, ResolveError>(error),
                Ok(directory) => {
                    &&& exists|now: Timestamp|
                        context_written(between, after, DEFAULT_SESSION_ID@, now, directory)
                    &&& context_of(after, DEFAULT_SESSION_ID@) == Some(directory@)
                    &&& answer is Ok
                    &&& answer->Ok_0@ == SetWorkingDirectory::report_text(directory@)
                },
            }
        }
}

impl SetWorkingDirectory {
    /// The answer after `directory` became the working directory.
    pub open spec fn report_text(directory: Seq<char>) -> Seq<char> {
        "Set context to "@ + directory
    }

    /// Sets the working directory, where `expanded` is the path after tilde
    /// expansion and `now` the time of the request.
    pub fn execute_expanded(self, state: &mut FsTools, expanded: String, now: Timestamp) -> (answer:
        Result<String, ResolveError>)
        requires
            old(state).wf(),
        ensures
            final(state).wf(),
            final(state).unsaved(),
            directory_set(old(state)@, final(state)@, self.path@, expanded@, answer),
    {
        let ghost before = state@;
        let resolved = state.resolve_expanded(self.path.as_str(), expanded, None, now);
        let ghost between = state@;
        assert(resolved_from(before, between, self.path@, expanded@, DEFAULT_SESSION_ID@, resolved));
        match resolved {
            Err(error) => Err(error),
            Ok(new_context_path) => {
                let mut out: Vec<char> = Vec::new();
                push_str(&mut out, "Set context to ");
                push_str(&mut out, new_context_path.as_str());
                let response = string_of(&out);
                state.set_working_directory_at(new_context_path, None, now);
                assert(context_written(between, state@, DEFAULT_SESSION_ID@, now, new_context_path));
                Ok(response)
            },
        }
    }

    /// Sets the working directory.
    pub fn execute(self, state: &mut FsTools) -> (answer: Result<String, ResolveError>)
        requires
            old(state).wf(),
        ensures
            final(state).wf(),
            final(state).unsaved(),
            exists|expanded: Seq<char>|
                #[trigger] tilde_outcome(self.path@, expanded) && directory_set(
                    old(state)@,
                    final(state)@,
                    self.path@,
                    expanded,
                    answer,
                ),
    {
        let expanded = expand_tilde(self.path.as_str());
        let now = system_now();
        let ghost shown = expanded@;
        let ghost path = self.path@;
        let answer = self.execute_expanded(state, expanded, now);
        assert(tilde_outcome(path, shown));
        answer
    }
}

impl SetWorkingDirectory {
    /// The arguments `args` can be read as a request to set the working
    /// directory.
    pub open spec fn readable(args: JsonValue) -> bool {
        required_text(args, "path"@) is Some
    }

    /// This request is what the arguments `args` say.
    pub open spec fn reads(&self, args: JsonValue) -> bool {
        required_text(args, "path"@) == Some(self.path@)
    }

    /// Reads the request from its arguments.
    pub fn decode(args: &Json) -> (tool: Option<SetWorkingDirectory>)
        ensures
            tool is Some == SetWorkingDirectory::readable(args@),
            tool is Some ==> tool->0.reads(args@),
    {
        match read_required_text(args, "path") {
            Some(path) => Some(SetWorkingDirectory { path }),
            None => None,
        }
    }
}

/// After the working directory was set to an absolute path, a relative path
/// resolves, for the shared default session, to that path taken from the
/// directory.
pub proof fn relative_path_follows_working_directory(
    before: Map<Seq<char>, SessionEntry<SharedContextData>>,
    between: Map<Seq<char>, SessionEntry<SharedContextData>>,
    after: Map<Seq<char>, SessionEntry<SharedContextData>>,
    directory: Seq<char>,
    relative: Seq<char>,
    answer: Result<String, ResolveError>,
    resolved: Result<String, ResolveError>,
)
    requires
        is_absolute(directory),
        !is_absolute(relative),
        !names_home(relative),
        directory_set(before, between, directory, directory, answer),
        resolves_to(between, after, relative, DEFAULT_SESSION_ID@, resolved),
    ensures
        answer is Ok,
        answer->Ok_0@ == SetWorkingDirectory::report_text(directory),
        resolved is Ok,
        resolved->Ok_0@ == joined(directory, relative),
{
}

} // verus!
