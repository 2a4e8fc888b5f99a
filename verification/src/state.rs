//! The working-directory context of each session, and the resolution of
//! caller-supplied paths against it.

use crate::clock::system_now;
use crate::clock::Timestamp;
use crate::paths::expand_tilde;
use crate::paths::is_absolute;
use crate::paths::join_paths;
use crate::paths::joined;
use crate::paths::names_home;
use crate::paths::path_is_absolute;
use crate::paths::tilde_outcome;
use crate::session::accessed;
use crate::session::SessionEntry;
use crate::session::SessionStore;
use crate::text::push_str;
use crate::text::string_of;
use vstd::prelude::*;

verus! {

/// The session that callers share when they name none.
pub const DEFAULT_SESSION_ID: &'static str = "default";

/// Context data that is shared between the callers of one session.
#[derive(Debug, PartialEq, Eq)]
pub struct SharedContextData {
    /// Current working context path
    pub context_path: Option<String>,
}

impl Default for SharedContextData {
    fn default() -> (data: Self)
        ensures
            data.context_path is None,
    {
        SharedContextData { context_path: None }
    }
}

impl Clone for SharedContextData {
    fn clone(&self) -> (copy: Self)
        ensures
            copy == *self,
    {
        match &self.context_path {
            Some(path) => SharedContextData { context_path: Some(path.clone()) },
            None => SharedContextData { context_path: None },
        }
    }
}

/// Why a path could not be resolved.
#[derive(Debug)]
pub enum ResolveError {
    /// The path is relative and the session has no working directory.
    NoContext { session_id: String },
}

impl ResolveError {
    /// The text of the error, as it is shown to the caller.
    pub open spec fn text(self) -> Seq<char> {
        match self {
            ResolveError::NoContext { session_id } => "No context found for `"@ + session_id@
                + "`. Use set_working_directory first or provide an absolute path."@,
        }
    }

    /// The text of the error, as it is shown to the caller.
    pub fn message(&self) -> (message: String)
        ensures
            message@ == self.text(),
    {
        match self {
            ResolveError::NoContext { session_id } => {
                let mut out: Vec<char> = Vec::new();
                push_str(&mut out, "No context found for `");
                push_str(&mut out, session_id.as_str());
                push_str(
                    &mut out,
                    "`. Use set_working_directory first or provide an absolute path.",
                );
                string_of(&out)
            },
        }
    }
}

/// The working directory recorded for `session` in `sessions`, if any.
pub open spec fn context_of(
    sessions: Map<Seq<char>, SessionEntry<SharedContextData>>,
    session: Seq<char>,
) -> Option<Seq<char>> {
    if sessions.contains_key(session) {
        match sessions[session].data.context_path {
            Some(path) => Some(path@),
            None => None,
        }
    } else {
        None
    }
}

/// The session that a request means: the one it names, or the shared default.
pub open spec fn session_of(session_id: Option<&str>) -> Seq<char> {
    match session_id {
        Some(id) => id@,
        None => DEFAULT_SESSION_ID@,
    }
}

/// What resolving `path` gives, where `expanded` is the path after tilde
/// expansion and `context` the working directory of the session: an absolute
/// path stands for itself, a relative one is taken from the working
/// directory, and without a working directory a relative path is refused.
pub open spec fn resolution(
    path: Seq<char>,
    expanded: Seq<char>,
    context: Option<Seq<char>>,
) -> Option<Seq<char>> {
    if is_absolute(expanded) {
        Some(expanded)
    } else {
        match context {
            Some(directory) => Some(joined(directory, path)),
            None => None,
        }
    }
}

/// A look at the context of session `id` at time `now`: an access that
/// creates the session without a working directory if it is new, and leaves
/// the payload of an existing session as it is.
pub open spec fn context_read(
    before: Map<Seq<char>, SessionEntry<SharedContextData>>,
    after: Map<Seq<char>, SessionEntry<SharedContextData>>,
    id: Seq<char>,
    now: Timestamp,
) -> bool {
    &&& accessed(before, after, id, now)
    &&& before.contains_key(id) ==> after[id].data == before[id].data
    &&& !before.contains_key(id) ==> after[id].data.context_path is None
}

/// The recording of `path` as the working directory of session `id` at time
/// `now`.
pub open spec fn context_written(
    before: Map<Seq<char>, SessionEntry<SharedContextData>>,
    after: Map<Seq<char>, SessionEntry<SharedContextData>>,
    id: Seq<char>,
    now: Timestamp,
    path: String,
) -> bool {
    &&& accessed(before, after, id, now)
    &&& after[id].data.context_path == Some(path)
}

/// A look at the context of session `id` at some time.
pub open spec fn context_read_at_some_time(
    before: Map<Seq<char>, SessionEntry<SharedContextData>>,
    after: Map<Seq<char>, SessionEntry<SharedContextData>>,
    id: Seq<char>,
) -> bool {
    exists|now: Timestamp| context_read(before, after, id, now)
}

/// What resolving `path` for `session` does and gives, where `expanded` is
/// `path` after tilde expansion: an absolute path leaves the sessions alone
/// and stands for itself; a relative one is a look at the session's context,
/// and is taken from the working directory or, without one, refused with an
/// error that names the session.
pub open spec fn resolved_from(
    before: Map<Seq<char>, SessionEntry<SharedContextData>>,
    after: Map<Seq<char>, SessionEntry<SharedContextData>>,
    path: Seq<char>,
    expanded: Seq<char>,
    session: Seq<char>,
    resolved: Result<String, ResolveError>,
) -> bool {
    &&& is_absolute(expanded) ==> after == before
    &&& !is_absolute(expanded) ==> context_read_at_some_time(before, after, session)
    &&& match resolved {
        Ok(found) => resolution(path, expanded, context_of(before, session)) == Some(found@),
        Err(ResolveError::NoContext { session_id }) => {
            &&& resolution(path, expanded, context_of(before, session)) is None
            &&& session_id@ == session
        },
    }
}

/// What resolving `path` for `session` does and gives, whatever tilde
/// expansion makes of the path.
pub open spec fn resolves_to(
    before: Map<Seq<char>, SessionEntry<SharedContextData>>,
    after: Map<Seq<char>, SessionEntry<SharedContextData>>,
    path: Seq<char>,
    session: Seq<char>,
    resolved: Result<String, ResolveError>,
) -> bool {
    exists|expanded: Seq<char>|
        #[trigger] tilde_outcome(path, expanded) && resolved_from(
            before,
            after,
            path,
            expanded,
            session,
            resolved,
        )
}

/// Whatever was done to the sessions is on record: what was to be saved
/// before is still to be saved, and sessions that are not as they were are
/// to be saved.
pub open spec fn change_tracked(
    unsaved_before: bool,
    unsaved_after: bool,
    before: Map<Seq<char>, SessionEntry<SharedContextData>>,
    after: Map<Seq<char>, SessionEntry<SharedContextData>>,
) -> bool {
    &&& unsaved_before ==> unsaved_after
    &&& after != before ==> unsaved_after
}

/// Resolving `path` looks at a session exactly when the path is relative. Of
/// a path that names the home directory nothing is said: what it expands to
/// depends on whether a home directory is known.
pub open spec fn lookup_tracked(unsaved_before: bool, unsaved_after: bool, path: Seq<char>) -> bool {
    !names_home(path) ==> unsaved_after == (unsaved_before || !is_absolute(path))
}

/// Resolving `paths` looks at a session exactly when one of them is
/// relative. Nothing is said where one of them names the home directory.
pub open spec fn lookups_tracked(
    unsaved_before: bool,
    unsaved_after: bool,
    paths: Seq<Seq<char>>,
) -> bool {
    (forall|i: int| 0 <= i < paths.len() ==> !names_home(#[trigger] paths[i])) ==> unsaved_after == (
    unsaved_before || exists|i: int| 0 <= i < paths.len() && !is_absolute(#[trigger] paths[i]))
}

/// Resolving one more path after some others: what holds of the others and
/// of the last one holds of all.
pub proof fn lemma_lookup_one_more(
    unsaved_before: bool,
    unsaved_between: bool,
    unsaved_after: bool,
    paths: Seq<Seq<char>>,
)
    requires
        paths.len() > 0,
        lookups_tracked(unsaved_before, unsaved_between, paths.drop_last()),
        lookup_tracked(unsaved_between, unsaved_after, paths.last()),
    ensures
        lookups_tracked(unsaved_before, unsaved_after, paths),
{
    let front = paths.drop_last();
    if forall|i: int| 0 <= i < paths.len() ==> !names_home(#[trigger] paths[i]) {
        assert forall|i: int| 0 <= i < front.len() implies !names_home(#[trigger] front[i]) by {
            assert(front[i] == paths[i]);
        }
        assert(!names_home(paths[paths.len() - 1]));
        if exists|i: int| 0 <= i < front.len() && !is_absolute(#[trigger] front[i]) {
            let k = choose|i: int| 0 <= i < front.len() && !is_absolute(#[trigger] front[i]);
            assert(!is_absolute(paths[k]));
        }
        if !is_absolute(paths.last()) {
            assert(!is_absolute(paths[paths.len() - 1]));
        }
        if exists|i: int| 0 <= i < paths.len() && !is_absolute(#[trigger] paths[i]) {
            let k = choose|i: int| 0 <= i < paths.len() && !is_absolute(#[trigger] paths[i]);
            if k < front.len() {
                assert(!is_absolute(front[k]));
            }
        }
    }
}

/// Filesystem tools with session support
pub struct FsTools {
    /// Shared context store for cross-server communication
    shared_context_store: SessionStore<SharedContextData>,
}

impl View for FsTools {
    type V = Map<Seq<char>, SessionEntry<SharedContextData>>;

    closed spec fn view(&self) -> Map<Seq<char>, SessionEntry<SharedContextData>> {
        self.shared_context_store@
    }
}

impl FsTools {
    pub closed spec fn wf(&self) -> bool {
        self.shared_context_store.wf()
    }

    /// Whether a session was accessed since a save was last begun.
    pub closed spec fn unsaved(&self) -> bool {
        self.shared_context_store.unsaved()
    }

    /// Whether a session was accessed since a save was last begun.
    pub fn needs_saving(&self) -> (needed: bool)
        requires
            self.wf(),
        ensures
            needed == self.unsaved(),
    {
        self.shared_context_store.needs_saving()
    }

    /// Begins a save. Tells whether the sessions are to be written, which is
    /// so when one was accessed since the last save was begun; from here on
    /// only later accesses count.
    pub fn begin_save(&mut self) -> (due: bool)
        requires
            old(self).wf(),
        ensures
            final(self).wf(),
            final(self)@ == old(self)@,
            due == old(self).unsaved(),
            !final(self).unsaved(),
    {
        self.shared_context_store.begin_save()
    }

    /// Tools that keep their context in `shared_context_store`.
    pub fn new(shared_context_store: SessionStore<SharedContextData>) -> (tools: Self)
        requires
            shared_context_store.wf(),
        ensures
            tools.wf(),
            tools@ == shared_context_store@,
            tools.unsaved() == shared_context_store.unsaved(),
    {
        FsTools { shared_context_store }
    }

    /// The store that holds the context of every session.
    pub fn shared_context_store(&self) -> (store: &SessionStore<SharedContextData>)
        requires
            self.wf(),
        ensures
            store.wf(),
            store@ == self@,
    {
        &self.shared_context_store
    }

    pub fn default_session_id(&self) -> (id: &'static str)
        ensures
            id@ == DEFAULT_SESSION_ID@,
    {
        DEFAULT_SESSION_ID
    }

    /// Get context for a session, at time `now`.
    pub fn get_context_at(&mut self, session_id: Option<&str>, now: Timestamp) -> (context:
        Option<String>)
        requires
            old(self).wf(),
        ensures
            final(self).wf(),
            final(self).unsaved(),
            context_read(old(self)@, final(self)@, session_of(session_id), now),
            match context {
                Some(path) => context_of(old(self)@, session_of(session_id)) == Some(path@),
                None => context_of(old(self)@, session_of(session_id)) is None,
            },
            context_of(final(self)@, session_of(session_id)) == context_of(
                old(self)@,
                session_of(session_id),
            ),
    {
        let id = match session_id {
            Some(id) => id,
            None => self.default_session_id(),
        };
        let session_data = self.shared_context_store.get_or_create_at(id, now);
        session_data.context_path
    }

    /// Get context for a session
    pub fn get_context(&mut self, session_id: Option<&str>) -> (context: Option<String>)
        requires
            old(self).wf(),
        ensures
            final(self).wf(),
            final(self).unsaved(),
            exists|now: Timestamp|
                context_read(old(self)@, final(self)@, session_of(session_id), now),
            match context {
                Some(path) => context_of(old(self)@, session_of(session_id)) == Some(path@),
                None => context_of(old(self)@, session_of(session_id)) is None,
            },
            context_of(final(self)@, session_of(session_id)) == context_of(
                old(self)@,
                session_of(session_id),
            ),
    {
        let now = system_now();
        self.get_context_at(session_id, now)
    }

    /// Records `path` as the working directory of a session, at time `now`.
    pub fn set_working_directory_at(
        &mut self,
        path: String,
        session_id: Option<&str>,
        now: Timestamp,
    )
        requires
            old(self).wf(),
        ensures
            final(self).wf(),
            final(self).unsaved(),
            context_written(old(self)@, final(self)@, session_of(session_id), now, path),
            context_of(final(self)@, session_of(session_id)) == Some(path@),
    {
        let id = match session_id {
            Some(id) => id,
            None => self.default_session_id(),
        };
        let record = move |shared_data: SharedContextData| -> (changed: SharedContextData)
            ensures
                changed.context_path == Some(path),
            {
                let mut shared_data = shared_data;
                shared_data.context_path = Some(path);
                shared_data
            };
        self.shared_context_store.update_at(id, now, record);
    }

    /// Records `path` as the working directory of a session.
    pub fn set_working_directory(&mut self, path: String, session_id: Option<&str>)
        requires
            old(self).wf(),
        ensures
            final(self).wf(),
            final(self).unsaved(),
            exists|now: Timestamp|
                context_written(old(self)@, final(self)@, session_of(session_id), now, path),
            context_of(final(self)@, session_of(session_id)) == Some(path@),
    {
        let now = system_now();
        self.set_working_directory_at(path, session_id, now)
    }

    /// Resolves `path_str` for a session, where `expanded` is `path_str` after
    /// tilde expansion and `now` the time of the request. An absolute path is
    /// returned as it is and the sessions are not looked at; a relative path
    /// is taken from the session's working directory, and refused if the
    /// session has none.
    pub fn resolve_expanded(
        &mut self,
        path_str: &str,
        expanded: String,
        session_id: Option<&str>,
        now: Timestamp,
    ) -> (resolved: Result<String, ResolveError>)
        requires
            old(self).wf(),
        ensures
            final(self).wf(),
            final(self).unsaved() == (old(self).unsaved() || !is_absolute(expanded@)),
            is_absolute(expanded@) ==> final(self)@ == old(self)@,
            !is_absolute(expanded@) ==> context_read(
                old(self)@,
                final(self)@,
                session_of(session_id),
                now,
            ),
            match resolved {
                Ok(path) => resolution(
                    path_str@,
                    expanded@,
                    context_of(old(self)@, session_of(session_id)),
                ) == Some(path@),
                Err(ResolveError::NoContext { session_id: named }) => {
                    &&& resolution(
                        path_str@,
                        expanded@,
                        context_of(old(self)@, session_of(session_id)),
                    ) is None
                    &&& named@ == session_of(session_id)
                },
            },
    {
        if path_is_absolute(expanded.as_str()) {
            return Ok(expanded);
        }
        let id = match session_id {
            Some(id) => id,
            None => self.default_session_id(),
        };
        match self.get_context_at(Some(id), now) {
            Some(context) => Ok(join_paths(context.as_str(), path_str)),
            None => Err(ResolveError::NoContext { session_id: id.to_owned() }),
        }
    }

    /// Resolve a path relative to session context if needed
    pub fn resolve_path(&mut self, path_str: &str, session_id: Option<&str>) -> (resolved: Result<
        String,
        ResolveError,
    >)
        requires
            old(self).wf(),
        ensures
            final(self).wf(),
            change_tracked(old(self).unsaved(), final(self).unsaved(), old(self)@, final(self)@),
            lookup_tracked(old(self).unsaved(), final(self).unsaved(), path_str@),
            resolves_to(old(self)@, final(self)@, path_str@, session_of(session_id), resolved),
    {
        let expanded = expand_tilde(path_str);
        let now = system_now();
        let ghost shown = expanded@;
        let resolved = self.resolve_expanded(path_str, expanded, session_id, now);
        assert(tilde_outcome(path_str@, shown));
        assert(context_read(old(self)@, self@, session_of(session_id), now) ==> context_read_at_some_time(
            old(self)@,
            self@,
            session_of(session_id),
        ));
        assert(resolved_from(old(self)@, self@, path_str@, shown, session_of(session_id), resolved));
        resolved
    }
}

/// Resolving an absolute path does not look at the sessions: they are left
/// exactly as they were, and the path is returned as it is.
pub proof fn absolute_path_leaves_sessions(
    before: Map<Seq<char>, SessionEntry<SharedContextData>>,
    after: Map<Seq<char>, SessionEntry<SharedContextData>>,
    path: Seq<char>,
    session: Seq<char>,
    resolved: Result<String, ResolveError>,
)
    requires
        is_absolute(path),
        resolves_to(before, after, path, session, resolved),
    ensures
        after == before,
        resolved is Ok,
        resolved->Ok_0@ == path,
{
}

/// Resolving an absolute path asks for no save, and resolving a relative one
/// that does not name the home directory asks for one.
pub proof fn only_relative_paths_ask_for_a_save(
    unsaved_before: bool,
    unsaved_after: bool,
    path: Seq<char>,
)
    requires
        lookup_tracked(unsaved_before, unsaved_after, path),
    ensures
        is_absolute(path) ==> unsaved_after == unsaved_before,
        !is_absolute(path) && !names_home(path) ==> unsaved_after,
{
}

/// Resolving a relative path for a session without a working directory fails
/// with an error that names that session.
pub proof fn relative_path_needs_context(
    before: Map<Seq<char>, SessionEntry<SharedContextData>>,
    after: Map<Seq<char>, SessionEntry<SharedContextData>>,
    path: Seq<char>,
    session: Seq<char>,
    resolved: Result<String, ResolveError>,
)
    requires
        !is_absolute(path),
        !names_home(path),
        context_of(before, session) is None,
        resolves_to(before, after, path, session, resolved),
    ensures
        resolved is Err,
        resolved->Err_0 matches ResolveError::NoContext { session_id } && session_id@ == session,
        context_of(after, session) is None,
{
}

/// Resolving a relative path for a session with a working directory gives
/// the path taken from that directory, and leaves the working directory as it
/// is.
pub proof fn relative_path_is_taken_from_context(
    before: Map<Seq<char>, SessionEntry<SharedContextData>>,
    after: Map<Seq<char>, SessionEntry<SharedContextData>>,
    path: Seq<char>,
    session: Seq<char>,
    directory: Seq<char>,
    resolved: Result<String, ResolveError>,
)
    requires
        !is_absolute(path),
        !names_home(path),
        context_of(before, session) == Some(directory),
        resolves_to(before, after, path, session, resolved),
    ensures
        resolved is Ok,
        resolved->Ok_0@ == joined(directory, path),
        context_of(after, session) == Some(directory),
{
}

/// Asks `dirs::home_dir` for the home directory of the user, which the
/// operating system or the environment gives or does not give. Nothing is
/// claimed of the answer. A home directory that is not valid Unicode counts
/// as none.
#[verifier::external_body]
fn home_directory() -> (home: Option<String>) {
    dirs::home_dir().and_then(|home| home.into_os_string().into_string().ok())
}

/// Where the contexts are kept for a user whose home directory is `home`:
/// in `.ai-tools/sessions/shared-context.json` below the home directory, or
/// below the current directory where no home directory is known.
pub open spec fn storage_location(home: Option<Seq<char>>) -> Seq<char> {
    joined(
        joined(
            joined(
                match home {
                    Some(home) => home,
                    None => "."@,
                },
                ".ai-tools"@,
            ),
            "sessions"@,
        ),
        "shared-context.json"@,
    )
}

impl FsTools {
    /// Where the contexts are kept for a user whose home directory is `home`.
    pub fn storage_path(home: Option<&str>) -> (path: String)
        ensures
            path@ == storage_location(
                match home {
                    Some(home) => Some(home@),
                    None => None,
                },
            ),
    {
        let start = match home {
            Some(home) => home,
            None => ".",
        };
        let tools = join_paths(start, ".ai-tools");
        let sessions = join_paths(tools.as_str(), "sessions");
        join_paths(sessions.as_str(), "shared-context.json")
    }

    /// Where the contexts are kept for the user who runs the program.
    pub fn default_storage_path() -> (path: String)
        ensures
            exists|home: Option<Seq<char>>| path@ == #[trigger] storage_location(home),
    {
        match home_directory() {
            Some(home) => {
                let path = FsTools::storage_path(Some(home.as_str()));
                assert(path@ == storage_location(Some(home@)));
                path
            },
            None => {
                let path = FsTools::storage_path(None);
                assert(path@ == storage_location(None));
                path
            },
        }
    }
}

} // verus!
