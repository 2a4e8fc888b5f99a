//! Setting the working context of a named session.

use crate::clock::system_now;
use crate::clock::Timestamp;
use crate::state::context_of;
use crate::state::context_written;
use crate::state::FsTools;
use crate::text::push_str;
use crate::text::string_of;
use vstd::prelude::*;

verus! {

/// Set the working context path for a session
#[derive(Debug)]
pub struct SetContext {
    /// Directory path to set as context
    pub path: String,
    /// Session identifier
    pub session_id: String,
}

impl SetContext {
    /// The answer after the context was set.
    pub open spec fn report_text(&self) -> Seq<char> {
        "Set context to "@ + self.path@ + " for session '"@ + self.session_id@ + "'"@
    }

    /// Records the path, as it is given, as the context of the session, at
    /// time `now`.
    pub fn execute_at(self, state: &mut FsTools, now: Timestamp) -> (response: String)
        requires
            old(state).wf(),
        ensures
            final(state).wf(),
            final(state).unsaved(),
            context_written(old(state)@, final(state)@, self.session_id@, now, self.path),
            context_of(final(state)@, self.session_id@) == Some(self.path@),
            response@ == self.report_text(),
    {
        let mut out: Vec<char> = Vec::new();
        push_str(&mut out, "Set context to ");
        push_str(&mut out, self.path.as_str());
        push_str(&mut out, " for session '");
        push_str(&mut out, self.session_id.as_str());
        push_str(&mut out, "'");
        let response = string_of(&out);
        state.set_working_directory_at(self.path, Some(self.session_id.as_str()), now);
        response
    }

    /// Records the path, as it is given, as the context of the session.
    pub fn execute(self, state: &mut FsTools) -> (response: String)
        requires
            old(state).wf(),
        ensures
            final(state).wf(),
            final(state).unsaved(),
            exists|now: Timestamp|
                context_written(old(state)@, final(state)@, self.session_id@, now, self.path),
            context_of(final(state)@, self.session_id@) == Some(self.path@),
            response@ == self.report_text(),
    {
        let now = system_now();
        self.execute_at(state, now)
    }
}

} // verus!
