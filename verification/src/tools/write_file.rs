//! Writing a file for a named session.

use crate::state::resolves_to;
use crate::state::FsTools;
use crate::state::ResolveError;
use crate::state::DEFAULT_SESSION_ID;
use crate::text::decimal;
use crate::text::push_decimal;
use crate::text::push_str;
use crate::text::string_of;
use crate::state::change_tracked;
use vstd::prelude::*;
use vstd::utf8::encode_utf8;

verus! {

/// Write contents to a file, optionally creating any directories needed
#[derive(Debug)]
pub struct WriteFile {
    /// Path to write to
    /// Can be absolute, or relative to session context path.
    pub path: String,
    /// Optional session identifier for context
    pub session_id: Option<String>,
    /// The full contents of the file, expressed as a utf8 string
    pub contents: String,
    /// Overwrite file if it exists
    /// Default: false
    pub overwrite: Option<bool>,
    /// Create any directories leading up to this file if they don't already exist
    /// Default: true
    pub create_directories: Option<bool>,
}

impl WriteFile {
    /// The session that the request names, or the shared default.
    pub open spec fn session(&self) -> Seq<char> {
        match self.session_id {
            Some(id) => id@,
            None => DEFAULT_SESSION_ID@,
        }
    }

    pub open spec fn spec_overwrite(&self) -> bool {
        match self.overwrite {
            Some(value) => value,
            None => false,
        }
    }

    pub open spec fn spec_create_directories(&self) -> bool {
        match self.create_directories {
            Some(value) => value,
            None => true,
        }
    }

    /// The answer after the contents were written to `path`.
    pub open spec fn report_text(&self, path: Seq<char>) -> Seq<char> {
        "Successfully wrote "@ + decimal(encode_utf8(self.contents@).len()) + " bytes to "@ + path
    }

    #[verifier::when_used_as_spec(spec_overwrite)]
    pub fn overwrite(&self) -> (value: bool)
        ensures
            value == self.spec_overwrite(),
    {
        match self.overwrite {
            Some(value) => value,
            None => false,
        }
    }

    #[verifier::when_used_as_spec(spec_create_directories)]
    pub fn create_directories(&self) -> (value: bool)
        ensures
            value == self.spec_create_directories(),
    {
        match self.create_directories {
            Some(value) => value,
            None => true,
        }
    }

    /// Resolves the path of the file to write.
    pub fn prepare(&self, state: &mut FsTools) -> (target: Result<String, ResolveError>)
        requires
            old(state).wf(),
        ensures
            final(state).wf(),
            change_tracked(
                old(state).unsaved(),
                final(state).unsaved(),
                old(state)@,
                final(state)@,
            ),
            resolves_to(old(state)@, final(state)@, self.path@, self.session(), target),
    {
        match &self.session_id {
            Some(id) => state.resolve_path(self.path.as_str(), Some(id.as_str())),
            None => state.resolve_path(self.path.as_str(), None),
        }
    }

    /// The answer after the contents were written to `path`.
    pub fn report(&self, path: &str) -> (text: String)
        ensures
            text@ == self.report_text(path@),
    {
        let mut out: Vec<char> = Vec::new();
        let written_bytes: usize = self.contents.as_str().as_bytes().len();
        push_str(&mut out, "Successfully wrote ");
        push_decimal(&mut out, written_bytes as u64);
        push_str(&mut out, " bytes to ");
        push_str(&mut out, path);
        string_of(&out)
    }
}

} // verus!
