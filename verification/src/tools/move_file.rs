//! Moving a file from one place to another.

use crate::state::resolves_to;
use crate::state::FsTools;
use crate::state::ResolveError;
use crate::state::SharedContextData;
use crate::session::SessionEntry;
use crate::text::push_str;
use crate::text::string_of;
use crate::arguments::optional_bool;
use crate::arguments::optional_text;
use crate::arguments::read_optional_bool;
use crate::arguments::read_optional_text;
use crate::arguments::read_required_text;
use crate::arguments::required_text;
use crate::arguments::text_of;
use crate::json::Json;
use crate::json::JsonValue;
use crate::state::change_tracked;
use crate::state::lookups_tracked;
use vstd::prelude::*;

verus! {

/// Move a file from one location to another
#[derive(Debug)]
pub struct Move {
    /// Path to move from
    /// Can be absolute, or relative to session context path.
    pub source: String,
    /// Path to move to
    /// Can be absolute, or relative to session context path.
    pub destination: String,
    /// Optional session identifier for context
    pub session_id: Option<String>,
    /// Overwrite destination file if it exists
    /// Default: false
    pub overwrite: Option<bool>,
    /// Create any directories leading up to the destination path if they don't already exist
    /// Default: true
    pub create_directories: Option<bool>,
}

/// The resolved paths of a move.
#[derive(Debug)]
pub struct MovePlan {
    pub source: String,
    pub destination: String,
}

/// Why a move is not carried out.
#[derive(Debug, Clone, Copy, PartialEq, Eq, Structural)]
pub enum MoveRefusal {
    /// The destination exists and may not be replaced.
    DestinationExists,
    /// There is nothing at the source.
    SourceMissing,
}

impl Move {
    /// The session that the move names, if it names one.
    pub open spec fn session(&self) -> Seq<char> {
        match self.session_id {
            Some(id) => id@,
            None => crate::state::DEFAULT_SESSION_ID@,
        }
    }

    pub open spec fn spec_overwrite(&self) -> bool {
        match self.overwrite {
            Some(value) => value,
            None => false,
        }
    }

    pub open spec fn spec_create_directories(&self) -> bool {
        match self.create_directories {
            Some(value) => value,
            None => true,
        }
    }

    #[verifier::when_used_as_spec(spec_overwrite)]
    pub fn overwrite(&self) -> (value: bool)
        ensures
            value == self.spec_overwrite(),
    {
        match self.overwrite {
            Some(value) => value,
            None => false,
        }
    }

    #[verifier::when_used_as_spec(spec_create_directories)]
    pub fn create_directories(&self) -> (value: bool)
        ensures
            value == self.spec_create_directories(),
    {
        match self.create_directories {
            Some(value) => value,
            None => true,
        }
    }

    /// What resolving the source and then the destination does and gives. A
    /// source that cannot be resolved ends the move before the destination is
    /// looked at.
    pub open spec fn prepared(
        &self,
        before: Map<Seq<char>, SessionEntry<SharedContextData>>,
        after: Map<Seq<char>, SessionEntry<SharedContextData>>,
        plan: Result<MovePlan, ResolveError>,
    ) -> bool {
        exists|
            between: Map<Seq<char>, SessionEntry<SharedContextData>>,
            first: Result<String, ResolveError>,
        |
            {
                &&& #[trigger] resolves_to(before, between, self.source@, self.session(), first)
                &&& match first {
                    Err(error) => between == after && plan == Err::<MovePlan, ResolveError>(error),
                    Ok(source) => exists|second: Result<String, ResolveError>|
                        {
                            &&& #[trigger] resolves_to(
                                between,
                                after,
                                self.destination@,
                                self.session(),
                                second,
                            )
                            &&& match second {
                                Err(error) => plan == Err::<MovePlan, ResolveError>(error),
                                Ok(destination) => plan == Ok::<MovePlan, ResolveError>(
                                    MovePlan { source, destination },
                                ),
                            }
                        },
                }
            }
    }

    /// Resolves the source and then the destination.
    pub fn prepare(&self, state: &mut FsTools) -> (plan: Result<MovePlan, ResolveError>)
        requires
            old(state).wf(),
        ensures
            final(state).wf(),
            change_tracked(
                old(state).unsaved(),
                final(state).unsaved(),
                old(state)@,
                final(state)@,
            ),
            lookups_tracked(old(state).unsaved(), final(state).unsaved(), seq![self.source@, self.destination@]),
            self.prepared(old(state)@, final(state)@, plan),
    {
        let ghost before = state@;
        let first = match &self.session_id {
            Some(id) => state.resolve_path(self.source.as_str(), Some(id.as_str())),
            None => state.resolve_path(self.source.as_str(), None),
        };
        let ghost between = state@;
        assert(resolves_to(before, between, self.source@, self.session(), first));
        match first {
            Err(error) => Err(error),
            Ok(source) => {
                let second = match &self.session_id {
                    Some(id) => state.resolve_path(self.destination.as_str(), Some(id.as_str())),
                    None => state.resolve_path(self.destination.as_str(), None),
                };
                assert(resolves_to(between, state@, self.destination@, self.session(), second));
                match second {
                    Err(error) => Err(error),
                    Ok(destination) => Ok(MovePlan { source, destination }),
                }
            },
        }
    }

    /// Decides, from what is found on disk, whether the move goes ahead. An
    /// existing destination is only replaced on request, and that is checked
    /// before the source is.
    pub fn check(&self, destination_exists: bool, source_exists: bool) -> (verdict: Result<
        (),
        MoveRefusal,
    >)
        ensures
            verdict == (if destination_exists && !self.spec_overwrite() {
                Err::<(), MoveRefusal>(MoveRefusal::DestinationExists)
            } else if !source_exists {
                Err::<(), MoveRefusal>(MoveRefusal::SourceMissing)
            } else {
                Ok::<(), MoveRefusal>(())
            }),
    {
        if destination_exists && !self.overwrite() {
            Err(MoveRefusal::DestinationExists)
        } else if !source_exists {
            Err(MoveRefusal::SourceMissing)
        } else {
            Ok(())
        }
    }
}

impl MovePlan {
    /// The answer after the file was moved.
    pub open spec fn report_text(&self) -> Seq<char> {
        "Successfully moved "@ + self.source@ + " to "@ + self.destination@
    }

    /// The text of a refusal.
    pub open spec fn refusal_text(&self, refusal: MoveRefusal) -> Seq<char> {
        match refusal {
            MoveRefusal::DestinationExists => self.destination@
                + " already exists, use `overwrite` to intentionally replace it"@,
            MoveRefusal::SourceMissing => self.source@ + " not found"@,
        }
    }

    /// The answer after the file was moved.
    pub fn report(&self) -> (text: String)
        ensures
            text@ == self.report_text(),
    {
        let mut out: Vec<char> = Vec::new();
        push_str(&mut out, "Successfully moved ");
        push_str(&mut out, self.source.as_str());
        push_str(&mut out, " to ");
        push_str(&mut out, self.destination.as_str());
        string_of(&out)
    }

    /// The text of a refusal.
    pub fn refusal(&self, refusal: MoveRefusal) -> (text: String)
        ensures
            text@ == self.refusal_text(refusal),
    {
        let mut out: Vec<char> = Vec::new();
        match refusal {
            MoveRefusal::DestinationExists => {
                push_str(&mut out, self.destination.as_str());
                push_str(&mut out, " already exists, use `overwrite` to intentionally replace it");
            },
            MoveRefusal::SourceMissing => {
                push_str(&mut out, self.source.as_str());
                push_str(&mut out, " not found");
            },
        }
        string_of(&out)
    }
}

impl Move {
    /// The arguments `args` can be read as a request to move.
    pub open spec fn readable(args: JsonValue) -> bool {
        &&& required_text(args, "source"@) is Some
        &&& required_text(args, "destination"@) is Some
        &&& optional_text(args, "session_id"@) is Some
        &&& optional_bool(args, "overwrite"@) is Some
        &&& optional_bool(args, "create_directories"@) is Some
    }

    /// This request is what the arguments `args` say.
    pub open spec fn reads(&self, args: JsonValue) -> bool {
        &&& required_text(args, "source"@) == Some(self.source@)
        &&& required_text(args, "destination"@) == Some(self.destination@)
        &&& optional_text(args, "session_id"@) == Some(text_of(self.session_id))
        &&& optional_bool(args, "overwrite"@) == Some(self.overwrite)
        &&& optional_bool(args, "create_directories"@) == Some(self.create_directories)
    }

    /// Reads the request from its arguments.
    pub fn decode(args: &Json) -> (tool: Option<Move>)
        ensures
            tool is Some == Move::readable(args@),
            tool is Some ==> tool->0.reads(args@),
    {
        let source = match read_required_text(args, "source") {
            Some(source) => source,
            None => {
                return None;
            },
        };
        let destination = match read_required_text(args, "destination") {
            Some(destination) => destination,
            None => {
                return None;
            },
        };
        let session_id = match read_optional_text(args, "session_id") {
            Some(session_id) => session_id,
            None => {
                return None;
            },
        };
        let overwrite = match read_optional_bool(args, "overwrite") {
            Some(overwrite) => overwrite,
            None => {
                return None;
            },
        };
        let create_directories = match read_optional_bool(args, "create_directories") {
            Some(create_directories) => create_directories,
            None => {
                return None;
            },
        };
        Some(Move { source, destination, session_id, overwrite, create_directories })
    }
}

} // verus!
