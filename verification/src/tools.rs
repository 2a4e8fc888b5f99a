//! The operations that callers can request, each with its arguments, the
//! paths it resolves, and the texts it answers with.

pub mod delete;
pub mod move_file;
pub mod set_context;
pub mod set_working_directory;
pub mod list;
pub mod list_directory;
pub mod read;
pub mod search;
pub mod write;
pub mod write_file;

use crate::arguments::required_text;
use crate::json::Json;
use crate::json::JsonValue;
use crate::text::same_text;
use crate::tools::delete::Delete;
use crate::tools::list::List;
use crate::tools::move_file::Move;
use crate::tools::read::Read;
use crate::tools::search::Search;
use crate::tools::set_working_directory::SetWorkingDirectory;
use crate::tools::write::Write;
use vstd::prelude::*;

verus! {

/// The operations that can be requested.
#[derive(Debug, Clone, Copy, PartialEq, Eq, Structural)]
pub enum ToolKind {
    Delete,
    List,
    Move,
    SetWorkingDirectory,
    Search,
    Write,
    Read,
}

/// A request for one operation, with its arguments.
#[derive(Debug)]
pub enum Tools {
    Delete(Delete),
    List(List),
    Move(Move),
    SetWorkingDirectory(SetWorkingDirectory),
    Search(Search),
    Write(Write),
    Read(Read),
}

/// Why a call does not name a request.
#[derive(Debug)]
pub enum CallError {
    /// No operation has the name given.
    UnknownTool(String),
    /// The call names no operation, or the arguments do not fit the operation
    /// that it names.
    InvalidArguments,
}

/// The operation that `name` names.
pub open spec fn tool_named(name: Seq<char>) -> Option<ToolKind> {
    if name == "delete"@ {
        Some(ToolKind::Delete)
    } else if name == "list"@ {
        Some(ToolKind::List)
    } else if name == "move"@ {
        Some(ToolKind::Move)
    } else if name == "set_working_directory"@ {
        Some(ToolKind::SetWorkingDirectory)
    } else if name == "search"@ {
        Some(ToolKind::Search)
    } else if name == "write"@ {
        Some(ToolKind::Write)
    } else if name == "read"@ {
        Some(ToolKind::Read)
    } else {
        None
    }
}

/// The name of the operation that a call asks for, if it gives one.
pub open spec fn call_name(params: Option<JsonValue>) -> Option<Seq<char>> {
    match params {
        Some(params) => required_text(params, "name"@),
        None => None,
    }
}

/// The arguments of a call; a call without arguments has none.
pub open spec fn call_arguments(params: JsonValue) -> JsonValue {
    match params.field("arguments"@) {
        Some(arguments) => arguments,
        None => JsonValue::Object(Seq::empty()),
    }
}

/// The arguments `args` can be read as a request for the operation `kind`.
pub open spec fn tool_readable(kind: ToolKind, args: JsonValue) -> bool {
    match kind {
        ToolKind::Delete => Delete::readable(args),
        ToolKind::List => List::readable(args),
        ToolKind::Move => Move::readable(args),
        ToolKind::SetWorkingDirectory => SetWorkingDirectory::readable(args),
        ToolKind::Search => Search::readable(args),
        ToolKind::Write => Write::readable(args),
        ToolKind::Read => Read::readable(args),
    }
}

/// What a call means: the operation it names with the arguments it gives,
/// or the reason why it names none. The error carries the unknown name.
pub open spec fn call_meaning(params: Option<JsonValue>) -> Result<
    (ToolKind, JsonValue),
    Option<Seq<char>>,
> {
    match call_name(params) {
        None => Err(None),
        Some(name) => match tool_named(name) {
            None => Err(Some(name)),
            Some(kind) => if tool_readable(kind, call_arguments(params->0)) {
                Ok((kind, call_arguments(params->0)))
            } else {
                Err(None)
            },
        },
    }
}

/// What an optional document holds.
pub open spec fn value_of_optional(doc: Option<&Json>) -> Option<JsonValue> {
    match doc {
        Some(doc) => Some(doc@),
        None => None,
    }
}

impl ToolKind {
    /// The operation that `name` names.
    pub fn from_name(name: &str) -> (kind: Option<ToolKind>)
        ensures
            kind == tool_named(name@),
    {
        if same_text(name, "delete") {
            Some(ToolKind::Delete)
        } else if same_text(name, "list") {
            Some(ToolKind::List)
        } else if same_text(name, "move") {
            Some(ToolKind::Move)
        } else if same_text(name, "set_working_directory") {
            Some(ToolKind::SetWorkingDirectory)
        } else if same_text(name, "search") {
            Some(ToolKind::Search)
        } else if same_text(name, "write") {
            Some(ToolKind::Write)
        } else if same_text(name, "read") {
            Some(ToolKind::Read)
        } else {
            None
        }
    }
}

impl Tools {
    /// The operation that the request is for.
    pub open spec fn spec_kind(&self) -> ToolKind {
        match self {
            Tools::Delete(_) => ToolKind::Delete,
            Tools::List(_) => ToolKind::List,
            Tools::Move(_) => ToolKind::Move,
            Tools::SetWorkingDirectory(_) => ToolKind::SetWorkingDirectory,
            Tools::Search(_) => ToolKind::Search,
            Tools::Write(_) => ToolKind::Write,
            Tools::Read(_) => ToolKind::Read,
        }
    }

    /// This request is what the arguments `args` say.
    pub open spec fn reads(&self, args: JsonValue) -> bool {
        match self {
            Tools::Delete(tool) => tool.reads(args),
            Tools::List(tool) => tool.reads(args),
            Tools::Move(tool) => tool.reads(args),
            Tools::SetWorkingDirectory(tool) => tool.reads(args),
            Tools::Search(tool) => tool.reads(args),
            Tools::Write(tool) => tool.reads(args),
            Tools::Read(tool) => tool.reads(args),
        }
    }

    /// The operation that the request is for.
    #[verifier::when_used_as_spec(spec_kind)]
    pub fn kind(&self) -> (kind: ToolKind)
        ensures
            kind == self.spec_kind(),
    {
        match self {
            Tools::Delete(_) => ToolKind::Delete,
            Tools::List(_) => ToolKind::List,
            Tools::Move(_) => ToolKind::Move,
            Tools::SetWorkingDirectory(_) => ToolKind::SetWorkingDirectory,
            Tools::Search(_) => ToolKind::Search,
            Tools::Write(_) => ToolKind::Write,
            Tools::Read(_) => ToolKind::Read,
        }
    }

    /// Reads the arguments `args` as a request for the operation `kind`.
    pub fn decode_arguments(kind: ToolKind, args: &Json) -> (tool: Option<Tools>)
        ensures
            tool is Some == tool_readable(kind, args@),
            tool is Some ==> tool->0.spec_kind() == kind && tool->0.reads(args@),
    {
        match kind {
            ToolKind::Delete => match Delete::decode(args) {
                Some(tool) => Some(Tools::Delete(tool)),
                None => None,
            },
            ToolKind::List => match List::decode(args) {
                Some(tool) => Some(Tools::List(tool)),
                None => None,
            },
            ToolKind::Move => match Move::decode(args) {
                Some(tool) => Some(Tools::Move(tool)),
                None => None,
            },
            ToolKind::SetWorkingDirectory => match SetWorkingDirectory::decode(args) {
                Some(tool) => Some(Tools::SetWorkingDirectory(tool)),
                None => None,
            },
            ToolKind::Search => match Search::decode(args) {
                Some(tool) => Some(Tools::Search(tool)),
                None => None,
            },
            ToolKind::Write => match Write::decode(args) {
                Some(tool) => Some(Tools::Write(tool)),
                None => None,
            },
            ToolKind::Read => match Read::decode(args) {
                Some(tool) => Some(Tools::Read(tool)),
                None => None,
            },
        }
    }

    /// Reads the parameters of a call as a request. A name that no operation
    /// has is reported with the name; a call without a name, and arguments
    /// that do not fit the operation named, are reported as invalid.
    pub fn decode(params: Option<&Json>) -> (call: Result<Tools, CallError>)
        ensures
            match call {
                Ok(tool) => {
                    &&& call_meaning(value_of_optional(params)) == Ok::<
                        (ToolKind, JsonValue),
                        Option<Seq<char>>,
                    >((tool.spec_kind(), call_arguments(params->0@)))
                    &&& tool.reads(call_arguments(params->0@))
                },
                Err(CallError::UnknownTool(name)) => call_meaning(value_of_optional(params))
                    == Err::<(ToolKind, JsonValue), Option<Seq<char>>>(Some(name@)),
                Err(CallError::InvalidArguments) => call_meaning(value_of_optional(params)) == Err::<
                    (ToolKind, JsonValue),
                    Option<Seq<char>>,
                >(None),
            },
    {
        let params = match params {
            Some(params) => params,
            None => {
                return Err(CallError::InvalidArguments);
            },
        };
        let name = match params.get("name") {
            Some(name) => match name.as_str() {
                Some(name) => name,
                None => {
                    return Err(CallError::InvalidArguments);
                },
            },
            None => {
                return Err(CallError::InvalidArguments);
            },
        };
        let kind = match ToolKind::from_name(name) {
            Some(kind) => kind,
            None => {
                return Err(CallError::UnknownTool(name.to_owned()));
            },
        };
        let tool = match params.get("arguments") {
            Some(arguments) => Tools::decode_arguments(kind, arguments),
            None => {
                let nothing = Json::object(Vec::new());
                assert(nothing@->Object_0 =~= Seq::empty());
                Tools::decode_arguments(kind, &nothing)
            },
        };
        match tool {
            Some(tool) => Ok(tool),
            None => Err(CallError::InvalidArguments),
        }
    }
}

} // verus!
