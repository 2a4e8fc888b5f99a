//! Routing of requests. A request is answered at once, or it leads to an
//! operation on the file system that the embedding program performs; how the
//! operation ended is then turned into the answer.

use crate::json::json_document;
use crate::json::json_text;
use crate::json::parse_json;
use crate::json::render_json;
use crate::json::Json;
use crate::json::JsonValue;
use crate::protocol::decode_message;
use crate::protocol::id_of;
use crate::protocol::is_message;
use crate::protocol::method_of;
use crate::protocol::text_result;
use crate::protocol::Message;
use crate::protocol::Outcome;
use crate::protocol::Request;
use crate::protocol::Response;
use crate::protocol::INVALID_PARAMS;
use crate::protocol::METHOD_NOT_FOUND;
use crate::protocol::TOOL_EXECUTION_FAILED;
use crate::session::SessionEntry;
use crate::state::resolves_to;
use crate::state::FsTools;
use crate::state::ResolveError;
use crate::state::SharedContextData;
use crate::state::DEFAULT_SESSION_ID;
use crate::text::push_str;
use crate::text::same_text;
use crate::text::string_of;
use crate::arguments::text_of;
use crate::arguments::texts_of;
use crate::paths::tilde_outcome;
use crate::tools::call_meaning;
use crate::tools::delete::Delete;
use crate::tools::list::path_and_pattern;
use crate::tools::list::List;
use crate::tools::move_file::Move;
use crate::tools::move_file::MovePlan;
use crate::tools::read::resolved_all;
use crate::tools::read::Read;
use crate::tools::search::Search;
use crate::tools::set_working_directory::directory_set;
use crate::tools::write::Write;
use crate::tools::CallError;
use crate::tools::Tools;
use crate::tools::call_arguments;
use crate::tools::call_name;
use crate::tools::tool_named;
use crate::tools::tool_readable;
use crate::state::change_tracked;
use crate::paths::is_absolute;
use crate::paths::names_home;
use crate::state::lookups_tracked;
use crate::state::lookup_tracked;
use vstd::prelude::*;

verus! {

/// An operation on the file system, with its paths resolved.
#[derive(Debug)]
pub enum Operation {
    Delete { path: String },
    List { tool: List, base_path: String, pattern: Option<String> },
    Move { tool: Move, plan: MovePlan },
    Read { tool: Read, targets: Vec<Result<String, ResolveError>> },
    Search { tool: Search, path: String },
    Write { tool: Write, path: String },
}

/// How far a request for an operation got without touching the file system.
#[derive(Debug)]
pub enum Started {
    /// The request is carried out; this is its answer.
    Done(String),
    /// The operation is still to be performed.
    Perform(Operation),
}

/// What follows from one message.
#[derive(Debug)]
pub enum Step {
    /// Nothing is sent back.
    Silent,
    /// The response is sent back.
    Reply(Response),
    /// The operation is to be performed for the request with this identifier,
    /// and how it ended is to be answered with `Response::tool_result`.
    Perform(Json, Operation),
}

pub type Sessions = Map<Seq<char>, SessionEntry<SharedContextData>>;

/// What starting the request `tool` does to the sessions and leads to. Every
/// path of the request is resolved; a `write` whose path cannot be resolved
/// says so in its own words, any other request passes the resolver's error
/// on; setting the working directory is carried out at once.
pub open spec fn started_by(
    tool: Tools,
    before: Sessions,
    after: Sessions,
    started: Result<Started, String>,
) -> bool {
    match tool {
        Tools::Delete(delete) => exists|resolved: Result<String, ResolveError>|
            {
                &&& #[trigger] resolves_to(
                    before,
                    after,
                    delete.path@,
                    DEFAULT_SESSION_ID@,
                    resolved,
                )
                &&& match resolved {
                    Ok(path) => started == Ok::<Started, String>(
                        Started::Perform(Operation::Delete { path }),
                    ),
                    Err(error) => started is Err && started->Err_0@ == error.text(),
                }
            },
        Tools::Search(search) => exists|resolved: Result<String, ResolveError>|
            {
                &&& #[trigger] resolves_to(
                    before,
                    after,
                    search.path_text(),
                    DEFAULT_SESSION_ID@,
                    resolved,
                )
                &&& match resolved {
                    Ok(path) => started == Ok::<Started, String>(
                        Started::Perform(Operation::Search { tool: search, path }),
                    ),
                    Err(error) => started is Err && started->Err_0@ == error.text(),
                }
            },
        Tools::Write(write) => exists|resolved: Result<String, ResolveError>|
            {
                &&& #[trigger] resolves_to(before, after, write.path@, DEFAULT_SESSION_ID@, resolved)
                &&& match resolved {
                    Ok(path) => started == Ok::<Started, String>(
                        Started::Perform(Operation::Write { tool: write, path }),
                    ),
                    Err(error) => started is Err && started->Err_0@ == "Failed to resolve "@
                        + write.path@,
                }
            },
        Tools::List(list) => exists|resolved: Result<String, ResolveError>|
            {
                &&& #[trigger] resolves_to(
                    before,
                    after,
                    path_and_pattern(list.path_text()).0,
                    DEFAULT_SESSION_ID@,
                    resolved,
                )
                &&& match resolved {
                    Ok(base_path) => {
                        &&& started matches Ok(
                            Started::Perform(Operation::List { tool, base_path: base, pattern }),
                        )
                        &&& tool == list
                        &&& base == base_path
                        &&& text_of(pattern) == path_and_pattern(list.path_text()).1
                    },
                    Err(error) => started is Err && started->Err_0@ == error.text(),
                }
            },
        Tools::Move(relocation) => exists|plan: Result<MovePlan, ResolveError>|
            {
                &&& #[trigger] relocation.prepared(before, after, plan)
                &&& match plan {
                    Ok(plan) => started == Ok::<Started, String>(
                        Started::Perform(Operation::Move { tool: relocation, plan }),
                    ),
                    Err(error) => started is Err && started->Err_0@ == error.text(),
                }
            },
        Tools::Read(read) => exists|targets: Vec<Result<String, ResolveError>>|
            {
                &&& #[trigger] resolved_all(before, after, texts_of(read.paths@), targets@)
                &&& started == Ok::<Started, String>(
                    Started::Perform(Operation::Read { tool: read, targets }),
                )
            },
        Tools::SetWorkingDirectory(set) => exists|
            expanded: Seq<char>,
            answer: Result<String, ResolveError>,
        |
            {
                &&& tilde_outcome(set.path@, expanded)
                &&& #[trigger] directory_set(before, after, set.path@, expanded, answer)
                &&& match answer {
                    Ok(text) => started == Ok::<Started, String>(Started::Done(text)),
                    Err(error) => started is Err && started->Err_0@ == error.text(),
                }
            },
    }
}

/// The paths of a request as they are written, in the order in which they
/// are resolved.
pub open spec fn paths_of(tool: Tools) -> Seq<Seq<char>> {
    match tool {
        Tools::Delete(delete) => seq![delete.path@],
        Tools::Search(search) => seq![search.path_text()],
        Tools::Write(write) => seq![write.path@],
        Tools::List(list) => seq![path_and_pattern(list.path_text()).0],
        Tools::Move(relocation) => seq![relocation.source@, relocation.destination@],
        Tools::Read(read) => texts_of(read.paths@),
        Tools::SetWorkingDirectory(set) => seq![set.path@],
    }
}

/// Starting a request asks for a save exactly when it looks at a session:
/// always when it sets the working directory, and otherwise when one of its
/// paths is relative. A save that was due before stays due.
pub open spec fn start_tracked(tool: Tools, unsaved_before: bool, unsaved_after: bool) -> bool {
    if tool is SetWorkingDirectory {
        unsaved_after
    } else {
        lookups_tracked(unsaved_before, unsaved_after, paths_of(tool))
    }
}

/// What holds of resolving one path holds of resolving the paths of a
/// request that has just that one.
proof fn lemma_lookup_single(unsaved_before: bool, unsaved_after: bool, path: Seq<char>)
    requires
        lookup_tracked(unsaved_before, unsaved_after, path),
    ensures
        lookups_tracked(unsaved_before, unsaved_after, seq![path]),
{
    let paths = seq![path];
    assert(paths[0] == path);
    if forall|i: int| 0 <= i < paths.len() ==> !names_home(#[trigger] paths[i]) {
        assert(!names_home(paths[0]));
        if !is_absolute(path) {
            assert(!is_absolute(paths[0]));
        }
    }
}

/// Starts a request: resolves its paths, and carries it out if it needs
/// nothing from the file system.
pub fn start(tool: Tools, state: &mut FsTools) -> (started: Result<Started, String>)
    requires
        old(state).wf(),
    ensures
        final(state).wf(),
        change_tracked(old(state).unsaved(), final(state).unsaved(), old(state)@, final(state)@),
        start_tracked(tool, old(state).unsaved(), final(state).unsaved()),
        started_by(tool, old(state)@, final(state)@, started),
{
    match tool {
        Tools::Delete(delete) => {
            let resolved = delete.prepare(state);
            assert(resolves_to(old(state)@, state@, delete.path@, DEFAULT_SESSION_ID@, resolved));
            proof {
                lemma_lookup_single(old(state).unsaved(), state.unsaved(), delete.path@);
            }
            match resolved {
                Ok(path) => Ok(Started::Perform(Operation::Delete { path })),
                Err(error) => Err(error.message()),
            }
        },
        Tools::Search(search) => {
            let resolved = search.prepare(state);
            assert(resolves_to(
                old(state)@,
                state@,
                search.path_text(),
                DEFAULT_SESSION_ID@,
                resolved,
            ));
            proof {
                lemma_lookup_single(old(state).unsaved(), state.unsaved(), search.path_text());
            }
            match resolved {
                Ok(path) => Ok(Started::Perform(Operation::Search { tool: search, path })),
                Err(error) => Err(error.message()),
            }
        },
        Tools::Write(write) => {
            let resolved = write.prepare(state);
            assert(resolves_to(old(state)@, state@, write.path@, DEFAULT_SESSION_ID@, resolved));
            proof {
                lemma_lookup_single(old(state).unsaved(), state.unsaved(), write.path@);
            }
            match resolved {
                Ok(path) => Ok(Started::Perform(Operation::Write { tool: write, path })),
                Err(_) => {
                    let mut out: Vec<char> = Vec::new();
                    push_str(&mut out, "Failed to resolve ");
                    push_str(&mut out, write.path.as_str());
                    Err(string_of(&out))
                },
            }
        },
        Tools::List(list) => {
            let (directory, pattern) = list.parse_path_and_pattern();
            let resolved = state.resolve_path(directory.as_str(), None);
            assert(resolves_to(
                old(state)@,
                state@,
                path_and_pattern(list.path_text()).0,
                DEFAULT_SESSION_ID@,
                resolved,
            ));
            proof {
                lemma_lookup_single(old(state).unsaved(), state.unsaved(), path_and_pattern(list.path_text()).0);
            }
            match resolved {
                Ok(base_path) => Ok(
                    Started::Perform(Operation::List { tool: list, base_path, pattern }),
                ),
                Err(error) => Err(error.message()),
            }
        },
        Tools::Move(relocation) => {
            let plan = relocation.prepare(state);
            assert(relocation.prepared(old(state)@, state@, plan));
            match plan {
                Ok(plan) => Ok(Started::Perform(Operation::Move { tool: relocation, plan })),
                Err(error) => Err(error.message()),
            }
        },
        Tools::Read(read) => {
            let targets = read.resolve_all(state);
            assert(resolved_all(old(state)@, state@, texts_of(read.paths@), targets@));
            Ok(Started::Perform(Operation::Read { tool: read, targets }))
        },
        Tools::SetWorkingDirectory(set) => {
            let ghost path = set.path@;
            let answer = set.execute(state);
            let ghost expanded = choose|expanded: Seq<char>|
                #[trigger] tilde_outcome(path, expanded) && directory_set(
                    old(state)@,
                    state@,
                    path,
                    expanded,
                    answer,
                );
            assert(directory_set(old(state)@, state@, path, expanded, answer));
            match answer {
                Ok(text) => Ok(Started::Done(text)),
                Err(error) => Err(error.message()),
            }
        },
    }
}

/// The step is a reply to the request `id` that carries the result `result`.
pub open spec fn replies_with(step: Step, id: JsonValue, result: JsonValue) -> bool {
    &&& step matches Step::Reply(response)
    &&& response.id@ == id
    &&& response.outcome matches Outcome::Success(found)
    &&& found@ == result
}

/// The step is a reply to the request `id` that carries an error with the
/// code `code` and the message `message`.
pub open spec fn fails_with(step: Step, id: JsonValue, code: i64, message: Seq<char>) -> bool {
    &&& step matches Step::Reply(response)
    &&& response.id@ == id
    &&& response.outcome matches Outcome::Failure(error)
    &&& error.code == code
    &&& error.message@ == message
}

/// The step that follows from how the request `id` was started.
pub open spec fn step_after(started: Result<Started, String>, id: JsonValue, step: Step) -> bool {
    match started {
        Ok(Started::Done(text)) => replies_with(step, id, text_result(text@)),
        Ok(Started::Perform(operation)) => {
            &&& step matches Step::Perform(waiting, planned)
            &&& waiting@ == id
            &&& planned == operation
        },
        Err(text) => fails_with(step, id, TOOL_EXECUTION_FAILED, text@),
    }
}

/// What a call of an operation does and leads to. A name that no operation
/// has is answered with a "not found" error that repeats the name; arguments
/// that do not fit are answered with an "invalid arguments" error; in both
/// cases the sessions are left alone. Otherwise the request is started.
pub open spec fn called(
    before: Sessions,
    after: Sessions,
    id: JsonValue,
    params: Option<JsonValue>,
    step: Step,
) -> bool {
    match call_meaning(params) {
        Err(Some(name)) => after == before && fails_with(
            step,
            id,
            METHOD_NOT_FOUND,
            "unknown tool: "@ + name,
        ),
        Err(None) => after == before && fails_with(step, id, INVALID_PARAMS, "invalid arguments"@),
        Ok((kind, args)) => exists|tool: Tools, started: Result<Started, String>|
            {
                &&& tool.spec_kind() == kind
                &&& tool.reads(args)
                &&& #[trigger] started_by(tool, before, after, started)
                &&& step_after(started, id, step)
            },
    }
}

/// What a request does and leads to: `initialize` and `tools/list` are
/// answered with what the server was set up with, `tools/call` calls an
/// operation, and any other method is answered with a "not found" error. Only
/// a call can touch the sessions.
pub open spec fn answered(
    before: Sessions,
    after: Sessions,
    initialize: JsonValue,
    tools: JsonValue,
    id: JsonValue,
    method: Seq<char>,
    params: Option<JsonValue>,
    step: Step,
) -> bool {
    if method == "initialize"@ {
        after == before && replies_with(step, id, initialize)
    } else if method == "tools/list"@ {
        after == before && replies_with(step, id, tools)
    } else if method == "tools/call"@ {
        called(before, after, id, params, step)
    } else {
        after == before && fails_with(step, id, METHOD_NOT_FOUND, "unknown method: "@ + method)
    }
}

/// What a document that was read from the input does and leads to: a
/// document that is no message, and a message without an identifier, lead to
/// nothing; a request is answered.
pub open spec fn handled(
    before: Sessions,
    after: Sessions,
    initialize: JsonValue,
    tools: JsonValue,
    doc: JsonValue,
    step: Step,
) -> bool {
    if is_message(doc) && id_of(doc) is Some {
        answered(
            before,
            after,
            initialize,
            tools,
            id_of(doc)->0,
            method_of(doc)->0,
            doc.field("params"@),
            step,
        )
    } else {
        after == before && step is Silent
    }
}

/// What a call does to whether a save is due: a call that starts no
/// operation changes nothing, and one that does asks for a save as starting
/// the operation says.
pub open spec fn call_tracked(
    params: Option<JsonValue>,
    unsaved_before: bool,
    unsaved_after: bool,
) -> bool {
    match call_meaning(params) {
        Err(_) => unsaved_after == unsaved_before,
        Ok((kind, args)) => forall|tool: Tools|
            tool.spec_kind() == kind && #[trigger] tool.reads(args) ==> start_tracked(
                tool,
                unsaved_before,
                unsaved_after,
            ),
    }
}

/// What a request does to whether a save is due: only a call can ask for
/// one.
pub open spec fn request_tracked(
    method: Seq<char>,
    params: Option<JsonValue>,
    unsaved_before: bool,
    unsaved_after: bool,
) -> bool {
    if method == "tools/call"@ {
        call_tracked(params, unsaved_before, unsaved_after)
    } else {
        unsaved_after == unsaved_before
    }
}

/// What a document that was read from the input does to whether a save is
/// due: only a request can ask for one.
pub open spec fn document_tracked(doc: JsonValue, unsaved_before: bool, unsaved_after: bool) -> bool {
    if is_message(doc) && id_of(doc) is Some {
        request_tracked(method_of(doc)->0, doc.field("params"@), unsaved_before, unsaved_after)
    } else {
        unsaved_after == unsaved_before
    }
}

/// The server: the sessions, and the two answers that never change.
pub struct Server {
    state: FsTools,
    initialize: Json,
    tools: Json,
}

impl Server {
    pub closed spec fn wf(&self) -> bool {
        self.state.wf()
    }

    /// The sessions and their contexts.
    pub closed spec fn sessions(&self) -> Sessions {
        self.state@
    }

    /// Whether a session was accessed since a save was last begun.
    pub closed spec fn unsaved(&self) -> bool {
        self.state.unsaved()
    }

    /// The answer to `initialize`.
    pub closed spec fn initialize_value(&self) -> JsonValue {
        self.initialize@
    }

    /// The answer to `tools/list`.
    pub closed spec fn tools_value(&self) -> JsonValue {
        self.tools@
    }

    /// A server over `state` that answers `initialize` with `initialize` and
    /// `tools/list` with `tools`.
    pub fn new(state: FsTools, initialize: Json, tools: Json) -> (server: Server)
        requires
            state.wf(),
        ensures
            server.wf(),
            server.sessions() == state@,
            server.unsaved() == state.unsaved(),
            server.initialize_value() == initialize@,
            server.tools_value() == tools@,
    {
        Server { state, initialize, tools }
    }

    /// The sessions and their contexts.
    pub fn state(&self) -> (state: &FsTools)
        requires
            self.wf(),
        ensures
            state.wf(),
            state@ == self.sessions(),
            state.unsaved() == self.unsaved(),
    {
        &self.state
    }

    /// Whether a session was accessed since a save was last begun.
    pub fn needs_saving(&self) -> (needed: bool)
        requires
            self.wf(),
        ensures
            needed == self.unsaved(),
    {
        self.state.needs_saving()
    }

    /// Begins a save, as is done after every line. Tells whether the
    /// sessions are to be written, which is so when the lines handled since
    /// the last save was begun accessed one; from here on only later accesses
    /// count.
    pub fn begin_save(&mut self) -> (due: bool)
        requires
            old(self).wf(),
        ensures
            final(self).wf(),
            final(self).sessions() == old(self).sessions(),
            final(self).initialize_value() == old(self).initialize_value(),
            final(self).tools_value() == old(self).tools_value(),
            due == old(self).unsaved(),
            !final(self).unsaved(),
    {
        self.state.begin_save()
    }

    /// Calls an operation for the request `id`.
    pub fn call(&mut self, id: Json, params: Option<&Json>) -> (step: Step)
        requires
            old(self).wf(),
        ensures
            final(self).wf(),
            change_tracked(
                old(self).unsaved(),
                final(self).unsaved(),
                old(self).sessions(),
                final(self).sessions(),
            ),
            call_tracked(
                crate::tools::value_of_optional(params),
                old(self).unsaved(),
                final(self).unsaved(),
            ),
            final(self).initialize_value() == old(self).initialize_value(),
            final(self).tools_value() == old(self).tools_value(),
            called(
                old(self).sessions(),
                final(self).sessions(),
                id@,
                crate::tools::value_of_optional(params),
                step,
            ),
    {
        match Tools::decode(params) {
            Err(CallError::UnknownTool(name)) => {
                let mut out: Vec<char> = Vec::new();
                push_str(&mut out, "unknown tool: ");
                push_str(&mut out, name.as_str());
                Step::Reply(Response::failure(id, METHOD_NOT_FOUND, string_of(&out)))
            },
            Err(CallError::InvalidArguments) => Step::Reply(
                Response::failure(id, INVALID_PARAMS, "invalid arguments".to_owned()),
            ),
            Ok(tool) => {
                let started = start(tool, &mut self.state);
                assert(started_by(tool, old(self).sessions(), self.sessions(), started));
                match started {
                    Ok(Started::Done(text)) => Step::Reply(Response::tool_result(id, Ok(text))),
                    Ok(Started::Perform(operation)) => Step::Perform(id, operation),
                    Err(text) => Step::Reply(Response::tool_result(id, Err(text))),
                }
            },
        }
    }

    /// Handles one message.
    pub fn handle_message(&mut self, message: Message) -> (step: Step)
        requires
            old(self).wf(),
        ensures
            final(self).wf(),
            change_tracked(
                old(self).unsaved(),
                final(self).unsaved(),
                old(self).sessions(),
                final(self).sessions(),
            ),
            match message {
                Message::Notification(_) => final(self).unsaved() == old(self).unsaved(),
                Message::Request(request) => request_tracked(
                    request.method@,
                    match request.params {
                        Some(params) => Some(params@),
                        None => None,
                    },
                    old(self).unsaved(),
                    final(self).unsaved(),
                ),
            },
            final(self).initialize_value() == old(self).initialize_value(),
            final(self).tools_value() == old(self).tools_value(),
            match message {
                Message::Notification(_) => step is Silent && final(self).sessions() == old(
                    self,
                ).sessions(),
                Message::Request(request) => answered(
                    old(self).sessions(),
                    final(self).sessions(),
                    old(self).initialize_value(),
                    old(self).tools_value(),
                    request.id@,
                    request.method@,
                    match request.params {
                        Some(params) => Some(params@),
                        None => None,
                    },
                    step,
                ),
            },
    {
        match message {
            Message::Notification(_) => Step::Silent,
            Message::Request(request) => {
                let Request { id, method, params } = request;
                proof {
                    reveal_strlit("initialize");
                    reveal_strlit("tools/list");
                    reveal_strlit("tools/call");
                    assert("initialize"@[0] != "tools/call"@[0]);
                    assert("tools/list"@[6] != "tools/call"@[6]);
                }
                if same_text(method.as_str(), "initialize") {
                    Step::Reply(Response::success(id, self.initialize.duplicate()))
                } else if same_text(method.as_str(), "tools/list") {
                    Step::Reply(Response::success(id, self.tools.duplicate()))
                } else if same_text(method.as_str(), "tools/call") {
                    match &params {
                        Some(params) => self.call(id, Some(params)),
                        None => self.call(id, None),
                    }
                } else {
                    let mut out: Vec<char> = Vec::new();
                    push_str(&mut out, "unknown method: ");
                    push_str(&mut out, method.as_str());
                    Step::Reply(Response::failure(id, METHOD_NOT_FOUND, string_of(&out)))
                }
            },
        }
    }

    /// Handles one document that was read from the input.
    pub fn handle_document(&mut self, doc: &Json) -> (step: Step)
        requires
            old(self).wf(),
        ensures
            final(self).wf(),
            change_tracked(
                old(self).unsaved(),
                final(self).unsaved(),
                old(self).sessions(),
                final(self).sessions(),
            ),
            document_tracked(doc@, old(self).unsaved(), final(self).unsaved()),
            final(self).initialize_value() == old(self).initialize_value(),
            final(self).tools_value() == old(self).tools_value(),
            handled(
                old(self).sessions(),
                final(self).sessions(),
                old(self).initialize_value(),
                old(self).tools_value(),
                doc@,
                step,
            ),
    {
        match decode_message(doc) {
            Some(message) => self.handle_message(message),
            None => Step::Silent,
        }
    }

    /// Handles one line of input. A line that is not well-formed JSON leads
    /// to nothing and leaves the sessions alone. Where the line looked at a
    /// session, a save is due afterwards: `begin_save` tells so, and
    /// `Step::after_save` decides what is sent once the save has ended.
    pub fn handle_line(&mut self, line: &str) -> (step: Step)
        requires
            old(self).wf(),
        ensures
            final(self).wf(),
            change_tracked(
                old(self).unsaved(),
                final(self).unsaved(),
                old(self).sessions(),
                final(self).sessions(),
            ),
            match json_document(line@) {
                Some(doc) => document_tracked(doc, old(self).unsaved(), final(self).unsaved()),
                None => final(self).unsaved() == old(self).unsaved(),
            },
            final(self).initialize_value() == old(self).initialize_value(),
            final(self).tools_value() == old(self).tools_value(),
            match json_document(line@) {
                Some(doc) => handled(
                    old(self).sessions(),
                    final(self).sessions(),
                    old(self).initialize_value(),
                    old(self).tools_value(),
                    doc,
                    step,
                ),
                None => step is Silent && final(self).sessions() == old(self).sessions(),
            },
    {
        match parse_json(line) {
            Some(doc) => self.handle_document(&doc),
            None => Step::Silent,
        }
    }
}

impl Response {
    /// The response as one line of output, without the line ending.
    pub fn render(self) -> (line: String)
        ensures
            line@ == json_text(self.value()),
    {
        render_json(&self.into_json())
    }
}

/// A request that does not set the working directory and whose paths are all
/// absolute asks for no save: whether one is due is as it was.
pub proof fn absolute_paths_ask_for_no_save(tool: Tools, unsaved_before: bool, unsaved_after: bool)
    requires
        !(tool is SetWorkingDirectory),
        forall|i: int| 0 <= i < paths_of(tool).len() ==> is_absolute(#[trigger] paths_of(tool)[i]),
        start_tracked(tool, unsaved_before, unsaved_after),
    ensures
        unsaved_after == unsaved_before,
{
    let paths = paths_of(tool);
    assert forall|i: int| 0 <= i < paths.len() implies !names_home(#[trigger] paths[i]) by {
        assert(is_absolute(paths[i]));
    }
}

/// A call of an operation that does not exist is answered with a "not found"
/// error that carries the identifier of the request, and leaves the sessions
/// alone.
pub proof fn unknown_operation_is_not_found(
    before: Sessions,
    after: Sessions,
    id: JsonValue,
    params: JsonValue,
    name: Seq<char>,
    step: Step,
)
    requires
        call_name(Some(params)) == Some(name),
        tool_named(name) is None,
        called(before, after, id, Some(params), step),
    ensures
        after == before,
        step is Reply,
        step->Reply_0.id@ == id,
        step->Reply_0.outcome is Failure,
        step->Reply_0.outcome->Failure_0.code == METHOD_NOT_FOUND,
{
}

/// A call of an operation with arguments that do not fit it, such as a call
/// that lacks a required argument, is answered with an "invalid arguments"
/// error that carries the identifier of the request, and leaves the sessions
/// alone.
pub proof fn unfit_arguments_are_invalid(
    before: Sessions,
    after: Sessions,
    id: JsonValue,
    params: JsonValue,
    name: Seq<char>,
    step: Step,
)
    requires
        call_name(Some(params)) == Some(name),
        tool_named(name) is Some,
        !tool_readable(tool_named(name)->0, call_arguments(params)),
        called(before, after, id, Some(params), step),
    ensures
        after == before,
        step is Reply,
        step->Reply_0.id@ == id,
        step->Reply_0.outcome is Failure,
        step->Reply_0.outcome->Failure_0.code == INVALID_PARAMS,
{
}

/// A request for a method that does not exist is answered with a "not found"
/// error that carries the identifier of the request.
pub proof fn unknown_method_is_not_found(
    before: Sessions,
    after: Sessions,
    initialize: JsonValue,
    tools: JsonValue,
    id: JsonValue,
    method: Seq<char>,
    params: Option<JsonValue>,
    step: Step,
)
    requires
        method != "initialize"@,
        method != "tools/list"@,
        method != "tools/call"@,
        answered(before, after, initialize, tools, id, method, params, step),
    ensures
        after == before,
        fails_with(step, id, METHOD_NOT_FOUND, "unknown method: "@ + method),
{
}

/// Every request is answered or leads to an operation; only what is no
/// request leads to nothing.
pub proof fn requests_are_not_dropped(
    before: Sessions,
    after: Sessions,
    initialize: JsonValue,
    tools: JsonValue,
    doc: JsonValue,
    step: Step,
)
    requires
        handled(before, after, initialize, tools, doc, step),
    ensures
        step is Silent <==> !(is_message(doc) && id_of(doc) is Some),
{
}

/// Every session but `session` is in `after` as it is in `before`.
pub open spec fn touches_only(before: Sessions, after: Sessions, session: Seq<char>) -> bool {
    forall|other: Seq<char>|
        other != session ==> {
            &&& #[trigger] after.contains_key(other) == before.contains_key(other)
            &&& before.contains_key(other) ==> after[other] == before[other]
        }
}

/// The session whose context a request works with: the one that a move
/// names, and otherwise the shared default.
pub open spec fn session_used(tool: Tools) -> Seq<char> {
    match tool {
        Tools::Move(relocation) => relocation.session(),
        _ => DEFAULT_SESSION_ID@,
    }
}

proof fn lemma_resolving_touches_one(
    before: Sessions,
    after: Sessions,
    path: Seq<char>,
    session: Seq<char>,
    resolved: Result<String, ResolveError>,
)
    requires
        resolves_to(before, after, path, session, resolved),
    ensures
        touches_only(before, after, session),
{
}

proof fn lemma_resolving_all_touches_one(
    before: Sessions,
    after: Sessions,
    paths: Seq<Seq<char>>,
    targets: Seq<Result<String, ResolveError>>,
)
    requires
        resolved_all(before, after, paths, targets),
    ensures
        touches_only(before, after, DEFAULT_SESSION_ID@),
    decreases paths.len(),
{
    if paths.len() > 0 {
        let between = choose|between: Sessions|
            {
                &&& resolved_all(before, between, paths.drop_last(), targets.drop_last())
                &&& #[trigger] resolves_to(
                    between,
                    after,
                    paths.last(),
                    DEFAULT_SESSION_ID@,
                    targets.last(),
                )
            };
        lemma_resolving_all_touches_one(before, between, paths.drop_last(), targets.drop_last());
        lemma_resolving_touches_one(
            between,
            after,
            paths.last(),
            DEFAULT_SESSION_ID@,
            targets.last(),
        );
    }
}

/// No request works with more than one session: whatever a request does to
/// the sessions when it is started, every session but the one it works with
/// stays as it is.
pub proof fn request_touches_one_session(
    tool: Tools,
    before: Sessions,
    after: Sessions,
    started: Result<Started, String>,
)
    requires
        started_by(tool, before, after, started),
    ensures
        touches_only(before, after, session_used(tool)),
{
    match tool {
        Tools::Delete(delete) => {
            let resolved = choose|resolved: Result<String, ResolveError>|
                #[trigger] resolves_to(before, after, delete.path@, DEFAULT_SESSION_ID@, resolved);
            lemma_resolving_touches_one(before, after, delete.path@, DEFAULT_SESSION_ID@, resolved);
        },
        Tools::Search(search) => {
            let resolved = choose|resolved: Result<String, ResolveError>|
                #[trigger] resolves_to(
                    before,
                    after,
                    search.path_text(),
                    DEFAULT_SESSION_ID@,
                    resolved,
                );
            lemma_resolving_touches_one(
                before,
                after,
                search.path_text(),
                DEFAULT_SESSION_ID@,
                resolved,
            );
        },
        Tools::Write(write) => {
            let resolved = choose|resolved: Result<String, ResolveError>|
                #[trigger] resolves_to(before, after, write.path@, DEFAULT_SESSION_ID@, resolved);
            lemma_resolving_touches_one(before, after, write.path@, DEFAULT_SESSION_ID@, resolved);
        },
        Tools::List(list) => {
            let resolved = choose|resolved: Result<String, ResolveError>|
                #[trigger] resolves_to(
                    before,
                    after,
                    path_and_pattern(list.path_text()).0,
                    DEFAULT_SESSION_ID@,
                    resolved,
                );
            lemma_resolving_touches_one(
                before,
                after,
                path_and_pattern(list.path_text()).0,
                DEFAULT_SESSION_ID@,
                resolved,
            );
        },
        Tools::Move(relocation) => {
            let plan = choose|plan: Result<MovePlan, ResolveError>|
                #[trigger] relocation.prepared(before, after, plan);
            let (between, first) = choose|
                between: Sessions,
                first: Result<String, ResolveError>,
            |
                {
                    &&& #[trigger] resolves_to(
                        before,
                        between,
                        relocation.source@,
                        relocation.session(),
                        first,
                    )
                    &&& match first {
                        Err(error) => between == after,
                        Ok(source) => exists|second: Result<String, ResolveError>|
                            #[trigger] resolves_to(
                                between,
                                after,
                                relocation.destination@,
                                relocation.session(),
                                second,
                            ),
                    }
                };
            lemma_resolving_touches_one(
                before,
                between,
                relocation.source@,
                relocation.session(),
                first,
            );
            if first is Ok {
                let second = choose|second: Result<String, ResolveError>|
                    #[trigger] resolves_to(
                        between,
                        after,
                        relocation.destination@,
                        relocation.session(),
                        second,
                    );
                lemma_resolving_touches_one(
                    between,
                    after,
                    relocation.destination@,
                    relocation.session(),
                    second,
                );
            }
        },
        Tools::Read(read) => {
            let targets = choose|targets: Vec<Result<String, ResolveError>>|
                #[trigger] resolved_all(before, after, texts_of(read.paths@), targets@);
            lemma_resolving_all_touches_one(before, after, texts_of(read.paths@), targets@);
        },
        Tools::SetWorkingDirectory(set) => {},
    }
}

/// What is sent for a step once the sessions were saved, or could not be:
/// after a save that failed, a request is answered with an error that carries
/// the cause, whatever its answer would have been, and no operation is
/// performed for it; what leads to nothing still leads to nothing.
pub open spec fn step_after_save(step: Step, saved: Result<(), String>, sent: Step) -> bool {
    match saved {
        Ok(_) => sent == step,
        Err(cause) => match step {
            Step::Silent => sent is Silent,
            Step::Reply(response) => fails_with(
                sent,
                response.id@,
                TOOL_EXECUTION_FAILED,
                cause@,
            ),
            Step::Perform(id, _) => fails_with(sent, id@, TOOL_EXECUTION_FAILED, cause@),
        },
    }
}

impl Step {
    /// Decides what is sent for a step once the sessions were saved, or could
    /// not be.
    pub fn after_save(self, saved: Result<(), String>) -> (sent: Step)
        ensures
            step_after_save(self, saved, sent),
    {
        match saved {
            Ok(_) => self,
            Err(cause) => match self {
                Step::Silent => Step::Silent,
                Step::Reply(response) => Step::Reply(
                    Response::failure(response.id, TOOL_EXECUTION_FAILED, cause),
                ),
                Step::Perform(id, _) => Step::Reply(
                    Response::failure(id, TOOL_EXECUTION_FAILED, cause),
                ),
            },
        }
    }
}

} // verus!
