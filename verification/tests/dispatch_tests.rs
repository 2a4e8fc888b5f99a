use fs_mcp::dispatch::Operation;
use fs_mcp::dispatch::Server;
use fs_mcp::dispatch::Step;
use fs_mcp::json::Json;
use fs_mcp::json::JsonNumber;
use fs_mcp::json::Member;
use fs_mcp::protocol::read_message;
use fs_mcp::protocol::Message;
use fs_mcp::protocol::Outcome;
use fs_mcp::protocol::Response;
use fs_mcp::protocol::INVALID_PARAMS;
use fs_mcp::protocol::METHOD_NOT_FOUND;
use fs_mcp::protocol::TOOL_EXECUTION_FAILED;
use fs_mcp::session::SessionStore;
use fs_mcp::state::FsTools;
use fs_mcp::tools::write::Opening;
use fs_mcp::tools::write::Write;
use fs_mcp::tools::write::WriteStep;

fn server() -> Server {
    let initialize = Json::object(vec![Member::new("protocolVersion", Json::text("2024-11-05"))]);
    let tools = Json::object(vec![Member::new("tools", Json::array(vec![]))]);
    Server::new(FsTools::new(SessionStore::new()), initialize, tools)
}

fn reply(step: Step) -> Response {
    match step {
        Step::Reply(response) => response,
        other => panic!("expected a reply, got {:?}", other),
    }
}

fn failure(step: Step) -> (Json, i64, String) {
    let response = reply(step);
    match response.outcome {
        Outcome::Failure(error) => (response.id, error.code, error.message),
        Outcome::Success(result) => panic!("expected an error, got {:?}", result),
    }
}

fn is_number(id: &Json, n: u64) -> bool {
    matches!(id, Json::Number(JsonNumber::Unsigned(found)) if *found == n)
}

#[test]
fn deserialize_initialize() {
    let initialize = r#"{"method":"initialize","params":{"protocolVersion":"2024-11-05","capabilities":{},"clientInfo":{"name":"desktop-client","version":"0.1.0"}},"jsonrpc":"2.0","id":0}"#;
    let message = read_message(initialize).unwrap();
    match message {
        Message::Request(request) => {
            assert_eq!(request.method, "initialize");
            assert!(is_number(&request.id, 0));
            assert!(request.params.is_some());
        }
        Message::Notification(_) => panic!("initialize is a request"),
    }
}

#[test]
fn deserialize_initialized() {
    let initialize = r#"{"method":"notifications/initialized","jsonrpc":"2.0"}"#;
    match read_message(initialize).unwrap() {
        Message::Notification(method) => assert_eq!(method, "notifications/initialized"),
        Message::Request(_) => panic!("a message without id is a notification"),
    }
}

#[test]
fn deserialize_tool_list() {
    let initialize = r#"{"method":"tools/list","params":{},"jsonrpc":"2.0","id":1}"#;
    match read_message(initialize).unwrap() {
        Message::Request(request) => {
            assert_eq!(request.method, "tools/list");
            assert!(is_number(&request.id, 1));
        }
        Message::Notification(_) => panic!("tools/list is a request"),
    }
}

#[test]
fn deserialize_list_directory() {
    let list_directory = r#"{"method":"tools/call","params":{"name":"list_directory","arguments":{"path":"src/languages/*.rs"}},"jsonrpc":"2.0","id":39}"#;
    println!("{list_directory}");
    match read_message(list_directory).unwrap() {
        Message::Request(request) => {
            assert_eq!(request.method, "tools/call");
            assert!(is_number(&request.id, 39));
            let params = request.params.unwrap();
            assert_eq!(params.get("name").unwrap().as_str(), Some("list_directory"));
            let arguments = params.get("arguments").unwrap();
            assert_eq!(arguments.get("path").unwrap().as_str(), Some("src/languages/*.rs"));
        }
        Message::Notification(_) => panic!("tools/call is a request"),
    }
}

#[test]
fn malformed_line_produces_nothing_and_the_next_line_is_served() {
    let mut server = server();
    assert!(matches!(server.handle_line("this is not json"), Step::Silent));
    assert!(matches!(server.handle_line("{\"method\":"), Step::Silent));
    assert!(matches!(server.handle_line(""), Step::Silent));
    assert!(matches!(server.handle_line("[1,2,3]"), Step::Silent));
    assert!(matches!(server.handle_line(r#"{"id":1}"#), Step::Silent));
    assert!(matches!(server.handle_line(r#"{"method":"x","id":{"a":1}}"#), Step::Silent));
    assert_eq!(server.state().shared_context_store().len(), 0);
    let response = reply(server.handle_line(r#"{"method":"tools/list","jsonrpc":"2.0","id":7}"#));
    assert!(is_number(&response.id, 7));
    assert!(matches!(response.outcome, Outcome::Success(_)));
}

#[test]
fn notifications_are_not_answered() {
    let mut server = server();
    assert!(matches!(server.handle_line(r#"{"method":"notifications/initialized","jsonrpc":"2.0"}"#), Step::Silent));
    assert!(matches!(server.handle_line(r#"{"method":"tools/list","id":null}"#), Step::Silent));
}

#[test]
fn initialize_and_tools_list_answer_with_what_the_server_was_given() {
    let mut server = server();
    let line = reply(server.handle_line(r#"{"jsonrpc":"2.0","id":"abc","method":"initialize","params":{}}"#)).render();
    assert_eq!(line, r#"{"id":"abc","jsonrpc":"2.0","result":{"protocolVersion":"2024-11-05"}}"#);
    let line = reply(server.handle_line(r#"{"jsonrpc":"2.0","id":2,"method":"tools/list"}"#)).render();
    assert_eq!(line, r#"{"id":2,"jsonrpc":"2.0","result":{"tools":[]}}"#);
}

#[test]
fn unknown_method_is_not_found_with_the_id_echoed() {
    let mut server = server();
    let (id, code, message) = failure(server.handle_line(r#"{"jsonrpc":"2.0","id":5,"method":"resources/list"}"#));
    assert!(is_number(&id, 5));
    assert_eq!(code, METHOD_NOT_FOUND);
    assert_eq!(code, -32601);
    assert_eq!(message, "unknown method: resources/list");
}

#[test]
fn unknown_operation_is_not_found_with_the_id_echoed() {
    let mut server = server();
    let (id, code, message) = failure(server.handle_line(
        r#"{"method":"tools/call","params":{"name":"list_directory","arguments":{"path":"x"}},"jsonrpc":"2.0","id":39}"#,
    ));
    assert!(is_number(&id, 39));
    assert_eq!(code, METHOD_NOT_FOUND);
    assert_eq!(message, "unknown tool: list_directory");
    assert_eq!(server.state().shared_context_store().len(), 0);
}

#[test]
fn missing_required_argument_is_invalid_arguments() {
    let mut server = server();
    let (id, code, message) = failure(server.handle_line(
        r#"{"method":"tools/call","params":{"name":"write","arguments":{"path":"/tmp/x"}},"id":"w1"}"#,
    ));
    assert!(matches!(&id, Json::Text(text) if text == "w1"));
    assert_eq!(code, INVALID_PARAMS);
    assert_eq!(code, -32602);
    assert_eq!(message, "invalid arguments");
    let (_, code, _) = failure(server.handle_line(r#"{"method":"tools/call","params":{"name":"delete"},"id":1}"#));
    assert_eq!(code, INVALID_PARAMS);
    let (_, code, _) = failure(server.handle_line(
        r#"{"method":"tools/call","params":{"name":"list","arguments":{"recursive":"yes"}},"id":1}"#,
    ));
    assert_eq!(code, INVALID_PARAMS);
    let (_, code, _) = failure(server.handle_line(r#"{"method":"tools/call","params":{"arguments":{}},"id":1}"#));
    assert_eq!(code, INVALID_PARAMS);
    let (_, code, _) = failure(server.handle_line(r#"{"method":"tools/call","id":1}"#));
    assert_eq!(code, INVALID_PARAMS);
    let (_, code, _) = failure(server.handle_line(
        r#"{"method":"tools/call","params":{"name":"search","arguments":{"pattern":"x","highlight_style":"bold"}},"id":1}"#,
    ));
    assert_eq!(code, INVALID_PARAMS);
}

#[test]
fn set_working_directory_then_list_end_to_end() {
    let mut server = server();
    let response = reply(server.handle_line(
        r#"{"method":"tools/call","params":{"name":"set_working_directory","arguments":{"path":"/tmp/proj"}},"id":1}"#,
    ));
    assert!(is_number(&response.id, 1));
    let line = response.render();
    assert!(line.contains("/tmp/proj"));
    assert_eq!(
        line,
        r#"{"id":1,"jsonrpc":"2.0","result":{"content":[{"text":"Set context to /tmp/proj","type":"text"}]}}"#
    );

    let step = server.handle_line(r#"{"method":"tools/call","params":{"name":"list","arguments":{"path":"."}},"id":2}"#);
    match step {
        Step::Perform(id, Operation::List { tool, base_path, pattern }) => {
            assert!(is_number(&id, 2));
            assert_eq!(base_path, "/tmp/proj/.");
            assert_eq!(pattern, None);
            assert!(!tool.recursive());
            assert!(!tool.include_metadata());
            let line = Response::tool_result(id, Ok("All paths relative to /tmp/proj/.:\n\na.txt".to_string())).render();
            assert_eq!(
                line,
                r#"{"id":2,"jsonrpc":"2.0","result":{"content":[{"text":"All paths relative to /tmp/proj/.:\n\na.txt","type":"text"}]}}"#
            );
        }
        other => panic!("expected a listing to perform, got {:?}", other),
    }
}

#[test]
fn relative_path_without_working_directory_is_a_tool_failure() {
    let mut server = server();
    let (id, code, message) = failure(server.handle_line(
        r#"{"method":"tools/call","params":{"name":"delete","arguments":{"path":"a/b"}},"id":3}"#,
    ));
    assert!(is_number(&id, 3));
    assert_eq!(code, TOOL_EXECUTION_FAILED);
    assert_eq!(message, "No context found for `default`. Use set_working_directory first or provide an absolute path.");
    let (_, code, message) = failure(server.handle_line(
        r#"{"method":"tools/call","params":{"name":"write","arguments":{"path":"a/b","contents":"x"}},"id":4}"#,
    ));
    assert_eq!(code, TOOL_EXECUTION_FAILED);
    assert_eq!(message, "Failed to resolve a/b");
}

#[test]
fn operations_are_planned_with_resolved_paths() {
    let mut server = server();
    reply(server.handle_line(
        r#"{"method":"tools/call","params":{"name":"set_working_directory","arguments":{"path":"/w"}},"id":1}"#,
    ));
    match server.handle_line(r#"{"method":"tools/call","params":{"name":"delete","arguments":{"path":"x"}},"id":2}"#) {
        Step::Perform(_, Operation::Delete { path }) => assert_eq!(path, "/w/x"),
        other => panic!("unexpected {:?}", other),
    }
    match server.handle_line(
        r#"{"method":"tools/call","params":{"name":"move","arguments":{"source":"a","destination":"/z/b","overwrite":true}},"id":3}"#,
    ) {
        Step::Perform(_, Operation::Move { tool, plan }) => {
            assert_eq!(plan.source, "/w/a");
            assert_eq!(plan.destination, "/z/b");
            assert!(tool.overwrite());
            assert!(tool.create_directories());
        }
        other => panic!("unexpected {:?}", other),
    }
    match server.handle_line(
        r#"{"method":"tools/call","params":{"name":"read","arguments":{"paths":["a","/b"],"max_length":10}},"id":4}"#,
    ) {
        Step::Perform(_, Operation::Read { tool, targets }) => {
            assert_eq!(targets.len(), 2);
            assert_eq!(targets[0].as_ref().unwrap(), "/w/a");
            assert_eq!(targets[1].as_ref().unwrap(), "/b");
            assert_eq!(tool.max_length, Some(10));
        }
        other => panic!("unexpected {:?}", other),
    }
    match server.handle_line(
        r#"{"method":"tools/call","params":{"name":"search","arguments":{"pattern":"fn main","include_extensions":["rs"],"highlight_style":"ansi"}},"id":5}"#,
    ) {
        Step::Perform(_, Operation::Search { tool, path }) => {
            assert_eq!(path, "/w/.");
            assert_eq!(tool.pattern, "fn main");
            assert_eq!(tool.include_extensions, Some(vec!["rs".to_string()]));
            assert_eq!(tool.max_results(), 50);
            assert_eq!(tool.context_lines(), 1);
            assert!(!tool.case_sensitive());
            assert_eq!(tool.highlight_style(), fs_mcp::tools::search::HighlightStyle::Ansi);
        }
        other => panic!("unexpected {:?}", other),
    }
    match server.handle_line(
        r#"{"method":"tools/call","params":{"name":"write","arguments":{"path":"out.txt","contents":"hi","append":true}},"id":6}"#,
    ) {
        Step::Perform(_, Operation::Write { tool, path }) => {
            assert_eq!(path, "/w/out.txt");
            assert_eq!(tool.mode(), Some(fs_mcp::tools::write::WriteMode::Append));
        }
        other => panic!("unexpected {:?}", other),
    }
    match server.handle_line(
        r#"{"method":"tools/call","params":{"name":"list","arguments":{"path":"src/**/*.rs","include_metadata":true}},"id":7}"#,
    ) {
        Step::Perform(_, Operation::List { tool, base_path, pattern }) => {
            assert_eq!(base_path, "/w/src");
            assert_eq!(pattern.as_deref(), Some("**/*.rs"));
            assert!(tool.include_metadata());
        }
        other => panic!("unexpected {:?}", other),
    }
}

#[test]
fn tool_failure_is_answered_as_an_error() {
    let line = Response::tool_result(Json::text("r-1"), Err("No such file or directory".to_string())).render();
    assert_eq!(
        line,
        r#"{"error":{"code":-32603,"message":"No such file or directory"},"id":"r-1","jsonrpc":"2.0"}"#
    );
}

#[test]
fn rendering_escapes_text_and_keeps_fractions() {
    let mut server = server();
    let response = reply(server.handle_line(r#"{"method":"nope","id":1.5}"#));
    assert_eq!(
        response.render(),
        r#"{"error":{"code":-32601,"message":"unknown method: nope"},"id":1.5,"jsonrpc":"2.0"}"#
    );
    let response = reply(server.handle_line(r#"{"method":"a\"b\n","id":-3}"#));
    assert_eq!(
        response.render(),
        r#"{"error":{"code":-32601,"message":"unknown method: a\"b\n"},"id":-3,"jsonrpc":"2.0"}"#
    );
}

#[test]
fn a_server_needs_saving_once_a_session_was_accessed() {
    let mut server = server();
    assert!(!server.needs_saving());
    server.handle_line(r#"{"method":"initialize","id":1}"#);
    server.handle_line(r#"{"method":"notifications/initialized"}"#);
    server.handle_line("not json");
    assert!(!server.needs_saving());
    server.handle_line(
        r#"{"method":"tools/call","params":{"name":"set_working_directory","arguments":{"path":"/tmp/proj"}},"id":2}"#,
    );
    assert!(server.needs_saving());
    assert!(server.begin_save());
    assert!(!server.begin_save());
    assert!(!server.needs_saving());
    assert_eq!(server.state().shared_context_store().len(), 1);
    server.handle_line(r#"{"method":"tools/call","params":{"name":"delete","arguments":{"path":"/abs/a"}},"id":3}"#);
    server.handle_line(
        r#"{"method":"tools/call","params":{"name":"move","arguments":{"source":"/abs/a","destination":"/abs/b"}},"id":4}"#,
    );
    server.handle_line(r#"{"method":"tools/call","params":{"name":"read","arguments":{"paths":["/abs/a","/abs/b"]}},"id":5}"#);
    server.handle_line(r#"{"method":"tools/call","params":{"name":"nope","arguments":{}},"id":6}"#);
    server.handle_line(r#"{"method":"tools/call","params":{"name":"delete","arguments":{}},"id":7}"#);
    assert!(!server.needs_saving());
    server.handle_line(r#"{"method":"tools/call","params":{"name":"read","arguments":{"paths":["/abs/a","b"]}},"id":8}"#);
    assert!(server.needs_saving());
    assert!(server.begin_save());
    server.handle_line(r#"{"method":"tools/call","params":{"name":"delete","arguments":{"path":"a"}},"id":9}"#);
    assert!(server.needs_saving());
}

#[test]
fn a_step_is_sent_as_it_is_after_a_save() {
    let mut server = server();
    let step = server.handle_line(
        r#"{"method":"tools/call","params":{"name":"set_working_directory","arguments":{"path":"/tmp/proj"}},"id":1}"#,
    );
    let response = reply(step.after_save(Ok(())));
    assert_eq!(
        response.render(),
        r#"{"id":1,"jsonrpc":"2.0","result":{"content":[{"text":"Set context to /tmp/proj","type":"text"}]}}"#
    );
    let step = server.handle_line(r#"{"method":"tools/call","params":{"name":"delete","arguments":{"path":"a"}},"id":2}"#);
    match step.after_save(Ok(())) {
        Step::Perform(id, Operation::Delete { path }) => {
            assert!(is_number(&id, 2));
            assert_eq!(path, "/tmp/proj/a");
        }
        other => panic!("expected a deletion to perform, got {:?}", other),
    }
    assert!(matches!(Step::Silent.after_save(Ok(())), Step::Silent));
}

#[test]
fn a_failed_save_is_answered_as_an_error_whatever_the_step() {
    let mut server = server();
    let step = server.handle_line(
        r#"{"method":"tools/call","params":{"name":"set_working_directory","arguments":{"path":"/tmp/proj"}},"id":1}"#,
    );
    let (id, code, message) = failure(step.after_save(Err("disk full".to_string())));
    assert!(is_number(&id, 1));
    assert_eq!(code, TOOL_EXECUTION_FAILED);
    assert_eq!(message, "disk full");

    let step = server.handle_line(r#"{"method":"tools/call","params":{"name":"delete","arguments":{"path":"a"}},"id":2}"#);
    assert!(matches!(step, Step::Perform(..)));
    let (id, code, message) = failure(step.after_save(Err("disk full".to_string())));
    assert!(is_number(&id, 2));
    assert_eq!(code, TOOL_EXECUTION_FAILED);
    assert_eq!(message, "disk full");

    assert!(matches!(Step::Silent.after_save(Err("disk full".to_string())), Step::Silent));
}

#[test]
fn a_write_with_both_flags_is_answered_as_a_success_and_touches_no_session() {
    let mut server = server();
    let step = server.handle_line(
        r#"{"method":"tools/call","params":{"name":"write","arguments":{"path":"/tmp/x.txt","contents":"hi","overwrite":true,"append":true,"create_directories":false}},"id":7}"#,
    );
    assert!(!server.needs_saving());
    assert_eq!(server.state().shared_context_store().len(), 0);
    match step.after_save(Ok(())) {
        Step::Perform(id, Operation::Write { tool, path }) => {
            assert_eq!(path, "/tmp/x.txt");
            assert!(!tool.create_directories());
            let answer = match tool.begin() {
                WriteStep::Done(answer) => answer,
                other => panic!("expected the request to end, got {:?}", other),
            };
            assert_eq!(
                answer,
                Ok("`overwrite` and `append` are mutually exclusive. No filesystem operation has been performed"
                    .to_string())
            );
            assert_eq!(
                Response::tool_result(id, answer).render(),
                r#"{"id":7,"jsonrpc":"2.0","result":{"content":[{"text":"`overwrite` and `append` are mutually exclusive. No filesystem operation has been performed","type":"text"}]}}"#
            );
        }
        other => panic!("expected a write to perform, got {:?}", other),
    }
}

#[test]
fn a_write_to_a_file_that_exists_is_answered_as_a_result() {
    let mut server = server();
    let step = server.handle_line(
        r#"{"method":"tools/call","params":{"name":"write","arguments":{"path":"/tmp/x.txt","contents":"hi"}},"id":8}"#,
    );
    match step {
        Step::Perform(id, Operation::Write { tool, path }) => {
            assert!(matches!(tool.begin(), WriteStep::Open(_)));
            let answer = Write::after_open(&path, Opening::AlreadyExists).expect("the request ends here");
            let line = Response::tool_result(id, answer).render();
            assert!(line.starts_with(r#"{"id":8,"jsonrpc":"2.0","result":{"content":[{"text":"File /tmp/x.txt already exists"#));
            assert!(line.contains("overwrite") && line.contains("append"));
            assert!(!line.contains("\"error\""));
        }
        other => panic!("expected a write to perform, got {:?}", other),
    }
}
