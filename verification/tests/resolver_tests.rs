use fs_mcp::clock::Timestamp;
use fs_mcp::paths::join_paths;
use fs_mcp::paths::path_is_absolute;
use fs_mcp::session::SessionStore;
use fs_mcp::state::FsTools;
use fs_mcp::state::ResolveError;
use fs_mcp::tools::set_context::SetContext;
use fs_mcp::tools::set_working_directory::SetWorkingDirectory;

fn fresh() -> FsTools {
    FsTools::new(SessionStore::new())
}

#[test]
fn absolute_path_never_touches_the_sessions() {
    let mut tools = fresh();
    let resolved = tools.resolve_path("/etc/hosts", Some("s")).unwrap();
    assert_eq!(resolved, "/etc/hosts");
    assert_eq!(tools.shared_context_store().len(), 0);
    assert!(tools.shared_context_store().entry("s").is_none());
}

#[test]
fn relative_path_without_context_names_the_session() {
    let mut tools = fresh();
    let error = tools.resolve_path("c/d", Some("alice")).unwrap_err();
    match &error {
        ResolveError::NoContext { session_id } => assert_eq!(session_id, "alice"),
    }
    assert_eq!(
        error.message(),
        "No context found for `alice`. Use set_working_directory first or provide an absolute path."
    );
    let error = tools.resolve_path("c/d", None).unwrap_err();
    match &error {
        ResolveError::NoContext { session_id } => assert_eq!(session_id, "default"),
    }
}

#[test]
fn relative_path_is_taken_from_the_working_directory() {
    let mut tools = fresh();
    let answer = SetWorkingDirectory { path: "/a/b".to_string() }.execute(&mut tools).unwrap();
    assert_eq!(answer, "Set context to /a/b");
    assert_eq!(tools.resolve_path("c/d", None).unwrap(), "/a/b/c/d");
    assert_eq!(tools.get_context(None), Some("/a/b".to_string()));
}

#[test]
fn sessions_have_separate_working_directories() {
    let mut tools = fresh();
    tools.set_working_directory("/one".to_string(), Some("first"));
    tools.set_working_directory("/two/".to_string(), Some("second"));
    assert_eq!(tools.resolve_path("x", Some("first")).unwrap(), "/one/x");
    assert_eq!(tools.resolve_path("x", Some("second")).unwrap(), "/two/x");
    assert!(tools.resolve_path("x", None).is_err());
}

#[test]
fn working_directory_can_be_set_relative_to_the_one_before() {
    let mut tools = fresh();
    SetWorkingDirectory { path: "/a".to_string() }.execute(&mut tools).unwrap();
    let answer = SetWorkingDirectory { path: "b".to_string() }.execute(&mut tools).unwrap();
    assert_eq!(answer, "Set context to /a/b");
    assert_eq!(tools.resolve_path("c", None).unwrap(), "/a/b/c");
}

#[test]
fn setting_a_relative_working_directory_without_context_fails() {
    let mut tools = fresh();
    assert!(SetWorkingDirectory { path: "b".to_string() }.execute(&mut tools).is_err());
    assert_eq!(tools.get_context(None), None);
}

#[test]
fn resolve_expanded_uses_the_expansion_only_to_decide() {
    let mut tools = fresh();
    let now = Timestamp::new(1, 0);
    let resolved = tools.resolve_expanded("~/x", "/home/u/x".to_string(), None, now).unwrap();
    assert_eq!(resolved, "/home/u/x");
    tools.set_working_directory_at("/w".to_string(), None, now);
    let resolved = tools.resolve_expanded("~/x", "~/x".to_string(), None, now).unwrap();
    assert_eq!(resolved, "/w/~/x");
}

#[test]
fn tilde_free_paths_are_not_expanded() {
    let mut tools = fresh();
    tools.set_working_directory("/w".to_string(), None);
    assert_eq!(tools.resolve_path("a~b", None).unwrap(), "/w/a~b");
    assert_eq!(tools.resolve_path("~user/x", None).unwrap(), "/w/~user/x");
}

#[test]
fn set_context_records_the_path_for_the_named_session() {
    let mut tools = fresh();
    let tool = SetContext { path: "/usr/local/projects/cobol".to_string(), session_id: "GraceHopper1906".to_string() };
    let answer = tool.execute(&mut tools);
    assert_eq!(answer, "Set context to /usr/local/projects/cobol for session 'GraceHopper1906'");
    assert_eq!(tools.get_context(Some("GraceHopper1906")), Some("/usr/local/projects/cobol".to_string()));
}

#[test]
fn joining_paths() {
    assert_eq!(join_paths("/a/b", "c/d"), "/a/b/c/d");
    assert_eq!(join_paths("/a/b/", "c"), "/a/b/c");
    assert_eq!(join_paths("/a/b", "/c"), "/c");
    assert_eq!(join_paths("", "c"), "c");
    assert_eq!(join_paths("/a", ""), "/a/");
    assert_eq!(join_paths("/tmp/proj", "."), "/tmp/proj/.");
    assert!(path_is_absolute("/"));
    assert!(!path_is_absolute(""));
    assert!(!path_is_absolute("a/b"));
}

#[test]
fn only_relative_paths_ask_for_a_save() {
    let mut state = fresh();
    assert!(!state.needs_saving());
    assert_eq!(state.resolve_path("/abs/file", Some("s")).unwrap(), "/abs/file");
    assert!(!state.needs_saving());
    assert!(!state.begin_save());
    assert!(state.resolve_path("rel", Some("s")).is_err());
    assert!(state.needs_saving());
    assert!(state.begin_save());
    assert!(!state.needs_saving());
    state.set_working_directory("/w".to_string(), Some("s"));
    assert!(state.begin_save());
    assert_eq!(state.get_context(Some("s")), Some("/w".to_string()));
    assert!(state.begin_save());
    assert_eq!(state.resolve_path("rel", Some("s")).unwrap(), "/w/rel");
    assert!(state.needs_saving());
}
