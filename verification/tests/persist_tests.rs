use fs_mcp::clock::Timestamp;
use fs_mcp::json::Json;
use fs_mcp::persist::decode_sessions;
use fs_mcp::persist::encode_sessions;
use fs_mcp::persist::session_from_json;
use fs_mcp::persist::time_from_json;
use fs_mcp::persist::time_to_json;
use fs_mcp::persist::Payload;
use fs_mcp::session::SessionRecord;
use fs_mcp::session::SessionStore;
use fs_mcp::state::FsTools;
use fs_mcp::state::SharedContextData;

#[test]
fn session_document_layout() {
    let mut tools = FsTools::new(SessionStore::new());
    tools.set_working_directory_at("/tmp/proj".to_string(), None, Timestamp::new(1700000000, 25));
    tools.get_context_at(Some("other"), Timestamp::new(1700000001, 0));
    let kept = encode_sessions(tools.shared_context_store().records());
    let expected = r#"{
  "default": {
    "created_at": {
      "nanos_since_epoch": 25,
      "secs_since_epoch": 1700000000
    },
    "data": {
      "context_path": "/tmp/proj"
    },
    "last_used": {
      "nanos_since_epoch": 25,
      "secs_since_epoch": 1700000000
    }
  },
  "other": {
    "created_at": {
      "nanos_since_epoch": 0,
      "secs_since_epoch": 1700000001
    },
    "data": {
      "context_path": null
    },
    "last_used": {
      "nanos_since_epoch": 0,
      "secs_since_epoch": 1700000001
    }
  }
}"#;
    assert_eq!(kept, expected);
}

#[test]
fn contexts_survive_a_restart() {
    let mut tools = FsTools::new(SessionStore::new());
    tools.set_working_directory_at("/a/b".to_string(), None, Timestamp::new(10, 1));
    tools.set_working_directory_at("/c".to_string(), Some("s2"), Timestamp::new(11, 2));
    tools.get_context_at(Some("s3"), Timestamp::new(12, 3));
    let kept = encode_sessions(tools.shared_context_store().records());
    drop(tools);

    let records: Vec<SessionRecord<SharedContextData>> = decode_sessions(&kept).unwrap();
    let mut store = SessionStore::new();
    store.load(Some(records));
    assert_eq!(store.len(), 3);
    assert_eq!(store.entry("default").unwrap().metadata.created_at, Timestamp::new(10, 1));
    let mut tools = FsTools::new(store);
    assert_eq!(tools.resolve_path("x", None).unwrap(), "/a/b/x");
    assert_eq!(tools.resolve_path("x", Some("s2")).unwrap(), "/c/x");
    assert!(tools.resolve_path("x", Some("s3")).is_err());
}

#[test]
fn times_are_read_from_whole_numbers_that_fit() {
    let at = Timestamp::new(u64::MAX, u32::MAX);
    assert_eq!(time_from_json(&time_to_json(at)), Some(at));
    let read = |text: &str| time_from_json(&Json::parse(text).unwrap());
    assert_eq!(read(r#"{"secs_since_epoch":5,"nanos_since_epoch":6}"#), Some(Timestamp::new(5, 6)));
    assert_eq!(read(r#"{"secs_since_epoch":5,"nanos_since_epoch":4294967296}"#), None);
    assert_eq!(read(r#"{"secs_since_epoch":-5,"nanos_since_epoch":6}"#), None);
    assert_eq!(read(r#"{"secs_since_epoch":5.5,"nanos_since_epoch":6}"#), None);
    assert_eq!(read(r#"{"secs_since_epoch":5}"#), None);
    assert_eq!(read(r#"[5,6]"#), None);
}

#[test]
fn context_payload_is_read_from_text_or_null() {
    let read = |text: &str| SharedContextData::from_json(&Json::parse(text).unwrap());
    assert_eq!(read(r#"{"context_path":"/x"}"#), Some(SharedContextData { context_path: Some("/x".to_string()) }));
    assert_eq!(read(r#"{"context_path":null}"#), Some(SharedContextData { context_path: None }));
    assert_eq!(read(r#"{}"#), Some(SharedContextData { context_path: None }));
    assert_eq!(read(r#"{"context_path":5}"#), None);
    let data = SharedContextData { context_path: Some("/p q".to_string()) };
    assert_eq!(data.to_json().render(), r#"{"context_path":"/p q"}"#);
    assert_eq!(SharedContextData::from_json(&data.to_json()), Some(data));
}

#[test]
fn sessions_need_all_three_members() {
    let read = |text: &str| session_from_json::<SharedContextData>(&Json::parse(text).unwrap());
    let time = r#"{"secs_since_epoch":1,"nanos_since_epoch":2}"#;
    assert!(read(&format!(r#"{{"data":{{}},"created_at":{time},"last_used":{time}}}"#)).is_some());
    assert!(read(&format!(r#"{{"data":{{}},"created_at":{time}}}"#)).is_none());
    assert!(read(&format!(r#"{{"created_at":{time},"last_used":{time}}}"#)).is_none());
    assert!(read(&format!(r#"{{"data":{{"context_path":1}},"created_at":{time},"last_used":{time}}}"#)).is_none());
}

#[test]
fn storage_path_is_below_the_home_directory() {
    assert_eq!(FsTools::storage_path(Some("/home/u")), "/home/u/.ai-tools/sessions/shared-context.json");
    assert_eq!(FsTools::storage_path(Some("/home/u/")), "/home/u/.ai-tools/sessions/shared-context.json");
    assert_eq!(FsTools::storage_path(None), "./.ai-tools/sessions/shared-context.json");
    let found = FsTools::default_storage_path();
    assert!(found.ends_with(".ai-tools/sessions/shared-context.json"));
    match dirs::home_dir().and_then(|h| h.into_os_string().into_string().ok()) {
        Some(home) => assert_eq!(found, FsTools::storage_path(Some(&home))),
        None => assert_eq!(found, FsTools::storage_path(None)),
    }
}

#[test]
fn tilde_is_expanded_to_the_home_directory() {
    let mut tools = FsTools::new(SessionStore::new());
    tools.set_working_directory("/w".to_string(), None);
    let resolved = tools.resolve_path("~/x", None).unwrap();
    let expanded = shellexpand::tilde("~/x").into_owned();
    if expanded.starts_with('/') {
        assert_eq!(resolved, expanded);
        assert_ne!(resolved, "~/x");
    } else {
        assert_eq!(resolved, "/w/~/x");
    }
}

#[test]
fn the_clock_is_read_on_access() {
    let mut store: SessionStore<u64> = SessionStore::new();
    store.get_or_create("a");
    let created = store.entry("a").unwrap().metadata.created_at;
    assert!(created.secs > 1_600_000_000);
    assert!(created.nanos < 1_000_000_000);
    store.set("a", 3);
    let entry = store.entry("a").unwrap();
    assert_eq!(entry.metadata.created_at, created);
    assert!(entry.metadata.last_used.is_at_or_after(&created));
}
