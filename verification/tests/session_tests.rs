use fs_mcp::clock::Timestamp;
use fs_mcp::json::Json;
use fs_mcp::json::JsonNumber;
use fs_mcp::json::JsonValue;
use fs_mcp::json::Member;
use fs_mcp::persist::decode_sessions;
use fs_mcp::persist::encode_sessions;
use fs_mcp::persist::Payload;
use fs_mcp::session::SessionEntry;
use fs_mcp::session::SessionMetadata;
use fs_mcp::session::SessionRecord;
use fs_mcp::session::SessionStore;

#[derive(Debug, Clone, PartialEq, Default)]
struct TestSessionData {
    value: i32,
}

impl Payload for TestSessionData {
    fn document(&self) -> JsonValue {
        unreachable!("only used in proofs")
    }

    fn payload_in(_: JsonValue) -> Option<JsonValue> {
        unreachable!("only used in proofs")
    }

    fn document_reads_back(&self) {
        unreachable!("only used in proofs")
    }

    fn to_json(&self) -> Json {
        let value = if self.value >= 0 {
            JsonNumber::Unsigned(self.value as u64)
        } else {
            JsonNumber::Negative(self.value as i64)
        };
        Json::object(vec![Member::new("value", Json::Number(value))])
    }

    fn from_json(doc: &Json) -> Option<Self> {
        match doc.get("value")? {
            Json::Number(JsonNumber::Unsigned(n)) => Some(Self { value: i32::try_from(*n).ok()? }),
            Json::Number(JsonNumber::Negative(n)) => Some(Self { value: i32::try_from(*n).ok()? }),
            _ => None,
        }
    }
}

/// Gives the store up for the text that is kept of it, and opens a store
/// again from that text, as a restart does.
fn reopen(store: SessionStore<TestSessionData>) -> SessionStore<TestSessionData> {
    let kept = encode_sessions(store.records());
    drop(store);
    let mut store = SessionStore::new();
    store.load(decode_sessions(&kept));
    store
}

#[test]
fn test_session_store_basic_operations() {
    let mut store = SessionStore::<TestSessionData>::new();

    let data = store.get_or_create("test_session");
    assert_eq!(data, TestSessionData::default());

    let new_data = TestSessionData { value: 42 };
    store.set("test_session", new_data.clone());

    let retrieved_data = store.get_or_create("test_session");
    assert_eq!(retrieved_data, new_data);
}

#[test]
fn test_session_persistence() {
    let test_data = TestSessionData { value: 42 };

    let mut store = SessionStore::<TestSessionData>::new();
    store.set("persistent_session", test_data.clone());

    let mut store = reopen(store);
    let retrieved_data = store.get_or_create("persistent_session");
    assert_eq!(retrieved_data, test_data);

    let mut store = reopen(store);
    store.update("persistent_session", |mut x| {
        x.value = 10;
        x
    });

    let mut store = reopen(store);
    let retrieved_data = store.get_or_create("persistent_session");
    assert_eq!(retrieved_data.value, 10);
}

#[test]
fn first_access_returns_default_and_starts_the_clock() {
    let mut store: SessionStore<u64> = SessionStore::new();
    let now = Timestamp::new(5, 7);
    let data = store.get_or_create_at("a", now);
    assert_eq!(data, 0);
    let entry = store.entry("a").unwrap();
    assert_eq!(entry.metadata.created_at, now);
    assert_eq!(entry.metadata.last_used, now);
    assert_eq!(store.len(), 1);
}

#[test]
fn access_refreshes_last_used_and_keeps_created_at() {
    let mut store: SessionStore<u64> = SessionStore::new();
    store.get_or_create_at("a", Timestamp::new(5, 0));
    store.get_or_create_at("a", Timestamp::new(9, 1));
    let entry = store.entry("a").unwrap();
    assert_eq!(entry.metadata.created_at, Timestamp::new(5, 0));
    assert_eq!(entry.metadata.last_used, Timestamp::new(9, 1));
}

#[test]
fn clock_that_steps_back_does_not_move_last_used_back() {
    let mut store: SessionStore<u64> = SessionStore::new();
    store.get_or_create_at("a", Timestamp::new(5, 0));
    store.set_at("a", Timestamp::new(3, 0), 1);
    let entry = store.entry("a").unwrap();
    assert_eq!(entry.metadata.created_at, Timestamp::new(5, 0));
    assert_eq!(entry.metadata.last_used, Timestamp::new(5, 0));
    assert_eq!(entry.data, 1);
}

#[test]
fn updates_fold_in_call_order_over_the_default() {
    let mut store: SessionStore<u64> = SessionStore::new();
    store.update_at("s", Timestamp::new(1, 0), |x| x + 3);
    store.update_at("s", Timestamp::new(2, 0), |x| x * 5);
    store.update_at("other", Timestamp::new(3, 0), |x| x + 100);
    store.update_at("s", Timestamp::new(4, 0), |x| x - 1);
    assert_eq!(store.get_or_create_at("s", Timestamp::new(5, 0)), 14);
    assert_eq!(store.get_or_create_at("other", Timestamp::new(5, 0)), 100);
    assert_eq!(store.len(), 2);
}

#[test]
fn records_round_trip_many_sessions() {
    let mut store: SessionStore<u64> = SessionStore::new();
    for n in 0..20u64 {
        let id = format!("session-{}", n % 5);
        store.update_at(&id, Timestamp::new(n, 0), move |x| x * 2 + n);
    }
    let expected: Vec<(String, u64)> =
        store.records().iter().map(|r| (r.id.clone(), r.entry.data)).collect();
    assert_eq!(expected.len(), 5);
    let mut restored = SessionStore::from_records(store.into_records()).unwrap();
    for (id, data) in expected {
        assert_eq!(restored.get_or_create_at(&id, Timestamp::new(100, 0)), data);
    }
}

#[test]
fn records_with_a_repeated_id_describe_no_store() {
    let metadata = SessionMetadata { created_at: Timestamp::new(1, 0), last_used: Timestamp::new(2, 0) };
    let record = |id: &str| SessionRecord { id: id.to_string(), entry: SessionEntry { data: 1u64, metadata } };
    assert!(SessionStore::from_records(vec![record("a"), record("b"), record("a")]).is_none());
    assert!(SessionStore::from_records(vec![record("a"), record("b")]).is_some());
}

#[test]
fn records_used_before_creation_describe_no_store() {
    let metadata = SessionMetadata { created_at: Timestamp::new(3, 0), last_used: Timestamp::new(2, 0) };
    let records = vec![SessionRecord { id: "a".to_string(), entry: SessionEntry { data: 1u64, metadata } }];
    assert!(SessionStore::from_records(records).is_none());
}

#[test]
fn load_takes_over_valid_records_and_ignores_the_rest() {
    let metadata = SessionMetadata { created_at: Timestamp::new(1, 0), last_used: Timestamp::new(2, 0) };
    let record = |id: &str, data: u64| SessionRecord { id: id.to_string(), entry: SessionEntry { data, metadata } };
    let mut store: SessionStore<u64> = SessionStore::new();
    store.load(None);
    assert_eq!(store.len(), 0);
    store.load(Some(vec![record("a", 7)]));
    assert_eq!(store.entry("a").unwrap().data, 7);
    store.load(Some(vec![record("b", 1), record("b", 2)]));
    assert_eq!(store.len(), 1);
    assert_eq!(store.entry("a").unwrap().data, 7);
}

#[test]
fn timestamps_are_ordered_by_seconds_then_nanoseconds() {
    assert!(Timestamp::new(2, 0).is_at_or_after(&Timestamp::new(1, 999_999_999)));
    assert!(Timestamp::new(1, 5).is_at_or_after(&Timestamp::new(1, 5)));
    assert!(!Timestamp::new(1, 4).is_at_or_after(&Timestamp::new(1, 5)));
    assert_eq!(Timestamp::new(1, 4).later_of(Timestamp::new(1, 5)), Timestamp::new(1, 5));
    assert_eq!(Timestamp::new(3, 0).later_of(Timestamp::new(1, 5)), Timestamp::new(3, 0));
}

#[test]
fn sessions_survive_a_restart_with_payloads_and_times() {
    let mut store = SessionStore::<TestSessionData>::new();
    for n in 0..12i32 {
        let id = format!("s{}", n % 4);
        store.update_at(&id, Timestamp::new(100 + n as u64, 5), move |mut x| {
            x.value = x.value * 3 - n;
            x
        });
    }
    let before: Vec<(String, i32, Timestamp, Timestamp)> = store
        .records()
        .iter()
        .map(|r| (r.id.clone(), r.entry.data.value, r.entry.metadata.created_at, r.entry.metadata.last_used))
        .collect();
    assert_eq!(before.len(), 4);
    let store = reopen(store);
    let mut after: Vec<(String, i32, Timestamp, Timestamp)> = store
        .records()
        .iter()
        .map(|r| (r.id.clone(), r.entry.data.value, r.entry.metadata.created_at, r.entry.metadata.last_used))
        .collect();
    let mut before = before;
    before.sort_by(|a, b| a.0.cmp(&b.0));
    after.sort_by(|a, b| a.0.cmp(&b.0));
    assert_eq!(after, before);
}

#[test]
fn what_cannot_be_read_back_leaves_the_store_empty() {
    for kept in ["", "not json", "[]", "{\"a\":1}", "{\"a\":{\"data\":{\"value\":1}}}", "{\"a\":{\"data\":{\"value\":\"x\"},\"created_at\":{\"secs_since_epoch\":1,\"nanos_since_epoch\":0},\"last_used\":{\"secs_since_epoch\":1,\"nanos_since_epoch\":0}}}"] {
        let mut store = SessionStore::<TestSessionData>::new();
        store.load(decode_sessions(kept));
        assert_eq!(store.len(), 0, "after reading {:?}", kept);
    }
    let mut store = SessionStore::<TestSessionData>::new();
    store.load(decode_sessions("{}"));
    assert_eq!(store.len(), 0);
}

#[test]
fn a_store_needs_saving_after_every_access_until_a_save_begins() {
    let mut store = SessionStore::<TestSessionData>::new();
    assert!(!store.needs_saving());
    store.get_or_create("a");
    assert!(store.needs_saving());
    assert!(store.begin_save());
    assert!(!store.needs_saving());
    assert_eq!(store.len(), 1);
    store.get_or_create("a");
    assert!(store.needs_saving());
    assert!(store.begin_save());
    store.update("a", |data| TestSessionData { value: data.value + 1 });
    assert!(store.needs_saving());
    assert!(store.begin_save());
    store.set("b", TestSessionData { value: 7 });
    assert!(store.needs_saving());
    let reopened = reopen(store);
    assert!(!reopened.needs_saving());
    assert_eq!(reopened.len(), 2);
}
