//! The document that holds all sessions. It is one JSON object with a member
//! for each session, named by the session identifier; a session is an object
//! with the members `data`, `created_at` and `last_used`, and a point in time
//! is an object with the members `secs_since_epoch` and `nanos_since_epoch`.
//! The document is written out in full after every change and read back at
//! start-up.

use crate::arguments::optional_text;
use crate::arguments::read_optional_text;
use crate::clock::Timestamp;
use crate::json::find_member;
use crate::json::json_document;
use crate::json::Json;
use crate::json::JsonNumber;
use crate::json::JsonValue;
use crate::json::Member;
use crate::json::NumberValue;
use crate::session::SessionEntry;
use crate::session::SessionMetadata;
use crate::session::lemma_position;
use crate::session::record_position;
use crate::session::records_map;
use crate::session::records_mention;
use crate::session::valid_records;
use crate::session::SessionRecord;
use crate::session::SessionStore;
use crate::state::SharedContextData;
use vstd::prelude::*;

verus! {

/// A payload that can be kept in the session document.
pub trait Payload: Sized {
    /// The document that stands for the payload.
    spec fn document(&self) -> JsonValue;

    /// The document of the payload that `doc` is read as, if it can be read
    /// as one.
    spec fn payload_in(doc: JsonValue) -> Option<JsonValue>;

    /// The document that stands for the payload.
    fn to_json(&self) -> (doc: Json)
        ensures
            doc@ == self.document(),
    ;

    /// Reads a payload from a document.
    fn from_json(doc: &Json) -> (payload: Option<Self>)
        ensures
            match payload {
                Some(payload) => Self::payload_in(doc@) == Some(payload.document()),
                None => Self::payload_in(doc@) is None,
            },
    ;

    /// What is read from the document of a payload is that payload.
    proof fn document_reads_back(&self)
        ensures
            Self::payload_in(self.document()) == Some(self.document()),
    ;
}

/// The document that stands for a working directory, set or not.
pub open spec fn context_document(context_path: Option<Seq<char>>) -> JsonValue {
    JsonValue::Object(
        seq![
            (
                "context_path"@,
                match context_path {
                    Some(path) => JsonValue::Text(path),
                    None => JsonValue::Null,
                },
            ),
        ],
    )
}

impl Payload for SharedContextData {
    open spec fn document(&self) -> JsonValue {
        context_document(
            match self.context_path {
                Some(path) => Some(path@),
                None => None,
            },
        )
    }

    open spec fn payload_in(doc: JsonValue) -> Option<JsonValue> {
        match optional_text(doc, "context_path"@) {
            Some(context_path) => Some(context_document(context_path)),
            None => None,
        }
    }

    fn to_json(&self) -> (doc: Json) {
        let value = match &self.context_path {
            Some(path) => Json::Text(path.clone()),
            None => Json::Null,
        };
        let mut members: Vec<Member> = Vec::new();
        members.push(Member::new("context_path", value));
        let doc = Json::object(members);
        assert(doc@->Object_0 =~= self.document()->Object_0);
        doc
    }

    fn from_json(doc: &Json) -> (payload: Option<Self>) {
        match read_optional_text(doc, "context_path") {
            Some(context_path) => Some(SharedContextData { context_path }),
            None => None,
        }
    }

    proof fn document_reads_back(&self) {
        let doc = self.document();
        assert(doc->Object_0[0].0 == "context_path"@);
        assert(doc.field("context_path"@) == Some(doc->Object_0[0].1));
    }
}

/// The document that stands for a point in time.
pub open spec fn time_document(at: Timestamp) -> JsonValue {
    JsonValue::Object(
        seq![
            ("secs_since_epoch"@, JsonValue::Number(NumberValue::Unsigned(at.secs))),
            ("nanos_since_epoch"@, JsonValue::Number(NumberValue::Unsigned(at.nanos as u64))),
        ],
    )
}

/// The whole number that a document holds, if it holds one that is not
/// negative.
pub open spec fn whole_number(doc: Option<JsonValue>) -> Option<u64> {
    match doc {
        Some(JsonValue::Number(NumberValue::Unsigned(n))) => Some(n),
        _ => None,
    }
}

/// The point in time that `doc` is read as, if it can be read as one: its
/// seconds and nanoseconds must be whole numbers that fit.
pub open spec fn time_in(doc: JsonValue) -> Option<Timestamp> {
    match (
        whole_number(doc.field("secs_since_epoch"@)),
        whole_number(doc.field("nanos_since_epoch"@)),
    ) {
        (Some(secs), Some(nanos)) => if nanos <= u32::MAX {
            Some(Timestamp { secs, nanos: nanos as u32 })
        } else {
            None
        },
        _ => None,
    }
}

/// The document that stands for a session: the document of its payload, and
/// its two points in time.
pub open spec fn session_document(payload: JsonValue, metadata: SessionMetadata) -> JsonValue {
    JsonValue::Object(
        seq![
            ("data"@, payload),
            ("created_at"@, time_document(metadata.created_at)),
            ("last_used"@, time_document(metadata.last_used)),
        ],
    )
}

/// The session that `doc` is read as, if it can be read as one: the document
/// of its payload, and its two points in time.
pub open spec fn session_in<T: Payload>(doc: JsonValue) -> Option<(JsonValue, SessionMetadata)> {
    match (doc.field("data"@), doc.field("created_at"@), doc.field("last_used"@)) {
        (Some(data), Some(created_at), Some(last_used)) => match (
            T::payload_in(data),
            time_in(created_at),
            time_in(last_used),
        ) {
            (Some(payload), Some(created_at), Some(last_used)) => Some(
                (payload, SessionMetadata { created_at, last_used }),
            ),
            _ => None,
        },
        _ => None,
    }
}

/// The document that stands for a list of sessions: an object with a member
/// for each session, in the order of the list.
pub open spec fn sessions_document<T: Payload>(records: Seq<SessionRecord<T>>) -> JsonValue {
    JsonValue::Object(
        Seq::new(
            records.len(),
            |i: int|
                (
                    records[i].id@,
                    session_document(records[i].entry.data.document(), records[i].entry.metadata),
                ),
        ),
    )
}

/// The record is what the member of a session document says.
pub open spec fn record_reads<T: Payload>(
    record: SessionRecord<T>,
    member: (Seq<char>, JsonValue),
) -> bool {
    &&& record.id@ == member.0
    &&& session_in::<T>(member.1) == Some((record.entry.data.document(), record.entry.metadata))
}

/// The document can be read as a list of sessions: it is an object, and each
/// of its members can be read as a session.
pub open spec fn sessions_readable<T: Payload>(doc: JsonValue) -> bool {
    &&& doc is Object
    &&& forall|i: int|
        0 <= i < doc->Object_0.len() ==> session_in::<T>((#[trigger] doc->Object_0[i]).1) is Some
}

/// The document that stands for a point in time.
pub fn time_to_json(at: Timestamp) -> (doc: Json)
    ensures
        doc@ == time_document(at),
{
    let mut members: Vec<Member> = Vec::new();
    members.push(Member::new("secs_since_epoch", Json::Number(JsonNumber::Unsigned(at.secs))));
    members.push(
        Member::new("nanos_since_epoch", Json::Number(JsonNumber::Unsigned(at.nanos as u64))),
    );
    let doc = Json::object(members);
    assert(doc@->Object_0 =~= time_document(at)->Object_0);
    doc
}

fn whole_number_of(doc: Option<&Json>) -> (number: Option<u64>)
    ensures
        number == whole_number(
            match doc {
                Some(doc) => Some(doc@),
                None => None,
            },
        ),
{
    match doc {
        Some(Json::Number(JsonNumber::Unsigned(n))) => Some(*n),
        _ => None,
    }
}

/// Reads a point in time from a document.
pub fn time_from_json(doc: &Json) -> (at: Option<Timestamp>)
    ensures
        at == time_in(doc@),
{
    let secs = whole_number_of(doc.get("secs_since_epoch"));
    let nanos = whole_number_of(doc.get("nanos_since_epoch"));
    match (secs, nanos) {
        (Some(secs), Some(nanos)) => {
            if nanos <= u32::MAX as u64 {
                Some(Timestamp { secs, nanos: nanos as u32 })
            } else {
                None
            }
        },
        _ => None,
    }
}

/// The document that stands for a session.
pub fn session_to_json<T: Payload>(entry: &SessionEntry<T>) -> (doc: Json)
    ensures
        doc@ == session_document(entry.data.document(), entry.metadata),
{
    let mut members: Vec<Member> = Vec::new();
    members.push(Member::new("data", entry.data.to_json()));
    members.push(Member::new("created_at", time_to_json(entry.metadata.created_at)));
    members.push(Member::new("last_used", time_to_json(entry.metadata.last_used)));
    let doc = Json::object(members);
    assert(doc@->Object_0 =~= session_document(entry.data.document(), entry.metadata)->Object_0);
    doc
}

/// Reads a session from a document.
pub fn session_from_json<T: Payload>(doc: &Json) -> (entry: Option<SessionEntry<T>>)
    ensures
        match entry {
            Some(entry) => session_in::<T>(doc@) == Some((entry.data.document(), entry.metadata)),
            None => session_in::<T>(doc@) is None,
        },
{
    let data = match doc.get("data") {
        Some(data) => data,
        None => {
            return None;
        },
    };
    let created_at = match doc.get("created_at") {
        Some(created_at) => created_at,
        None => {
            return None;
        },
    };
    let last_used = match doc.get("last_used") {
        Some(last_used) => last_used,
        None => {
            return None;
        },
    };
    let data = match T::from_json(data) {
        Some(data) => data,
        None => {
            return None;
        },
    };
    let created_at = match time_from_json(created_at) {
        Some(created_at) => created_at,
        None => {
            return None;
        },
    };
    let last_used = match time_from_json(last_used) {
        Some(last_used) => last_used,
        None => {
            return None;
        },
    };
    Some(SessionEntry { data, metadata: SessionMetadata { created_at, last_used } })
}

/// The document that stands for a list of sessions.
pub fn sessions_to_json<T: Payload>(records: &Vec<SessionRecord<T>>) -> (doc: Json)
    ensures
        doc@ == sessions_document(records@),
{
    let mut members: Vec<Member> = Vec::new();
    let mut i: usize = 0;
    while i < records.len()
        invariant
            i <= records.len(),
            members@.len() == i,
            forall|k: int|
                0 <= k < i ==> (#[trigger] members@[k]).key@ == records@[k].id@ && members@[k].value@
                    == session_document(
                    records@[k].entry.data.document(),
                    records@[k].entry.metadata,
                ),
        decreases records.len() - i,
    {
        members.push(
            Member { key: records[i].id.clone(), value: session_to_json(&records[i].entry) },
        );
        i += 1;
    }
    let doc = Json::object(members);
    assert(doc@->Object_0 =~= sessions_document(records@)->Object_0);
    doc
}

/// Reads a list of sessions from a document: one record for each member, in
/// the order of the members.
pub fn sessions_from_json<T: Payload>(doc: &Json) -> (records: Option<Vec<SessionRecord<T>>>)
    ensures
        records is Some == sessions_readable::<T>(doc@),
        match records {
            Some(records) => {
                &&& records@.len() == doc@->Object_0.len()
                &&& forall|i: int|
                    0 <= i < records@.len() ==> record_reads(
                        #[trigger] records@[i],
                        doc@->Object_0[i],
                    )
            },
            None => true,
        },
{
    match doc {
        Json::Object(members) => {
            proof {
                Json::lemma_members(*members);
            }
            let ghost shown = doc@->Object_0;
            let mut records: Vec<SessionRecord<T>> = Vec::new();
            let mut i: usize = 0;
            while i < members.len()
                invariant
                    i <= members.len(),
                    doc@ == JsonValue::Object(shown),
                    shown.len() == members@.len(),
                    forall|k: int|
                        0 <= k < members@.len() ==> shown[k] == (
                            (#[trigger] members@[k]).key@,
                            members@[k].value@,
                        ),
                    records@.len() == i,
                    forall|k: int| 0 <= k < i ==> record_reads(#[trigger] records@[k], shown[k]),
                decreases members.len() - i,
            {
                match session_from_json::<T>(&members[i].value) {
                    Some(entry) => {
                        records.push(SessionRecord { id: members[i].key.clone(), entry });
                    },
                    None => {
                        assert(session_in::<T>(shown[i as int].1) is None);
                        return None;
                    },
                }
                i += 1;
            }
            proof {
                assert forall|k: int| 0 <= k < shown.len() implies session_in::<T>(
                    (#[trigger] shown[k]).1,
                ) is Some by {
                    assert(record_reads(records@[k], shown[k]));
                }
            }
            Some(records)
        },
        _ => None,
    }
}

/// What is written out for a list of sessions: its document, laid out on
/// several lines.
pub fn encode_sessions<T: Payload>(records: &Vec<SessionRecord<T>>) -> (text: String)
    ensures
        text@ == crate::json::json_pretty_text(sessions_document(records@)),
{
    sessions_to_json(records).render_pretty()
}

/// Reads back what was written out for a list of sessions. A text that is
/// not well-formed JSON, and a document that cannot be read as a list of
/// sessions, give nothing.
pub fn decode_sessions<T: Payload>(text: &str) -> (records: Option<Vec<SessionRecord<T>>>)
    ensures
        records is Some == (json_document(text@) is Some && sessions_readable::<T>(
            json_document(text@)->0,
        )),
        match records {
            Some(records) => {
                &&& records@.len() == json_document(text@)->0->Object_0.len()
                &&& forall|i: int|
                    0 <= i < records@.len() ==> record_reads(
                        #[trigger] records@[i],
                        json_document(text@)->0->Object_0[i],
                    )
            },
            None => true,
        },
{
    match Json::parse(text) {
        Some(doc) => sessions_from_json(&doc),
        None => None,
    }
}

/// What is read from the document of a point in time is that point in time.
pub proof fn time_document_reads_back(at: Timestamp)
    ensures
        time_in(time_document(at)) == Some(at),
{
    reveal_strlit("secs_since_epoch");
    reveal_strlit("nanos_since_epoch");
    reveal_with_fuel(find_member, 3);
    let doc = time_document(at);
    let members = doc->Object_0;
    assert(members[0].0 == "secs_since_epoch"@);
    assert(members.skip(1)[0] == members[1]);
    assert("secs_since_epoch"@ != "nanos_since_epoch"@) by {
        assert("secs_since_epoch"@[0] == 's');
        assert("nanos_since_epoch"@[0] == 'n');
    }
    assert(doc.field("secs_since_epoch"@) == Some(members[0].1));
    assert(doc.field("nanos_since_epoch"@) == Some(members[1].1));
}

/// What is read from the document of a session is that session: the
/// document of its payload, and its two points in time.
pub proof fn session_document_reads_back<T: Payload>(entry: SessionEntry<T>)
    ensures
        session_in::<T>(session_document(entry.data.document(), entry.metadata)) == Some(
            (entry.data.document(), entry.metadata),
        ),
{
    reveal_strlit("data");
    reveal_strlit("created_at");
    reveal_strlit("last_used");
    reveal_with_fuel(find_member, 4);
    let doc = session_document(entry.data.document(), entry.metadata);
    let members = doc->Object_0;
    assert(members.skip(1)[0] == members[1]);
    assert(members.skip(1).skip(1)[0] == members[2]);
    assert("data"@[0] == 'd' && "created_at"@[0] == 'c' && "last_used"@[0] == 'l');
    assert(doc.field("data"@) == Some(members[0].1));
    assert(doc.field("created_at"@) == Some(members[1].1));
    assert(doc.field("last_used"@) == Some(members[2].1));
    entry.data.document_reads_back();
    time_document_reads_back(entry.metadata.created_at);
    time_document_reads_back(entry.metadata.last_used);
}

/// The document of a list of sessions can be read back, and what is read
/// back, member by member, are the sessions of the list: their identifiers,
/// the documents of their payloads, and their points in time.
pub proof fn sessions_document_reads_back<T: Payload>(records: Seq<SessionRecord<T>>)
    ensures
        sessions_readable::<T>(sessions_document(records)),
        sessions_document(records)->Object_0.len() == records.len(),
        forall|i: int|
            0 <= i < records.len() ==> record_reads(
                #[trigger] records[i],
                sessions_document(records)->Object_0[i],
            ),
{
    let members = sessions_document(records)->Object_0;
    assert forall|i: int| 0 <= i < records.len() implies record_reads(
        #[trigger] records[i],
        members[i],
    ) by {
        session_document_reads_back(records[i].entry);
    }
    assert forall|i: int| 0 <= i < members.len() implies session_in::<T>(
        (#[trigger] members[i]).1,
    ) is Some by {
        assert(record_reads(records[i], members[i]));
    }
}

/// A restart keeps the sessions. Let a store hand out its sessions as
/// `records`, let `read` be what is read back from the document of these
/// records, and let `restored` be an empty store that took over what was
/// read. Then `restored` holds the same sessions as the store, each with the
/// same points in time and with a payload that has the same document.
pub proof fn restart_keeps_sessions<T: Payload + Clone + Default>(
    store: SessionStore<T>,
    records: Seq<SessionRecord<T>>,
    read: Seq<SessionRecord<T>>,
    restored: SessionStore<T>,
)
    requires
        valid_records(records),
        records_map(records) == store@,
        read.len() == records.len(),
        forall|i: int|
            0 <= i < read.len() ==> record_reads(
                #[trigger] read[i],
                sessions_document(records)->Object_0[i],
            ),
        restored@ == (if valid_records(read) {
            records_map(read)
        } else {
            Map::<Seq<char>, SessionEntry<T>>::empty()
        }),
    ensures
        valid_records(read),
        restored@.dom() == store@.dom(),
        forall|id: Seq<char>|
            store@.contains_key(id) ==> {
                &&& (#[trigger] restored@[id]).metadata == store@[id].metadata
                &&& restored@[id].data.document() == store@[id].data.document()
            },
{
    let members = sessions_document(records)->Object_0;
    assert forall|i: int| 0 <= i < read.len() implies {
        &&& (#[trigger] read[i]).id@ == records[i].id@
        &&& read[i].entry.metadata == records[i].entry.metadata
        &&& read[i].entry.data.document() == records[i].entry.data.document()
    } by {
        session_document_reads_back(records[i].entry);
        assert(record_reads(read[i], members[i]));
    }
    assert(valid_records(read)) by {
        assert forall|i: int, j: int| 0 <= i < j < read.len() implies (#[trigger] read[i]).id@ != (
        #[trigger] read[j]).id@ by {
            assert(records[i].id@ != records[j].id@);
        }
        assert forall|i: int| 0 <= i < read.len() implies (#[trigger] read[i]).entry.wf() by {
            assert(records[i].entry.wf());
        }
    }
    assert forall|id: Seq<char>| restored@.contains_key(id) == store@.contains_key(id) by {
        if records_mention(read, id) {
            let i = record_position(read, id);
            assert(records[i].id@ == id);
        }
        if records_mention(records, id) {
            let i = record_position(records, id);
            assert(read[i].id@ == id);
        }
    }
    assert(restored@.dom() =~= store@.dom());
    assert forall|id: Seq<char>| store@.contains_key(id) implies {
        &&& (#[trigger] restored@[id]).metadata == store@[id].metadata
        &&& restored@[id].data.document() == store@[id].data.document()
    } by {
        let i = record_position(records, id);
        assert(read[i].id@ == id);
        lemma_position(records, i);
        lemma_position(read, i);
    }
}

} // verus!
