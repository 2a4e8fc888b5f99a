//! A store of per-session payloads, keyed by session identifier.
//!
//! The store is an in-memory mapping. It hands out copies of payloads, never
//! references into itself, and exposes its full content as a list of records
//! so that the embedding program can mirror it to durable storage after every
//! mutation and restore it at start-up.

use crate::clock::system_now;
use crate::clock::Timestamp;
use vstd::prelude::*;

verus! {

/// When a session was first touched and when it was last touched.
#[derive(Clone, Copy, Debug, PartialEq, Eq, Structural)]
pub struct SessionMetadata {
    pub created_at: Timestamp,
    pub last_used: Timestamp,
}

impl SessionMetadata {
    /// A session is never used before it is created.
    pub open spec fn wf(self) -> bool {
        self.last_used.at_or_after(self.created_at)
    }

    /// The metadata of a session first touched at `now`.
    pub open spec fn fresh(now: Timestamp) -> SessionMetadata {
        SessionMetadata { created_at: now, last_used: now }
    }

    /// The metadata after an access at `now`. The time of last use never moves
    /// backwards, whatever the clock reports.
    pub open spec fn touched(self, now: Timestamp) -> SessionMetadata {
        SessionMetadata { created_at: self.created_at, last_used: self.last_used.latest(now) }
    }

    pub fn starting_at(now: Timestamp) -> (m: SessionMetadata)
        ensures
            m == SessionMetadata::fresh(now),
            m.wf(),
    {
        SessionMetadata { created_at: now, last_used: now }
    }
}

/// A payload together with its session's metadata.
#[derive(Clone, Debug)]
pub struct SessionEntry<T> {
    pub data: T,
    pub metadata: SessionMetadata,
}

impl<T> SessionEntry<T> {
    pub open spec fn wf(self) -> bool {
        self.metadata.wf()
    }

    /// Records an access at `now`.
    pub fn update_last_used(&mut self, now: Timestamp)
        ensures
            final(self).data == old(self).data,
            final(self).metadata == old(self).metadata.touched(now),
            old(self).wf() ==> final(self).wf(),
    {
        self.metadata.last_used = self.metadata.last_used.later_of(now);
    }
}

/// One session as it is handed out for persistence and taken back at start-up.
#[derive(Clone, Debug)]
pub struct SessionRecord<T> {
    pub id: String,
    pub entry: SessionEntry<T>,
}

/// No two records carry the same session identifier, and every entry is
/// well-formed.
pub open spec fn valid_records<T>(records: Seq<SessionRecord<T>>) -> bool {
    &&& forall|i: int, j: int|
        0 <= i < j < records.len() ==> (#[trigger] records[i]).id@ != (#[trigger] records[j]).id@
    &&& forall|i: int| 0 <= i < records.len() ==> (#[trigger] records[i]).entry.wf()
}

/// Some record in `records` carries the identifier `id`.
pub open spec fn records_mention<T>(records: Seq<SessionRecord<T>>, id: Seq<char>) -> bool {
    exists|i: int| 0 <= i < records.len() && (#[trigger] records[i]).id@ == id
}

/// The position of a record that carries the identifier `id`.
pub open spec fn record_position<T>(records: Seq<SessionRecord<T>>, id: Seq<char>) -> int {
    choose|i: int| 0 <= i < records.len() && (#[trigger] records[i]).id@ == id
}

/// The mapping that a list of records stands for.
pub open spec fn records_map<T>(records: Seq<SessionRecord<T>>) -> Map<
    Seq<char>,
    SessionEntry<T>,
> {
    Map::new(
        |id: Seq<char>| records_mention(records, id),
        |id: Seq<char>| records[record_position(records, id)].entry,
    )
}

/// `f` may be run on the payload `before`.
pub open spec fn accepts<T, F: FnOnce(T) -> T>(f: F, before: T) -> bool {
    call_requires(f, (before,))
}

/// Running `f` on the payload `before` may give `after`.
pub open spec fn rewrites<T, F: FnOnce(T) -> T>(f: F, before: T, after: T) -> bool {
    call_ensures(f, (before,), after)
}

/// What an access to session `id` at time `now` does to the mapping `before`,
/// apart from the payload of a session that the access creates: every other
/// session is left alone, an existing session keeps its creation time and has
/// its time of last use refreshed, and a new session starts at `now`.
pub open spec fn accessed<T>(
    before: Map<Seq<char>, SessionEntry<T>>,
    after: Map<Seq<char>, SessionEntry<T>>,
    id: Seq<char>,
    now: Timestamp,
) -> bool {
    &&& after.contains_key(id)
    &&& after == before.insert(id, after[id])
    &&& before.contains_key(id) ==> after[id].metadata == before[id].metadata.touched(now)
    &&& !before.contains_key(id) ==> after[id].metadata == SessionMetadata::fresh(now)
}

/// What `get_or_create` at time `now` does: an access that leaves an existing
/// payload unchanged, gives a new session the payload type's default value,
/// and returns a copy of the session's payload.
pub open spec fn read_or_created<T: Clone + Default>(
    before: Map<Seq<char>, SessionEntry<T>>,
    after: Map<Seq<char>, SessionEntry<T>>,
    id: Seq<char>,
    now: Timestamp,
    data: T,
) -> bool {
    &&& accessed(before, after, id, now)
    &&& before.contains_key(id) ==> after[id].data == before[id].data
    &&& !before.contains_key(id) ==> call_ensures(T::default, (), after[id].data)
    &&& cloned(after[id].data, data)
}

/// What `update` with `f` at time `now` does: an access in which `f` rewrites
/// the session's payload, starting from the payload type's default value when
/// the session is new.
pub open spec fn updated<T: Clone + Default, F: FnOnce(T) -> T>(
    before: Map<Seq<char>, SessionEntry<T>>,
    after: Map<Seq<char>, SessionEntry<T>>,
    id: Seq<char>,
    now: Timestamp,
    f: F,
) -> bool {
    &&& accessed(before, after, id, now)
    &&& before.contains_key(id) ==> rewrites(f, before[id].data, after[id].data)
    &&& !before.contains_key(id) ==> exists|zero: T|
        #[trigger] call_ensures(T::default, (), zero) && rewrites(f, zero, after[id].data)
}

/// `f` may be run on whatever payload `update` would hand it for session `id`.
pub open spec fn update_allowed<T: Clone + Default, F: FnOnce(T) -> T>(
    before: Map<Seq<char>, SessionEntry<T>>,
    id: Seq<char>,
    f: F,
) -> bool {
    &&& before.contains_key(id) ==> accepts(f, before[id].data)
    &&& !before.contains_key(id) ==> forall|zero: T|
        #[trigger] call_ensures(T::default, (), zero) ==> accepts(f, zero)
}

/// What `set` at time `now` does: an access after which the session's payload
/// is `data`.
pub open spec fn replaced<T>(
    before: Map<Seq<char>, SessionEntry<T>>,
    after: Map<Seq<char>, SessionEntry<T>>,
    id: Seq<char>,
    now: Timestamp,
    data: T,
) -> bool {
    &&& accessed(before, after, id, now)
    &&& after[id].data == data
}

/// In a valid list of records, the session of each record is found at the
/// position of that record.
pub proof fn lemma_position<T>(records: Seq<SessionRecord<T>>, i: int)
    requires
        valid_records(records),
        0 <= i < records.len(),
    ensures
        records_mention(records, records[i].id@),
        record_position(records, records[i].id@) == i,
        records_map(records).contains_key(records[i].id@),
        records_map(records)[records[i].id@] == records[i].entry,
{
    let id = records[i].id@;
    assert(records_mention(records, id));
    let p = record_position(records, id);
    assert(0 <= p < records.len() && records[p].id@ == id);
    if p < i {
        assert(records[p].id@ != records[i].id@);
    } else if i < p {
        assert(records[i].id@ != records[p].id@);
    }
}

proof fn lemma_push<T>(records: Seq<SessionRecord<T>>, record: SessionRecord<T>)
    requires
        valid_records(records),
        record.entry.wf(),
        !records_mention(records, record.id@),
    ensures
        valid_records(records.push(record)),
        records_map(records.push(record)) == records_map(records).insert(record.id@, record.entry),
{
    let grown = records.push(record);
    let n = records.len() as int;
    assert forall|i: int, j: int| 0 <= i < j < grown.len() implies (#[trigger] grown[i]).id@ != (
    #[trigger] grown[j]).id@ by {
        if j == n {
            assert(grown[i] == records[i]);
            if grown[i].id@ == record.id@ {
                assert(records_mention(records, record.id@));
            }
        } else {
            assert(grown[i] == records[i]);
            assert(grown[j] == records[j]);
        }
    }
    assert(valid_records(grown));
    let target = records_map(records).insert(record.id@, record.entry);
    assert forall|id: Seq<char>| records_map(grown).contains_key(id) == target.contains_key(
        id,
    ) by {
        if records_mention(grown, id) {
            let p = record_position(grown, id);
            if p < n {
                assert(grown[p] == records[p]);
                assert(records_mention(records, id));
            }
        }
        if records_mention(records, id) {
            let p = record_position(records, id);
            assert(grown[p] == records[p]);
            assert(records_mention(grown, id));
        }
        if id == record.id@ {
            assert(grown[n] == record);
            assert(records_mention(grown, id));
        }
    }
    assert forall|id: Seq<char>| records_map(grown).contains_key(id) implies records_map(
        grown,
    )[id] == target[id] by {
        if id == record.id@ {
            assert(grown[n] == record);
            lemma_position(grown, n);
        } else {
            let p = record_position(records, id);
            assert(records_mention(records, id));
            assert(grown[p] == records[p]);
            lemma_position(grown, p);
        }
    }
    assert(records_map(grown) =~= target);
}

proof fn lemma_replace<T>(records: Seq<SessionRecord<T>>, i: int, record: SessionRecord<T>)
    requires
        valid_records(records),
        0 <= i < records.len(),
        record.id@ == records[i].id@,
        record.entry.wf(),
    ensures
        valid_records(records.update(i, record)),
        records_map(records.update(i, record)) == records_map(records).insert(
            record.id@,
            record.entry,
        ),
{
    let changed = records.update(i, record);
    assert forall|a: int, b: int| 0 <= a < b < changed.len() implies (#[trigger] changed[a]).id@
        != (#[trigger] changed[b]).id@ by {
        assert(changed[a].id@ == records[a].id@);
        assert(changed[b].id@ == records[b].id@);
    }
    assert forall|a: int| 0 <= a < changed.len() implies (#[trigger] changed[a]).entry.wf() by {
        if a != i {
            assert(changed[a] == records[a]);
        }
    }
    assert(valid_records(changed));
    let target = records_map(records).insert(record.id@, record.entry);
    assert forall|id: Seq<char>| records_map(changed).contains_key(id) == target.contains_key(
        id,
    ) by {
        if records_mention(changed, id) {
            let p = record_position(changed, id);
            assert(changed[p].id@ == records[p].id@);
            assert(records_mention(records, id));
        }
        if records_mention(records, id) {
            let p = record_position(records, id);
            assert(changed[p].id@ == records[p].id@);
            assert(records_mention(changed, id));
        }
        if id == record.id@ {
            assert(changed[i].id@ == id);
            assert(records_mention(changed, id));
        }
    }
    assert forall|id: Seq<char>| records_map(changed).contains_key(id) implies records_map(
        changed,
    )[id] == target[id] by {
        if id == record.id@ {
            lemma_position(changed, i);
        } else {
            assert(records_mention(records, id));
            let p = record_position(records, id);
            assert(p != i);
            assert(changed[p] == records[p]);
            lemma_position(changed, p);
        }
    }
    assert(records_map(changed) =~= target);
}

/// A mapping from session identifier to payload and metadata.
pub struct SessionStore<T> {
    records: Vec<SessionRecord<T>>,
    /// Whether a session was accessed since a save was last begun.
    unsaved: bool,
}

impl<T> View for SessionStore<T> {
    type V = Map<Seq<char>, SessionEntry<T>>;

    closed spec fn view(&self) -> Map<Seq<char>, SessionEntry<T>> {
        records_map(self.records@)
    }
}

impl<T: Clone + Default> SessionStore<T> {
    /// Session identifiers are unique and every entry is well-formed.
    pub closed spec fn wf(&self) -> bool {
        valid_records(self.records@)
    }

    /// Whether a session was accessed since a save was last begun, so that
    /// the content of the store is to be saved again.
    pub closed spec fn unsaved(&self) -> bool {
        self.unsaved
    }

    /// A store without sessions. There is nothing to save.
    pub fn new() -> (store: Self)
        ensures
            store.wf(),
            store@ == Map::<Seq<char>, SessionEntry<T>>::empty(),
            !store.unsaved(),
    {
        let store = SessionStore { records: Vec::new(), unsaved: false };
        assert(store@ =~= Map::<Seq<char>, SessionEntry<T>>::empty());
        store
    }

    fn position(&self, session_id: &str) -> (found: Option<usize>)
        requires
            self.wf(),
        ensures
            match found {
                Some(i) => i < self.records.len() && self.records[i as int].id@ == session_id@,
                None => !records_mention(self.records@, session_id@),
            },
    {
        let wanted = session_id.to_owned();
        let mut i: usize = 0;
        while i < self.records.len()
            invariant
                i <= self.records.len(),
                wanted@ == session_id@,
                forall|k: int| 0 <= k < i ==> (#[trigger] self.records[k]).id@ != session_id@,
            decreases self.records.len() - i,
        {
            if self.records[i].id == wanted {
                return Some(i);
            }
            i += 1;
        }
        None
    }

    /// Returns a copy of the payload of session `session_id`, creating the
    /// session with the default payload if it does not exist, and records the
    /// access at time `now`.
    pub fn get_or_create_at(&mut self, session_id: &str, now: Timestamp) -> (data: T)
        requires
            old(self).wf(),
        ensures
            final(self).wf(),
            final(self).unsaved(),
            read_or_created(old(self)@, final(self)@, session_id@, now, data),
    {
        self.unsaved = true;
        match self.position(session_id) {
            Some(i) => {
                proof {
                    lemma_position(self.records@, i as int);
                }
                let ghost before = self.records@;
                self.records[i].entry.update_last_used(now);
                proof {
                    assert(self.records@ == before.update(i as int, self.records[i as int]));
                    lemma_replace(before, i as int, self.records[i as int]);
                }
                self.records[i].entry.data.clone()
            },
            None => {
                let data = T::default();
                let copy = data.clone();
                let record = SessionRecord {
                    id: session_id.to_owned(),
                    entry: SessionEntry { data, metadata: SessionMetadata::starting_at(now) },
                };
                proof {
                    lemma_push(self.records@, record);
                }
                self.records.push(record);
                copy
            },
        }
    }

    /// Returns a copy of the payload of session `session_id`, creating the
    /// session with the default payload if it does not exist, and records the
    /// access at the time the system clock shows.
    pub fn get_or_create(&mut self, session_id: &str) -> (data: T)
        requires
            old(self).wf(),
        ensures
            final(self).wf(),
            final(self).unsaved(),
            exists|now: Timestamp|
                read_or_created(old(self)@, final(self)@, session_id@, now, data),
    {
        let now = system_now();
        self.get_or_create_at(session_id, now)
    }

    /// Runs `fun` on the payload of session `session_id`, creating the session
    /// with the default payload first if it does not exist, and records the
    /// access at time `now`.
    pub fn update_at<F: FnOnce(T) -> T>(&mut self, session_id: &str, now: Timestamp, fun: F)
        requires
            old(self).wf(),
            update_allowed(old(self)@, session_id@, fun),
        ensures
            final(self).wf(),
            final(self).unsaved(),
            updated(old(self)@, final(self)@, session_id@, now, fun),
    {
        self.unsaved = true;
        match self.position(session_id) {
            Some(i) => {
                proof {
                    lemma_position(self.records@, i as int);
                }
                let ghost before = self.records@;
                let SessionRecord { id, entry } = self.records.remove(i);
                let SessionEntry { data, metadata } = entry;
                let mut entry = SessionEntry { data: fun(data), metadata };
                entry.update_last_used(now);
                let record = SessionRecord { id, entry };
                proof {
                    assert(before.remove(i as int).insert(i as int, record) =~= before.update(
                        i as int,
                        record,
                    ));
                    lemma_replace(before, i as int, record);
                }
                self.records.insert(i, record);
            },
            None => {
                let entry = SessionEntry {
                    data: fun(T::default()),
                    metadata: SessionMetadata::starting_at(now),
                };
                let record = SessionRecord { id: session_id.to_owned(), entry };
                proof {
                    lemma_push(self.records@, record);
                }
                self.records.push(record);
            },
        }
    }

    /// Runs `fun` on the payload of session `session_id`, creating the session
    /// with the default payload first if it does not exist, and records the
    /// access at the time the system clock shows.
    pub fn update<F: FnOnce(T) -> T>(&mut self, session_id: &str, fun: F)
        requires
            old(self).wf(),
            update_allowed(old(self)@, session_id@, fun),
        ensures
            final(self).wf(),
            final(self).unsaved(),
            exists|now: Timestamp| updated(old(self)@, final(self)@, session_id@, now, fun),
    {
        let now = system_now();
        self.update_at(session_id, now, fun)
    }

    /// Replaces the payload of session `session_id` by `data`, creating the
    /// session if it does not exist, and records the access at time `now`.
    pub fn set_at(&mut self, session_id: &str, now: Timestamp, data: T)
        requires
            old(self).wf(),
        ensures
            final(self).wf(),
            final(self).unsaved(),
            replaced(old(self)@, final(self)@, session_id@, now, data),
    {
        let overwrite = move |existing: T| -> (result: T)
            ensures
                result == data,
            { data };
        self.update_at(session_id, now, overwrite)
    }

    /// Replaces the payload of session `session_id` by `data`, creating the
    /// session if it does not exist, and records the access at the time the
    /// system clock shows.
    pub fn set(&mut self, session_id: &str, data: T)
        requires
            old(self).wf(),
        ensures
            final(self).wf(),
            final(self).unsaved(),
            exists|now: Timestamp| replaced(old(self)@, final(self)@, session_id@, now, data),
    {
        let now = system_now();
        self.set_at(session_id, now, data)
    }

    /// The entry of session `session_id`, if the session exists. Looking at an
    /// entry is not an access: nothing is created and no time is recorded.
    pub fn entry(&self, session_id: &str) -> (found: Option<&SessionEntry<T>>)
        requires
            self.wf(),
        ensures
            found is Some == self@.contains_key(session_id@),
            found is Some ==> *found->0 == self@[session_id@],
    {
        match self.position(session_id) {
            Some(i) => {
                proof {
                    lemma_position(self.records@, i as int);
                }
                Some(&self.records[i].entry)
            },
            None => None,
        }
    }

    /// The number of sessions.
    pub fn len(&self) -> (n: usize)
        requires
            self.wf(),
        ensures
            n == self@.dom().len(),
            self@.dom().finite(),
    {
        proof {
            lemma_domain_size(self.records@);
        }
        self.records.len()
    }

    /// The full content of the store, one record per session, in the order in
    /// which the sessions were created.
    pub fn records(&self) -> (records: &Vec<SessionRecord<T>>)
        requires
            self.wf(),
        ensures
            valid_records(records@),
            records_map(records@) == self@,
    {
        &self.records
    }

    /// Gives up the store for its full content, one record per session.
    pub fn into_records(self) -> (records: Vec<SessionRecord<T>>)
        requires
            self.wf(),
        ensures
            valid_records(records@),
            records_map(records@) == self@,
    {
        self.records
    }

    /// Whether a session was accessed since a save was last begun.
    pub fn needs_saving(&self) -> (needed: bool)
        ensures
            needed == self.unsaved(),
    {
        self.unsaved
    }

    /// Begins a save. Tells whether the content is to be written, which is
    /// so when a session was accessed since the last save was begun; from
    /// here on only later accesses count. The content stays as it is.
    pub fn begin_save(&mut self) -> (due: bool)
        requires
            old(self).wf(),
        ensures
            final(self).wf(),
            final(self)@ == old(self)@,
            due == old(self).unsaved(),
            !final(self).unsaved(),
    {
        let due = self.unsaved;
        self.unsaved = false;
        due
    }

    /// Rebuilds a store from its full content. Records in which an identifier
    /// occurs twice, or in which a session was used before it was created, do
    /// not describe a store.
    pub fn from_records(records: Vec<SessionRecord<T>>) -> (store: Option<Self>)
        ensures
            store is Some == valid_records(records@),
            store is Some ==> store->0.wf() && store->0@ == records_map(records@)
                && !store->0.unsaved(),
    {
        if check_records(&records) {
            Some(SessionStore { records, unsaved: false })
        } else {
            None
        }
    }

    /// Takes over what was read back from durable storage. `parsed` is `None`
    /// when there was nothing to read or what was read could not be decoded;
    /// then, and when the decoded records do not describe a store, the store
    /// is left as it is.
    pub fn load(&mut self, parsed: Option<Vec<SessionRecord<T>>>)
        requires
            old(self).wf(),
        ensures
            final(self).wf(),
            final(self)@ == match parsed {
                Some(records) if valid_records(records@) => records_map(records@),
                _ => old(self)@,
            },
            final(self).unsaved() == old(self).unsaved(),
    {
        match parsed {
            Some(records) => {
                if check_records(&records) {
                    self.records = records;
                }
            },
            None => {},
        }
    }
}

/// Decides whether `records` describes a store.
pub fn check_records<T>(records: &Vec<SessionRecord<T>>) -> (ok: bool)
    ensures
        ok == valid_records(records@),
{
    let mut i: usize = 0;
    while i < records.len()
        invariant
            i <= records.len(),
            valid_records(records@.take(i as int)),
        decreases records.len() - i,
    {
        let metadata = records[i].entry.metadata;
        if !metadata.last_used.is_at_or_after(&metadata.created_at) {
            assert(!records@[i as int].entry.wf());
            return false;
        }
        let mut j: usize = 0;
        while j < i
            invariant
                j <= i < records.len(),
                forall|k: int| 0 <= k < j ==> (#[trigger] records[k]).id@ != records[i as int].id@,
            decreases i - j,
        {
            if records[j].id == records[i].id {
                assert(records@[j as int].id@ == records@[i as int].id@);
                return false;
            }
            j += 1;
        }
        proof {
            let shorter = records@.take(i as int);
            let longer = records@.take(i + 1);
            assert forall|a: int, b: int| 0 <= a < b < longer.len() implies (
            #[trigger] longer[a]).id@ != (#[trigger] longer[b]).id@ by {
                if b < i {
                    assert(shorter[a] == longer[a] && shorter[b] == longer[b]);
                }
            }
            assert forall|a: int| 0 <= a < longer.len() implies (#[trigger] longer[a]).entry.wf() by {
                if a < i {
                    assert(shorter[a] == longer[a]);
                }
            }
        }
        i += 1;
    }
    assert(records@.take(i as int) == records@);
    true
}

/// The identifiers of `records`, in order.
spec fn record_ids<T>(records: Seq<SessionRecord<T>>) -> Seq<Seq<char>> {
    Seq::new(records.len(), |i: int| records[i].id@)
}

proof fn lemma_domain_size<T>(records: Seq<SessionRecord<T>>)
    requires
        valid_records(records),
    ensures
        records_map(records).dom().finite(),
        records_map(records).dom().len() == records.len(),
{
    let ids = record_ids(records);
    assert(ids.no_duplicates());
    assert(ids.to_set() =~= records_map(records).dom()) by {
        assert forall|id: Seq<char>| ids.to_set().contains(id) == records_map(
            records,
        ).dom().contains(id) by {
            if ids.contains(id) {
                let i = choose|i: int| 0 <= i < ids.len() && ids[i] == id;
                assert(records[i].id@ == id);
            }
            if records_mention(records, id) {
                let i = record_position(records, id);
                assert(ids[i] == id);
            }
        }
    }
    ids.unique_seq_to_set();
}

/// The first access to a session, made through `get_or_create`, yields a copy
/// of the payload type's default value, and leaves the session with a time of
/// last use equal to its time of creation.
pub proof fn first_access_yields_default<T: Clone + Default>(
    before: Map<Seq<char>, SessionEntry<T>>,
    after: Map<Seq<char>, SessionEntry<T>>,
    id: Seq<char>,
    now: Timestamp,
    data: T,
)
    requires
        !before.contains_key(id),
        read_or_created(before, after, id, now, data),
    ensures
        call_ensures(T::default, (), after[id].data),
        cloned(after[id].data, data),
        after[id].metadata.created_at == after[id].metadata.last_used,
        after[id].metadata.created_at == now,
{
}

/// An access to one session leaves every other session as it was.
pub proof fn access_leaves_other_sessions<T>(
    before: Map<Seq<char>, SessionEntry<T>>,
    after: Map<Seq<char>, SessionEntry<T>>,
    id: Seq<char>,
    now: Timestamp,
    other: Seq<char>,
)
    requires
        accessed(before, after, id, now),
        other != id,
    ensures
        after.contains_key(other) == before.contains_key(other),
        before.contains_key(other) ==> after[other] == before[other],
{
}

/// An access keeps a well-formed entry well-formed: the time of creation
/// stays, and the time of last use is never earlier than it.
pub proof fn access_keeps_creation_before_use<T>(
    before: Map<Seq<char>, SessionEntry<T>>,
    after: Map<Seq<char>, SessionEntry<T>>,
    id: Seq<char>,
    now: Timestamp,
)
    requires
        accessed(before, after, id, now),
        before.contains_key(id) ==> before[id].wf(),
    ensures
        after[id].wf(),
        before.contains_key(id) ==> after[id].metadata.created_at
            == before[id].metadata.created_at,
        before.contains_key(id) ==> after[id].metadata.last_used.at_or_after(
            before[id].metadata.last_used,
        ),
{
}

/// The payload that results from applying `mutators` one after the other,
/// first to last, starting from `start`.
pub open spec fn fold_mutators<T>(mutators: Seq<spec_fn(T) -> T>, start: T) -> T
    decreases mutators.len(),
{
    if mutators.len() == 0 {
        start
    } else {
        (mutators.last())(fold_mutators(mutators.drop_last(), start))
    }
}

/// An update of session `id` at time `now` whose mutator computes `mutator`,
/// where `zero` is the payload type's default value.
pub open spec fn updated_by<T>(
    before: Map<Seq<char>, SessionEntry<T>>,
    after: Map<Seq<char>, SessionEntry<T>>,
    id: Seq<char>,
    now: Timestamp,
    zero: T,
    mutator: spec_fn(T) -> T,
) -> bool {
    &&& accessed(before, after, id, now)
    &&& after[id].data == mutator(
        if before.contains_key(id) {
            before[id].data
        } else {
            zero
        },
    )
}

/// `stores` lists the content of a store before and after each of a series of
/// updates of session `id`: update `i` runs `mutators[i]` at time `times[i]`
/// and leads from `stores[i]` to `stores[i + 1]`.
pub open spec fn update_series<T>(
    stores: Seq<Map<Seq<char>, SessionEntry<T>>>,
    id: Seq<char>,
    zero: T,
    mutators: Seq<spec_fn(T) -> T>,
    times: Seq<Timestamp>,
) -> bool {
    &&& stores.len() == mutators.len() + 1
    &&& times.len() == mutators.len()
    &&& forall|i: int|
        0 <= i < mutators.len() ==> updated_by(
            #[trigger] stores[i],
            stores[i + 1],
            id,
            times[i],
            zero,
            mutators[i],
        )
}

/// An `update` whose mutator always computes `mutator`, on a payload type whose
/// default value is always `zero`, is an update by `mutator`.
pub proof fn update_by_function<T: Clone + Default, F: FnOnce(T) -> T>(
    before: Map<Seq<char>, SessionEntry<T>>,
    after: Map<Seq<char>, SessionEntry<T>>,
    id: Seq<char>,
    now: Timestamp,
    f: F,
    zero: T,
    mutator: spec_fn(T) -> T,
)
    requires
        updated(before, after, id, now, f),
        forall|a: T, b: T| #[trigger] call_ensures(f, (a,), b) ==> b == mutator(a),
        forall|z: T| #[trigger] call_ensures(T::default, (), z) ==> z == zero,
    ensures
        updated_by(before, after, id, now, zero, mutator),
{
}

/// After a series of updates of a session that did not exist before, the
/// session's payload is the result of folding the mutators, in call order,
/// over the default value; and a `get_or_create` that follows returns a copy
/// of that payload.
pub proof fn updates_fold_over_default<T: Clone + Default>(
    stores: Seq<Map<Seq<char>, SessionEntry<T>>>,
    id: Seq<char>,
    zero: T,
    mutators: Seq<spec_fn(T) -> T>,
    times: Seq<Timestamp>,
    read_at: Timestamp,
    after_read: Map<Seq<char>, SessionEntry<T>>,
    data: T,
)
    requires
        update_series(stores, id, zero, mutators, times),
        !stores[0].contains_key(id),
        mutators.len() > 0,
        read_or_created(stores.last(), after_read, id, read_at, data),
    ensures
        stores.last().contains_key(id),
        stores.last()[id].data == fold_mutators(mutators, zero),
        cloned(fold_mutators(mutators, zero), data),
{
    lemma_series_folds(stores, id, zero, mutators, times);
}

proof fn lemma_series_folds<T>(
    stores: Seq<Map<Seq<char>, SessionEntry<T>>>,
    id: Seq<char>,
    zero: T,
    mutators: Seq<spec_fn(T) -> T>,
    times: Seq<Timestamp>,
)
    requires
        update_series(stores, id, zero, mutators, times),
        !stores[0].contains_key(id),
        mutators.len() > 0,
    ensures
        stores.last().contains_key(id),
        stores.last()[id].data == fold_mutators(mutators, zero),
    decreases mutators.len(),
{
    let n = mutators.len() as int;
    assert(updated_by(stores[n - 1], stores[n], id, times[n - 1], zero, mutators[n - 1]));
    if n == 1 {
        assert(mutators.drop_last().len() == 0);
        assert(fold_mutators(mutators.drop_last(), zero) == zero);
    } else {
        let shorter = stores.drop_last();
        assert forall|i: int| 0 <= i < mutators.drop_last().len() implies updated_by(
            #[trigger] shorter[i],
            shorter[i + 1],
            id,
            times.drop_last()[i],
            zero,
            mutators.drop_last()[i],
        ) by {
            assert(updated_by(stores[i], stores[i + 1], id, times[i], zero, mutators[i]));
        }
        lemma_series_folds(shorter, id, zero, mutators.drop_last(), times.drop_last());
        assert(shorter.last() == stores[n - 1]);
    }
}

} // verus!
