//! The ledger of conversations: sessions, and the contents written to each in
//! the order in which they were written.
//!
//! A store is read through its view, a `StoreModel`. Every store that executable
//! code holds is well formed: no two sessions share an identifier or an external
//! key, no two records share an identifier, and every record belongs to a session
//! of the store.

use vstd::prelude::*;
use crate::error::StorageError;
use crate::proto::message::{ContentModel, ContentPb};
use crate::text::str_eq;
use crate::views::{clone_option, option_view, seq_view};

verus! {

/// The view of a session.
pub struct SessionModel {
    pub id: Seq<char>,
    pub key: Option<Seq<char>>,
}

/// The view of a record.
#[verifier::ext_equal]
pub struct RecordModel {
    pub id: Seq<char>,
    pub session_id: Seq<char>,
    pub content: ContentModel,
}

/// The view of a store: its sessions in the order in which they were added, and its
/// records in the order in which they were written.
#[verifier::ext_equal]
pub struct StoreModel {
    pub sessions: Seq<SessionModel>,
    pub records: Seq<RecordModel>,
}

/// The records of `session` among `records`, in their order.
pub open spec fn records_of(records: Seq<RecordModel>, session: Seq<char>) -> Seq<RecordModel>
    decreases records.len(),
{
    if records.len() == 0 {
        Seq::empty()
    } else {
        let earlier = records_of(records.drop_last(), session);
        if records.last().session_id == session {
            earlier.push(records.last())
        } else {
            earlier
        }
    }
}

/// The contents of `records`, in their order.
pub open spec fn contents_of(records: Seq<RecordModel>) -> Seq<ContentModel> {
    Seq::new(records.len(), |i: int| records[i].content)
}

impl StoreModel {
    /// The store without sessions.
    pub open spec fn empty() -> StoreModel {
        StoreModel { sessions: Seq::empty(), records: Seq::empty() }
    }

    /// Whether the store holds a session of this identifier.
    pub open spec fn has_session(self, id: Seq<char>) -> bool {
        exists|i: int| 0 <= i < self.sessions.len() && (#[trigger] self.sessions[i]).id == id
    }

    /// Whether the store holds a record of this identifier.
    pub open spec fn has_record(self, id: Seq<char>) -> bool {
        exists|i: int| 0 <= i < self.records.len() && (#[trigger] self.records[i]).id == id
    }

    /// Whether a session is bound to the external key `key`.
    pub open spec fn is_bound(self, key: Seq<char>) -> bool {
        exists|i: int|
            0 <= i < self.sessions.len() && (#[trigger] self.sessions[i]).key == Some(key)
    }

    /// The session that is bound to the external key `key`.
    pub open spec fn session_of(self, key: Seq<char>) -> Option<Seq<char>> {
        if self.is_bound(key) {
            let i = choose|i: int|
                0 <= i < self.sessions.len() && (#[trigger] self.sessions[i]).key == Some(key);
            Some(self.sessions[i].id)
        } else {
            None
        }
    }

    /// Whether identifiers and keys are unique and every record belongs to a
    /// session of the store.
    pub open spec fn well_formed(self) -> bool {
        &&& forall|i: int, j: int|
            0 <= i < self.sessions.len() && 0 <= j < self.sessions.len() && i != j ==> (
            #[trigger] self.sessions[i]).id != (#[trigger] self.sessions[j]).id
        &&& forall|i: int, j: int|
            0 <= i < self.sessions.len() && 0 <= j < self.sessions.len() && i != j && (
            #[trigger] self.sessions[i]).key is Some ==> self.sessions[i].key != (
            #[trigger] self.sessions[j]).key
        &&& forall|i: int, j: int|
            0 <= i < self.records.len() && 0 <= j < self.records.len() && i != j ==> (
            #[trigger] self.records[i]).id != (#[trigger] self.records[j]).id
        &&& forall|i: int|
            0 <= i < self.records.len() ==> self.has_session(
                (#[trigger] self.records[i]).session_id,
            )
    }

    /// Whether this store holds all that `earlier` holds, in the same places:
    /// nothing was taken away or changed, though sessions and records may have
    /// been added at the end.
    pub open spec fn extends(self, earlier: StoreModel) -> bool {
        &&& earlier.sessions.is_prefix_of(self.sessions)
        &&& earlier.records.is_prefix_of(self.records)
    }

    /// The records of `session` in the order in which they were written.
    pub open spec fn records_of(self, session: Seq<char>) -> Seq<RecordModel> {
        records_of(self.records, session)
    }

    /// What was written to `session`, in the order in which it was written.
    pub open spec fn history(self, session: Seq<char>) -> Seq<ContentModel> {
        contents_of(self.records_of(session))
    }

    /// The store after an attempt to add the session `id`, bound to `key` if
    /// there is one. The attempt is refused where the identifier or the key is
    /// taken.
    pub open spec fn insert_session(self, id: Seq<char>, key: Option<Seq<char>>) -> (
        StoreModel,
        Result<(), StorageError>,
    ) {
        if self.has_session(id) || (key is Some && self.is_bound(key->0)) {
            (self, Err(StorageError::DuplicateId))
        } else {
            (
                StoreModel {
                    sessions: self.sessions.push(SessionModel { id, key }),
                    records: self.records,
                },
                Ok(()),
            )
        }
    }

    /// The store after an attempt to add a session under the identifier `fresh`,
    /// bound to no key.
    pub open spec fn create(self, fresh: Seq<char>) -> (
        StoreModel,
        Result<Seq<char>, StorageError>,
    ) {
        match self.insert_session(fresh, None) {
            (after, Ok(_)) => (after, Ok(fresh)),
            (after, Err(error)) => (after, Err(error)),
        }
    }

    /// The store after `get_or_create` for the external key `key`, where `fresh`
    /// is the identifier on offer for a new session.
    pub open spec fn get_or_create(self, key: Seq<char>, fresh: Seq<char>) -> (
        StoreModel,
        Result<Seq<char>, StorageError>,
    ) {
        match self.session_of(key) {
            Some(id) => (self, Ok(id)),
            None => match self.insert_session(fresh, Some(key)) {
                (after, Ok(_)) => (after, Ok(fresh)),
                (after, Err(error)) => (after, Err(error)),
            },
        }
    }

    /// The store after an attempt to write `content` to `session` under the
    /// identifier `id`.
    pub open spec fn insert_content(
        self,
        id: Seq<char>,
        session: Seq<char>,
        content: ContentModel,
    ) -> (StoreModel, Result<(), StorageError>) {
        if !self.has_session(session) {
            (self, Err(StorageError::UnknownSession))
        } else if self.has_record(id) {
            (self, Err(StorageError::DuplicateId))
        } else {
            (
                StoreModel {
                    sessions: self.sessions,
                    records: self.records.push(RecordModel { id, session_id: session, content }),
                },
                Ok(()),
            )
        }
    }
}

/// The view of the identifier that a call gave back.
pub open spec fn id_view(id: Result<String, StorageError>) -> Result<Seq<char>, StorageError> {
    match id {
        Ok(id) => Ok(id@),
        Err(error) => Err(error),
    }
}

/// A session: its identifier and the external key it is bound to, if any.
#[derive(Debug, PartialEq, Eq)]
pub struct Session {
    pub id: String,
    pub key: Option<String>,
}

impl View for Session {
    type V = SessionModel;

    open spec fn view(&self) -> SessionModel {
        SessionModel { id: self.id@, key: option_view(self.key) }
    }
}

impl Clone for Session {
    fn clone(&self) -> (copy: Self)
        ensures
            copy@ == self@,
    {
        Session { id: self.id.clone(), key: clone_option(&self.key) }
    }
}

/// One written fragment of a turn.
#[derive(Debug, PartialEq, Eq)]
pub struct ContentRecord {
    pub id: String,
    pub session_id: String,
    pub content: ContentPb,
}

impl View for ContentRecord {
    type V = RecordModel;

    open spec fn view(&self) -> RecordModel {
        RecordModel { id: self.id@, session_id: self.session_id@, content: self.content@ }
    }
}

impl Clone for ContentRecord {
    fn clone(&self) -> (copy: Self)
        ensures
            copy@ == self@,
    {
        ContentRecord {
            id: self.id.clone(),
            session_id: self.session_id.clone(),
            content: self.content.clone(),
        }
    }
}

/// The shape of the identifiers that the store draws: 36 characters in five
/// groups, a hyphen between two groups, and `4` at the head of the third.
pub open spec fn is_drawn_id(id: Seq<char>) -> bool {
    &&& id.len() == 36
    &&& id[8] == '-'
    &&& id[13] == '-'
    &&& id[18] == '-'
    &&& id[23] == '-'
    &&& id[14] == '4'
}

/// Draws an identifier at random: `uuid::Uuid::new_v4`, written out by
/// `to_string`. The contract claims the shape of the text and nothing of its
/// value: two draws may or may not differ. The draw reads the random source of
/// the operating system and panics if that source fails.
#[verifier::external_body]
pub(crate) fn fresh_id() -> (id: String)
    ensures
        is_drawn_id(id@),
{
    uuid::Uuid::new_v4().to_string()
}

/// The ledger: sessions, and the records written to them.
#[derive(Debug)]
pub struct ConversationStore {
    sessions: Vec<Session>,
    records: Vec<ContentRecord>,
}

impl View for ConversationStore {
    type V = StoreModel;

    closed spec fn view(&self) -> StoreModel {
        StoreModel { sessions: seq_view(self.sessions@), records: seq_view(self.records@) }
    }
}

impl ConversationStore {
    /// The invariant of the type: the view is well formed.
    #[verifier::type_invariant]
    pub open spec fn is_sound(&self) -> bool {
        self@.well_formed()
    }

    /// A store without sessions.
    pub fn new() -> (store: Self)
        ensures
            store@ == StoreModel::empty(),
            store@.well_formed(),
    {
        ConversationStore { sessions: Vec::new(), records: Vec::new() }
    }

    fn session_index(&self, id: &str) -> (found: Option<usize>)
        ensures
            self@.well_formed(),
            match found {
                Some(i) => i < self@.sessions.len() && self@.sessions[i as int].id == id@,
                None => !self@.has_session(id@),
            },
    {
        proof {
            use_type_invariant(self);
        }
        let mut i: usize = 0;
        while i < self.sessions.len()
            invariant
                i <= self.sessions@.len(),
                self@.well_formed(),
                forall|j: int| 0 <= j < i ==> (#[trigger] self@.sessions[j]).id != id@,
            decreases self.sessions@.len() - i,
        {
            if str_eq(self.sessions[i].id.as_str(), id) {
                return Some(i);
            }
            i += 1;
        }
        None
    }

    fn key_index(&self, key: &str) -> (found: Option<usize>)
        ensures
            self@.well_formed(),
            match found {
                Some(i) => i < self@.sessions.len() && self@.sessions[i as int].key == Some(key@)
                    && self@.session_of(key@) == Some(self@.sessions[i as int].id),
                None => !self@.is_bound(key@) && self@.session_of(key@) is None,
            },
    {
        proof {
            use_type_invariant(self);
        }
        let mut i: usize = 0;
        while i < self.sessions.len()
            invariant
                i <= self.sessions@.len(),
                self@.well_formed(),
                forall|j: int| 0 <= j < i ==> (#[trigger] self@.sessions[j]).key != Some(key@),
            decreases self.sessions@.len() - i,
        {
            let bound = match &self.sessions[i].key {
                Some(bound_key) => str_eq(bound_key.as_str(), key),
                None => false,
            };
            if bound {
                proof {
                    lemma_session_of_entry(self@, i as int);
                }
                return Some(i);
            }
            i += 1;
        }
        None
    }

    fn record_exists(&self, id: &str) -> (found: bool)
        ensures
            found == self@.has_record(id@),
    {
        let mut i: usize = 0;
        while i < self.records.len()
            invariant
                i <= self.records@.len(),
                forall|j: int| 0 <= j < i ==> (#[trigger] self@.records[j]).id != id@,
            decreases self.records@.len() - i,
        {
            if str_eq(self.records[i].id.as_str(), id) {
                proof {
                    assert(self@.records[i as int].id == id@);
                }
                return true;
            }
            i += 1;
        }
        false
    }

    /// Whether the store holds a session of this identifier.
    pub fn has_session(&self, id: &str) -> (found: bool)
        ensures
            found == self@.has_session(id@),
    {
        match self.session_index(id) {
            Some(i) => {
                true
            },
            None => false,
        }
    }

    /// The session that is bound to the external key `key`.
    pub fn session_of(&self, key: &str) -> (id: Option<String>)
        ensures
            option_view(id) == self@.session_of(key@),
    {
        match self.key_index(key) {
            Some(i) => Some(self.sessions[i].id.clone()),
            None => None,
        }
    }

    /// The number of sessions.
    pub fn session_count(&self) -> (count: usize)
        ensures
            count == self@.sessions.len(),
    {
        self.sessions.len()
    }

    /// The number of records, over all sessions.
    pub fn record_count(&self) -> (count: usize)
        ensures
            count == self@.records.len(),
    {
        self.records.len()
    }

    /// The session at `index`, in the order in which the sessions were added.
    pub fn session_at(&self, index: usize) -> (session: &Session)
        requires
            index < self@.sessions.len(),
        ensures
            session@ == self@.sessions[index as int],
    {
        &self.sessions[index]
    }

    /// The record at `index`, in the order in which the records were written.
    pub fn record_at(&self, index: usize) -> (record: &ContentRecord)
        requires
            index < self@.records.len(),
        ensures
            record@ == self@.records[index as int],
    {
        &self.records[index]
    }

    /// Adds the session `id`, bound to `key` if there is one. Refused with
    /// `DuplicateId`, and the store left as it was, where the identifier or the
    /// key is taken.
    pub fn insert_session(&mut self, id: String, key: Option<String>) -> (done: Result<
        (),
        StorageError,
    >)
        ensures
            (final(self)@, done) == old(self)@.insert_session(id@, option_view(key)),
            final(self)@.well_formed(),
    {
        proof {
            use_type_invariant(&*self);
        }
        let taken_id = self.session_index(id.as_str()).is_some();
        let taken_key = match &key {
            Some(key) => self.key_index(key.as_str()).is_some(),
            None => false,
        };
        if taken_id || taken_key {
            return Err(StorageError::DuplicateId);
        }
        let ghost before = self@;
        let session = Session { id, key };
        let mut taken = ConversationStore { sessions: Vec::new(), records: Vec::new() };
        core::mem::swap(self, &mut taken);
        let ConversationStore { mut sessions, records } = taken;
        sessions.push(session);
        proof {
            let after = StoreModel {
                sessions: before.sessions.push(session@),
                records: before.records,
            };
            assert(seq_view(sessions@) =~= after.sessions);
            lemma_insert_session_keeps_well_formed(before, session@);
        }
        let mut updated = ConversationStore { sessions, records };
        core::mem::swap(self, &mut updated);
        Ok(())
    }

    /// Writes `content` to `session` under the identifier `id`. Refused, and the
    /// store left as it was, with `UnknownSession` where the session does not
    /// exist and otherwise with `DuplicateId` where the identifier is taken.
    pub fn insert_content(&mut self, id: String, session: &str, content: ContentPb) -> (done:
        Result<(), StorageError>)
        ensures
            (final(self)@, done) == old(self)@.insert_content(id@, session@, content@),
            final(self)@.well_formed(),
    {
        proof {
            use_type_invariant(&*self);
        }
        if !self.has_session(session) {
            return Err(StorageError::UnknownSession);
        }
        if self.record_exists(id.as_str()) {
            return Err(StorageError::DuplicateId);
        }
        let ghost before = self@;
        let record = ContentRecord { id, session_id: session.to_string(), content };
        let mut taken = ConversationStore { sessions: Vec::new(), records: Vec::new() };
        core::mem::swap(self, &mut taken);
        let ConversationStore { sessions, mut records } = taken;
        records.push(record);
        proof {
            let after = StoreModel {
                sessions: before.sessions,
                records: before.records.push(record@),
            };
            assert(seq_view(records@) =~= after.records);
            lemma_insert_content_keeps_well_formed(before, record@);
        }
        let mut updated = ConversationStore { sessions, records };
        core::mem::swap(self, &mut updated);
        Ok(())
    }

    /// The session bound to the external key `key`: the one that exists, or a
    /// new one under the identifier `fresh`. Where a new one is refused, the
    /// store is left as it was.
    pub fn get_or_create_session_with(&mut self, key: String, fresh: String) -> (id: Result<
        String,
        StorageError,
    >)
        ensures
            (final(self)@, id_view(id)) == old(self)@.get_or_create(key@, fresh@),
            final(self)@.well_formed(),
    {
        match self.session_of(key.as_str()) {
            Some(id) => {
                proof {
                    use_type_invariant(&*self);
                }
                Ok(id)
            },
            None => {
                let kept = fresh.clone();
                match self.insert_session(fresh, Some(key)) {
                    Ok(()) => Ok(kept),
                    Err(error) => Err(error),
                }
            },
        }
    }

    /// The records of `session`, in the order in which they were written; none
    /// where nothing was written to it.
    pub fn load_history(&self, session: &str) -> (history: Vec<ContentRecord>)
        ensures
            seq_view(history@) == self@.records_of(session@),
    {
        let mut history: Vec<ContentRecord> = Vec::new();
        let mut i: usize = 0;
        while i < self.records.len()
            invariant
                i <= self.records@.len(),
                self@.records.len() == self.records@.len(),
                seq_view(history@) == records_of(self@.records.take(i as int), session@),
            decreases self.records@.len() - i,
        {
            proof {
                let model = self@.records;
                assert(model.take(i + 1) =~= model.take(i as int).push(model[i as int]));
                lemma_records_of_push(model.take(i as int), model[i as int], session@);
            }
            if str_eq(self.records[i].session_id.as_str(), session) {
                let record = self.records[i].clone();
                history.push(record);
            }
            i += 1;
        }
        proof {
            assert(self@.records.take(i as int) =~= self@.records);
        }
        history
    }
}

/// A store without sessions.
pub fn setup() -> (store: ConversationStore)
    ensures
        store@ == StoreModel::empty(),
        store@.well_formed(),
{
    ConversationStore::new()
}

/// Adds a session under an identifier drawn at random and gives the identifier
/// back. Refused with `DuplicateId`, and the store left as it was, where the
/// identifier drawn is that of a session of the store.
pub fn create_session(store: &mut ConversationStore) -> (id: Result<String, StorageError>)
    ensures
        final(store)@.well_formed(),
        exists|drawn: Seq<char>|
            is_drawn_id(drawn) && (final(store)@, id_view(id)) == #[trigger] old(store)@.create(
                drawn,
            ),
        id is Err ==> id == Err::<String, StorageError>(StorageError::DuplicateId) && final(store)@
            == old(store)@,
{
    let drawn = fresh_id();
    let kept = drawn.clone();
    let ghost before = store@;
    match store.insert_session(drawn, None) {
        Ok(()) => {
            proof {
                assert((store@, Ok::<Seq<char>, StorageError>(kept@)) == before.create(kept@));
            }
            Ok(kept)
        },
        Err(error) => {
            proof {
                assert((store@, Err::<Seq<char>, StorageError>(error)) == before.create(kept@));
            }
            Err(error)
        },
    }
}

/// The session bound to the external key `key`: the one that exists, or a new
/// one under an identifier drawn at random. A key that is bound gets its session
/// whatever is drawn, and the store stays as it was.
pub fn get_or_create_session(store: &mut ConversationStore, key: String) -> (id: Result<
    String,
    StorageError,
>)
    ensures
        final(store)@.well_formed(),
        old(store)@.session_of(key@) is Some ==> id_view(id) == Ok::<Seq<char>, StorageError>(
            old(store)@.session_of(key@)->0,
        ) && final(store)@ == old(store)@,
        exists|drawn: Seq<char>|
            is_drawn_id(drawn) && (final(store)@, id_view(id)) == #[trigger] old(
                store,
            )@.get_or_create(key@, drawn),
{
    let drawn = fresh_id();
    store.get_or_create_session_with(key, drawn)
}

/// What was written to `session`, in the order in which it was written; nothing
/// where nothing was written to it.
pub fn get_content(store: &ConversationStore, session_id: &str) -> (contents: Vec<ContentPb>)
    ensures
        seq_view(contents@) == store@.history(session_id@),
{
    let records = store.load_history(session_id);
    let mut contents: Vec<ContentPb> = Vec::new();
    let mut i: usize = 0;
    while i < records.len()
        invariant
            i <= records@.len(),
            contents@.len() == i,
            forall|j: int| 0 <= j < i ==> contents@[j]@ == records@[j]@.content,
        decreases records@.len() - i,
    {
        let content = records[i].content.clone();
        contents.push(content);
        i += 1;
    }
    contents
}

/// Writes `content` to `session` under an identifier drawn at random. Refused,
/// and the store left as it was, with `UnknownSession` where the session does
/// not exist, and with `DuplicateId` where the identifier drawn is that of a
/// record of the store.
pub fn add_content(store: &mut ConversationStore, session_id: &str, content: &ContentPb) -> (done:
    Result<(), StorageError>)
    ensures
        final(store)@.well_formed(),
        !old(store)@.has_session(session_id@) ==> done == Err::<(), StorageError>(
            StorageError::UnknownSession,
        ),
        done is Err ==> final(store)@ == old(store)@,
        exists|drawn: Seq<char>|
            is_drawn_id(drawn) && (final(store)@, done) == #[trigger] old(store)@.insert_content(
                drawn,
                session_id@,
                content@,
            ),
{
    let drawn = fresh_id();
    store.insert_content(drawn, session_id, content.clone())
}

/// Adding the record of a session to the end adds it to the end of that
/// session's records and leaves the records of every other session as they were.
pub proof fn lemma_records_of_push(
    records: Seq<RecordModel>,
    record: RecordModel,
    session: Seq<char>,
)
    ensures
        records_of(records.push(record), session) == if record.session_id == session {
            records_of(records, session).push(record)
        } else {
            records_of(records, session)
        },
{
    assert(records.push(record).drop_last() =~= records);
}

/// Adding a record of a session to the end adds its content to the end of that
/// session's history and leaves the history of every other session as it was.
pub proof fn lemma_history_push(store: StoreModel, record: RecordModel, session: Seq<char>)
    ensures
        (StoreModel { sessions: store.sessions, records: store.records.push(record) }).history(
            session,
        ) == if record.session_id == session {
            store.history(session).push(record.content)
        } else {
            store.history(session)
        },
{
    lemma_records_of_push(store.records, record, session);
}

/// A well-formed store stays well formed when a session is added whose
/// identifier and key are not taken.
pub proof fn lemma_insert_session_keeps_well_formed(store: StoreModel, session: SessionModel)
    requires
        store.well_formed(),
        !store.has_session(session.id),
        session.key is Some ==> !store.is_bound(session.key->0),
    ensures
        (StoreModel { sessions: store.sessions.push(session), records: store.records })
            .well_formed(),
{
    let after = StoreModel { sessions: store.sessions.push(session), records: store.records };
    assert forall|i: int| 0 <= i < after.records.len() implies after.has_session(
        (#[trigger] after.records[i]).session_id,
    ) by {
        let s = choose|s: int|
            0 <= s < store.sessions.len() && (#[trigger] store.sessions[s]).id
                == store.records[i].session_id;
        assert(after.sessions[s].id == store.records[i].session_id);
    }
}

/// A well-formed store stays well formed when a record is added whose session
/// exists and whose identifier is not taken.
pub proof fn lemma_insert_content_keeps_well_formed(store: StoreModel, record: RecordModel)
    requires
        store.well_formed(),
        store.has_session(record.session_id),
        !store.has_record(record.id),
    ensures
        (StoreModel { sessions: store.sessions, records: store.records.push(record) })
            .well_formed(),
{
}

/// The ledger only grows: whatever is done to a store, the sessions and the
/// records that it held are still there afterwards, unchanged and in their
/// places.
pub proof fn lemma_store_only_grows(
    store: StoreModel,
    id: Seq<char>,
    key: Option<Seq<char>>,
    external: Seq<char>,
    session: Seq<char>,
    content: ContentModel,
)
    ensures
        store.extends(store),
        store.insert_session(id, key).0.extends(store),
        store.create(id).0.extends(store),
        store.get_or_create(external, id).0.extends(store),
        store.insert_content(id, session, content).0.extends(store),
{
}

/// Growth adds up: a store that extends one that extends a third extends the
/// third.
pub proof fn lemma_extends_is_transitive(early: StoreModel, middle: StoreModel, late: StoreModel)
    requires
        middle.extends(early),
        late.extends(middle),
    ensures
        late.extends(early),
{
}

/// Reading after a write: a write that the store takes adds its content to the
/// end of the history of its session and leaves every other history as it was.
pub proof fn lemma_append_then_read(
    store: StoreModel,
    id: Seq<char>,
    session: Seq<char>,
    content: ContentModel,
)
    requires
        store.insert_content(id, session, content).1 is Ok,
    ensures
        store.insert_content(id, session, content).0.history(session) == store.history(
            session,
        ).push(content),
        forall|other: Seq<char>|
            other != session ==> #[trigger] store.insert_content(id, session, content).0.history(
                other,
            ) == store.history(other),
{
    let record = RecordModel { id, session_id: session, content };
    lemma_history_push(store, record, session);
    assert forall|other: Seq<char>| other != session implies #[trigger] store.insert_content(
        id,
        session,
        content,
    ).0.history(other) == store.history(other) by {
        lemma_history_push(store, record, other);
    }
}

/// One write to `session`: the identifier it is made under and its content.
pub struct Write {
    pub id: Seq<char>,
    pub content: ContentModel,
}

/// The store after the writes `writes` to `session`, made in order.
pub open spec fn write_all(store: StoreModel, session: Seq<char>, writes: Seq<Write>) -> StoreModel
    decreases writes.len(),
{
    if writes.len() == 0 {
        store
    } else {
        write_all(
            store.insert_content(writes[0].id, session, writes[0].content).0,
            session,
            writes.drop_first(),
        )
    }
}

/// Whether the store takes each of the writes `writes` to `session`, made in
/// order.
pub open spec fn takes_all(store: StoreModel, session: Seq<char>, writes: Seq<Write>) -> bool
    decreases writes.len(),
{
    if writes.len() == 0 {
        true
    } else {
        &&& store.insert_content(writes[0].id, session, writes[0].content).1 is Ok
        &&& takes_all(
            store.insert_content(writes[0].id, session, writes[0].content).0,
            session,
            writes.drop_first(),
        )
    }
}

/// The contents of `writes`, in their order.
pub open spec fn written(writes: Seq<Write>) -> Seq<ContentModel> {
    Seq::new(writes.len(), |i: int| writes[i].content)
}

/// The history of a session is what was written to it, in the order of the
/// writes: after any number of writes that the store takes, the history is the
/// history before them followed by their contents, in order.
pub proof fn lemma_history_is_insertion_order(
    store: StoreModel,
    session: Seq<char>,
    writes: Seq<Write>,
)
    requires
        takes_all(store, session, writes),
    ensures
        write_all(store, session, writes).history(session) == store.history(session) + written(
            writes,
        ),
    decreases writes.len(),
{
    if writes.len() > 0 {
        let first = writes[0];
        let next = store.insert_content(first.id, session, first.content).0;
        lemma_append_then_read(store, first.id, session, first.content);
        lemma_history_is_insertion_order(next, session, writes.drop_first());
    }
}

/// In a well-formed store the session bound to a key is the session of every
/// entry that carries the key.
pub proof fn lemma_session_of_entry(store: StoreModel, i: int)
    requires
        store.well_formed(),
        0 <= i < store.sessions.len(),
        store.sessions[i].key is Some,
    ensures
        store.session_of(store.sessions[i].key->0) == Some(store.sessions[i].id),
{
    let key = store.sessions[i].key->0;
    let chosen = choose|c: int|
        0 <= c < store.sessions.len() && (#[trigger] store.sessions[c]).key == Some(key);
    assert(chosen == i);
}

/// `get_or_create` keeps a well-formed store well formed, and where it gives a
/// session, the key is bound to that session afterwards.
pub proof fn lemma_get_or_create_binds(store: StoreModel, key: Seq<char>, fresh: Seq<char>)
    requires
        store.well_formed(),
    ensures
        store.get_or_create(key, fresh).0.well_formed(),
        store.get_or_create(key, fresh).1 is Ok ==> store.get_or_create(key, fresh).0.session_of(
            key,
        ) == Some(store.get_or_create(key, fresh).1->Ok_0),
        store.get_or_create(key, fresh).1 is Err ==> store.get_or_create(key, fresh).0 == store,
{
    if store.session_of(key) is None {
        if !store.has_session(fresh) {
            let made = SessionModel { id: fresh, key: Some(key) };
            lemma_insert_session_keeps_well_formed(store, made);
            let after = store.get_or_create(key, fresh).0;
            let n = store.sessions.len() as int;
            lemma_session_of_entry(after, n);
        }
    }
}

/// Asking twice for the session of one key gives the same session, and the
/// second asking changes nothing, whatever identifier is on offer.
pub proof fn lemma_get_or_create_is_idempotent(
    store: StoreModel,
    key: Seq<char>,
    first: Seq<char>,
    second: Seq<char>,
)
    requires
        store.well_formed(),
        store.get_or_create(key, first).1 is Ok,
    ensures
        store.get_or_create(key, first).0.get_or_create(key, second) == store.get_or_create(
            key,
            first,
        ),
{
    lemma_get_or_create_binds(store, key, first);
}

/// Asking for the sessions of two different keys gives two different sessions.
pub proof fn lemma_distinct_keys_distinct_sessions(
    store: StoreModel,
    one: Seq<char>,
    other: Seq<char>,
    first: Seq<char>,
    second: Seq<char>,
)
    requires
        store.well_formed(),
        one != other,
        store.get_or_create(one, first).1 is Ok,
        store.get_or_create(one, first).0.get_or_create(other, second).1 is Ok,
    ensures
        store.get_or_create(one, first).1 != store.get_or_create(one, first).0.get_or_create(
            other,
            second,
        ).1,
{
    // After the first asking `one` is bound to the first session. Where `other`
    // is bound too, it is bound to the session of another entry, and no two
    // entries share an identifier; where it is not, the second session is new.
    lemma_get_or_create_binds(store, one, first);
    let between = store.get_or_create(one, first).0;
    let i = choose|i: int|
        0 <= i < between.sessions.len() && (#[trigger] between.sessions[i]).key == Some(one);
    if between.session_of(other) is Some {
        let j = choose|j: int|
            0 <= j < between.sessions.len() && (#[trigger] between.sessions[j]).key == Some(other);
        assert(i != j);
    }
}

} // verus!
