//! A session store that lives only in memory.
//!
//! Useful for testing but not recommended for real applications: records do
//! not survive the process, and expired-but-undeleted records are never
//! reaped. The store is a plain map from identifier text to record;
//! concurrent sharing (one coarse lock over the whole table) is left to the
//! embedding application, which wraps the store in a mutex of its choosing.
//!
//! Expiration is enforced here, at load time: a record whose expiration
//! instant is not in the future is reported as absent.

use vstd::prelude::*;
use vstd::hash_map::StringHashMap;

use crate::session::Session;
use crate::session::SessionId;
use crate::session::SessionRecord;
use crate::session::is_expired;
use crate::session::is_expired_at;
use crate::session::session_of;

verus! {

/// An error type for `MemoryStore`.
///
/// The store itself never fails for structural reasons; the type exists so
/// the volatile backend offers the same fallible surface as the durable
/// ones.
#[derive(Debug)]
pub enum MemoryStoreError {
    /// A variant carrying a JSON encoding or decoding error.
    SerdeJsonError(serde_json::Error),
}

impl MemoryStoreError {
    /// A human-readable description of the error.
    pub fn message(&self) -> (r: String)
        ensures
            r@ == "JSON serialization/deserialization error"@,
    {
        "JSON serialization/deserialization error".to_owned()
    }
}

/// Relies on `time::OffsetDateTime::now_utc` (converted to unix seconds via
/// `unix_timestamp`) for the current instant. The clock is an outside
/// observation: nothing is assumed of the value returned.
#[verifier::external_body]
fn now_unix() -> i64 {
    time::OffsetDateTime::now_utc().unix_timestamp()
}

/// The stored table a volatile store models: a map from identifier text to
/// the full record saved under it, after the given record is saved.
pub open spec fn spec_save(
    m: Map<Seq<char>, SessionRecord>,
    record: SessionRecord,
) -> Map<Seq<char>, SessionRecord> {
    m.insert(record.id@, record)
}

/// The stored table after any record for `id` is deleted.
pub open spec fn spec_delete(
    m: Map<Seq<char>, SessionRecord>,
    id: Seq<char>,
) -> Map<Seq<char>, SessionRecord> {
    m.remove(id)
}

/// What a load at instant `now` returns out of a stored table: the session
/// for the record under `id`, unless no such record exists or the record is
/// expired at `now`.
pub open spec fn spec_load(
    m: Map<Seq<char>, SessionRecord>,
    id: Seq<char>,
    now: i64,
) -> Option<Session> {
    if m.contains_key(id) && !is_expired_at(m[id].expiration_time, now) {
        Some(session_of(m[id]))
    } else {
        None
    }
}

/// A session store that lives only in memory: a mapping from identifier
/// text to session record.
pub struct MemoryStore {
    records: StringHashMap<SessionRecord>,
}

impl View for MemoryStore {
    type V = Map<Seq<char>, SessionRecord>;

    closed spec fn view(&self) -> Map<Seq<char>, SessionRecord> {
        self.records@
    }
}

impl MemoryStore {
    /// Every record is stored under its own identifier.
    pub open spec fn wf(&self) -> bool {
        forall|k: Seq<char>| #[trigger] self@.contains_key(k) ==> self@[k].id@ == k
    }

    /// Create an empty store.
    pub fn new() -> (r: Self)
        ensures
            r@ == Map::<Seq<char>, SessionRecord>::empty(),
            r.wf(),
    {
        MemoryStore { records: StringHashMap::new() }
    }

    /// Persist the record, keyed by its identifier; any record already
    /// stored under the same identifier is fully overwritten. Never fails.
    pub fn save(&mut self, session_record: &SessionRecord) -> (r: Result<(), MemoryStoreError>)
        ensures
            r is Ok,
            final(self)@ == spec_save(old(self)@, *session_record),
            old(self).wf() ==> final(self).wf(),
    {
        let key = session_record.id().to_text();
        self.records.insert(key, session_record.clone());
        Ok(())
    }

    /// Look up the record for `session_id` and return its session, as of
    /// instant `now`: `None` when no record exists or the record is expired
    /// at `now`. Never fails.
    pub fn load_at(&self, session_id: &SessionId, now: i64) -> (r: Result<
        Option<Session>,
        MemoryStoreError,
    >)
        ensures
            r == Ok::<Option<Session>, MemoryStoreError>(spec_load(self@, session_id@, now)),
            self.wf() ==> (r matches Ok(Some(s)) ==> s.id@ == session_id@),
    {
        match self.records.get(session_id.as_str()) {
            Some(record) => {
                if is_expired(record.expiration_time(), now) {
                    Ok(None)
                } else {
                    Ok(Some(Session::from_record(record.clone())))
                }
            },
            None => Ok(None),
        }
    }

    /// Look up the record for `session_id` as of the current instant.
    /// Never fails; a record with no expiration instant is always returned,
    /// and whatever is returned is the full record currently stored.
    pub fn load(&self, session_id: &SessionId) -> (r: Result<Option<Session>, MemoryStoreError>)
        ensures
            exists|now: i64|
                r == Ok::<Option<Session>, MemoryStoreError>(
                    #[trigger] spec_load(self@, session_id@, now),
                ),
            !self@.contains_key(session_id@) ==> r == Ok::<Option<Session>, MemoryStoreError>(
                None,
            ),
            self@.contains_key(session_id@) && self@[session_id@].expiration_time is None ==> r
                == Ok::<Option<Session>, MemoryStoreError>(
                Some(session_of(self@[session_id@])),
            ),
            r matches Ok(Some(s)) ==> self@.contains_key(session_id@) && s == session_of(
                self@[session_id@],
            ),
            self.wf() ==> (r matches Ok(Some(s)) ==> s.id@ == session_id@),
    {
        let now = now_unix();
        self.load_at(session_id, now)
    }

    /// Remove any record for `session_id`. Succeeds whether or not a record
    /// existed: deletion is idempotent.
    pub fn delete(&mut self, session_id: &SessionId) -> (r: Result<(), MemoryStoreError>)
        ensures
            r is Ok,
            final(self)@ == spec_delete(old(self)@, session_id@),
            old(self).wf() ==> final(self).wf(),
    {
        self.records.remove(session_id.as_str());
        Ok(())
    }
}

impl Default for MemoryStore {
    /// An empty store.
    fn default() -> (r: Self)
        ensures
            r@ == Map::<Seq<char>, SessionRecord>::empty(),
            r.wf(),
    {
        MemoryStore::new()
    }
}

/// Round trip: saving a record and then loading its identifier returns a
/// session equal to the record — same identifier, expiration and payload —
/// whenever the record is not expired at the instant of the load.
pub proof fn lemma_save_load_round_trip(
    m: Map<Seq<char>, SessionRecord>,
    record: SessionRecord,
    now: i64,
)
    requires
        !is_expired_at(record.expiration_time, now),
    ensures
        spec_load(spec_save(m, record), record.id@, now) == Some(session_of(record)),
{
}

/// Upsert: saving two records with the same identifier and then loading that
/// identifier returns the second record's session, not the first's.
pub proof fn lemma_save_upserts(
    m: Map<Seq<char>, SessionRecord>,
    r1: SessionRecord,
    r2: SessionRecord,
    now: i64,
)
    requires
        r1.id@ == r2.id@,
        !is_expired_at(r2.expiration_time, now),
    ensures
        spec_load(spec_save(spec_save(m, r1), r2), r1.id@, now) == Some(session_of(r2)),
{
}

/// Expiration enforcement: a stored record whose expiration instant has
/// passed is never returned by a load, even though it was never deleted.
pub proof fn lemma_expired_record_not_loaded(
    m: Map<Seq<char>, SessionRecord>,
    id: Seq<char>,
    now: i64,
)
    requires
        m.contains_key(id) ==> is_expired_at(m[id].expiration_time, now),
    ensures
        spec_load(m, id, now) is None,
{
}

/// Idempotent delete: deleting an identifier that has no record leaves the
/// table unchanged, and deleting twice in a row is the same as deleting
/// once. (The operation itself never fails; see `MemoryStore::delete`.)
pub proof fn lemma_delete_idempotent(m: Map<Seq<char>, SessionRecord>, id: Seq<char>)
    ensures
        !m.contains_key(id) ==> spec_delete(m, id) == m,
        spec_delete(spec_delete(m, id), id) == spec_delete(m, id),
{
    if !m.contains_key(id) {
        assert(spec_delete(m, id) =~= m);
    }
    assert(spec_delete(spec_delete(m, id), id) =~= spec_delete(m, id));
}

/// Isolation across identifiers: saving a record never affects what a load
/// for a different identifier returns.
pub proof fn lemma_save_isolated(
    m: Map<Seq<char>, SessionRecord>,
    record: SessionRecord,
    other: Seq<char>,
    now: i64,
)
    requires
        record.id@ != other,
    ensures
        spec_load(spec_save(m, record), other, now) == spec_load(m, other, now),
{
}

/// Deleting one identifier never affects what a load for a different
/// identifier returns.
pub proof fn lemma_delete_isolated(
    m: Map<Seq<char>, SessionRecord>,
    id: Seq<char>,
    other: Seq<char>,
    now: i64,
)
    requires
        id != other,
    ensures
        spec_load(spec_delete(m, id), other, now) == spec_load(m, other, now),
{
}

} // verus!

