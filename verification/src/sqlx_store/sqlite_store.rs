//! A SQLite session store: the relational adapter's configuration, query
//! texts, and row codec.
//!
//! Everything the adapter decides is here — which table name is acceptable,
//! the exact SQL text issued for each operation, and how a fetched row
//! becomes a session. Only the table name is ever interpolated into query
//! text, and only after passing [`is_valid_table_name`]; every data value
//! (identifier, expiration, payload) travels through a bind parameter, for
//! which each query carries a `?` placeholder. The embedding application
//! owns the asynchronous query execution against the pool.
//!
//! Expiration is enforced server-side: the load query filters on
//! `expiration_time is null or expiration_time > ?`, bound to the current
//! instant, so expired rows are never materialized.

use vstd::prelude::*;
use vstd::string::StrSliceExecFns;
use vstd::string::StringExecFns;

use crate::session::Session;
use crate::session::SessionId;
use crate::session::SessionRecord;
use crate::session::is_json_text;
use crate::session::json_of;
use crate::session::parse_json;
use crate::session::to_json_text;
use crate::sqlx_store::SqlxStoreError;

verus! {

/// An opaque handle around the caller-supplied `sqlx::sqlite::SqlitePool`.
///
/// The pool type itself cannot be declared to the verifier (its `Database`
/// bound would have to come with it), so the store carries the pool inside
/// this opaque handle instead. The library never opens, closes or uses
/// connections itself; the embedding application reaches the pool through
/// the public field.
#[derive(Debug)]
#[verifier::external_body]
pub struct PoolHandle {
    /// The wrapped connection pool.
    pub pool: sqlx::sqlite::SqlitePool,
}

/// A character acceptable in a session table name: an ASCII alphanumeric,
/// a hyphen, or an underscore.
pub open spec fn is_valid_table_name_char(c: char) -> bool {
    ('a' <= c && c <= 'z') || ('A' <= c && c <= 'Z') || ('0' <= c && c <= '9') || c == '-' || c
        == '_'
}

/// A table name is acceptable only if it is non-empty and composed
/// exclusively of ASCII alphanumerics, hyphens, and underscores. Since the
/// table name is interpolated into generated statements rather than bound,
/// this guards against SQL injection through the table-name parameter.
pub open spec fn spec_valid_table_name(name: Seq<char>) -> bool {
    name.len() > 0 && forall|i: int|
        0 <= i < name.len() ==> is_valid_table_name_char(#[trigger] name[i])
}

/// Decide [`spec_valid_table_name`] for a table name.
pub fn is_valid_table_name(name: &str) -> (r: bool)
    ensures
        r == spec_valid_table_name(name@),
{
    let len = name.unicode_len();
    if len == 0 {
        return false;
    }
    let mut i: usize = 0;
    while i < len
        invariant
            i <= len,
            len == name@.len(),
            forall|j: int| 0 <= j < i ==> is_valid_table_name_char(#[trigger] name@[j]),
        decreases len - i,
    {
        let c = name.get_char(i);
        let ok = ('a' <= c && c <= 'z') || ('A' <= c && c <= 'Z') || ('0' <= c && c <= '9') || c
            == '-' || c == '_';
        if !ok {
            assert(!is_valid_table_name_char(name@[i as int]));
            return false;
        }
        i += 1;
    }
    true
}

/// The default session table name is itself a valid table name.
pub proof fn lemma_default_table_name_valid()
    ensures
        spec_valid_table_name("tower_sessions"@),
{
    reveal_strlit("tower_sessions");
    assert forall|i: int| 0 <= i < "tower_sessions"@.len() implies is_valid_table_name_char(
        #[trigger] "tower_sessions"@[i],
    ) by {
        assert("tower_sessions"@.len() == 14);
    }
}

/// The error message reported for an unacceptable table name.
pub open spec fn spec_invalid_table_name_message(name: Seq<char>) -> Seq<char> {
    "Invalid table name '"@ + name
        + "'. Table names must be alphanumeric and may contain hyphens or underscores."@
}

/// The text of the idempotent schema-initialization statement for the given
/// table: identifier (primary key), nullable expiration instant, and the
/// serialized payload.
pub open spec fn spec_migrate_query(table_name: Seq<char>) -> Seq<char> {
    "create table if not exists "@ + table_name
        + " (id text primary key not null, expiration_time integer null, data text not null)"@
}

/// The text of the upsert statement for the given table: insert the row, and
/// on an identifier conflict overwrite the expiration and payload columns.
/// The three placeholders bind the identifier, expiration, and payload.
pub open spec fn spec_save_query(table_name: Seq<char>) -> Seq<char> {
    "insert into "@ + table_name
        + " (id, expiration_time, data) values (?, ?, ?) on conflict(id) do update set expiration_time = excluded.expiration_time, data = excluded.data"@
}

/// The text of the load query for the given table: select the row by
/// identifier, filtering server-side on expiration. The two placeholders
/// bind the identifier and the current instant.
pub open spec fn spec_load_query(table_name: Seq<char>) -> Seq<char> {
    "select id, expiration_time, data from "@ + table_name
        + " where id = ? and (expiration_time is null or expiration_time > ?)"@
}

/// The text of the delete statement for the given table. The placeholder
/// binds the identifier.
pub open spec fn spec_delete_query(table_name: Seq<char>) -> Seq<char> {
    "delete from "@ + table_name + " where id = ?"@
}

/// A SQLite session store: a caller-supplied connection pool and a validated
/// session table name.
#[derive(Debug)]
pub struct SqliteStore {
    /// The connection pool, owned by the caller and handed in at
    /// construction; the library never creates or closes pools.
    pub pool: PoolHandle,
    /// The name of the session table, interpolated into every query; always
    /// a valid table name.
    pub table_name: String,
}

impl SqliteStore {
    /// The table name has passed validation, so interpolating it into query
    /// text is injection-safe.
    pub open spec fn wf(&self) -> bool {
        spec_valid_table_name(self.table_name@)
    }

    /// Create a new SQLite store with the provided connection pool and the
    /// default table name.
    pub fn new(pool: PoolHandle) -> (r: Self)
        ensures
            r.pool == pool,
            r.table_name@ == "tower_sessions"@,
            r.wf(),
    {
        proof {
            lemma_default_table_name_valid();
        }
        SqliteStore { pool, table_name: String::from_str("tower_sessions") }
    }

    /// Set the session table name with the provided name. Succeeds if and
    /// only if the name is acceptable per [`is_valid_table_name`]; an
    /// unacceptable name is rejected here, at configuration time, before
    /// any SQL is issued.
    pub fn with_table_name(self, table_name: &str) -> (r: Result<Self, String>)
        ensures
            r is Ok <==> spec_valid_table_name(table_name@),
            r matches Ok(s) ==> s.pool == self.pool && s.table_name@ == table_name@ && s.wf(),
            r matches Err(m) ==> m@ == spec_invalid_table_name_message(table_name@),
    {
        if !is_valid_table_name(table_name) {
            let msg = String::from_str("Invalid table name '").concat(table_name).concat(
                "'. Table names must be alphanumeric and may contain hyphens or underscores.",
            );
            Err(msg)
        } else {
            Ok(SqliteStore { pool: self.pool, table_name: table_name.to_owned() })
        }
    }

    /// The text of the schema-initialization statement for this store's
    /// table.
    pub fn migrate_query(&self) -> (q: String)
        ensures
            q@ == spec_migrate_query(self.table_name@),
    {
        let mut q = String::from_str("create table if not exists ");
        q.append(self.table_name.as_str());
        q.append(
            " (id text primary key not null, expiration_time integer null, data text not null)",
        );
        q
    }

    /// The text of the upsert statement for this store's table.
    pub fn save_query(&self) -> (q: String)
        ensures
            q@ == spec_save_query(self.table_name@),
    {
        let mut q = String::from_str("insert into ");
        q.append(self.table_name.as_str());
        q.append(
            " (id, expiration_time, data) values (?, ?, ?) on conflict(id) do update set expiration_time = excluded.expiration_time, data = excluded.data",
        );
        q
    }

    /// The text of the load query for this store's table.
    pub fn load_query(&self) -> (q: String)
        ensures
            q@ == spec_load_query(self.table_name@),
    {
        let mut q = String::from_str("select id, expiration_time, data from ");
        q.append(self.table_name.as_str());
        q.append(" where id = ? and (expiration_time is null or expiration_time > ?)");
        q
    }

    /// The text of the delete statement for this store's table.
    pub fn delete_query(&self) -> (q: String)
        ensures
            q@ == spec_delete_query(self.table_name@),
    {
        let mut q = String::from_str("delete from ");
        q.append(self.table_name.as_str());
        q.append(" where id = ?");
        q
    }
}

/// Turn a record into the values the upsert statement binds: identifier
/// text, expiration instant, and the payload serialized to JSON text that
/// denotes exactly the record's payload. The encoding always succeeds (a
/// JSON value always serializes); were the serializer ever to fail, the
/// failure would surface as an error and abort the save before anything is
/// written.
pub fn encode_record(record: &SessionRecord) -> (r: Result<
    (String, Option<i64>, String),
    SqlxStoreError,
>)
    ensures
        r is Ok,
        r matches Ok(row) ==> row.0@ == record.id@ && row.1 == record.expiration_time
            && json_of(row.2@) == record.data,
{
    let data = match to_json_text(record.data()) {
        Ok(text) => text,
        Err(e) => {
            return Err(SqlxStoreError::SerdeJsonError(e));
        },
    };
    Ok((record.id().to_text(), record.expiration_time(), data))
}

/// Turn a fetched row back into a session: the stored identifier is
/// re-parsed (failure means corrupted storage and is surfaced, never
/// skipped), and the payload column is parsed as JSON (failure is an error,
/// never a silently empty session). Decoding succeeds exactly when the
/// identifier is non-empty and the payload column is JSON text the parser
/// accepts, and the returned session carries the value that text denotes.
pub fn decode_row(id: String, expiration_time: Option<i64>, data: &str) -> (r: Result<
    Session,
    SqlxStoreError,
>)
    ensures
        r is Ok <==> id@.len() > 0 && is_json_text(data@),
        r matches Ok(s) ==> s.id@ == id@ && s.expiration_time == expiration_time && s.data
            == json_of(data@),
        id@.len() == 0 ==> r matches Err(SqlxStoreError::SessionError(_)),
        id@.len() > 0 && !is_json_text(data@) ==> r matches Err(
            SqlxStoreError::SerdeJsonError(_),
        ),
{
    let session_id = match SessionId::try_parse(id) {
        Ok(session_id) => session_id,
        Err(e) => {
            return Err(SqlxStoreError::SessionError(e));
        },
    };
    let value = match parse_json(data) {
        Ok(value) => value,
        Err(e) => {
            return Err(SqlxStoreError::SerdeJsonError(e));
        },
    };
    Ok(Session::from_record(SessionRecord::new(session_id, expiration_time, value)))
}

} // verus!
