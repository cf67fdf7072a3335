//! Session data model: identifiers, records, and the caller-facing session
//! view.
//!
//! A session record is the unit of persistence: an identifier, an optional
//! expiration instant (unix seconds; absence means "never expires"), and an
//! opaque JSON payload. Expiration is enforced at read time by every backend:
//! a record whose expiration instant is not in the future is never returned
//! by a load, though it may still physically exist in storage.

use vstd::prelude::*;

verus! {

/// Relies on `serde_json::Value` as an opaque JSON document. The library
/// never inspects its contents; it only stores, clones, encodes and decodes
/// whole values.
#[verifier::external_type_specification]
#[verifier::external_body]
pub struct ExValue(serde_json::Value);

/// Relies on `serde_json::Error`, the error type of JSON encoding and
/// decoding, carried through opaquely.
#[verifier::external_type_specification]
#[verifier::external_body]
pub struct ExJsonError(serde_json::Error);

/// Relies on `serde_json::Value::clone` (a derived, deep clone): the clone is
/// equal to the original value.
#[verifier::external_body]
pub(crate) fn clone_value(v: &serde_json::Value) -> (r: serde_json::Value)
    ensures
        r == *v,
{
    v.clone()
}

/// Whether this text is one JSON document the parser accepts: exactly the
/// texts on which JSON parsing succeeds. Parsing is a function of the text
/// alone, so its success is given this name. Nothing further is assumed of
/// which texts qualify — in particular, the parser bounds nesting depth
/// while the encoder does not, so not every encoder output need qualify.
pub uninterp spec fn is_json_text(s: Seq<char>) -> bool;

/// The JSON value a text denotes: parsing a text the parser accepts returns
/// this value, and an encoded text denotes exactly the value that was
/// encoded. Nothing else is assumed of it.
pub uninterp spec fn json_of(s: Seq<char>) -> serde_json::Value;

/// Relies on `serde_json::to_string` to encode a JSON value as text.
/// Serializing a `serde_json::Value` cannot fail — the serializer writes
/// into a byte vector and a value's maps have string keys — and the text it
/// produces denotes exactly the encoded value.
#[verifier::external_body]
pub(crate) fn to_json_text(v: &serde_json::Value) -> (r: Result<String, serde_json::Error>)
    ensures
        r is Ok,
        r matches Ok(t) ==> json_of(t@) == *v,
{
    serde_json::to_string(v)
}

/// Relies on `serde_json::from_str` to parse text into a JSON value: it
/// succeeds exactly on the texts the parser accepts ([`is_json_text`]) and
/// then returns the value the text denotes ([`json_of`]).
#[verifier::external_body]
pub(crate) fn parse_json(s: &str) -> (r: Result<serde_json::Value, serde_json::Error>)
    ensures
        r is Ok <==> is_json_text(s@),
        r matches Ok(value) ==> value == json_of(s@),
{
    serde_json::from_str(s)
}

/// An error arising from the session data model itself.
#[derive(Debug)]
pub enum SessionError {
    /// An identifier failed to parse: a valid session identifier is a
    /// non-empty string. Seeing this on a stored identifier means the
    /// storage is corrupted.
    EmptyId,
}

impl SessionError {
    /// A human-readable description of the error.
    pub fn message(&self) -> (r: String)
        ensures
            r@ == "session id must be a non-empty string"@,
    {
        "session id must be a non-empty string".to_owned()
    }
}

/// An opaque session identifier: a non-empty string, stable for the
/// lifetime of the record it names.
#[derive(Debug)]
pub struct SessionId {
    /// The textual form of the identifier.
    pub text: String,
}

impl View for SessionId {
    type V = Seq<char>;

    open spec fn view(&self) -> Seq<char> {
        self.text@
    }
}

impl SessionId {
    /// A well-formed identifier is a non-empty string.
    pub open spec fn wf(&self) -> bool {
        self@.len() > 0
    }

    /// Parse an identifier from its textual form; the empty string is
    /// rejected. Parsing the textual form of an identifier yields that
    /// identifier back, so identifiers round-trip losslessly through
    /// their string serialization.
    pub fn try_parse(text: String) -> (r: Result<SessionId, SessionError>)
        ensures
            r is Ok <==> text@.len() > 0,
            r matches Ok(id) ==> id@ == text@ && id.wf(),
            r is Err ==> r matches Err(SessionError::EmptyId),
    {
        if text.as_str().is_empty() {
            Err(SessionError::EmptyId)
        } else {
            Ok(SessionId { text })
        }
    }

    /// The textual form of the identifier, owned.
    pub fn to_text(&self) -> (r: String)
        ensures
            r@ == self@,
    {
        self.text.clone()
    }

    /// The textual form of the identifier, borrowed.
    pub fn as_str(&self) -> (r: &str)
        ensures
            r@ == self@,
    {
        self.text.as_str()
    }
}

impl Clone for SessionId {
    fn clone(&self) -> (r: Self)
        ensures
            r == *self,
    {
        SessionId { text: self.text.clone() }
    }
}

/// The storage-layer unit of persistence: an identifier, an optional
/// expiration instant, and an opaque JSON payload.
#[derive(Debug)]
pub struct SessionRecord {
    /// The identifier the record is keyed by.
    pub id: SessionId,
    /// The instant (unix seconds) past which the record must no longer be
    /// returned by a load; `None` means the record never expires.
    pub expiration_time: Option<i64>,
    /// The opaque session payload.
    pub data: serde_json::Value,
}

impl SessionRecord {
    /// Assemble a record from its parts.
    pub fn new(id: SessionId, expiration_time: Option<i64>, data: serde_json::Value) -> (r: Self)
        ensures
            r.id == id && r.expiration_time == expiration_time && r.data == data,
    {
        SessionRecord { id, expiration_time, data }
    }

    /// The identifier the record is keyed by.
    pub fn id(&self) -> (r: &SessionId)
        ensures
            *r == self.id,
    {
        &self.id
    }

    /// The record's expiration instant, if any.
    pub fn expiration_time(&self) -> (r: Option<i64>)
        ensures
            r == self.expiration_time,
    {
        self.expiration_time
    }

    /// The record's payload.
    pub fn data(&self) -> (r: &serde_json::Value)
        ensures
            *r == self.data,
    {
        &self.data
    }
}

impl Clone for SessionRecord {
    fn clone(&self) -> (r: Self)
        ensures
            r == *self,
    {
        SessionRecord {
            id: self.id.clone(),
            expiration_time: self.expiration_time,
            data: clone_value(&self.data),
        }
    }
}

/// The caller-visible read view of one persisted session; derived one-way
/// from a `SessionRecord`.
#[derive(Debug)]
pub struct Session {
    /// The identifier of the record the session was read from.
    pub id: SessionId,
    /// The record's expiration instant, if any.
    pub expiration_time: Option<i64>,
    /// The record's payload.
    pub data: serde_json::Value,
}

/// The session a record presents to callers: the same identifier,
/// expiration and payload.
pub open spec fn session_of(r: SessionRecord) -> Session {
    Session { id: r.id, expiration_time: r.expiration_time, data: r.data }
}

impl Session {
    /// Build the caller-visible session for a record.
    pub fn from_record(record: SessionRecord) -> (r: Self)
        ensures
            r == session_of(record),
    {
        Session {
            id: record.id,
            expiration_time: record.expiration_time,
            data: record.data,
        }
    }

    /// The identifier of the record the session was read from.
    pub fn id(&self) -> (r: &SessionId)
        ensures
            *r == self.id,
    {
        &self.id
    }

    /// The session's expiration instant, if any.
    pub fn expiration_time(&self) -> (r: Option<i64>)
        ensures
            r == self.expiration_time,
    {
        self.expiration_time
    }

    /// The session's payload.
    pub fn data(&self) -> (r: &serde_json::Value)
        ensures
            *r == self.data,
    {
        &self.data
    }
}

/// Whether a record carrying this expiration instant is expired at `now`:
/// the instant is set and is not in the future.
pub open spec fn is_expired_at(expiration_time: Option<i64>, now: i64) -> bool {
    match expiration_time {
        Some(t) => t <= now,
        None => false,
    }
}

/// Runtime twin of [`is_expired_at`].
pub fn is_expired(expiration_time: Option<i64>, now: i64) -> (r: bool)
    ensures
        r == is_expired_at(expiration_time, now),
{
    match expiration_time {
        Some(t) => t <= now,
        None => false,
    }
}

} // verus!
