//! A pluggable session-persistence layer: a uniform save / load / delete
//! contract over opaque session records, backed either by a volatile
//! in-process map or by a durable SQLite table.
//!
//! Every backend enforces the same semantics: `save` upserts a whole record
//! keyed by its identifier, `load` returns the current record unless it has
//! expired, and `delete` removes any record for an identifier and succeeds
//! even when none exists. Expiration is enforced at read time inside each
//! backend itself: the volatile store filters expired records as it loads
//! them, and the relational adapter filters them server-side in its query.

pub mod memory_store;
pub mod session;
pub mod sqlx_store;

pub use memory_store::MemoryStore;
pub use memory_store::MemoryStoreError;
pub use session::Session;
pub use session::SessionError;
pub use session::SessionId;
pub use session::SessionRecord;
pub use sqlx_store::SqlxStoreError;
pub use sqlx_store::SqliteStore;
