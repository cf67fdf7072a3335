use tower_sessions::MemoryStore;
use tower_sessions::SessionId;
use tower_sessions::SessionRecord;

fn json(text: &str) -> serde_json::Value {
    serde_json::from_str(text).unwrap()
}

fn id(text: &str) -> SessionId {
    SessionId::try_parse(text.to_owned()).unwrap()
}

fn now_unix() -> i64 {
    time::OffsetDateTime::now_utc().unix_timestamp()
}

#[test]
fn save_then_load_round_trips() {
    let mut store = MemoryStore::new();
    let data = json("{\"user\":1}");
    let record = SessionRecord::new(id("abc"), None, data.clone());
    store.save(&record).unwrap();

    let session = store.load(&id("abc")).unwrap().unwrap();
    assert_eq!(session.id().as_str(), "abc");
    assert_eq!(session.expiration_time(), None);
    assert_eq!(session.data(), &data);
}

#[test]
fn load_of_missing_id_returns_none() {
    let store = MemoryStore::new();
    assert!(store.load(&id("missing")).unwrap().is_none());
}

#[test]
fn save_upserts_whole_record() {
    let mut store = MemoryStore::new();
    let later = now_unix() + 3600;
    let r1 = SessionRecord::new(id("abc"), None, json("{\"user\":1}"));
    let r2 = SessionRecord::new(id("abc"), Some(later), json("{\"user\":2}"));
    store.save(&r1).unwrap();
    store.save(&r2).unwrap();

    let session = store.load(&id("abc")).unwrap().unwrap();
    assert_eq!(session.expiration_time(), Some(later));
    assert_eq!(session.data(), &json("{\"user\":2}"));
}

#[test]
fn expired_record_is_not_loaded() {
    let mut store = MemoryStore::new();
    let record = SessionRecord::new(id("abc"), Some(now_unix() - 1), json("{\"user\":1}"));
    store.save(&record).unwrap();

    assert!(store.load(&id("abc")).unwrap().is_none());
}

#[test]
fn future_expiration_is_loaded() {
    let mut store = MemoryStore::new();
    let later = now_unix() + 3600;
    let record = SessionRecord::new(id("abc"), Some(later), json("{\"user\":1}"));
    store.save(&record).unwrap();

    let session = store.load(&id("abc")).unwrap().unwrap();
    assert_eq!(session.expiration_time(), Some(later));
}

#[test]
fn save_then_expire_scenario() {
    let mut store = MemoryStore::new();
    let data = json("{\"user\":1}");
    store.save(&SessionRecord::new(id("abc"), None, data.clone())).unwrap();
    let session = store.load(&id("abc")).unwrap().unwrap();
    assert_eq!(session.data(), &data);
    assert_eq!(session.expiration_time(), None);

    store.save(&SessionRecord::new(id("abc"), Some(now_unix() - 1), data)).unwrap();
    assert!(store.load(&id("abc")).unwrap().is_none());
}

#[test]
fn delete_is_idempotent() {
    let mut store = MemoryStore::new();
    store.delete(&id("never-saved")).unwrap();
    store.delete(&id("never-saved")).unwrap();

    store.save(&SessionRecord::new(id("abc"), None, json("{}"))).unwrap();
    store.delete(&id("abc")).unwrap();
    assert!(store.load(&id("abc")).unwrap().is_none());
    store.delete(&id("abc")).unwrap();
}

#[test]
fn memory_store_error_describes_itself() {
    let json_err = serde_json::from_str::<serde_json::Value>("not json").unwrap_err();
    let err = tower_sessions::MemoryStoreError::SerdeJsonError(json_err);
    assert_eq!(err.message(), "JSON serialization/deserialization error");
}

#[test]
fn ids_are_isolated() {
    let mut store = MemoryStore::new();
    let data_a = json("{\"user\":\"a\"}");
    let data_b = json("{\"user\":\"b\"}");
    store.save(&SessionRecord::new(id("a"), None, data_a)).unwrap();
    store.save(&SessionRecord::new(id("b"), None, data_b.clone())).unwrap();

    store.save(&SessionRecord::new(id("a"), None, json("{\"user\":\"a2\"}"))).unwrap();
    let session_b = store.load(&id("b")).unwrap().unwrap();
    assert_eq!(session_b.data(), &data_b);

    store.delete(&id("a")).unwrap();
    assert!(store.load(&id("a")).unwrap().is_none());
    assert!(store.load(&id("b")).unwrap().is_some());
}
