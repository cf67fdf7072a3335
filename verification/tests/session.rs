use tower_sessions::Session;
use tower_sessions::SessionError;
use tower_sessions::SessionId;
use tower_sessions::SessionRecord;

fn json(text: &str) -> serde_json::Value {
    serde_json::from_str(text).unwrap()
}

#[test]
fn session_id_parses_non_empty_text() {
    let id = SessionId::try_parse("abc".to_owned()).unwrap();
    assert_eq!(id.as_str(), "abc");
    assert_eq!(id.to_text(), "abc");
}

#[test]
fn session_id_round_trips_through_text() {
    let id = SessionId::try_parse("session-17".to_owned()).unwrap();
    let reparsed = SessionId::try_parse(id.to_text()).unwrap();
    assert_eq!(reparsed.as_str(), id.as_str());
}

#[test]
fn empty_session_id_is_rejected() {
    let err = SessionId::try_parse(String::new()).unwrap_err();
    assert!(matches!(err, SessionError::EmptyId));
    assert_eq!(err.message(), "session id must be a non-empty string");
}

#[test]
fn record_exposes_its_parts() {
    let id = SessionId::try_parse("abc".to_owned()).unwrap();
    let data = json("{\"user\":1}");
    let record = SessionRecord::new(id, Some(99), data.clone());
    assert_eq!(record.id().as_str(), "abc");
    assert_eq!(record.expiration_time(), Some(99));
    assert_eq!(record.data(), &data);
}

#[test]
fn session_is_derived_from_record() {
    let id = SessionId::try_parse("abc".to_owned()).unwrap();
    let data = json("{\"user\":1}");
    let record = SessionRecord::new(id, None, data.clone());
    let session = Session::from_record(record);
    assert_eq!(session.id().as_str(), "abc");
    assert_eq!(session.expiration_time(), None);
    assert_eq!(session.data(), &data);
}
