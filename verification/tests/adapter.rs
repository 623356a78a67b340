use std::collections::HashMap;

use serde_json::Value;
use tower_sessions_firestore_store::codec::{decode_record, encode_document};
use tower_sessions_firestore_store::error::{FirestoreStoreError, SessionStoreError};
use tower_sessions_firestore_store::record::{FirestoreDocument, SessionRecord, Timestamp};
use tower_sessions_firestore_store::store::FirestoreStore;

/// A tiny in-memory stand-in for the database: it applies the requests the
/// adapter prepares with plain map operations, the way the collection
/// behaves for single-key upserts, point reads and point deletes.
struct FakeCollection {
    docs: HashMap<String, FirestoreDocument>,
}

impl FakeCollection {
    fn new() -> Self {
        Self { docs: HashMap::new() }
    }

    fn save(&mut self, store: &FirestoreStore, record: SessionRecord) -> Result<(), SessionStoreError> {
        let (key, doc) = store.save_request(record);
        self.docs.insert(key, doc);
        store.finish_save(Ok(()))
    }

    fn load(
        &self,
        store: &FirestoreStore,
        session_id: i128,
    ) -> Result<Option<SessionRecord>, SessionStoreError> {
        let key = store.load_request(session_id);
        store.finish_load(Ok(self.docs.get(&key).cloned()))
    }

    fn delete(&mut self, store: &FirestoreStore, session_id: i128) -> Result<(), SessionStoreError> {
        let key = store.delete_request(session_id);
        self.docs.remove(&key);
        store.finish_delete(Ok(()))
    }
}

fn counter_data(n: i64) -> HashMap<String, Value> {
    let mut data = HashMap::new();
    data.insert("counter".to_string(), Value::from(n));
    data
}

#[test]
fn round_trip_reproduces_the_record() {
    let data = counter_data(7);
    let expiry = Timestamp::new(1_700_000_000, 123_456_789);
    let record = SessionRecord { id: 77, data: data.clone(), expiry_date: expiry };
    let doc = encode_document(record);
    let back = decode_record(doc.record);
    assert_eq!(back.id, 77);
    assert_eq!(back.data, data);
    assert_eq!(back.expiry_date, expiry);
}

#[test]
fn round_trip_holds_at_the_edges_of_the_id_space() {
    for id in [0i128, -1, 1, i128::MAX, i128::MIN, 0x0123_4567_89ab_cdef] {
        let record = SessionRecord {
            id,
            data: HashMap::new(),
            expiry_date: Timestamp::new(0, 0),
        };
        let doc = encode_document(record);
        let back = decode_record(doc.record);
        assert_eq!(back.id, id);
    }
}

#[test]
fn encoding_keeps_the_expiry_instant_exactly() {
    let record = SessionRecord {
        id: 5,
        data: HashMap::new(),
        expiry_date: Timestamp::new(-3, 999_999_999),
    };
    let doc = encode_document(record);
    assert_eq!(doc.record.expiry_date, Timestamp::new(-3, 999_999_999));
    assert_eq!(doc.expire_at, Some(Timestamp::new(-3, 999_999_999)));
}

#[test]
fn unrepresentable_expiry_leaves_the_native_field_absent() {
    let record = SessionRecord {
        id: 5,
        data: HashMap::new(),
        expiry_date: Timestamp::new(i64::MAX, 0),
    };
    let doc = encode_document(record);
    assert_eq!(doc.expire_at, None);
    assert_eq!(doc.record.expiry_date, Timestamp::new(i64::MAX, 0));
}

#[test]
fn the_document_key_is_the_id_text() {
    let store = FirestoreStore::new("tower-sessions".to_string());
    // The text form of id 0 is the url-safe base64 of sixteen zero bytes.
    assert_eq!(store.load_request(0), "AAAAAAAAAAAAAAAAAAAAAA");
    let (key, doc) = store.save_request(SessionRecord {
        id: 0,
        data: HashMap::new(),
        expiry_date: Timestamp::new(0, 0),
    });
    assert_eq!(key, "AAAAAAAAAAAAAAAAAAAAAA");
    assert_eq!(doc.record.id, key);
    assert_eq!(store.delete_request(0), key);
}

#[test]
fn a_corrupt_stored_id_still_decodes() {
    let record = SessionRecord {
        id: 9,
        data: counter_data(3),
        expiry_date: Timestamp::new(12, 34),
    };
    let mut doc = encode_document(record);
    doc.record.id = "not a session id".to_string();
    let back = decode_record(doc.record);
    assert_eq!(back.data, counter_data(3));
    assert_eq!(back.expiry_date, Timestamp::new(12, 34));
}

#[test]
fn save_then_load_returns_the_record() {
    let store = FirestoreStore::new("tower-sessions".to_string());
    let mut collection = FakeCollection::new();
    let expiry = Timestamp::new(1_700_000_000, 0);
    let record = SessionRecord { id: 1, data: counter_data(0), expiry_date: expiry };
    collection.save(&store, record).expect("save succeeds");
    let loaded = collection.load(&store, 1).expect("load succeeds").expect("record is there");
    assert_eq!(loaded.id, 1);
    assert_eq!(loaded.data, counter_data(0));
    assert_eq!(loaded.expiry_date, expiry);
}

#[test]
fn loading_an_unknown_id_signals_absence_not_an_error() {
    let store = FirestoreStore::new("tower-sessions".to_string());
    let collection = FakeCollection::new();
    let loaded = collection.load(&store, 424242).expect("absence is a success");
    assert!(loaded.is_none());
}

#[test]
fn delete_after_save_leaves_no_record() {
    let store = FirestoreStore::new("tower-sessions".to_string());
    let mut collection = FakeCollection::new();
    let record = SessionRecord {
        id: 1,
        data: counter_data(0),
        expiry_date: Timestamp::new(1_700_000_000, 0),
    };
    collection.save(&store, record).expect("save succeeds");
    collection.delete(&store, 1).expect("delete succeeds");
    let loaded = collection.load(&store, 1).expect("load succeeds");
    assert!(loaded.is_none());
}

#[test]
fn delete_is_idempotent() {
    let store = FirestoreStore::new("tower-sessions".to_string());
    let mut collection = FakeCollection::new();
    let record = SessionRecord {
        id: 8,
        data: counter_data(1),
        expiry_date: Timestamp::new(1_700_000_000, 0),
    };
    collection.save(&store, record).expect("save succeeds");
    collection.delete(&store, 8).expect("first delete succeeds");
    collection.delete(&store, 8).expect("second delete succeeds too");
    assert!(collection.load(&store, 8).expect("load succeeds").is_none());
}

#[test]
fn saving_twice_overwrites_instead_of_merging() {
    let store = FirestoreStore::new("tower-sessions".to_string());
    let mut collection = FakeCollection::new();
    let mut first = HashMap::new();
    first.insert("from_a".to_string(), Value::from("old"));
    first.insert("shared".to_string(), Value::from(1i64));
    let mut second = HashMap::new();
    second.insert("shared".to_string(), Value::from(2i64));
    let expiry = Timestamp::new(1_700_000_000, 0);
    collection
        .save(&store, SessionRecord { id: 3, data: first, expiry_date: expiry })
        .expect("first save succeeds");
    collection
        .save(&store, SessionRecord { id: 3, data: second.clone(), expiry_date: expiry })
        .expect("second save succeeds");
    let loaded = collection.load(&store, 3).expect("load succeeds").expect("record is there");
    assert_eq!(loaded.data, second);
    assert!(!loaded.data.contains_key("from_a"));
}

#[test]
fn backend_failures_reach_the_caller_with_their_description() {
    let store = FirestoreStore::new("tower-sessions".to_string());
    let failure = || FirestoreStoreError::Firestore("status: Unavailable".to_string());

    let saved = store.finish_save(Err(failure()));
    let SessionStoreError::Backend(text) = saved.expect_err("save fails");
    assert_eq!(text, "status: Unavailable");
    assert!(!text.is_empty());

    let loaded = store.finish_load(Err(failure()));
    let SessionStoreError::Backend(text) = loaded.expect_err("load fails");
    assert!(!text.is_empty());

    let deleted = store.finish_delete(Err(failure()));
    let SessionStoreError::Backend(text) = deleted.expect_err("delete fails");
    assert!(!text.is_empty());
}

#[test]
fn error_translation_keeps_the_description_verbatim() {
    let err = FirestoreStoreError::Firestore("deadline exceeded".to_string());
    assert_eq!(err.description().as_str(), "deadline exceeded");
    let translated = SessionStoreError::from(err);
    assert_eq!(translated, SessionStoreError::Backend("deadline exceeded".to_string()));
    assert_eq!(translated.description().as_str(), "deadline exceeded");
}

#[test]
fn the_store_keeps_its_collection_name() {
    let store = FirestoreStore::new("sessions".to_string());
    assert_eq!(store.collection_id, "sessions");
}
