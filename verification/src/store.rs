//! The store adapter: the three-operation session-store contract (save,
//! load, delete) against a named collection of the document database.
//!
//! Each operation is one network round trip, performed by the caller. The
//! adapter contributes the two halves around it, both verified:
//!
//! - a request half (`save_request`, `load_request`, `delete_request`) that
//!   fixes which document key, and for a save which document, go out, and
//! - an outcome half (`finish_save`, `finish_load`, `finish_delete`) that
//!   says for every possible answer of the database exactly what the caller
//!   gets back: decoded records, the explicit "no record" value, or a
//!   backend error carrying the client's description verbatim.
//!
//! The collection itself is modelled as a map from document keys to
//! documents; [`upsert`], [`point_read`] and [`point_delete`] state what the
//! database's single-key operations do to it, and the proof functions below
//! state the store's laws over that model.

use vstd::prelude::*;

use crate::codec::{
    decode_record, decodes_to, encode_document, encode_document_spec, id_text_of,
};
use crate::error::{translate_spec, FirestoreStoreError, SessionStoreError};
use crate::record::{FirestoreDocument, FirestoreDocumentView, RecordView, SessionRecord};

verus! {

/// A Firestore-backed session store: the name of the collection the session
/// documents live in. The database client handle stays with the caller, who
/// performs the round trips this adapter prepares; the adapter itself holds
/// no other state and never mutates this.
#[derive(Clone, Debug)]
pub struct FirestoreStore {
    pub collection_id: String,
}

/// What an upsert (create-if-absent, replace-if-present) does to the
/// collection: the document now stored under the key is exactly the one
/// written, whatever was there before.
pub open spec fn upsert(
    state: Map<Seq<char>, FirestoreDocumentView>,
    key: Seq<char>,
    doc: FirestoreDocumentView,
) -> Map<Seq<char>, FirestoreDocumentView> {
    state.insert(key, doc)
}

/// What a point read returns from the collection: the document under the
/// key, or absence.
pub open spec fn point_read(
    state: Map<Seq<char>, FirestoreDocumentView>,
    key: Seq<char>,
) -> Option<FirestoreDocumentView> {
    if state.contains_key(key) {
        Some(state[key])
    } else {
        None
    }
}

/// What a point delete does to the collection: the key is gone afterwards,
/// whether or not it was present.
pub open spec fn point_delete(
    state: Map<Seq<char>, FirestoreDocumentView>,
    key: Seq<char>,
) -> Map<Seq<char>, FirestoreDocumentView> {
    state.remove(key)
}

impl FirestoreStore {
    /// Builds the adapter for an already-reachable collection; no connection
    /// setup happens here.
    pub fn new(collection_id: String) -> (r: FirestoreStore)
        ensures
            r.collection_id@ == collection_id@,
    {
        FirestoreStore { collection_id }
    }

    /// Prepares the upsert that saves `record`: the document key is the text
    /// of the record's id — identity is never translated — and the document
    /// is the encoding of the record. Applied to a collection in state `s`,
    /// the upsert takes it to `upsert(s, key, doc)`.
    pub fn save_request(&self, record: SessionRecord) -> (r: (String, FirestoreDocument))
        requires
            record.expiry_date.wf(),
        ensures
            r.0@ == id_text_of(record@.id),
            r.1@ == encode_document_spec(record@),
            r.1@.record.id == r.0@,
    {
        let key = self.document_key(record.id);
        let doc = encode_document(record);
        (key, doc)
    }

    /// Prepares the point read that loads the session with `session_id`: the
    /// document key is the text of the id.
    pub fn load_request(&self, session_id: i128) -> (r: String)
        ensures
            r@ == id_text_of(session_id),
    {
        self.document_key(session_id)
    }

    /// Prepares the point delete for the session with `session_id`: the
    /// document key is the text of the id.
    pub fn delete_request(&self, session_id: i128) -> (r: String)
        ensures
            r@ == id_text_of(session_id),
    {
        self.document_key(session_id)
    }

    /// Translates the outcome of the save round trip: success passes
    /// through, and a backend failure becomes the middleware's backend error
    /// with the client's description unchanged. Nothing is retried or
    /// swallowed.
    pub fn finish_save(&self, outcome: Result<(), FirestoreStoreError>) -> (r: Result<
        (),
        SessionStoreError,
    >)
        ensures
            match outcome {
                Ok(_) => r == Ok::<(), SessionStoreError>(()),
                Err(e) => r == Err::<(), SessionStoreError>(translate_spec(e)),
            },
    {
        match outcome {
            Ok(_) => Ok(()),
            Err(e) => Err(SessionStoreError::from(e)),
        }
    }

    /// Translates the outcome of the load round trip. Absence of the
    /// document is the legitimate "no such session" answer and stays the
    /// success value `None`; a present document is decoded into the session
    /// record it stores; a backend failure becomes the middleware's backend
    /// error with the client's description unchanged.
    pub fn finish_load(
        &self,
        outcome: Result<Option<FirestoreDocument>, FirestoreStoreError>,
    ) -> (r: Result<Option<SessionRecord>, SessionStoreError>)
        ensures
            match outcome {
                Ok(Some(doc)) => ({
                    &&& r matches Ok(Some(rec))
                    &&& decodes_to(doc@.record, rec@)
                }),
                Ok(None) => r == Ok::<Option<SessionRecord>, SessionStoreError>(None),
                Err(e) => r == Err::<Option<SessionRecord>, SessionStoreError>(translate_spec(e)),
            },
    {
        match outcome {
            Ok(Some(doc)) => {
                let FirestoreDocument { record, expire_at: _ } = doc;
                Ok(Some(decode_record(record)))
            },
            Ok(None) => Ok(None),
            Err(e) => Err(SessionStoreError::from(e)),
        }
    }

    /// Translates the outcome of the delete round trip: success passes
    /// through — also when nothing was there to delete — and a backend
    /// failure becomes the middleware's backend error with the client's
    /// description unchanged.
    pub fn finish_delete(&self, outcome: Result<(), FirestoreStoreError>) -> (r: Result<
        (),
        SessionStoreError,
    >)
        ensures
            match outcome {
                Ok(_) => r == Ok::<(), SessionStoreError>(()),
                Err(e) => r == Err::<(), SessionStoreError>(translate_spec(e)),
            },
    {
        match outcome {
            Ok(_) => Ok(()),
            Err(e) => Err(SessionStoreError::from(e)),
        }
    }

    /// The document key for a session id: the id's text form.
    fn document_key(&self, session_id: i128) -> (r: String)
        ensures
            r@ == id_text_of(session_id),
    {
        crate::codec::id_to_text(session_id)
    }
}

/// Idempotent delete: deleting the same key twice is the same as deleting it
/// once, and afterwards no document stands under that key. The second
/// delete, like the first, is an ordinary success.
pub proof fn lemma_delete_idempotent(state: Map<Seq<char>, FirestoreDocumentView>, key: Seq<char>)
    ensures
        point_delete(point_delete(state, key), key) == point_delete(state, key),
        !point_delete(state, key).contains_key(key),
{
    assert(point_delete(point_delete(state, key), key) =~= point_delete(state, key));
}

/// Upsert overwrites, it does not merge: after saving a record and then a
/// second record under the same key, a read finds exactly the second
/// document — nothing of the first survives.
pub proof fn lemma_upsert_overwrites(
    state: Map<Seq<char>, FirestoreDocumentView>,
    key: Seq<char>,
    first: FirestoreDocumentView,
    second: FirestoreDocumentView,
)
    ensures
        point_read(upsert(upsert(state, key, first), key, second), key) == Some(second),
{
}

/// The record-level reading of overwriting: after saving record `a` and
/// then record `b` under the same id, the document under that id is exactly
/// the encoding of `b`, so its payload is `b`'s payload — no keys of `a`'s
/// payload survive.
pub proof fn lemma_save_overwrites(
    state: Map<Seq<char>, FirestoreDocumentView>,
    a: RecordView,
    b: RecordView,
)
    requires
        a.id == b.id,
    ensures
        point_read(
            upsert(
                upsert(state, id_text_of(a.id), encode_document_spec(a)),
                id_text_of(b.id),
                encode_document_spec(b),
            ),
            id_text_of(b.id),
        ) == Some(encode_document_spec(b)),
        encode_document_spec(b).record.data == b.data,
{
}

/// Absence signaling: a point read for a key never written returns the "no
/// record" value, not an error.
pub proof fn lemma_absent_read(state: Map<Seq<char>, FirestoreDocumentView>, key: Seq<char>)
    requires
        !state.contains_key(key),
    ensures
        point_read(state, key) == None::<FirestoreDocumentView>,
{
}

/// Deleting and then reading the same key finds nothing.
pub proof fn lemma_read_after_delete(
    state: Map<Seq<char>, FirestoreDocumentView>,
    key: Seq<char>,
)
    ensures
        point_read(point_delete(state, key), key) == None::<FirestoreDocumentView>,
{
}

} // verus!
