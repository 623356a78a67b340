//! The document codec: lossless, deterministic conversion between the
//! middleware's session record and the two document shapes the database
//! stores.
//!
//! The identity travels as text. What the text of a given 128-bit id looks
//! like is decided by the middleware's own id type, so that rendering is
//! named [`id_text_of`] and stated nowhere; everything the codec promises is
//! phrased through that name. Likewise, whether an instant is representable
//! in the database client's UTC datetime type is decided by that client and
//! is named [`utc_single`].

use std::str::FromStr;
use vstd::prelude::*;

use crate::record::{
    FirestoreDocument, FirestoreDocumentView, FirestoreRecord, FirestoreRecordView, RecordView,
    SessionRecord, Timestamp, NANOS_PER_SECOND,
};

verus! {

/// The text form of a session id: what the middleware's id type renders for
/// the given 128-bit value.
pub uninterp spec fn id_text_of(id: i128) -> Seq<char>;

/// Whether the instant `(seconds, nanos)` is representable as a single UTC
/// datetime of the database client's calendar type.
pub uninterp spec fn utc_single(seconds: i64, nanos: u32) -> bool;

/// Relies on the `Display` impl of `tower_sessions_core::session::Id`: the
/// text form of a session id is a pure function of its 128-bit value.
#[verifier::external_body]
pub(crate) fn id_to_text(id: i128) -> (r: String)
    ensures
        r@ == id_text_of(id),
{
    tower_sessions_core::session::Id(id).to_string()
}

/// Relies on `tower_sessions_core::session::Id::from_str`: parsing inverts
/// the `Display` rendering, so on the text of an id it returns exactly that
/// id. On other strings nothing is promised of the outcome.
#[verifier::external_body]
fn id_from_text(text: &str) -> (r: Option<i128>)
    ensures
        forall|i: i128| text@ == id_text_of(i) ==> r == Some(i),
{
    match tower_sessions_core::session::Id::from_str(text) {
        Ok(id) => Some(id.0),
        Err(_) => None,
    }
}

/// Relies on `tower_sessions_core::session::Id::default`, which draws a
/// fresh random id; nothing is promised of its value.
#[verifier::external_body]
fn random_id() -> (r: i128) {
    tower_sessions_core::session::Id::default().0
}

/// Relies on `chrono::TimeZone::timestamp_opt` for `Utc`: with a nanosecond
/// part below one second it returns a single datetime exactly when the
/// seconds are in the type's range, and `None` otherwise, depending on the
/// two arguments alone.
#[verifier::external_body]
fn utc_representable(seconds: i64, nanos: u32) -> (r: bool)
    requires
        nanos < NANOS_PER_SECOND,
    ensures
        r == utc_single(seconds, nanos),
{
    chrono::TimeZone::timestamp_opt(&chrono::Utc, seconds, nanos).single().is_some()
}

/// What encoding a session record stores as document shape one: the id as
/// its text form, the payload and the expiry instant unchanged.
pub open spec fn encode_record_spec(r: RecordView) -> FirestoreRecordView {
    FirestoreRecordView { id: id_text_of(r.id), data: r.data, expiry_date: r.expiry_date }
}

/// What encoding a session record stores as the literal database document:
/// document shape one, plus the native expiry field, which carries the same
/// instant when it is representable there and is absent otherwise.
pub open spec fn encode_document_spec(r: RecordView) -> FirestoreDocumentView {
    FirestoreDocumentView {
        record: encode_record_spec(r),
        expire_at: if utc_single(r.expiry_date.seconds, r.expiry_date.nanos) {
            Some(r.expiry_date)
        } else {
            None
        },
    }
}

/// Projects a session record into the stored-record shape: the id becomes
/// its text form; payload and expiry are copied through unchanged.
pub fn encode_record(record: SessionRecord) -> (r: FirestoreRecord)
    ensures
        r@ == encode_record_spec(record@),
{
    let SessionRecord { id, data, expiry_date } = record;
    FirestoreRecord { id: id_to_text(id), data, expiry_date }
}

/// Builds the literal database document for a session record. The secondary
/// native-timestamp field is a best-effort derivation of the same instant:
/// it is absent, not an error, when the instant has no single UTC
/// representation in the database client's calendar type. This keeps saving
/// total over all well-formed expiry values.
pub fn encode_document(record: SessionRecord) -> (r: FirestoreDocument)
    requires
        record.expiry_date.wf(),
    ensures
        r@ == encode_document_spec(record@),
{
    let expire_at: Option<Timestamp> = if utc_representable(
        record.expiry_date.seconds,
        record.expiry_date.nanos,
    ) {
        Some(record.expiry_date)
    } else {
        None
    };
    FirestoreDocument { record: encode_record(record), expire_at }
}

/// What decoding guarantees of its result: payload and expiry are copied
/// through unchanged, and a stored text that is the rendering of some id
/// yields exactly that id. On a text that renders no id the identity is left
/// open: decoding then falls back to a freshly drawn default id.
pub open spec fn decodes_to(stored: FirestoreRecordView, rec: RecordView) -> bool {
    &&& rec.data == stored.data
    &&& rec.expiry_date == stored.expiry_date
    &&& forall|i: i128| stored.id == id_text_of(i) ==> rec.id == i
}

/// Reconstructs a session record from the stored-record shape. The stored
/// text is parsed back into the 128-bit id; a text that is the rendering of
/// some id yields exactly that id. A malformed text indicates storage-layer
/// corruption, not absence, so decoding still succeeds, with a freshly drawn
/// default id in place of the unparseable one. Payload and expiry are copied
/// through unchanged.
pub fn decode_record(record: FirestoreRecord) -> (r: SessionRecord)
    ensures
        decodes_to(record@, r@),
{
    let FirestoreRecord { id, data, expiry_date } = record;
    let parsed: i128 = match id_from_text(id.as_str()) {
        Some(value) => value,
        None => random_id(),
    };
    SessionRecord { id: parsed, data, expiry_date }
}

/// Round trip: decoding reproduces `id`, `data` and `expiry_date` exactly.
///
/// For every session record `r`, any record `d` that [`decode_record`] may
/// return for the stored record of `encode_document(r)` is `r` itself. The
/// premises are exactly what `decode_record` ensures about its result, so a
/// caller that encodes and then decodes may conclude `d == r`.
pub proof fn lemma_encode_decode_round_trip(r: RecordView, d: RecordView)
    requires
        decodes_to(encode_document_spec(r).record, d),
    ensures
        d == r,
{
    assert(encode_document_spec(r).record.id == id_text_of(r.id));
    assert(d =~= r);
}

} // verus!
