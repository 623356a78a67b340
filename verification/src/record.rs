//! The data shapes the adapter translates between: the middleware's session
//! record and the two document shapes stored in the database.

use std::collections::HashMap;
use vstd::prelude::*;

verus! {

/// The payload of a session is an open mapping from string keys to arbitrary
/// structured values. The adapter never inspects or validates its content,
/// so the value type is carried through opaquely.
#[verifier::external_type_specification]
#[verifier::external_body]
pub struct ExValue(serde_json::Value);

/// An absolute instant: whole seconds since the Unix epoch together with the
/// nanoseconds inside that second.
///
/// This is the adapter's own representation of the expiry instant; the
/// middleware's clock type and the database's native timestamp type both
/// carry exactly these two components, so the boundary code converts to and
/// from this shape without loss.
#[derive(Clone, Copy, Debug, PartialEq, Eq, Structural)]
pub struct Timestamp {
    /// Whole seconds since the Unix epoch (may be negative).
    pub seconds: i64,
    /// Nanoseconds within the second, always below [`NANOS_PER_SECOND`].
    pub nanos: u32,
}

/// The number of nanoseconds in one second; `Timestamp::nanos` stays below it.
pub const NANOS_PER_SECOND: u32 = 1_000_000_000;

impl Timestamp {
    /// A timestamp is well-formed when its nanosecond part names a real
    /// sub-second offset.
    pub open spec fn wf(self) -> bool {
        self.nanos < NANOS_PER_SECOND
    }

    pub fn new(seconds: i64, nanos: u32) -> (r: Timestamp)
        requires
            nanos < NANOS_PER_SECOND,
        ensures
            r == (Timestamp { seconds, nanos }),
            r.wf(),
    {
        Timestamp { seconds, nanos }
    }
}

/// The middleware's session record, as the adapter receives it: a unique
/// 128-bit identity, an opaque payload, and the absolute instant after which
/// the record is logically expired.
#[derive(Clone, Debug)]
pub struct SessionRecord {
    pub id: i128,
    pub data: HashMap<String, serde_json::Value>,
    pub expiry_date: Timestamp,
}

/// Document shape one: the stored record, a direct projection of
/// [`SessionRecord`] with the identity represented as text.
#[derive(Clone, Debug)]
pub struct FirestoreRecord {
    pub id: String,
    pub data: HashMap<String, serde_json::Value>,
    pub expiry_date: Timestamp,
}

/// Document shape two: the literal database document. It wraps the stored
/// record and adds a second, optional expiry field in the database's native
/// timestamp representation, present so the database's own TTL sweep can act
/// on it. When the instant cannot be represented there, the field is stored
/// absent rather than failing the whole save.
#[derive(Clone, Debug)]
pub struct FirestoreDocument {
    pub record: FirestoreRecord,
    pub expire_at: Option<Timestamp>,
}

/// The mathematical view of a session record.
#[verifier::ext_equal]
pub struct RecordView {
    pub id: i128,
    pub data: Map<String, serde_json::Value>,
    pub expiry_date: Timestamp,
}

/// The mathematical view of a stored record: the identity is a character
/// sequence here.
#[verifier::ext_equal]
pub struct FirestoreRecordView {
    pub id: Seq<char>,
    pub data: Map<String, serde_json::Value>,
    pub expiry_date: Timestamp,
}

/// The mathematical view of a stored document.
#[verifier::ext_equal]
pub struct FirestoreDocumentView {
    pub record: FirestoreRecordView,
    pub expire_at: Option<Timestamp>,
}

impl View for SessionRecord {
    type V = RecordView;

    open spec fn view(&self) -> RecordView {
        RecordView { id: self.id, data: self.data@, expiry_date: self.expiry_date }
    }
}

impl View for FirestoreRecord {
    type V = FirestoreRecordView;

    open spec fn view(&self) -> FirestoreRecordView {
        FirestoreRecordView { id: self.id@, data: self.data@, expiry_date: self.expiry_date }
    }
}

impl View for FirestoreDocument {
    type V = FirestoreDocumentView;

    open spec fn view(&self) -> FirestoreDocumentView {
        FirestoreDocumentView { record: self.record@, expire_at: self.expire_at }
    }
}

} // verus!
