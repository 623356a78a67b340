//! The adapter's error taxonomy and its translation into the middleware's
//! error contract.
//!
//! All database-client failures are flattened into a single backend kind
//! carrying the client's own description as an opaque string; the
//! translation preserves that description verbatim. "Not found" on a read is
//! never an error and never reaches these types.

use vstd::prelude::*;

verus! {

/// The adapter's own error: one variant per backing client. A failure of the
/// database client arrives here as the client's error description.
#[derive(Clone, Debug, PartialEq, Eq)]
pub enum FirestoreStoreError {
    /// A failure reported by the Firestore client, by its description.
    Firestore(String),
}

impl FirestoreStoreError {
    /// The description carried by the error.
    pub open spec fn text(self) -> Seq<char> {
        match self {
            FirestoreStoreError::Firestore(description) => description@,
        }
    }

    /// Hands out the description carried by the error.
    pub fn description(&self) -> (r: &String)
        ensures
            r@ == self.text(),
    {
        match self {
            FirestoreStoreError::Firestore(description) => description,
        }
    }
}

/// The middleware's error contract, as far as the adapter uses it: a backend
/// failure with a description.
#[derive(Clone, Debug, PartialEq, Eq)]
pub enum SessionStoreError {
    /// A failure of the underlying store, with the backend's description.
    Backend(String),
}

impl SessionStoreError {
    /// The description carried by the error.
    pub open spec fn text(self) -> Seq<char> {
        match self {
            SessionStoreError::Backend(description) => description@,
        }
    }

    /// Hands out the description carried by the error.
    pub fn description(&self) -> (r: &String)
        ensures
            r@ == self.text(),
    {
        match self {
            SessionStoreError::Backend(description) => description,
        }
    }
}

/// What translating an adapter error into the middleware's contract yields:
/// a backend failure carrying the client's description unchanged.
pub open spec fn translate_spec(err: FirestoreStoreError) -> SessionStoreError {
    match err {
        FirestoreStoreError::Firestore(description) => SessionStoreError::Backend(description),
    }
}

impl From<FirestoreStoreError> for SessionStoreError {
    /// Flattens the adapter's error into the middleware's backend kind,
    /// keeping the description verbatim.
    fn from(err: FirestoreStoreError) -> (r: SessionStoreError) {
        match err {
            FirestoreStoreError::Firestore(description) => {
                SessionStoreError::Backend(description)
            },
        }
    }
}

impl vstd::std_specs::convert::FromSpecImpl<FirestoreStoreError> for SessionStoreError {
    open spec fn obeys_from_spec() -> bool {
        true
    }

    open spec fn from_spec(err: FirestoreStoreError) -> SessionStoreError {
        translate_spec(err)
    }
}

} // verus!
