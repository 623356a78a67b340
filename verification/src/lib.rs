//! A session-store backend that keeps the records of a generic web-session
//! middleware in a Google Firestore collection.
//!
//! The crate is organised around two pieces:
//!
//! - a document codec ([`codec`]) that converts between the middleware's
//!   session record and the two document shapes the database needs, and
//! - a store adapter ([`store`]) that prepares the upsert / point-read /
//!   point-delete requests for a named collection and translates each
//!   outcome back into the middleware's error contract ([`error`]).
//!
//! The network round trips themselves are performed by the caller; the
//! adapter only decides, for each operation, which key and document go out
//! and what every possible answer of the database means.

pub mod codec;
pub mod error;
pub mod record;
pub mod store;
