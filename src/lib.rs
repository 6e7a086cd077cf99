//! Typed extraction of handler arguments from an inbound event request.
//!
//! An extractor turns a request and its raw payload into a value of some
//! target type. Every extractor hands back a deferred computation
//! ([`Deferred`]) that resolves to the value or to an error; the built-in
//! extractors resolve on their first poll.
pub mod data;
pub mod deferred;
pub mod extract;
pub mod request;

pub use data::{Data, FromBytes};
pub use deferred::{ready, Deferred, Poll, Ready};
pub use extract::{FromRequest, FromRequestFuture};
pub use request::{Event, EventRequest, Payload, SystemError};
