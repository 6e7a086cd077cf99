//! The typed-data extractor, with its two decoding modes: a codec of the
//! target type's own ([`FromBytes`]), or a JSON document.
use vstd::prelude::*;

use crate::deferred::{ready, Ready};
use crate::extract::{decode_lossy, unexpected_none_payload, FromRequest};
use crate::request::{EventRequest, Payload, SystemError};

verus! {

/// A value decoded from the payload of a request.
#[derive(Debug)]
pub struct Data<T>(pub T);

impl<T> Data<T> {
    pub fn into_inner(self) -> (r: T)
        ensures
            r == self.0,
    {
        self.0
    }
}

impl<T> core::ops::Deref for Data<T> {
    type Target = T;

    fn deref(&self) -> (r: &T)
        ensures
            *r == self.0,
    {
        &self.0
    }
}

impl<T> core::ops::DerefMut for Data<T> {
    fn deref_mut(&mut self) -> (r: &mut T)
        ensures
            *r == old(self).0,
            *final(r) == final(self).0,
    {
        &mut self.0
    }
}

/// A type that decodes itself from raw bytes.
pub trait FromBytes: Sized {
    /// `r` is a result that decoding `bytes` may give.
    spec fn parses(bytes: Seq<u8>, r: Result<Self, SystemError>) -> bool;

    fn parse_from_bytes(bytes: &Vec<u8>) -> (r: Result<Self, SystemError>)
        ensures
            Self::parses(bytes@, r),
    ;
}

/// The raw bytes themselves, taken as they are.
impl FromBytes for Vec<u8> {
    open spec fn parses(bytes: Seq<u8>, r: Result<Vec<u8>, SystemError>) -> bool {
        r is Ok && r->Ok_0@ == bytes
    }

    fn parse_from_bytes(bytes: &Vec<u8>) -> (r: Result<Vec<u8>, SystemError>) {
        Ok(bytes.clone())
    }
}

/// Wraps a decoded value, or passes its error on.
pub open spec fn wrapped<T>(r: Result<T, SystemError>) -> Result<Data<T>, SystemError> {
    match r {
        Ok(v) => Ok(Data(v)),
        Err(e) => Err(e),
    }
}

impl<T: FromBytes> FromRequest for Data<T> {
    type Error = SystemError;
    type Future = Ready<Result<Data<T>, SystemError>>;

    open spec fn extracted(req: EventRequest, payload: Payload, fut: Self::Future) -> bool {
        match payload {
            Payload::Empty => fut.value == Some(Err::<Data<T>, SystemError>(SystemError::MissingPayload)),
            Payload::Bytes(b) => exists|r: Result<T, SystemError>|
                T::parses(b@, r) && fut.value == Some(#[trigger] wrapped(r)),
        }
    }

    fn from_request(req: &EventRequest, payload: &mut Payload) -> (fut: Self::Future) {
        match payload {
            Payload::Empty => ready(Err(unexpected_none_payload(req))),
            Payload::Bytes(bytes) => {
                let parsed = T::parse_from_bytes(bytes);
                let r = match parsed {
                    Ok(v) => Ok(Data(v)),
                    Err(e) => Err(e),
                };
                // `parsed` is the witness of the decoder outcome.
                assert(wrapped(parsed) == r);
                ready(r)
            },
        }
    }
}

/// Two typed extractions from the same request and payload give the same
/// outcome, wherever the target type's decoder gives one result for these bytes.
pub proof fn data_extraction_repeatable<T: FromBytes>(
    req: EventRequest,
    payload: Payload,
    a: Ready<Result<Data<T>, SystemError>>,
    b: Ready<Result<Data<T>, SystemError>>,
)
    requires
        <Data<T> as FromRequest>::extracted(req, payload, a),
        <Data<T> as FromRequest>::extracted(req, payload, b),
        payload matches Payload::Bytes(bytes) ==> forall|r1: Result<T, SystemError>, r2: Result<T, SystemError>|
            #![trigger T::parses(bytes@, r1), T::parses(bytes@, r2)]
            T::parses(bytes@, r1) && T::parses(bytes@, r2) ==> r1 == r2,
    ensures
        a.value == b.value,
{
}

/// Relies on `serde_json::from_str`: decodes a JSON document into a `T`, or
/// gives the parser's error, which is rendered with its `Debug` form.
#[verifier::external_body]
fn decode_json<T: serde::de::DeserializeOwned>(text: &str) -> (r: Result<T, String>) {
    serde_json::from_str(text).map_err(|e| format!("{:?}", e))
}

/// The outcome of JSON decoding, with a parser diagnostic made a decode error.
pub open spec fn json_outcome<T>(decoded: Result<T, String>) -> Result<T, SystemError> {
    match decoded {
        Ok(v) => Ok(v),
        Err(msg) => Err(SystemError::Decode(msg)),
    }
}

/// Turns the result of a JSON decoder into the result of typed extraction.
pub fn decoded_json<T>(decoded: Result<T, String>) -> (r: Result<T, SystemError>)
    ensures
        r == json_outcome(decoded),
{
    match decoded {
        Ok(v) => Ok(v),
        Err(msg) => Err(SystemError::Decode(msg)),
    }
}

/// Decodes `bytes`, read as lossy UTF-8, as a JSON document.
///
/// Fails only with a decode error, never for want of a payload.
pub fn parse_json<T: serde::de::DeserializeOwned>(bytes: &Vec<u8>) -> (r: Result<T, SystemError>)
    ensures
        r is Err ==> r->Err_0 is Decode,
{
    let text = decode_lossy(bytes);
    decoded_json(decode_json(text.as_str()))
}

impl<T: serde::de::DeserializeOwned> Data<T> {
    /// Typed extraction in JSON mode: the payload's bytes are read as lossy
    /// UTF-8 and decoded as a JSON document.
    pub fn from_json_request(
        req: &EventRequest,
        payload: &mut Payload,
    ) -> (fut: Ready<Result<Data<T>, SystemError>>)
        ensures
            *final(payload) == *old(payload),
            fut.value is Some,
            *old(payload) is Empty ==> fut.value == Some(
                Err::<Data<T>, SystemError>(SystemError::MissingPayload),
            ),
            *old(payload) is Bytes && fut.value->0 is Err ==> fut.value->0->Err_0 is Decode,
    {
        match payload {
            Payload::Empty => ready(Err(unexpected_none_payload(req))),
            Payload::Bytes(bytes) => match parse_json(bytes) {
                Ok(v) => ready(Ok(Data(v))),
                Err(e) => ready(Err(e)),
            },
        }
    }
}

} // verus!
