//! The extraction capability and its built-in extractors.
use vstd::prelude::*;

use crate::deferred::{ready, Deferred, Poll, Ready};
use crate::request::{EventRequest, Payload, SystemError};

verus! {

/// A type that can be extracted from a request and its payload.
///
/// Extraction only observes the payload: it is the same after the call.
pub trait FromRequest: Sized {
    type Error: Into<SystemError>;
    type Future: Deferred<Output = Result<Self, Self::Error>>;

    /// `fut` is a computation that extraction from `req` and `payload` may return.
    spec fn extracted(req: EventRequest, payload: Payload, fut: Self::Future) -> bool;

    fn from_request(req: &EventRequest, payload: &mut Payload) -> (fut: Self::Future)
        ensures
            *final(payload) == *old(payload),
            Self::extracted(*req, *old(payload), fut),
    ;
}

/// The text that lossy UTF-8 decoding gives for `bytes`.
pub uninterp spec fn lossy_utf8(bytes: Seq<u8>) -> Seq<char>;

/// Whether every byte is below 128, so that each one is a character of its own.
pub open spec fn is_ascii(bytes: Seq<u8>) -> bool {
    forall|i: int| 0 <= i < bytes.len() ==> #[trigger] bytes[i] < 128
}

/// Relies on `String::from_utf8_lossy`: every invalid sequence becomes a
/// replacement character and valid UTF-8 (ASCII in particular) is kept as it is.
#[verifier::external_body]
pub(crate) fn decode_lossy(bytes: &Vec<u8>) -> (r: String)
    ensures
        r@ == lossy_utf8(bytes@),
        is_ascii(bytes@) ==> r@ == bytes@.map_values(|b: u8| b as char),
{
    String::from_utf8_lossy(bytes.as_slice()).into_owned()
}

/// The error for an extractor that needs content and found an empty payload.
pub fn unexpected_none_payload(request: &EventRequest) -> (r: SystemError)
    ensures
        r == SystemError::MissingPayload,
{
    SystemError::MissingPayload
}

/// What text extraction yields for `payload`, as a sequence of characters.
pub open spec fn text_of(payload: Payload) -> Result<Seq<char>, SystemError> {
    match payload {
        Payload::Empty => Err(SystemError::MissingPayload),
        Payload::Bytes(b) => Ok(lossy_utf8(b@)),
    }
}

/// The view of an extracted text result.
pub open spec fn text_view(r: Result<String, SystemError>) -> Result<Seq<char>, SystemError> {
    match r {
        Ok(s) => Ok(s@),
        Err(e) => Err(e),
    }
}

/// The payload as text: lossy UTF-8 of its bytes, or an error if it is empty.
pub fn payload_text(req: &EventRequest, payload: &Payload) -> (r: Result<String, SystemError>)
    ensures
        text_view(r) == text_of(*payload),
        payload matches Payload::Bytes(b) ==> (is_ascii(b@) ==> lossy_utf8(b@) == b@.map_values(
            |c: u8| c as char,
        )),
{
    match payload {
        Payload::Empty => Err(unexpected_none_payload(req)),
        Payload::Bytes(buf) => Ok(decode_lossy(buf)),
    }
}

impl FromRequest for () {
    type Error = SystemError;
    type Future = Ready<Result<(), SystemError>>;

    open spec fn extracted(req: EventRequest, payload: Payload, fut: Self::Future) -> bool {
        fut.value == Some(Ok::<(), SystemError>(()))
    }

    fn from_request(req: &EventRequest, payload: &mut Payload) -> (fut: Self::Future) {
        ready(Ok(()))
    }
}

impl FromRequest for String {
    type Error = SystemError;
    type Future = Ready<Result<String, SystemError>>;

    open spec fn extracted(req: EventRequest, payload: Payload, fut: Self::Future) -> bool {
        &&& fut.value is Some
        &&& text_view(fut.value->0) == text_of(payload)
    }

    fn from_request(req: &EventRequest, payload: &mut Payload) -> (fut: Self::Future)
        ensures
            *old(payload) matches Payload::Bytes(b) ==> (is_ascii(b@) ==> lossy_utf8(b@)
                == b@.map_values(|c: u8| c as char)),
    {
        ready(payload_text(req, payload))
    }
}

/// The computation of an extractor adapted so that its failure becomes a value.
pub struct FromRequestFuture<Fut> {
    pub fut: Fut,
}

impl<Fut: Deferred<Output = Result<T, E>>, T, E> Deferred for FromRequestFuture<Fut> {
    type Output = Result<Result<T, E>, SystemError>;

    open spec fn next_poll(&self) -> Poll<Result<Result<T, E>, SystemError>> {
        match self.fut.next_poll() {
            Poll::Ready(x) => Poll::Ready(Ok(x)),
            Poll::Pending => Poll::Pending,
        }
    }

    fn poll(&mut self) -> (r: Poll<Result<Result<T, E>, SystemError>>) {
        match self.fut.poll() {
            Poll::Ready(x) => Poll::Ready(Ok(x)),
            Poll::Pending => Poll::Pending,
        }
    }
}

impl<T: FromRequest> FromRequest for Result<T, T::Error> {
    type Error = SystemError;
    type Future = FromRequestFuture<T::Future>;

    open spec fn extracted(req: EventRequest, payload: Payload, fut: Self::Future) -> bool {
        T::extracted(req, payload, fut.fut)
    }

    fn from_request(req: &EventRequest, payload: &mut Payload) -> (fut: Self::Future) {
        FromRequestFuture { fut: T::from_request(req, payload) }
    }
}

/// The unit extractor succeeds for every request and every payload, empty or not.
pub proof fn unit_always_extracted(req: EventRequest, payload: Payload, fut: Ready<Result<(), SystemError>>)
    requires
        <() as FromRequest>::extracted(req, payload, fut),
    ensures
        fut.next_poll() == Poll::Ready(Ok::<(), SystemError>(())),
{
}

/// Text extraction fails with a missing-payload error exactly when the payload
/// is empty, and succeeds on every byte sequence with its lossy UTF-8 text.
pub proof fn text_fails_only_when_empty(
    req: EventRequest,
    payload: Payload,
    fut: Ready<Result<String, SystemError>>,
)
    requires
        <String as FromRequest>::extracted(req, payload, fut),
    ensures
        fut.next_poll() is Ready,
        payload is Empty ==> fut.value == Some(Err::<String, SystemError>(SystemError::MissingPayload)),
        payload matches Payload::Bytes(b) ==> fut.value->0 is Ok && fut.value->0->Ok_0@ == lossy_utf8(b@),
{
}

/// An adapted extractor never reports a failure of its own: whenever it is
/// ready, it holds the inner extractor's outcome, success or failure, inside `Ok`.
pub proof fn adapted_never_fails<Fut: Deferred<Output = Result<T, E>>, T, E>(fut: FromRequestFuture<Fut>)
    ensures
        fut.next_poll() is Pending <==> fut.fut.next_poll() is Pending,
        fut.fut.next_poll() matches Poll::Ready(x) ==> fut.next_poll() == Poll::Ready(
            Ok::<Result<T, E>, SystemError>(x),
        ),
{
}

/// Two unit extractions from the same request and payload give the same outcome.
pub proof fn unit_extraction_repeatable(
    req: EventRequest,
    payload: Payload,
    a: Ready<Result<(), SystemError>>,
    b: Ready<Result<(), SystemError>>,
)
    requires
        <() as FromRequest>::extracted(req, payload, a),
        <() as FromRequest>::extracted(req, payload, b),
    ensures
        a.next_poll() == b.next_poll(),
{
}

/// Two text extractions from the same request and payload give the same text,
/// or the same error.
pub proof fn text_extraction_repeatable(
    req: EventRequest,
    payload: Payload,
    a: Ready<Result<String, SystemError>>,
    b: Ready<Result<String, SystemError>>,
)
    requires
        <String as FromRequest>::extracted(req, payload, a),
        <String as FromRequest>::extracted(req, payload, b),
    ensures
        a.value is Some && b.value is Some,
        text_view(a.value->0) == text_view(b.value->0),
{
}

} // verus!
