//! The request, its payload and the one error type of the mechanism.
use vstd::prelude::*;
use vstd::std_specs::convert::IntoSpec;

verus! {

/// The tag of the event that a request is for.
#[derive(Clone, Debug)]
pub struct Event(pub String);

impl From<String> for Event {
    fn from(name: String) -> (r: Event) {
        Event(name)
    }
}

impl vstd::std_specs::convert::FromSpecImpl<String> for Event {
    open spec fn obeys_from_spec() -> bool {
        true
    }

    open spec fn from_spec(name: String) -> Event {
        Event(name)
    }
}

/// One inbound call: an opaque identifier and the event it is for.
#[derive(Clone, Debug)]
pub struct EventRequest {
    pub id: String,
    pub event: Event,
}

impl EventRequest {
    pub fn new<E: Into<Event>>(event: E, id: String) -> (r: EventRequest)
        ensures
            r.id == id,
            E::obeys_into_spec() ==> r.event == event.into_spec(),
    {
        EventRequest { id, event: event.into() }
    }
}

/// The raw content of a request: nothing, or a buffer of bytes.
#[derive(Clone, Debug)]
pub enum Payload {
    Empty,
    Bytes(Vec<u8>),
}

/// The error that every extraction failure is reported as.
#[derive(Clone, Debug)]
pub enum SystemError {
    /// The payload was empty where the extractor needs content.
    MissingPayload,
    /// The payload could not be decoded; the decoder's diagnostic.
    Decode(String),
}

} // verus!
