use std::collections::BTreeMap;

use flowy_request::extract::{payload_text, unexpected_none_payload};
use flowy_request::data::{decoded_json, parse_json};
use flowy_request::{
    ready, Data, Deferred, Event, EventRequest, FromRequest, FromRequestFuture, Payload, Poll,
    Ready, SystemError,
};

fn request() -> EventRequest {
    EventRequest::new(Event("open_doc".to_string()), "req-1".to_string())
}

fn bytes(s: &str) -> Payload {
    Payload::Bytes(s.as_bytes().to_vec())
}

fn resolve<F: Deferred>(mut fut: F) -> F::Output {
    match fut.poll() {
        Poll::Ready(v) => v,
        Poll::Pending => panic!("a built-in extractor stayed pending"),
    }
}

fn extract<T: FromRequest>(payload: &mut Payload) -> Result<T, T::Error> {
    resolve(T::from_request(&request(), payload))
}

#[test]
fn request_new_keeps_fields() {
    let req = EventRequest::new("close_doc".to_string(), "id-7".to_string());
    assert_eq!(req.id, "id-7");
    assert_eq!(req.event.0, "close_doc");
}

#[test]
fn text_from_hello() {
    let mut p = bytes("hello");
    let r = extract::<String>(&mut p);
    assert_eq!(r.unwrap(), "hello");
}

#[test]
fn text_from_empty_is_missing_payload() {
    let mut p = Payload::Empty;
    let r = extract::<String>(&mut p);
    assert!(matches!(r, Err(SystemError::MissingPayload)));
}

#[test]
fn text_from_invalid_utf8_is_lossy() {
    let mut p = Payload::Bytes(vec![b'a', 0xff, b'b']);
    let r = extract::<String>(&mut p);
    assert_eq!(r.unwrap(), "a\u{fffd}b");
}

#[test]
fn text_from_empty_bytes_is_empty_text() {
    let mut p = Payload::Bytes(vec![]);
    let r = extract::<String>(&mut p);
    assert_eq!(r.unwrap(), "");
}

#[test]
fn unit_from_empty() {
    let mut p = Payload::Empty;
    let r = extract::<()>(&mut p);
    assert!(matches!(r, Ok(())));
}

#[test]
fn unit_from_bytes() {
    let mut p = Payload::Bytes(vec![0, 1, 2, 255]);
    let r = extract::<()>(&mut p);
    assert!(matches!(r, Ok(())));
}

#[test]
fn json_data_from_valid_document() {
    let mut p = bytes("{\"x\":1}");
    let fut = Data::<BTreeMap<String, i64>>::from_json_request(&request(), &mut p);
    let data = resolve(fut).unwrap();
    assert_eq!(data.len(), 1);
    assert_eq!(data.get("x"), Some(&1));
    assert_eq!(data.into_inner().get("x"), Some(&1));
}

#[test]
fn json_data_from_wrong_field_type_is_decode_error() {
    let mut p = bytes("{\"x\":\"oops\"}");
    let fut = Data::<BTreeMap<String, i64>>::from_json_request(&request(), &mut p);
    assert!(matches!(resolve(fut), Err(SystemError::Decode(_))));
}

#[test]
fn json_data_from_malformed_text_is_decode_error() {
    let mut p = bytes("{\"x\":");
    let fut = Data::<BTreeMap<String, i64>>::from_json_request(&request(), &mut p);
    match resolve(fut) {
        Err(SystemError::Decode(msg)) => assert!(!msg.is_empty()),
        other => panic!("unexpected outcome {:?}", other),
    }
}

#[test]
fn json_data_from_empty_is_missing_payload() {
    let mut p = Payload::Empty;
    let fut = Data::<BTreeMap<String, i64>>::from_json_request(&request(), &mut p);
    assert!(matches!(resolve(fut), Err(SystemError::MissingPayload)));
}

#[test]
fn parse_json_reads_document() {
    let r: Result<Vec<i64>, SystemError> = parse_json(&b"[1, 2, 3]".to_vec());
    assert_eq!(r.unwrap(), vec![1, 2, 3]);
    let bad: Result<Vec<i64>, SystemError> = parse_json(&b"[1, 2".to_vec());
    assert!(matches!(bad, Err(SystemError::Decode(_))));
}

#[test]
fn decoded_json_maps_diagnostic_to_decode_error() {
    let ok: Result<i64, SystemError> = decoded_json(Ok(5));
    assert!(matches!(ok, Ok(5)));
    let err: Result<i64, SystemError> = decoded_json(Err("bad".to_string()));
    match err {
        Err(SystemError::Decode(msg)) => assert_eq!(msg, "bad"),
        other => panic!("unexpected outcome {:?}", other),
    }
}

#[test]
fn raw_bytes_data_from_payload() {
    let mut p = Payload::Bytes(vec![7, 8, 9]);
    let r = extract::<Data<Vec<u8>>>(&mut p);
    assert_eq!(r.unwrap().into_inner(), vec![7, 8, 9]);
}

#[test]
fn raw_bytes_data_from_empty_is_missing_payload() {
    let mut p = Payload::Empty;
    let r = extract::<Data<Vec<u8>>>(&mut p);
    assert!(matches!(r, Err(SystemError::MissingPayload)));
}

#[test]
fn adapted_text_from_empty_is_inner_failure() {
    let mut p = Payload::Empty;
    let r = extract::<Result<String, SystemError>>(&mut p);
    assert!(matches!(r, Ok(Err(SystemError::MissingPayload))));
}

#[test]
fn adapted_text_from_bytes_is_inner_success() {
    let mut p = bytes("hi");
    let r = extract::<Result<String, SystemError>>(&mut p);
    assert_eq!(r.unwrap().unwrap(), "hi");
}

#[test]
fn adapted_future_stays_pending_with_inner() {
    let mut fut = FromRequestFuture { fut: Ready::<Result<String, SystemError>> { value: None } };
    assert!(matches!(fut.poll(), Poll::Pending));
}

#[test]
fn ready_resolves_once() {
    let mut fut = ready(3u8);
    assert!(matches!(fut.poll(), Poll::Ready(3)));
    assert!(matches!(fut.poll(), Poll::Pending));
    assert_eq!(ready(4u8).into_inner(), Some(4));
}

#[test]
fn extraction_leaves_payload_and_repeats() {
    let original = bytes("same");
    let mut first = original.clone();
    let mut second = original.clone();
    let a = extract::<String>(&mut first).unwrap();
    let b = extract::<String>(&mut second).unwrap();
    assert_eq!(a, b);
    match first {
        Payload::Bytes(v) => assert_eq!(v, b"same".to_vec()),
        Payload::Empty => panic!("payload was replaced"),
    }
}

#[test]
fn payload_text_and_missing_payload_error() {
    let req = request();
    assert_eq!(payload_text(&req, &bytes("abc")).unwrap(), "abc");
    assert!(matches!(payload_text(&req, &Payload::Empty), Err(SystemError::MissingPayload)));
    assert!(matches!(unexpected_none_payload(&req), SystemError::MissingPayload));
}

#[test]
fn data_derefs_to_value() {
    let mut d = Data(10i32);
    assert_eq!(*d, 10);
    *d += 1;
    assert_eq!(d.0, 11);
}
