use axum_msgpack::codec::Record;
use axum_msgpack::extract::message_pack_content_type;
use axum_msgpack::extract::RequestHeaders;
use axum_msgpack::rejection::MsgPackRejection;
use axum_msgpack::MsgPack;

fn headers(content_type: Option<&str>) -> RequestHeaders {
    RequestHeaders { content_type: content_type.map(|s| s.as_bytes().to_vec()) }
}

fn msgpack_body() -> Vec<u8> {
    rmp_serde::encode::to_vec_named(&vec![("foo".to_string(), "bar".to_string())]).unwrap()
}

#[test]
fn consumed_headers_are_a_structural_error() {
    assert_eq!(
        message_pack_content_type(None),
        Err(MsgPackRejection::HeadersUnavailable)
    );
    assert_eq!(
        MsgPack::<Record>::from_request(None, Ok(msgpack_body())),
        Err(MsgPackRejection::HeadersUnavailable)
    );
}

#[test]
fn content_type_verdicts() {
    let h = headers(Some("application/msgpack"));
    assert_eq!(message_pack_content_type(Some(&h)), Ok(true));
    let h = headers(Some("text/plain"));
    assert_eq!(message_pack_content_type(Some(&h)), Ok(false));
    let h = headers(None);
    assert_eq!(message_pack_content_type(Some(&h)), Ok(false));
}

#[test]
fn absent_content_type_is_unsupported() {
    let h = headers(None);
    let outcome = MsgPack::<Record>::from_request(Some(&h), Ok(msgpack_body()));
    assert_eq!(outcome, Err(MsgPackRejection::UnsupportedContentType));
}

#[test]
fn text_plain_is_unsupported_whatever_the_body() {
    let h = headers(Some("text/plain"));
    let outcome = MsgPack::<Record>::from_request(Some(&h), Ok(vec![0x01, 0x02, 0x03]));
    assert_eq!(outcome, Err(MsgPackRejection::UnsupportedContentType));

    // Even a body that would decode fine is rejected before any decode.
    let outcome = MsgPack::<Record>::from_request(Some(&h), Ok(msgpack_body()));
    assert_eq!(outcome, Err(MsgPackRejection::UnsupportedContentType));
}

#[test]
fn matching_header_with_valid_body_extracts() {
    let h = headers(Some("application/msgpack"));
    let extracted = MsgPack::<Record>::from_request(Some(&h), Ok(msgpack_body())).unwrap();
    let record = extracted.into_inner();
    assert_eq!(
        record.fields,
        vec![("foo".to_string(), "bar".to_string())]
    );
}

#[test]
fn suffix_header_with_valid_body_extracts() {
    let h = headers(Some("application/vnd.example+msgpack"));
    let extracted = MsgPack::<Record>::from_request(Some(&h), Ok(msgpack_body()));
    assert!(extracted.is_ok());
}

#[test]
fn truncated_body_is_invalid() {
    let h = headers(Some("application/msgpack"));
    let mut body = msgpack_body();
    body.pop();
    let outcome = MsgPack::<Record>::from_request(Some(&h), Ok(body));
    assert!(matches!(outcome, Err(MsgPackRejection::InvalidBody(_))));
}

#[test]
fn unavailable_body_is_distinguished() {
    let h = headers(Some("application/msgpack"));
    let outcome =
        MsgPack::<Record>::from_request(Some(&h), Err("connection reset".to_string()));
    assert_eq!(
        outcome,
        Err(MsgPackRejection::BodyUnavailable("connection reset".to_string()))
    );
}

#[test]
fn rejection_messages_name_the_cause() {
    assert_eq!(
        MsgPackRejection::BodyUnavailable("gone".to_string()).message(),
        "gone"
    );
    assert!(!MsgPackRejection::HeadersUnavailable.message().is_empty());
    assert!(!MsgPackRejection::UnsupportedContentType.message().is_empty());
}

#[test]
fn wrapping_a_value() {
    let record = Record::new(vec![("k".to_string(), "v".to_string())]);
    let wrapped = MsgPack::from(record.clone());
    assert_eq!(wrapped.into_inner(), record);
}
