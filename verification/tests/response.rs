use axum_msgpack::response::response_from_encode;
use axum_msgpack::response::STATUS_INTERNAL_SERVER_ERROR;
use axum_msgpack::response::STATUS_OK;

#[test]
fn encoded_bytes_become_the_body() {
    let r = response_from_encode(Ok(vec![0x91, 0x90]));
    assert_eq!(r.status, STATUS_OK);
    assert_eq!(r.content_type, "application/msgpack");
    assert_eq!(r.body, vec![0x91, 0x90]);
}

#[test]
fn content_type_is_overwritten_with_the_canonical_type() {
    let r = response_from_encode(Ok(Vec::new()));
    assert_eq!(r.content_type, "application/msgpack");
}

#[test]
fn encode_failure_falls_back_to_plain_text() {
    let r = response_from_encode(Err("cannot serialize".to_string()));
    assert_eq!(r.status, STATUS_INTERNAL_SERVER_ERROR);
    assert_eq!(r.content_type, "text/plain");
    assert_eq!(r.body, b"cannot serialize".to_vec());
}
