//! The Inbound Adapter: given a request's declared content type and its raw
//! body bytes, decide whether the body is MessagePack, and if so decode it
//! into a typed value or fail with a classified error.
//!
//! The collaborator (the surrounding HTTP framework) hands this module plain
//! values: the headers as they stood when the adapter ran — or nothing, where
//! an earlier pipeline stage already consumed them — and the materialized
//! body, or the transport error that kept it from materializing.  The body is
//! wanted only after the content type has matched.

use crate::codec::Record;
use crate::codec::decode_record;
use crate::codec::msgpack_decoding;
use crate::content_type::matches_content_type;
use crate::content_type::mime_parts;
use crate::content_type::spec_matches_content_type;
use crate::rejection::MsgPackRejection;
use crate::MsgPack;
use vstd::prelude::*;

verus! {

/// The request metadata the Inbound Adapter reads: the raw value of the
/// `Content-Type` header, where the request carried one.  The value may be
/// absent, malformed, or well-formed but unrelated; classification never
/// treats any of those as an error.
#[derive(Debug, Clone, PartialEq, Eq)]
pub struct RequestHeaders {
    pub content_type: Option<Vec<u8>>,
}

impl RequestHeaders {
    /// The raw header value these headers hold.
    pub open spec fn content_type_view(&self) -> Option<Seq<u8>> {
        match self.content_type {
            Some(b) => Some(b@),
            None => None,
        }
    }
}

/// Should the request body be treated as MessagePack?  `Err` exactly where
/// the headers were already consumed upstream — a structural error kept
/// distinct from every content error; otherwise the Matcher's verdict on the
/// `Content-Type` header.
pub fn message_pack_content_type(headers: Option<&RequestHeaders>) -> (r: Result<
    bool,
    MsgPackRejection,
>)
    ensures
        match headers {
            None => r == Err::<bool, MsgPackRejection>(MsgPackRejection::HeadersUnavailable),
            Some(h) => r == Ok::<bool, MsgPackRejection>(
                spec_matches_content_type(h.content_type_view()),
            ),
        },
{
    match headers {
        None => Err(MsgPackRejection::HeadersUnavailable),
        Some(h) => match &h.content_type {
            Some(b) => Ok(matches_content_type(Some(b))),
            None => Ok(matches_content_type(None)),
        },
    }
}

impl MsgPack<Record> {
    /// The Inbound Adapter.  Outcomes, each if and only if its condition:
    /// `HeadersUnavailable` where the headers were consumed upstream;
    /// `UnsupportedContentType` where the `Content-Type` header is absent,
    /// malformed or unrecognized — then the body plays no part and no decode
    /// is attempted; `BodyUnavailable` where the body could not be
    /// materialized; `InvalidBody` where the bytes fail to decode; and the
    /// decoded value otherwise.  Decoding is all-or-nothing: no partial value
    /// is ever exposed.
    pub fn from_request(headers: Option<&RequestHeaders>, body: Result<Vec<u8>, String>) -> (r:
        Result<MsgPack<Record>, MsgPackRejection>)
        ensures
            match headers {
                None => r == Err::<MsgPack<Record>, MsgPackRejection>(
                    MsgPackRejection::HeadersUnavailable,
                ),
                Some(h) => if !spec_matches_content_type(h.content_type_view()) {
                    r == Err::<MsgPack<Record>, MsgPackRejection>(
                        MsgPackRejection::UnsupportedContentType,
                    )
                } else {
                    match body {
                        Err(m) => r matches Err(rej) && rej matches MsgPackRejection::BodyUnavailable(s)
                            && s@ == m@,
                        Ok(bytes) => match msgpack_decoding(bytes@) {
                            Ok(fields) => r matches Ok(v) && v.0@ == fields,
                            Err(m) => r matches Err(rej)
                                && rej matches MsgPackRejection::InvalidBody(s) && s@ == m,
                        },
                    }
                },
            },
    {
        match message_pack_content_type(headers) {
            Err(rej) => Err(rej),
            Ok(false) => Err(MsgPackRejection::UnsupportedContentType),
            Ok(true) => match body {
                Err(m) => Err(MsgPackRejection::BodyUnavailable(m)),
                Ok(bytes) => match decode_record(&bytes) {
                    Ok(record) => Ok(MsgPack(record)),
                    Err(rej) => Err(rej),
                },
            },
        }
    }
}

/// Law: where headers are present but carry no `Content-Type`, the Matcher
/// reports no match, and inbound extraction fails with
/// `UnsupportedContentType` — never with a decode attempt — whatever the body
/// holds.
pub proof fn lemma_absent_content_type_unsupported(
    h: &RequestHeaders,
    body: Result<Vec<u8>, String>,
    r: Result<MsgPack<Record>, MsgPackRejection>,
)
    requires
        h.content_type is None,
        call_ensures(MsgPack::<Record>::from_request, (Some(h), body), r),
    ensures
        !spec_matches_content_type(h.content_type_view()),
        r == Err::<MsgPack<Record>, MsgPackRejection>(MsgPackRejection::UnsupportedContentType),
{
}

/// Law: a request whose `Content-Type` header does not parse as a MIME type
/// of the form `application/...` — whether the header is unparsable or its
/// primary type is something else — is rejected as unsupported, whatever its
/// body holds.
pub proof fn lemma_unrecognized_content_type_unsupported(
    h: &RequestHeaders,
    body: Result<Vec<u8>, String>,
    r: Result<MsgPack<Record>, MsgPackRejection>,
)
    requires
        h.content_type_view() matches Some(b),
        match h.content_type_view() {
            Some(b) => match mime_parts(b) {
                Some(p) => p.0 != "application"@,
                None => true,
            },
            None => false,
        },
        call_ensures(MsgPack::<Record>::from_request, (Some(h), body), r),
    ensures
        r == Err::<MsgPack<Record>, MsgPackRejection>(MsgPackRejection::UnsupportedContentType),
{
}

} // verus!
