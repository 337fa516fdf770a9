//! The Outbound Adapter: encode a typed value, tag the response with the
//! canonical media type, and fall back to a plain-text error response where
//! encoding fails.
//!
//! Outbound conversion never raises an unhandled failure: it always produces
//! some well-formed response.  Encode failure is the one case surfaced as a
//! server-side fault (an internal-server-error status), since it stems from
//! server-side data, not client input.

use crate::codec::msgpack_encoding;
use crate::codec::Record;
use crate::codec::encode_record;
use crate::MsgPack;
use vstd::prelude::*;
use vstd::string::StrSliceExecFns;

verus! {

/// The status a successful outbound response carries.
pub const STATUS_OK: u16 = 200;

/// The status of the fallback response produced when encoding fails.
pub const STATUS_INTERNAL_SERVER_ERROR: u16 = 500;

/// The body-and-headers pair the collaborator turns into a full protocol
/// response.  This component sets only the `Content-Type` header, the body,
/// and — in the encode-failure path alone — the status code.
#[derive(Debug, Clone, PartialEq, Eq)]
pub struct Response {
    pub status: u16,
    pub content_type: String,
    pub body: Vec<u8>,
}

/// Build the outbound response from an encode outcome: encoded bytes become
/// the body under the canonical media type `application/msgpack` (overwriting
/// any prior value); an encode error becomes a plain-text fallback carrying
/// the error's description under an internal-server-error status.
pub fn response_from_encode(encoded: Result<Vec<u8>, String>) -> (r: Response)
    ensures
        match encoded {
            Ok(bytes) => {
                &&& r.status == STATUS_OK
                &&& r.content_type@ == "application/msgpack"@
                &&& r.body@ == bytes@
            },
            Err(m) => {
                &&& r.status == STATUS_INTERNAL_SERVER_ERROR
                &&& r.content_type@ == "text/plain"@
                &&& r.body@ == vstd::utf8::encode_utf8(m@)
            },
        },
{
    match encoded {
        Ok(bytes) => Response {
            status: STATUS_OK,
            content_type: "application/msgpack".to_owned(),
            body: bytes,
        },
        Err(m) => Response {
            status: STATUS_INTERNAL_SERVER_ERROR,
            content_type: "text/plain".to_owned(),
            body: m.as_str().as_bytes_vec(),
        },
    }
}

impl MsgPack<Record> {
    /// The Outbound Adapter: encode the carried record with field names
    /// preserved and produce the response — the encoded bytes tagged
    /// `application/msgpack` on success, the plain-text fallback on encode
    /// failure.
    pub fn into_response(self) -> (r: Response)
        ensures
            match msgpack_encoding(self.0@) {
                Ok(bytes) => {
                    &&& r.status == STATUS_OK
                    &&& r.content_type@ == "application/msgpack"@
                    &&& r.body@ == bytes
                },
                Err(m) => {
                    &&& r.status == STATUS_INTERNAL_SERVER_ERROR
                    &&& r.content_type@ == "text/plain"@
                    &&& r.body@ == vstd::utf8::encode_utf8(m)
                },
            },
    {
        let encoded = encode_record(&self.0);
        response_from_encode(encoded)
    }
}

} // verus!
