//! The codec boundary: encoding a typed value to MessagePack bytes and
//! decoding bytes back.
//!
//! The wire format itself belongs to `rmp_serde` and is assumed correct; this
//! module pins down only what the adapters rely on — that both directions are
//! functions of their input alone, and how a decode failure is classified.
//! The typed value is a record of named string fields, encoded with field
//! names preserved (the named-field representation).

use crate::rejection::MsgPackRejection;
use vstd::prelude::*;

verus! {

/// The typed value the verified adapters transport: a record of named string
/// fields, each a `(name, value)` pair.  The adapters are pure transforms and
/// retain no ownership of it beyond the call.
#[derive(Debug, Clone, PartialEq, Eq)]
pub struct Record {
    pub fields: Vec<(String, String)>,
}

impl View for Record {
    type V = Seq<(Seq<char>, Seq<char>)>;

    open spec fn view(&self) -> Seq<(Seq<char>, Seq<char>)> {
        self.fields.deep_view()
    }
}

impl Record {
    /// A record with the given named fields.
    pub fn new(fields: Vec<(String, String)>) -> (r: Record)
        ensures
            r@ == fields.deep_view(),
    {
        Record { fields }
    }
}

/// What the MessagePack codec encodes a field list to: the encoded bytes, or
/// the error's description where the value cannot be serialized.  The
/// encoding is a function of the fields alone; its value is stated nowhere
/// and enters contracts only through [`encode_fields`].
pub uninterp spec fn msgpack_encoding(fields: Seq<(Seq<char>, Seq<char>)>) -> Result<Seq<u8>, Seq<char>>;

/// What the MessagePack codec decodes a byte sequence to: the field list, or
/// the error's description where the bytes are malformed, truncated, or of
/// the wrong shape.  The decoding is a function of the bytes alone; its value
/// is stated nowhere and enters contracts only through [`decode_fields`].
pub uninterp spec fn msgpack_decoding(bytes: Seq<u8>) -> Result<Seq<(Seq<char>, Seq<char>)>, Seq<char>>;

/// Relies on `rmp_serde::encode::to_vec_named`: serializes the value as a
/// MessagePack byte vector with field names preserved, as a function of the
/// value alone, failing only where the value cannot be serialized.
#[verifier::external_body]
fn encode_fields(fields: &Vec<(String, String)>) -> (r: Result<Vec<u8>, String>)
    ensures
        match r {
            Ok(bytes) => msgpack_encoding(fields.deep_view()) == Ok::<Seq<u8>, Seq<char>>(bytes@),
            Err(m) => msgpack_encoding(fields.deep_view()) == Err::<Seq<u8>, Seq<char>>(m@),
        },
{
    match rmp_serde::encode::to_vec_named(fields) {
        Ok(bytes) => Ok(bytes),
        Err(e) => Err(e.to_string()),
    }
}

/// Relies on `rmp_serde::decode::from_slice`: deserializes a MessagePack byte
/// slice into the value, as a function of the bytes alone, failing on
/// malformed, truncated or wrongly shaped input.
#[verifier::external_body]
fn decode_fields(bytes: &Vec<u8>) -> (r: Result<Vec<(String, String)>, String>)
    ensures
        match r {
            Ok(fields) => msgpack_decoding(bytes@) == Ok::<Seq<(Seq<char>, Seq<char>)>, Seq<char>>(
                fields.deep_view(),
            ),
            Err(m) => msgpack_decoding(bytes@) == Err::<Seq<(Seq<char>, Seq<char>)>, Seq<char>>(m@),
        },
{
    match rmp_serde::decode::from_slice::<Vec<(String, String)>>(bytes) {
        Ok(fields) => Ok(fields),
        Err(e) => Err(e.to_string()),
    }
}

/// Encode a record to MessagePack bytes with field names preserved, or report
/// the codec error's description.
pub fn encode_record(record: &Record) -> (r: Result<Vec<u8>, String>)
    ensures
        match r {
            Ok(bytes) => msgpack_encoding(record@) == Ok::<Seq<u8>, Seq<char>>(bytes@),
            Err(m) => msgpack_encoding(record@) == Err::<Seq<u8>, Seq<char>>(m@),
        },
{
    encode_fields(&record.fields)
}

/// Decode MessagePack bytes into a record.  Decoding is all-or-nothing: on
/// any codec failure the result is `InvalidBody` carrying the codec error's
/// description, and no partial value is exposed.
pub fn decode_record(bytes: &Vec<u8>) -> (r: Result<Record, MsgPackRejection>)
    ensures
        match msgpack_decoding(bytes@) {
            Ok(fields) => r matches Ok(record) && record@ == fields,
            Err(m) => r matches Err(rej) && rej matches MsgPackRejection::InvalidBody(s) && s@
                == m,
        },
{
    match decode_fields(bytes) {
        Ok(fields) => Ok(Record { fields }),
        Err(m) => Err(MsgPackRejection::InvalidBody(m)),
    }
}

} // verus!
