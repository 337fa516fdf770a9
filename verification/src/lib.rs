//! MessagePack body adapters for an HTTP request/response pipeline.
//!
//! The crate converts between raw message-body bytes and typed in-memory
//! values.  Its core is the content-type negotiation rule (which declared
//! `Content-Type` headers designate the MessagePack format) and the error
//! taxonomy that classifies every conversion failure.  The wire codec itself
//! is supplied by `rmp_serde`; MIME parsing is supplied by `mime`.

pub mod codec;
pub mod content_type;
pub mod extract;
pub mod rejection;
pub mod response;

use vstd::prelude::*;

verus! {

/// MessagePack extractor / response wrapper around a typed value.
///
/// Inbound, a value of this type is produced by decoding a request body whose
/// `Content-Type` designates the MessagePack format.  Outbound, the wrapped
/// value is encoded and tagged with the canonical media type.  The wrapper
/// retains no state beyond the value it carries.
#[derive(Debug, Clone, Copy, PartialEq, Eq, Default)]
pub struct MsgPack<T>(pub T);

impl<T> MsgPack<T> {
    /// Unwrap the carried value.
    pub fn into_inner(self) -> (r: T)
        ensures
            r == self.0,
    {
        self.0
    }
}

impl<T> From<T> for MsgPack<T> {
    fn from(inner: T) -> (r: Self)
        ensures
            r == MsgPack(inner),
    {
        MsgPack(inner)
    }
}

impl<T> vstd::std_specs::convert::FromSpecImpl<T> for MsgPack<T> {
    open spec fn obeys_from_spec() -> bool {
        true
    }

    open spec fn from_spec(inner: T) -> Self {
        MsgPack(inner)
    }
}

} // verus!
