//! The error taxonomy of the inbound path.
//!
//! Each failure class has a distinct, stable identity so that callers can
//! branch on it.  All four map to a client-error response by default; none is
//! retried here.

use vstd::prelude::*;

verus! {

/// Why an inbound request body could not be converted into a typed value.
#[derive(Debug, Clone, PartialEq, Eq)]
pub enum MsgPackRejection {
    /// The request headers were already consumed by an earlier pipeline
    /// stage.  An integration/ordering bug, distinct from content errors.
    HeadersUnavailable,
    /// The `Content-Type` header is missing, malformed, or does not designate
    /// the MessagePack format.
    UnsupportedContentType,
    /// The collaborator could not supply the request body (transport-level
    /// failure); the message describes the underlying condition.
    BodyUnavailable(String),
    /// The body bytes are present but do not decode into the expected shape;
    /// the message is the underlying codec error's description.
    InvalidBody(String),
}

impl MsgPackRejection {
    /// A short description of the failure class, with the underlying message
    /// where one was recorded.
    pub fn message(&self) -> (r: String)
        ensures
            self is HeadersUnavailable ==> r@ == "headers were already extracted"@,
            self is UnsupportedContentType ==> r@ == "unsupported content type"@,
            self is BodyUnavailable ==> r@ == self->BodyUnavailable_0@,
            self is InvalidBody ==> r@ == self->InvalidBody_0@,
    {
        match self {
            MsgPackRejection::HeadersUnavailable => "headers were already extracted".to_owned(),
            MsgPackRejection::UnsupportedContentType => "unsupported content type".to_owned(),
            MsgPackRejection::BodyUnavailable(m) => m.clone(),
            MsgPackRejection::InvalidBody(m) => m.clone(),
        }
    }
}

} // verus!
