use vstd::prelude::*;

verus! {

/// HTTP status of a successful upstream reply.
pub const STATUS_OK: u16 = 200;

/// HTTP status of a reply that says "bad request".
pub const STATUS_BAD_REQUEST: u16 = 400;

/// HTTP status of a reply that says "not found".
pub const STATUS_NOT_FOUND: u16 = 404;

/// HTTP status of an internal failure.
pub const STATUS_INTERNAL_SERVER_ERROR: u16 = 500;

/// What came back from one outbound call to an upstream service.
pub enum UpstreamReply<T> {
    /// No response arrived: connection refused, timeout, transport error.
    Unreachable,
    /// A response arrived with `status`. For a `200` response `body` holds the
    /// decoded payload, or `None` when it did not decode into `T`; for any
    /// other status the body is not read.
    Replied { status: u16, body: Option<T> },
}

/// Whether the body of a response with this status has to be read and
/// decoded: only that of a `200` response is.
pub fn body_expected(status: u16) -> (r: bool)
    ensures
        r == (status == STATUS_OK),
{
    status == STATUS_OK
}

/// The text of a textual result, with the error left as it is.
pub open spec fn text_result<E>(r: Result<String, E>) -> Result<Seq<char>, E> {
    match r {
        Ok(s) => Ok(s@),
        Err(e) => Err(e),
    }
}

} // verus!
