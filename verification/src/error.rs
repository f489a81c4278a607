//! Error values of the server core.
//!
//! Per-connection failures never terminate the event loop; they are reported
//! to the caller as values.  Parse failures are not an error path at all:
//! they map to a `400 Bad Request` response.

use vstd::prelude::*;

verus! {

/// The request line did not match the shape `METHOD SP PATH SP HTTP/1.VERSION`.
///
/// Carries the status code of the response that answers the malformed
/// request, which is always `400`.
#[derive(Debug)]
pub struct HttpParseError {
    status_code: u16,
}

impl HttpParseError {
    /// The status code carried by this error, as seen by specifications.
    pub closed spec fn spec_status_code(&self) -> u16 {
        self.status_code
    }

    /// The one parse error: a malformed request line, answered with `400`.
    pub fn new() -> (r: HttpParseError)
        ensures
            r.spec_status_code() == 400,
    {
        HttpParseError { status_code: 400 }
    }

    /// The status code of the response that answers the malformed request.
    pub fn status_code(&self) -> (r: u16)
        ensures
            r == self.spec_status_code(),
    {
        self.status_code
    }

    /// A human-readable description of the failure.
    pub fn message(&self) -> (r: String)
        ensures
            r@ == "failed to parse http request"@,
    {
        "failed to parse http request".to_owned()
    }
}

/// A status code outside the set the response builder knows how to render.
#[derive(Debug)]
pub struct UndefinedStatusCode {
    pub code: u16,
}

/// Inserting a connection under an identifier that is already live.
///
/// Monotonic identifier assignment makes this structurally unreachable; it is
/// surfaced loudly as a defect signal, and the existing entry is kept.
#[derive(Debug)]
pub struct DuplicateConnectionId {
    pub id: u64,
}

} // verus!
