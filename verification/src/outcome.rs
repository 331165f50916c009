//! The typed result of one downstream dependency call and the error
//! taxonomy surfaced to the inbound caller.

use vstd::prelude::*;

verus! {

/// Why a dependency call failed.
#[derive(Clone, Copy, Debug, PartialEq, Eq, Structural)]
pub enum ErrorKind {
    /// Transport-level failure reaching the dependency (connection refused,
    /// name resolution, transport timeout).
    Unreachable,
    /// The dependency answered with a non-success, non-timeout status.
    UpstreamRejected(u16),
    /// The dependency answered success but the body did not parse into the
    /// expected shape.
    MalformedResponse,
}

/// The tagged outcome of one downstream dependency call.  `Fallback` holds
/// a synthesized degraded value substituted when the dependency signalled a
/// timeout; the aggregate treats it as success.
#[derive(Debug)]
pub enum CallOutcome<T> {
    Success(T),
    Fallback(T),
    Failure(ErrorKind),
}

/// The HTTP status surfaced to the inbound caller for each failure kind:
/// a transport failure becomes a server error, a rejection or a malformed
/// body a bad request.
pub open spec fn error_status_spec(e: ErrorKind) -> u16 {
    match e {
        ErrorKind::Unreachable => 500,
        ErrorKind::UpstreamRejected(_) => 400,
        ErrorKind::MalformedResponse => 400,
    }
}

pub fn error_status(e: &ErrorKind) -> (s: u16)
    ensures
        s == error_status_spec(*e),
{
    match e {
        ErrorKind::Unreachable => 500,
        ErrorKind::UpstreamRejected(_) => 400,
        ErrorKind::MalformedResponse => 400,
    }
}

/// Whether an HTTP status counts as success.
pub open spec fn is_success_status(status: u16) -> bool {
    200 <= status < 300
}

} // verus!
