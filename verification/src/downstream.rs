//! Classification of one downstream dependency reply into a typed call
//! outcome, under the per-dependency fallback policy.
//!
//! The transport layer hands the library a plain value describing what came
//! back: either a transport-level failure, or an HTTP status together with
//! the parse result of the body.  Classification is ordered, first match
//! wins: transport failure, then the dependency's designated timeout
//! status, then any other non-success status, then a malformed body, then
//! success.

use crate::outcome::{is_success_status, CallOutcome, ErrorKind};
use vstd::prelude::*;

verus! {

/// What one outbound call produced, as plain values.  The body slot holds
/// `Some` exactly when the body parsed into the expected model; for replies
/// whose status is not consulted for a body it is `None`.
#[derive(Debug)]
pub enum DependencyReply<T> {
    /// The dependency could not be reached at the transport level.
    Unreachable,
    /// The dependency answered with this status; the second component is
    /// the parse result of the body.
    Http(u16, Option<T>),
}

/// The classification policy.  `fallback` names the dependency's designated
/// timeout status and the synthesized degraded value substituted for it, if
/// the dependency has one.
pub open spec fn classify_spec<T>(
    reply: DependencyReply<T>,
    fallback: Option<(u16, T)>,
) -> CallOutcome<T> {
    match reply {
        DependencyReply::Unreachable => CallOutcome::Failure(ErrorKind::Unreachable),
        DependencyReply::Http(status, body) => match fallback {
            Some(f) if f.0 == status => CallOutcome::Fallback(f.1),
            _ => {
                if !is_success_status(status) {
                    CallOutcome::Failure(ErrorKind::UpstreamRejected(status))
                } else {
                    match body {
                        Some(m) => CallOutcome::Success(m),
                        None => CallOutcome::Failure(ErrorKind::MalformedResponse),
                    }
                }
            },
        },
    }
}

/// Classifies one dependency reply.  A timeout signalled by the designated
/// status degrades to the synthesized fallback value instead of failing.
pub fn classify<T>(reply: DependencyReply<T>, fallback: Option<(u16, T)>) -> (r: CallOutcome<T>)
    ensures
        r == classify_spec(reply, fallback),
{
    match reply {
        DependencyReply::Unreachable => CallOutcome::Failure(ErrorKind::Unreachable),
        DependencyReply::Http(status, body) => match fallback {
            Some(f) => {
                if f.0 == status {
                    CallOutcome::Fallback(f.1)
                } else if !(200 <= status && status < 300) {
                    CallOutcome::Failure(ErrorKind::UpstreamRejected(status))
                } else {
                    match body {
                        Some(m) => CallOutcome::Success(m),
                        None => CallOutcome::Failure(ErrorKind::MalformedResponse),
                    }
                }
            },
            None => {
                if !(200 <= status && status < 300) {
                    CallOutcome::Failure(ErrorKind::UpstreamRejected(status))
                } else {
                    match body {
                        Some(m) => CallOutcome::Success(m),
                        None => CallOutcome::Failure(ErrorKind::MalformedResponse),
                    }
                }
            },
        },
    }
}

/// Collapses an outcome into what the inbound caller sees: a fallback is a
/// success, a failure maps to its surfaced status.
pub fn outcome_to_result<T>(o: CallOutcome<T>) -> (r: Result<T, u16>)
    ensures
        match o {
            CallOutcome::Success(m) => r == Ok::<T, u16>(m),
            CallOutcome::Fallback(m) => r == Ok::<T, u16>(m),
            CallOutcome::Failure(k) => r == Err::<T, u16>(crate::outcome::error_status_spec(k)),
        },
{
    match o {
        CallOutcome::Success(m) => Ok(m),
        CallOutcome::Fallback(m) => Ok(m),
        CallOutcome::Failure(k) => Err(crate::outcome::error_status(&k)),
    }
}

/// The dependency-designated timeout status always degrades to the
/// synthesized fallback value: the outcome is `Fallback`, never `Failure`.
pub proof fn lemma_timeout_status_degrades<T>(status: u16, body: Option<T>, value: T)
    ensures
        classify_spec(DependencyReply::Http(status, body), Some((status, value)))
            == CallOutcome::<T>::Fallback(value),
{
}

} // verus!
