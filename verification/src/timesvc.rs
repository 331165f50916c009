//! The time service: answers one inbound request with the current instant,
//! which the caller samples at its I/O edge and hands in as a plain value.

use vstd::prelude::*;

verus! {

/// Response model of the time service: an instant in unix milliseconds.
#[derive(Clone, Copy, Debug, PartialEq, Eq, Structural)]
pub struct TimeModel {
    pub key_time: i64,
}

/// Builds the time service's response for the sampled instant.
pub fn handler(now_millis: i64) -> (m: TimeModel)
    ensures
        m.key_time == now_millis,
{
    TimeModel { key_time: now_millis }
}

} // verus!
