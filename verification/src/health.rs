//! The liveness answer common to every service.

use vstd::prelude::*;

verus! {

/// Body of the health endpoint's reply.
#[derive(Debug)]
pub struct HealthCheck {
    pub status: String,
}

/// The health endpoint's fixed answer; no dependency is consulted.
pub fn health() -> (h: HealthCheck)
    ensures
        h.status@ == "Healthy"@,
{
    HealthCheck { status: String::from_str("Healthy") }
}

} // verus!
