//! Verified core of a set of cooperating HTTP services that propagate a
//! distributed trace context across service boundaries.
//!
//! The library holds the logic worth proving: the `traceparent` codec
//! (extraction and injection of a trace context through a header carrier),
//! the classification of downstream dependency replies, and the aggregation
//! of several dependency outcomes under a partial-failure policy.  The
//! surrounding binaries do the network I/O and hand this library plain
//! values.

pub mod aggregate;
pub mod codec;
pub mod downstream;
pub mod health;
pub mod outcome;
pub mod route;
pub mod timesvc;
pub mod weather;
