//! The monotonic clock behind every lifecycle timestamp, read as
//! nanoseconds since a fixed origin taken at the start of a run.

use vstd::prelude::*;

verus! {

/// An opaque reading of the monotonic clock, used as the origin every
/// timestamp is measured from.
#[verifier::external_type_specification]
#[verifier::external_body]
pub struct ExInstant(std::time::Instant);

/// Relies on std::time::Instant::now: a fresh monotonic clock reading.
#[verifier::external_body]
pub fn clock_start() -> (r: std::time::Instant) {
    std::time::Instant::now()
}

/// Relies on std::time::Instant::elapsed: the time since the origin
/// reading, in nanoseconds, truncated to 64 bits.
#[verifier::external_body]
pub fn clock_nanos(origin: &std::time::Instant) -> (r: u64) {
    let n = origin.elapsed().as_nanos();
    n as u64
}

} // verus!
