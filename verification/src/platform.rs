//! Trusted access to the operating system's random source and to the
//! monotonic clock.

use vstd::prelude::*;

verus! {

/// std::time::Instant, declared so that clock snapshots can pass through
/// verified code; its contents stay opaque to the verifier.
#[verifier::external_type_specification]
#[verifier::external_body]
pub struct ExInstant(std::time::Instant);

/// Relies on getrandom::getrandom: fills a buffer of `len` bytes from the
/// operating system's secure random source. Nothing can be promised of the
/// values; an unavailable source is a fatal environment failure and aborts
/// the process.
#[verifier::external_body]
pub(crate) fn os_random_bytes(len: usize) -> (r: Vec<u8>)
    ensures
        r@.len() == len,
{
    let mut buf = vec![0u8; len];
    getrandom::getrandom(&mut buf).expect("no operating system entropy source");
    buf
}

/// Relies on std::time::Instant::now: a snapshot of a monotonic clock.
/// The snapshot depends on the time of the call, so nothing is promised.
#[verifier::external_body]
pub(crate) fn clock_now() -> (r: std::time::Instant) {
    std::time::Instant::now()
}

/// Relies on std::time::Instant::elapsed and Duration::as_nanos: the
/// nanoseconds elapsed since the snapshot, truncated to 64 bits. The value
/// depends on the clock and the scheduler, so nothing is promised.
#[verifier::external_body]
pub(crate) fn elapsed_nanos(start: &std::time::Instant) -> (r: u64) {
    start.elapsed().as_nanos() as u64
}

} // verus!
