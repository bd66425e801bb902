//! The guest's monotonic clock: nanoseconds since the host started.
use vstd::prelude::*;

verus! {

#[verifier::external_type_specification]
#[verifier::external_body]
pub struct ExInstant(std::time::Instant);

/// Relies on `std::time::Instant::now`: the current instant.
#[verifier::external_body]
fn instant_now() -> (r: std::time::Instant) {
    std::time::Instant::now()
}

/// Relies on `std::time::Instant::elapsed`: the time elapsed since `origin`,
/// converted to nanoseconds by `Duration::as_nanos`. Nothing is promised of
/// it.
#[verifier::external_body]
fn elapsed_nanos(origin: &std::time::Instant) -> (r: u128) {
    origin.elapsed().as_nanos()
}

pub open spec fn spec_clamp_nanos(n: u128) -> u64 {
    if n <= u64::MAX {
        n as u64
    } else {
        u64::MAX
    }
}

/// An elapsed time in nanoseconds as the guest reads it: exact up to
/// `u64::MAX` (some 584 years), and held there beyond.
pub fn clamp_nanos(n: u128) -> (r: u64)
    ensures
        r == spec_clamp_nanos(n),
        n <= u64::MAX ==> r == n,
{
    if n <= u64::MAX as u128 {
        n as u64
    } else {
        u64::MAX
    }
}

/// Later readings of the host clock never turn into earlier guest times.
pub proof fn lemma_clamp_monotonic(a: u128, b: u128)
    requires
        a <= b,
    ensures
        spec_clamp_nanos(a) <= spec_clamp_nanos(b),
{
}

/// The clock shared by every context: the instant the host started.
#[derive(Clone, Copy)]
pub struct Clock {
    origin: std::time::Instant,
}

impl Clock {
    /// A clock that starts now.
    pub fn start() -> (r: Clock) {
        Clock { origin: instant_now() }
    }

    /// `get_now_nsec()`: nanoseconds since the clock started.
    pub fn now_nsec(&self) -> (r: u64) {
        clamp_nanos(elapsed_nanos(&self.origin))
    }
}

} // verus!
