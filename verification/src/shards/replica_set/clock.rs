//! A monotonic clock that counts nanoseconds from the moment it was started.

use std::time::Duration;
use std::time::Instant;
use vstd::prelude::*;

verus! {

/// `std::time::Instant`, a point on the monotonic clock of the machine.
/// Nothing inside it is visible to the verifier.
#[verifier::external_type_specification]
#[verifier::external_body]
pub struct ExInstant(std::time::Instant);

/// `Instant::now`, the present point on the monotonic clock. Nothing is
/// claimed of the result: it depends on when the call is made.
pub assume_specification[ Instant::now ]() -> (now: Instant);

/// `Instant::elapsed`, the time that has passed since `origin`. Nothing is
/// claimed of the result: it depends on when the call is made.
pub assume_specification[ Instant::elapsed ](origin: &Instant) -> (elapsed: Duration);

/// `Duration::as_nanos`, the whole nanoseconds that `duration` holds. Nothing
/// is claimed of the result, since nothing is known of `duration`.
pub assume_specification[ Duration::as_nanos ](duration: &Duration) -> (nanos: u128);

/// A clock that starts at zero when it is made.
#[derive(Clone, Copy, Debug)]
pub struct Clock {
    origin: Instant,
}

impl Clock {
    /// Starts a clock at the present moment.
    pub fn start() -> (clock: Clock) {
        Clock { origin: Instant::now() }
    }

    /// Nanoseconds since the clock was started. The reading depends on the
    /// moment of the call, so callers are verified for every value of it.
    pub fn now(&self) -> (nanos: u128) {
        let elapsed = self.origin.elapsed();
        elapsed.as_nanos()
    }
}

} // verus!
