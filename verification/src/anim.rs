//! One-shot animations: a start on the clock and a length.

use vstd::prelude::*;

verus! {

/// `std::time::Instant`, a point on the machine's monotonic clock.
#[verifier::external_type_specification]
#[verifier::external_body]
pub struct ExInstant(std::time::Instant);

/// `std::time::Instant::now` reads the clock; nothing is known of the reading.
#[verifier::external_body]
fn clock() -> std::time::Instant {
    std::time::Instant::now()
}

/// `std::time::Instant::elapsed` tells the time since `start`, here in
/// nanoseconds; nothing is known of it but that it is not negative.
#[verifier::external_body]
fn nanos_since(start: &std::time::Instant) -> (r: u128) {
    start.elapsed().as_nanos()
}

/// An animation that runs once, from `start`, for `dur_nanos` nanoseconds.
#[derive(Debug, Clone, Copy)]
pub struct Animation {
    pub start: std::time::Instant,
    pub dur_nanos: u128,
}

impl Animation {
    /// Starts an animation of the given length now.
    pub fn new(dur_nanos: u128) -> (r: Animation)
        ensures
            r.dur_nanos == dur_nanos,
    {
        Animation { start: clock(), dur_nanos }
    }

    /// Starts an animation of `ms` milliseconds now.
    pub fn ms(ms: u64) -> (r: Animation)
        ensures
            r.dur_nanos == ms * 1_000_000,
    {
        Animation::new(ms as u128 * 1_000_000)
    }

    /// The animation is over `elapsed` nanoseconds after its start.
    pub open spec fn is_over(self, elapsed: u128) -> bool {
        elapsed >= self.dur_nanos
    }

    /// Whether the animation is over when `elapsed` nanoseconds have passed
    /// since its start.
    pub fn done_after(&self, elapsed: u128) -> (r: bool)
        ensures
            r == self.is_over(elapsed),
    {
        elapsed >= self.dur_nanos
    }

    /// Whether the animation is over by now. One without length always is.
    pub fn done(&self) -> (r: bool)
        ensures
            self.dur_nanos == 0 ==> r,
    {
        self.done_after(nanos_since(&self.start))
    }
}

/// An animation that is over stays over.
pub proof fn law_done_stays_done(a: Animation, earlier: u128, later: u128)
    requires
        a.is_over(earlier),
        earlier <= later,
    ensures
        a.is_over(later),
{
}

/// An animation is over once its whole time has passed, and not before.
pub proof fn law_over_after_its_time(a: Animation, elapsed: u128)
    ensures
        elapsed < a.dur_nanos ==> !a.is_over(elapsed),
        elapsed >= a.dur_nanos ==> a.is_over(elapsed),
{
}

} // verus!
