//! Monotonic time, counted in milliseconds since power-up.
use vstd::prelude::*;

verus! {

/// A point in time, in milliseconds since power-up.
#[derive(Clone, Copy, Debug, PartialEq, Eq, Structural)]
pub struct Instant {
    pub millis: u64,
}

impl Instant {
    /// The instant `millis` milliseconds after power-up.
    pub fn from_millis(millis: u64) -> (r: Instant)
        ensures
            r.millis == millis,
    {
        Instant { millis }
    }

    /// Milliseconds since power-up.
    pub fn as_millis(&self) -> (r: u64)
        ensures
            r == self.millis,
    {
        self.millis
    }

    /// Milliseconds from `earlier` to `self`, or zero when `earlier` is later.
    pub open spec fn spec_millis_since(self, earlier: Instant) -> u64 {
        if self.millis >= earlier.millis {
            (self.millis - earlier.millis) as u64
        } else {
            0
        }
    }

    /// Milliseconds from `earlier` to `self`, or zero when `earlier` is later.
    pub fn millis_since(&self, earlier: Instant) -> (r: u64)
        ensures
            r == self.spec_millis_since(earlier),
    {
        if self.millis >= earlier.millis {
            self.millis - earlier.millis
        } else {
            0
        }
    }
}

} // verus!
