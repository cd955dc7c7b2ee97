//! Absolute instants with millisecond precision.
use vstd::prelude::*;

verus! {

/// An absolute instant, counted in milliseconds from the reactor's start.
#[derive(Clone, Copy, Debug, PartialEq, Eq, Structural)]
pub struct Time {
    pub millis: u64,
}

impl Time {
    pub fn from_millis(millis: u64) -> (r: Time)
        ensures
            r.millis == millis,
    {
        Time { millis }
    }

    /// The instant `milliseconds` after `self`.
    pub fn after(self, milliseconds: u64) -> (r: Time)
        requires
            self.millis + milliseconds <= u64::MAX,
        ensures
            r.millis == self.millis + milliseconds,
    {
        Time { millis: self.millis + milliseconds }
    }
}

/// Whether an optional deadline has passed at `now`.
pub open spec fn deadline_reached(now: Time, deadline: Option<Time>) -> bool {
    match deadline {
        Some(d) => now.millis >= d.millis,
        None => false,
    }
}

/// True when `deadline` is set and `now` is at or past it; no deadline is
/// never reached.
pub fn reached(now: Time, deadline: Option<Time>) -> (r: bool)
    ensures
        r == deadline_reached(now, deadline),
{
    match deadline {
        Some(d) => now.millis >= d.millis,
        None => false,
    }
}

} // verus!
