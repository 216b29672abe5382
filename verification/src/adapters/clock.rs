use vstd::prelude::*;

verus! {

/// A source of the current time, in the unit that the time credits use.
///
/// What an implementation answers is up to it (a wall clock, a fixed value in
/// tests): the use cases state their results for whatever instant it gives.
pub trait Clock {
    fn now(&self) -> u64;
}

/// A clock that always answers the instant it was built with.
pub struct MockClock {
    now_value: u64,
}

impl MockClock {
    /// The instant this clock answers.
    pub closed spec fn configured_now(&self) -> u64 {
        self.now_value
    }

    pub fn new(now: u64) -> (clock: Self)
        ensures
            clock.configured_now() == now,
    {
        MockClock { now_value: now }
    }
}

impl Clock for MockClock {
    fn now(&self) -> (now: u64)
        ensures
            now == self.configured_now(),
    {
        self.now_value
    }
}

} // verus!
