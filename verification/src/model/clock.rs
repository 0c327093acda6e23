use vstd::prelude::*;

verus! {

/// Where the time comes from. What a clock will read is not known before it is read;
/// `timeline` gives its readings a name, so that what is stamped with one can be told.
pub trait Clock: Sized {
    /// What the clock reads at its first reading, at its second, and so on.
    spec fn timeline(&self) -> spec_fn(nat) -> u64;

    /// How many readings have been taken.
    spec fn ticks(&self) -> nat;

    /// Reads the clock: milliseconds since the start of 1970, or whatever it counts.
    fn now_ms(&mut self) -> (r: u64)
        ensures
            r == (old(self).timeline())(old(self).ticks()),
            final(self).ticks() == old(self).ticks() + 1,
            final(self).timeline() == old(self).timeline(),
    ;
}

/// The timeline of a clock that reads `at` whenever it is read.
pub open spec fn standing_at(at: u64) -> spec_fn(nat) -> u64 {
    |reading: nat| at
}

/// A clock that stands still: it reads the time that it was last set to.
pub struct StandingClock {
    at: u64,
    readings: Ghost<nat>,
}

impl StandingClock {
    /// The time that the clock stands at.
    pub closed spec fn time(&self) -> u64 {
        self.at
    }

    /// A clock that stands at `at`.
    pub fn new(at: u64) -> (r: Self)
        ensures
            r.time() == at,
    {
        Self { at, readings: Ghost(0) }
    }

    /// Sets the clock to `at`.
    pub fn set(&mut self, at: u64)
        ensures
            final(self).time() == at,
    {
        self.at = at;
    }
}

impl Clock for StandingClock {
    open spec fn timeline(&self) -> spec_fn(nat) -> u64 {
        standing_at(self.time())
    }

    closed spec fn ticks(&self) -> nat {
        self.readings@
    }

    fn now_ms(&mut self) -> (r: u64) {
        self.readings = Ghost(self.readings@ + 1);
        self.at
    }
}

} // verus!
