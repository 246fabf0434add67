use vstd::prelude::*;

verus! {

/// Number of clock ticks in one simulated minute.
pub const TICKS_PER_MINUTE: u64 = 1_000_000;

/// An absolute point of simulated time, in ticks from the epoch.
#[derive(Clone, Copy, Debug, PartialEq, Eq, Structural)]
pub struct TimeStamp {
    pub ticks: u64,
}

/// A span of simulated time, in ticks. `u64::MAX` ticks stands for "never".
#[derive(Clone, Copy, Debug, PartialEq, Eq, Structural)]
pub struct Duration {
    pub ticks: u64,
}

impl TimeStamp {
    /// The epoch of every run.
    pub fn start() -> (r: TimeStamp)
        ensures
            r.ticks == 0,
    {
        TimeStamp { ticks: 0 }
    }

    /// Ticks elapsed since the epoch.
    pub fn get(&self) -> (r: u64)
        ensures
            r == self.ticks,
    {
        self.ticks
    }

    pub fn of_ticks(ticks: u64) -> (r: TimeStamp)
        ensures
            r.ticks == ticks,
    {
        TimeStamp { ticks }
    }

    /// The time stamp `d` after this one.
    pub fn add_duration(&self, d: Duration) -> (r: TimeStamp)
        requires
            self.ticks + d.ticks <= u64::MAX,
        ensures
            r.ticks == self.ticks + d.ticks,
    {
        TimeStamp { ticks: self.ticks + d.ticks }
    }

    /// The span from `earlier` up to this time stamp.
    pub fn duration_since(&self, earlier: TimeStamp) -> (r: Duration)
        requires
            earlier.ticks <= self.ticks,
        ensures
            r.ticks == self.ticks - earlier.ticks,
    {
        Duration { ticks: self.ticks - earlier.ticks }
    }

    pub fn is_before(&self, other: TimeStamp) -> (r: bool)
        ensures
            r == (self.ticks < other.ticks),
    {
        self.ticks < other.ticks
    }
}

impl Duration {
    pub open spec fn is_never_spec(self) -> bool {
        self.ticks == u64::MAX
    }

    pub fn of_ticks(ticks: u64) -> (r: Duration)
        ensures
            r.ticks == ticks,
    {
        Duration { ticks }
    }

    /// A whole number of minutes.
    pub fn of_minutes(minutes: u64) -> (r: Duration)
        requires
            minutes * TICKS_PER_MINUTE <= u64::MAX,
        ensures
            r.ticks == minutes * TICKS_PER_MINUTE,
    {
        Duration { ticks: minutes * TICKS_PER_MINUTE }
    }

    /// The additive identity.
    pub fn none() -> (r: Duration)
        ensures
            r.ticks == 0,
    {
        Duration { ticks: 0 }
    }

    /// The sentinel of an actor with no pending event; it exceeds every other span.
    pub fn never() -> (r: Duration)
        ensures
            r.is_never_spec(),
    {
        Duration { ticks: u64::MAX }
    }

    pub fn is_never(&self) -> (r: bool)
        ensures
            r == self.is_never_spec(),
    {
        self.ticks == u64::MAX
    }

    /// Whole minutes in this span, rounded down.
    pub fn as_minutes(&self) -> (r: u64)
        ensures
            r == self.ticks / TICKS_PER_MINUTE,
    {
        self.ticks / TICKS_PER_MINUTE
    }

    pub fn as_ticks(&self) -> (r: u64)
        ensures
            r == self.ticks,
    {
        self.ticks
    }

    pub fn add_duration(&self, other: Duration) -> (r: Duration)
        requires
            self.ticks + other.ticks <= u64::MAX,
        ensures
            r.ticks == self.ticks + other.ticks,
    {
        Duration { ticks: self.ticks + other.ticks }
    }

    pub fn sub_duration(&self, other: Duration) -> (r: Duration)
        requires
            other.ticks <= self.ticks,
        ensures
            r.ticks == self.ticks - other.ticks,
    {
        Duration { ticks: self.ticks - other.ticks }
    }
}

/// Total ticks of a sequence of durations.
pub open spec fn total_ticks(s: Seq<Duration>) -> nat
    decreases s.len(),
{
    if s.len() == 0 {
        0
    } else {
        s[0].ticks as nat + total_ticks(s.drop_first())
    }
}

} // verus!
