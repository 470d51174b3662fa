use vstd::prelude::*;

verus! {

/// The scheduling handle given to every poll.
///
/// It carries the instant, in milliseconds since an arbitrary start, at which
/// the current tick runs. The external driver is responsible for polling
/// again once either the inner computation or a timer can make progress.
pub struct Sched {
    pub now: u64,
}

/// The instant `dur` milliseconds after `now`, saturating at the largest
/// representable instant.
pub open spec fn deadline_of(now: u64, dur: u64) -> u64 {
    if now + dur > u64::MAX {
        u64::MAX
    } else {
        (now + dur) as u64
    }
}

/// A single-fire timer: ready at or after its deadline, forever after.
pub struct Delay {
    pub deadline: u64,
}

impl Delay {
    /// Whether the timer has fired by instant `now`.
    pub open spec fn fired(&self, now: u64) -> bool {
        now >= self.deadline
    }

    /// Reports whether the timer has fired by the current instant.
    pub fn poll(&self, sched: &Sched) -> (r: bool)
        ensures
            r == self.fired(sched.now),
    {
        sched.now >= self.deadline
    }
}

/// Creates a timer that fires once `dur` milliseconds have elapsed past
/// `now`; the deadline saturates at the largest representable instant.
pub fn delay_for(dur: u64, now: u64) -> (r: Delay)
    ensures
        r.deadline == deadline_of(now, dur),
{
    if dur > u64::MAX - now {
        Delay { deadline: u64::MAX }
    } else {
        Delay { deadline: now + dur }
    }
}

} // verus!
