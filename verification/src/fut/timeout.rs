use vstd::prelude::*;
use crate::actor::Actor;
use crate::clock::{delay_for, deadline_of, Delay, Sched};
use crate::fut::{ActorFuture, Readiness};

verus! {

/// Future for the timeout combinator: interrupts a computation once it takes
/// more than the configured duration.
///
/// The deadline timer is created exactly once, at construction, and is
/// checked before the inner future on every poll: when both become ready in
/// the same tick, the deadline wins. This tie-break is deliberate and part of
/// the contract.
pub struct Timeout<F: ActorFuture> {
    pub fut: F,
    pub timeout: Delay,
}

/// The combinator exactly as [`new`] builds it at instant `now`.
pub open spec fn fresh<F: ActorFuture>(future: F, timeout: u64, now: u64) -> Timeout<F> {
    Timeout { fut: future, timeout: Delay { deadline: deadline_of(now, timeout) } }
}

/// Wraps `future` with a deadline `timeout` milliseconds after `now`, the
/// instant of construction.
pub fn new<F: ActorFuture>(future: F, timeout: u64, now: u64) -> (r: Timeout<F>)
    ensures
        r == fresh(future, timeout, now),
{
    Timeout { fut: future, timeout: delay_for(timeout, now) }
}

impl<F: ActorFuture> ActorFuture for Timeout<F> {
    type Output = Result<F::Output, ()>;

    type Actor = F::Actor;

    /// The deadline is checked first: at or after it, the poll reports the
    /// timeout error whatever the inner future would have reported; before
    /// it, the poll reports exactly what the inner future reports, wrapped
    /// as success.
    open spec fn polled(self, act: F::Actor, now: u64) -> Readiness<Result<F::Output, ()>> {
        if self.timeout.fired(now) {
            Readiness::Ready(Result::Err(()))
        } else {
            match self.fut.polled(act, now) {
                Readiness::Ready(v) => Readiness::Ready(Result::Ok(v)),
                Readiness::Pending => Readiness::Pending,
            }
        }
    }

    /// Once the deadline has fired, the inner future is left untouched; until
    /// then each poll advances it by one tick.
    open spec fn advanced(self, act: F::Actor, now: u64) -> Self {
        if self.timeout.fired(now) {
            self
        } else {
            Timeout { fut: self.fut.advanced(act, now), timeout: self.timeout }
        }
    }

    fn poll(
        &mut self,
        act: &mut F::Actor,
        ctx: &mut <F::Actor as Actor>::Context,
        sched: &Sched,
    ) -> (r: Readiness<Result<F::Output, ()>>) {
        if self.timeout.poll(sched) {
            return Readiness::Ready(Result::Err(()));
        }
        match self.fut.poll(act, ctx, sched) {
            Readiness::Ready(v) => Readiness::Ready(Result::Ok(v)),
            Readiness::Pending => Readiness::Pending,
        }
    }
}

/// Law: the outcome of one poll of a timeout combinator, for every deadline
/// and every inner readiness. At or after the deadline the timeout error is
/// reported, whatever the inner future would have done; before it, the poll
/// reports exactly what the inner future reports, wrapped as success — a
/// timeout error is never reported early.
pub proof fn lemma_timeout_outcome<F: ActorFuture>(t: Timeout<F>, act: F::Actor, now: u64)
    ensures
        t.timeout.fired(now) ==> t.polled(act, now) == Readiness::<Result<F::Output, ()>>::Ready(
            Result::Err(()),
        ),
        !t.timeout.fired(now) ==> (t.fut.polled(act, now) matches Readiness::Ready(v) ==> t.polled(
            act,
            now,
        ) == Readiness::<Result<F::Output, ()>>::Ready(Result::Ok(v))),
        !t.timeout.fired(now) && t.fut.polled(act, now) is Pending ==> t.polled(act, now)
            is Pending,
{
}

/// Law: the combinator's resolution by timeout is terminal. Once the
/// deadline has passed, every later poll reports the timeout error and
/// leaves the inner future untouched: the timer decision is made without
/// ever polling the inner future again, however often the driver keeps
/// polling.
pub proof fn lemma_timeout_terminal<F: ActorFuture>(
    t: Timeout<F>,
    act: F::Actor,
    fired_at: u64,
    later: u64,
)
    requires
        t.timeout.fired(fired_at),
        fired_at <= later,
    ensures
        t.polled(act, later) == Readiness::<Result<F::Output, ()>>::Ready(Result::Err(())),
        t.advanced(act, later) == t,
{
}

/// Law: an inner future that is ready the moment it is first polled beats
/// every positive duration — the first poll of the freshly built combinator,
/// at the construction instant itself, reports the inner value as success.
/// The timer-first tie-break still stands: with a duration of zero the very
/// same poll reports the timeout error instead, because the deadline is
/// checked before the inner future.
pub proof fn lemma_ready_inner_wins<F: ActorFuture>(
    future: F,
    act: F::Actor,
    dur: u64,
    start: u64,
    v: F::Output,
)
    requires
        future.polled(act, start) == Readiness::<F::Output>::Ready(v),
        start < u64::MAX,
    ensures
        0 < dur ==> fresh(future, dur, start).polled(act, start) == Readiness::<
            Result<F::Output, ()>,
        >::Ready(Result::Ok(v)),
        dur == 0 ==> fresh(future, dur, start).polled(act, start) == Readiness::<
            Result<F::Output, ()>,
        >::Ready(Result::Err(())),
{
}

} // verus!
