use vstd::prelude::*;
use crate::actor::Actor;
use crate::clock::Sched;

pub mod scripted;
pub mod stream_timeout;
pub mod timeout;

verus! {

/// The readiness reported by one poll: either a value or "not yet ready".
///
/// Suspension is a first-class return value; a poll never blocks.
pub enum Readiness<T> {
    Ready(T),
    Pending,
}

/// A single-resolution asynchronous computation bound to an actor.
///
/// The two spec functions are the computation's model: what one poll at a
/// given instant reports, and the state the computation is left in. A poll is
/// a deterministic function of the state, the actor and the instant; the
/// external driver chooses the instants at which polls happen.
pub trait ActorFuture: Sized {
    type Output;
    type Actor: Actor;

    /// Model: the readiness reported when polled at instant `now` with the
    /// actor in state `act`.
    spec fn polled(self, act: Self::Actor, now: u64) -> Readiness<Self::Output>;

    /// Model: the state the computation is left in by that poll.
    spec fn advanced(self, act: Self::Actor, now: u64) -> Self;

    /// Advances the computation by one tick and reports its readiness.
    fn poll(
        &mut self,
        act: &mut Self::Actor,
        ctx: &mut <Self::Actor as Actor>::Context,
        sched: &Sched,
    ) -> (r: Readiness<Self::Output>)
        ensures
            r == old(self).polled(*old(act), sched.now),
            *final(self) == old(self).advanced(*old(act), sched.now),
    ;
}

/// A multi-element asynchronous computation bound to an actor.
///
/// One poll reports `Ready(Some(item))` for the next item, `Ready(None)` once
/// the stream has ended, or `Pending` while no item is available yet.
pub trait ActorStream: Sized {
    type Item;
    type Actor: Actor;

    /// Model: the readiness reported when polled at instant `now` with the
    /// actor in state `act`.
    spec fn polled_next(self, act: Self::Actor, now: u64) -> Readiness<Option<Self::Item>>;

    /// Model: the state the stream is left in by that poll.
    spec fn advanced(self, act: Self::Actor, now: u64) -> Self;

    /// Advances the stream by one tick and reports its readiness.
    fn poll_next(
        &mut self,
        act: &mut Self::Actor,
        ctx: &mut <Self::Actor as Actor>::Context,
        sched: &Sched,
    ) -> (r: Readiness<Option<Self::Item>>)
        ensures
            r == old(self).polled_next(*old(act), sched.now),
            *final(self) == old(self).advanced(*old(act), sched.now),
    ;
}

} // verus!
