use vstd::prelude::*;

verus! {

/// The owning execution context of an actor-bound computation.
///
/// Every actor future and actor stream is polled on behalf of one actor; the
/// actor also names the context type that is threaded through each poll.
pub trait Actor: Sized {
    type Context;
}

/// A minimal actor with no state, for computations that ignore their owner.
pub struct SimpleActor {}

/// The execution context of [`SimpleActor`]: carries nothing.
pub struct SimpleContext {}

impl Actor for SimpleActor {
    type Context = SimpleContext;
}

} // verus!
