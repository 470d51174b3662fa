use vstd::prelude::*;
use crate::actor::{Actor, SimpleActor};
use crate::clock::Sched;
use crate::fut::{ActorFuture, ActorStream, Readiness};

verus! {

/// An actor future that resolves with `value` at every poll from instant
/// `at` on, and is pending before that.
///
/// With `at == 0` it is ready on the very first tick, whenever that happens.
pub struct CompleteAt {
    pub at: u64,
    pub value: u64,
}

impl ActorFuture for CompleteAt {
    type Output = u64;

    type Actor = SimpleActor;

    open spec fn polled(self, act: SimpleActor, now: u64) -> Readiness<u64> {
        if now >= self.at {
            Readiness::Ready(self.value)
        } else {
            Readiness::Pending
        }
    }

    open spec fn advanced(self, act: SimpleActor, now: u64) -> Self {
        self
    }

    fn poll(
        &mut self,
        act: &mut SimpleActor,
        ctx: &mut <SimpleActor as Actor>::Context,
        sched: &Sched,
    ) -> (r: Readiness<u64>) {
        if sched.now >= self.at {
            Readiness::Ready(self.value)
        } else {
            Readiness::Pending
        }
    }
}

/// An actor stream that follows a script: entry `i` is `(t, v)`, meaning the
/// stream's `i`-th item is `v`, available from instant `t` on. Once every
/// entry has been produced the stream has ended, for good.
pub struct ScriptedStream {
    pub script: Vec<(u64, u64)>,
    pub next: usize,
}

/// A scripted stream that will produce every entry of `script` in order.
pub fn scripted(script: Vec<(u64, u64)>) -> (r: ScriptedStream)
    ensures
        r.script == script,
        r.next == 0,
{
    ScriptedStream { script, next: 0 }
}

impl ActorStream for ScriptedStream {
    type Item = u64;

    type Actor = SimpleActor;

    open spec fn polled_next(self, act: SimpleActor, now: u64) -> Readiness<Option<u64>> {
        if self.next >= self.script@.len() {
            Readiness::Ready(Option::None)
        } else if now >= self.script@[self.next as int].0 {
            Readiness::Ready(Option::Some(self.script@[self.next as int].1))
        } else {
            Readiness::Pending
        }
    }

    open spec fn advanced(self, act: SimpleActor, now: u64) -> Self {
        if self.next < self.script@.len() && now >= self.script@[self.next as int].0 {
            ScriptedStream { script: self.script, next: (self.next + 1) as usize }
        } else {
            self
        }
    }

    fn poll_next(
        &mut self,
        act: &mut SimpleActor,
        ctx: &mut <SimpleActor as Actor>::Context,
        sched: &Sched,
    ) -> (r: Readiness<Option<u64>>) {
        if self.next >= self.script.len() {
            return Readiness::Ready(Option::None);
        }
        let (t, v) = self.script[self.next];
        if sched.now >= t {
            self.next = self.next + 1;
            Readiness::Ready(Option::Some(v))
        } else {
            Readiness::Pending
        }
    }
}

} // verus!
