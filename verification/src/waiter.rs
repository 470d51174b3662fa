use vstd::prelude::*;
use futures::channel::oneshot;

verus! {

/// The producer side of futures' one-shot channel, held opaquely.
#[verifier::external_type_specification]
#[verifier::external_body]
#[verifier::reject_recursive_types(T)]
pub struct ExSender<T>(oneshot::Sender<T>);

/// The consumer side of futures' one-shot channel, held opaquely; it is
/// handed to callers, who drive it with the futures crate itself.
#[verifier::external_type_specification]
#[verifier::external_body]
#[verifier::reject_recursive_types(T)]
pub struct ExReceiver<T>(oneshot::Receiver<T>);

/// The error a receiver reports once its producer is gone.
#[verifier::external_type_specification]
#[verifier::external_body]
pub struct ExCanceled(oneshot::Canceled);

/// Relies on futures::channel::oneshot::channel: creates a fresh linked
/// producer/consumer pair over which at most one value can travel.
#[verifier::external_body]
fn oneshot_pair<T>() -> (oneshot::Sender<T>, oneshot::Receiver<T>) {
    oneshot::channel()
}

/// Relies on futures::channel::oneshot::Sender::send: delivers the value to
/// the linked receiver, unless the receiver is already gone, in which case
/// the very value handed in comes back in `Err`.
#[verifier::external_body]
fn oneshot_send<T>(tx: oneshot::Sender<T>, value: T) -> (r: Result<(), T>)
    ensures
        r matches Err(v) ==> v == value,
{
    tx.send(value)
}

/// A registry of pending one-shot observers.
///
/// Each call to [`Waiter::wait`] registers one observer and hands its
/// consumer side back; [`Waiter::set`] consumes the registry and broadcasts
/// one duplicate of a single value to every observer registered so far. A
/// second broadcast is impossible by construction, and observers registered
/// after the broadcast never can be: the registry no longer exists.
#[verifier::reject_recursive_types(T)]
pub struct Waiter<T: Clone> {
    waiters: Vec<oneshot::Sender<T>>,
}

impl<T: Clone> Waiter<T> {
    /// How many observers are currently registered.
    pub closed spec fn pending(&self) -> nat {
        self.waiters@.len()
    }

    /// Creates an empty registry.
    pub fn new() -> (r: Waiter<T>)
        ensures
            r.pending() == 0,
    {
        Waiter { waiters: Vec::new() }
    }

    /// Registers one more observer and returns the consumer side on which
    /// the broadcast value, once set, can be received. Always succeeds.
    pub fn wait(&mut self) -> (rx: oneshot::Receiver<T>)
        ensures
            final(self).pending() == old(self).pending() + 1,
    {
        let (tx, rx) = oneshot_pair();
        self.waiters.push(tx);
        rx
    }

    /// Broadcasts one duplicate of `result` to every registered observer, in
    /// registration order, consuming the registry. An observer whose
    /// consumer side is already gone is skipped silently: nobody is waiting
    /// there anymore.
    pub fn set(self, result: T) {
        let mut waiters = self.waiters;
        while waiters.len() > 0
            decreases waiters@.len(),
        {
            let tx = waiters.remove(0);
            let _ = oneshot_send(tx, result.clone());
        }
    }
}

} // verus!
