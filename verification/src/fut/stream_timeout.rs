use vstd::prelude::*;
use crate::actor::Actor;
use crate::clock::{delay_for, deadline_of, Delay, Sched};
use crate::fut::{ActorStream, Readiness};

verus! {

/// Stream for the timeout combinator: reports a timeout error for every
/// silent period that exceeds the configured duration, without ever ending
/// the stream itself.
///
/// The inner stream is checked before the deadline on every poll: an item
/// produced in the same tick the deadline fires still wins — the opposite
/// tie-break from [`crate::fut::timeout::Timeout`], because the check order
/// is reversed. The deadline timer exists only while waiting for the next
/// item: it is created lazily once the inner stream reports "not yet ready",
/// and cleared whenever an item is produced or a timeout is reported.
pub struct StreamTimeout<S: ActorStream> {
    pub stream: S,
    pub dur: u64,
    pub timeout: Option<Delay>,
}

/// Wraps `stream` so that every silent period longer than `timeout`
/// milliseconds is reported as a timeout error.
pub fn new<S: ActorStream>(stream: S, timeout: u64) -> (r: StreamTimeout<S>)
    ensures
        r.stream == stream,
        r.dur == timeout,
        r.timeout is None,
{
    StreamTimeout { stream, dur: timeout, timeout: None }
}

impl<S: ActorStream> StreamTimeout<S> {
    /// The timer that guards the current silent period: the pending one if a
    /// previous poll created it, otherwise the one a poll at instant `now`
    /// would create.
    pub open spec fn guard(self, now: u64) -> Delay {
        match self.timeout {
            Option::Some(d) => d,
            Option::None => Delay { deadline: deadline_of(now, self.dur) },
        }
    }
}

impl<S: ActorStream> ActorStream for StreamTimeout<S> {
    type Item = Result<S::Item, ()>;

    type Actor = S::Actor;

    /// The inner stream is checked first: an item is passed through as
    /// success and the end of the inner stream ends the combinator. Only
    /// while the inner stream is silent does the deadline matter: a fired
    /// guard timer yields a timeout error as the next element, an unfired
    /// one leaves the poll pending.
    open spec fn polled_next(self, act: S::Actor, now: u64) -> Readiness<
        Option<Result<S::Item, ()>>,
    > {
        match self.stream.polled_next(act, now) {
            Readiness::Ready(Option::Some(v)) => Readiness::Ready(
                Option::Some(Result::Ok(v)),
            ),
            Readiness::Ready(Option::None) => Readiness::Ready(Option::None),
            Readiness::Pending => if self.guard(now).fired(now) {
                Readiness::Ready(Option::Some(Result::Err(())))
            } else {
                Readiness::Pending
            },
        }
    }

    /// The inner stream advances by one tick on every poll. The guard timer
    /// is cleared when an item is produced and when a timeout is reported —
    /// the next silent period starts a fresh one — and is kept, freshly
    /// created if need be, while the poll stays pending.
    open spec fn advanced(self, act: S::Actor, now: u64) -> Self {
        let stream = self.stream.advanced(act, now);
        match self.stream.polled_next(act, now) {
            Readiness::Ready(Option::Some(v)) => StreamTimeout {
                stream,
                dur: self.dur,
                timeout: Option::None,
            },
            Readiness::Ready(Option::None) => StreamTimeout {
                stream,
                dur: self.dur,
                timeout: self.timeout,
            },
            Readiness::Pending => if self.guard(now).fired(now) {
                StreamTimeout { stream, dur: self.dur, timeout: Option::None }
            } else {
                StreamTimeout { stream, dur: self.dur, timeout: Option::Some(self.guard(now)) }
            },
        }
    }

    fn poll_next(
        &mut self,
        act: &mut S::Actor,
        ctx: &mut <S::Actor as Actor>::Context,
        sched: &Sched,
    ) -> (r: Readiness<Option<Result<S::Item, ()>>>) {
        match self.stream.poll_next(act, ctx, sched) {
            Readiness::Ready(Option::Some(v)) => {
                self.timeout = Option::None;
                return Readiness::Ready(Option::Some(Result::Ok(v)));
            },
            Readiness::Ready(Option::None) => {
                return Readiness::Ready(Option::None);
            },
            Readiness::Pending => {},
        }

        if self.timeout.is_none() {
            self.timeout = Option::Some(delay_for(self.dur, sched.now));
        }

        let fired = match &self.timeout {
            Option::Some(d) => d.poll(sched),
            Option::None => false,
        };
        if !fired {
            return Readiness::Pending;
        }
        self.timeout = Option::None;

        Readiness::Ready(Option::Some(Result::Err(())))
    }
}

/// An actor stream that has ended for good: every poll, at every instant and
/// with every actor, reports end of stream and leaves the state unchanged.
pub open spec fn settled_end<S: ActorStream>(s: S) -> bool {
    forall|act: S::Actor, now: u64|
        #![trigger s.polled_next(act, now)]
        #![trigger s.advanced(act, now)]
        s.polled_next(act, now) == Readiness::<Option<S::Item>>::Ready(Option::<S::Item>::None)
            && s.advanced(act, now) == s
}

/// Law: the end of the inner stream is propagated faithfully. Once the inner
/// stream has settled into its end, the combinator reports end of stream on
/// every poll — never another success or timeout element — and is itself
/// settled: no later poll of this instance can produce anything again.
pub proof fn lemma_end_propagates<S: ActorStream>(st: StreamTimeout<S>, act: S::Actor, now: u64)
    requires
        settled_end(st.stream),
    ensures
        st.polled_next(act, now) == Readiness::<Option<Result<S::Item, ()>>>::Ready(
            Option::<Result<S::Item, ()>>::None,
        ),
        st.advanced(act, now) == st,
        settled_end(st),
{
    assert forall|a: S::Actor, n: u64|
        st.polled_next(a, n) == Readiness::<Option<Result<S::Item, ()>>>::Ready(
            Option::<Result<S::Item, ()>>::None,
        ) && st.advanced(a, n) == st by {
        assert(st.stream.polled_next(a, n) == Readiness::<Option<S::Item>>::Ready(
            Option::<S::Item>::None,
        ));
        assert(st.stream.advanced(a, n) == st.stream);
    }
}

/// Law: an item from the inner stream wins over the deadline in the same
/// tick. It is reported as success, and the pending deadline timer — fired
/// or not — is discarded, so the next silent period starts a fresh one.
pub proof fn lemma_item_wins<S: ActorStream>(
    st: StreamTimeout<S>,
    act: S::Actor,
    now: u64,
    v: S::Item,
)
    requires
        st.stream.polled_next(act, now) == Readiness::<Option<S::Item>>::Ready(Option::Some(v)),
    ensures
        st.polled_next(act, now) == Readiness::<Option<Result<S::Item, ()>>>::Ready(
            Option::Some(Result::<S::Item, ()>::Ok(v)),
        ),
        st.advanced(act, now).timeout is None,
        st.advanced(act, now).dur == st.dur,
{
}

/// Law: a silent period whose guard timer has fired is reported as a timeout
/// error element, and does not end the stream: the combinator keeps its
/// duration, clears the timer, and the next poll guards a fresh silent
/// period.
pub proof fn lemma_silent_period_reported<S: ActorStream>(
    st: StreamTimeout<S>,
    act: S::Actor,
    now: u64,
)
    requires
        st.stream.polled_next(act, now) is Pending,
        st.guard(now).fired(now),
    ensures
        st.polled_next(act, now) == Readiness::<Option<Result<S::Item, ()>>>::Ready(
            Option::Some(Result::<S::Item, ()>::Err(())),
        ),
        st.advanced(act, now).timeout is None,
        st.advanced(act, now).dur == st.dur,
{
}

/// Law: while the inner stream is silent and the guard timer has not fired,
/// the poll stays pending and the guard timer of the current silent period
/// is kept unchanged for the next poll.
pub proof fn lemma_silent_period_waits<S: ActorStream>(
    st: StreamTimeout<S>,
    act: S::Actor,
    now: u64,
)
    requires
        st.stream.polled_next(act, now) is Pending,
        !st.guard(now).fired(now),
    ensures
        st.polled_next(act, now) is Pending,
        st.advanced(act, now).timeout == Option::Some(st.guard(now)),
        st.advanced(act, now).dur == st.dur,
        st.advanced(act, now).guard(now) == st.guard(now),
{
}

} // verus!
