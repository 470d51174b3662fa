use actor_timeout::actor::{SimpleActor, SimpleContext};
use actor_timeout::clock::Sched;
use actor_timeout::fut::scripted::scripted;
use actor_timeout::fut::stream_timeout;
use actor_timeout::fut::{ActorStream, Readiness};

#[test]
fn items_and_silent_periods_interleave() {
    // Items at 2, 15 and 40 ms with a 10 ms timeout: the deadline timer
    // restarts after every produced item and after every reported timeout,
    // so the driver sees Ok(1)@2, Err@12, Ok(2)@15, Err@25, Err@35, Ok(3)@40
    // and then the end of the stream.
    let mut act = SimpleActor {};
    let mut ctx = SimpleContext {};
    let inner = scripted(vec![(2, 1), (15, 2), (40, 3)]);
    let mut st = stream_timeout::new(inner, 10);

    let r = st.poll_next(&mut act, &mut ctx, &Sched { now: 0 });
    assert!(matches!(r, Readiness::Pending));

    let r = st.poll_next(&mut act, &mut ctx, &Sched { now: 2 });
    assert!(matches!(r, Readiness::Ready(Some(Ok(1)))));

    // The consumer polls again right away; the fresh silent period's timer
    // now runs out 10 ms after the first item.
    let r = st.poll_next(&mut act, &mut ctx, &Sched { now: 2 });
    assert!(matches!(r, Readiness::Pending));

    let r = st.poll_next(&mut act, &mut ctx, &Sched { now: 11 });
    assert!(matches!(r, Readiness::Pending));

    let r = st.poll_next(&mut act, &mut ctx, &Sched { now: 12 });
    assert!(matches!(r, Readiness::Ready(Some(Err(())))));

    let r = st.poll_next(&mut act, &mut ctx, &Sched { now: 12 });
    assert!(matches!(r, Readiness::Pending));

    let r = st.poll_next(&mut act, &mut ctx, &Sched { now: 15 });
    assert!(matches!(r, Readiness::Ready(Some(Ok(2)))));

    let r = st.poll_next(&mut act, &mut ctx, &Sched { now: 15 });
    assert!(matches!(r, Readiness::Pending));

    let r = st.poll_next(&mut act, &mut ctx, &Sched { now: 25 });
    assert!(matches!(r, Readiness::Ready(Some(Err(())))));

    let r = st.poll_next(&mut act, &mut ctx, &Sched { now: 25 });
    assert!(matches!(r, Readiness::Pending));

    let r = st.poll_next(&mut act, &mut ctx, &Sched { now: 35 });
    assert!(matches!(r, Readiness::Ready(Some(Err(())))));

    let r = st.poll_next(&mut act, &mut ctx, &Sched { now: 35 });
    assert!(matches!(r, Readiness::Pending));

    let r = st.poll_next(&mut act, &mut ctx, &Sched { now: 40 });
    assert!(matches!(r, Readiness::Ready(Some(Ok(3)))));

    let r = st.poll_next(&mut act, &mut ctx, &Sched { now: 40 });
    assert!(matches!(r, Readiness::Ready(None)));
}

#[test]
fn timeout_does_not_end_the_stream() {
    let mut act = SimpleActor {};
    let mut ctx = SimpleContext {};
    let inner = scripted(vec![(100, 5)]);
    let mut st = stream_timeout::new(inner, 10);

    // Three whole silent periods pass before the item arrives; each timeout
    // report clears the timer, and the next poll starts a fresh period.
    let r = st.poll_next(&mut act, &mut ctx, &Sched { now: 0 });
    assert!(matches!(r, Readiness::Pending));
    let r = st.poll_next(&mut act, &mut ctx, &Sched { now: 10 });
    assert!(matches!(r, Readiness::Ready(Some(Err(())))));
    let r = st.poll_next(&mut act, &mut ctx, &Sched { now: 10 });
    assert!(matches!(r, Readiness::Pending));
    let r = st.poll_next(&mut act, &mut ctx, &Sched { now: 20 });
    assert!(matches!(r, Readiness::Ready(Some(Err(())))));
    let r = st.poll_next(&mut act, &mut ctx, &Sched { now: 20 });
    assert!(matches!(r, Readiness::Pending));
    let r = st.poll_next(&mut act, &mut ctx, &Sched { now: 30 });
    assert!(matches!(r, Readiness::Ready(Some(Err(())))));

    let r = st.poll_next(&mut act, &mut ctx, &Sched { now: 100 });
    assert!(matches!(r, Readiness::Ready(Some(Ok(5)))));
}

#[test]
fn end_of_inner_stream_is_final() {
    let mut act = SimpleActor {};
    let mut ctx = SimpleContext {};
    let inner = scripted(vec![(1, 9)]);
    let mut st = stream_timeout::new(inner, 10);

    let r = st.poll_next(&mut act, &mut ctx, &Sched { now: 1 });
    assert!(matches!(r, Readiness::Ready(Some(Ok(9)))));

    let r = st.poll_next(&mut act, &mut ctx, &Sched { now: 1 });
    assert!(matches!(r, Readiness::Ready(None)));

    // Long after the end, no further element — not even a timeout — appears.
    let r = st.poll_next(&mut act, &mut ctx, &Sched { now: 1_000 });
    assert!(matches!(r, Readiness::Ready(None)));
    let r = st.poll_next(&mut act, &mut ctx, &Sched { now: 1_000_000 });
    assert!(matches!(r, Readiness::Ready(None)));
}

#[test]
fn empty_stream_ends_immediately() {
    let mut act = SimpleActor {};
    let mut ctx = SimpleContext {};
    let inner = scripted(vec![]);
    let mut st = stream_timeout::new(inner, 10);

    let r = st.poll_next(&mut act, &mut ctx, &Sched { now: 0 });
    assert!(matches!(r, Readiness::Ready(None)));
}
