use actor_timeout::waiter::Waiter;

#[test]
fn broadcast_reaches_every_observer() {
    let mut w: Waiter<u64> = Waiter::new();
    let mut rx1 = w.wait();
    let mut rx2 = w.wait();
    let mut rx3 = w.wait();

    w.set(7);

    assert!(matches!(rx1.try_recv(), Ok(Some(7))));
    assert!(matches!(rx2.try_recv(), Ok(Some(7))));
    assert!(matches!(rx3.try_recv(), Ok(Some(7))));
}

#[test]
fn broadcast_delivers_independent_duplicates() {
    let mut w: Waiter<Vec<u64>> = Waiter::new();
    let mut rx1 = w.wait();
    let mut rx2 = w.wait();

    w.set(vec![1, 2, 3]);

    let mut a = rx1.try_recv().unwrap().unwrap();
    let b = rx2.try_recv().unwrap().unwrap();
    a.push(4);
    assert_eq!(a, vec![1, 2, 3, 4]);
    assert_eq!(b, vec![1, 2, 3]);
}

#[test]
fn gone_observer_is_skipped_silently() {
    let mut w: Waiter<u64> = Waiter::new();
    let mut rx1 = w.wait();
    let rx2 = w.wait();
    let mut rx3 = w.wait();
    drop(rx2);

    w.set(9);

    assert!(matches!(rx1.try_recv(), Ok(Some(9))));
    assert!(matches!(rx3.try_recv(), Ok(Some(9))));
}

#[test]
fn unset_registry_leaves_observers_pending() {
    let mut w: Waiter<u64> = Waiter::new();
    let mut rx = w.wait();

    // No broadcast has happened: the observer is not resolved, and sees no
    // spurious error either, as long as the registry is alive.
    assert!(matches!(rx.try_recv(), Ok(None)));
    assert!(matches!(rx.try_recv(), Ok(None)));

    drop(w);
}

#[test]
fn broadcast_to_empty_registry_is_fine() {
    let w: Waiter<u64> = Waiter::new();
    w.set(1);
}
