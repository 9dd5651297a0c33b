use isolate_lock::isolate::Isolate;
use isolate_lock::locker::Locker;
use isolate_lock::unlocker::Unlocker;

#[test]
fn locked_immediately_after_acquisition() {
    let iso = Isolate::new();
    let locker = Locker::new(iso);
    assert!(Locker::is_locked(locker.isolate()));
}

#[test]
fn fresh_isolate_is_not_locked() {
    let iso = Isolate::new();
    assert!(!Locker::is_locked(&iso));
}

#[test]
fn nesting_releases_lock_only_at_outermost() {
    let iso = Isolate::new();
    let outer = Locker::new(iso);
    let middle = outer.nest();
    let inner = middle.nest();
    assert!(Locker::is_locked(inner.isolate()));

    let middle = inner.unnest();
    assert!(Locker::is_locked(middle.isolate()));
    let outer = middle.unnest();
    assert!(Locker::is_locked(outer.isolate()));

    let iso = outer.unlock();
    assert!(!Locker::is_locked(&iso));
}

#[test]
fn unlock_window_round_trip_restores_depth() {
    let iso = Isolate::new();
    let held = Locker::new(iso).nest().nest();
    let window = Unlocker::new(held);
    let resumed = window.relock();

    // The enclosing region stands at the depth it had: two inner releases
    // still leave the lock held, the third gives it up.
    let resumed = resumed.unnest();
    assert!(Locker::is_locked(resumed.isolate()));
    let resumed = resumed.unnest();
    assert!(Locker::is_locked(resumed.isolate()));
    let iso = resumed.unlock();
    assert!(!Locker::is_locked(&iso));
}

#[test]
fn mutation_survives_reacquisition() {
    let iso = Isolate::new();
    let mut locker = Locker::new(iso);
    assert_eq!(locker.isolate().get_data(), 0);
    locker.isolate_mut().set_data(42);
    let iso = locker.unlock();

    let locker = Locker::new(iso);
    assert_eq!(locker.isolate().get_data(), 42);
    let iso = locker.unlock();
    assert_eq!(iso.get_data(), 42);
}

#[test]
fn mutation_survives_unlock_window() {
    let iso = Isolate::new();
    let mut locker = Locker::new(iso);
    locker.isolate_mut().set_data(7);
    let window = Unlocker::new(locker);
    let locker = window.relock();
    assert_eq!(locker.isolate().get_data(), 7);
}

#[test]
fn lock_state_before_during_and_after() {
    let iso = Isolate::new();
    assert!(!Locker::is_locked(&iso));
    let locker = Locker::new(iso);
    assert!(Locker::is_locked(locker.isolate()));
    let iso = locker.unlock();
    assert!(!Locker::is_locked(&iso));
}

#[test]
fn window_inside_single_acquisition() {
    let iso = Isolate::new();
    let held = Locker::new(iso);
    let window = Unlocker::new(held);
    let resumed = window.relock();
    assert!(Locker::is_locked(resumed.isolate()));
    let iso = resumed.unlock();
    assert!(!Locker::is_locked(&iso));
}

#[test]
fn deep_nesting_counts_down_exactly() {
    let iso = Isolate::new();
    let mut locker = Locker::new(iso);
    for _ in 0..9 {
        locker = locker.nest();
    }
    for _ in 0..9 {
        locker = locker.unnest();
        assert!(Locker::is_locked(locker.isolate()));
    }
    let iso = locker.unlock();
    assert!(!Locker::is_locked(&iso));
}

#[test]
fn accessors_observe_the_same_isolate() {
    let mut iso = Isolate::new();
    iso.set_data(5);
    let mut locker = Locker::new(iso);
    assert_eq!(locker.isolate().get_data(), 5);
    let through_mut = locker.isolate_mut().get_data();
    assert_eq!(through_mut, 5);
}
