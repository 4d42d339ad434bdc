use nx::condvar::{Condvar, Wake, SIGNAL_ALL, SIGNAL_ONE, WAIT_FOREVER, WaitKey};
use nx::identity::ThreadIdentity;
use nx::mutex::{LockOutcome, Mutex};
use nx::time::Duration;

fn thread(tag: u32) -> ThreadIdentity {
    ThreadIdentity::new(tag).unwrap()
}

fn ready_mutex() -> Mutex {
    let mut m = Mutex::new();
    m.init();
    m
}

#[test]
fn signal_counts_are_one_and_minus_one() {
    assert_eq!(SIGNAL_ONE, 1);
    assert_eq!(SIGNAL_ALL, -1);
    assert_eq!(WAIT_FOREVER, u64::MAX);
}

#[test]
fn new_condvar_has_a_zero_key_and_no_waiters() {
    let mut cv = Condvar::new();
    assert_eq!(cv.key().raw(), 0);
    assert_eq!(cv.key(), WaitKey::zero());
    assert_eq!(cv.parked(), 0);
    cv.init();
    assert_eq!(cv.key().raw(), 0);
    assert_eq!(cv.parked(), 0);
}

#[test]
fn notify_on_an_empty_condvar_does_nothing() {
    let mut cv = Condvar::new();
    assert_eq!(cv.notify_one(), None);
    assert_eq!(cv.notify_all(), Vec::<ThreadIdentity>::new());
    assert_eq!(cv.parked(), 0);
}

#[test]
fn timeout_is_truncated_to_whole_milliseconds() {
    assert_eq!(Condvar::timeout_millis(Duration::from_millis(50)), 50);
    assert_eq!(Condvar::timeout_millis(Duration::new(0, 999_999)), 0);
    assert_eq!(Condvar::timeout_millis(Duration::new(0, 1_000_000)), 1);
    assert_eq!(Condvar::timeout_millis(Duration::new(2, 345_678_901)), 2345);
    assert_eq!(Condvar::timeout_millis(Duration::new(0, 0)), 0);
    assert_eq!(Condvar::timeout_millis(Duration::from_millis(u64::MAX)), u64::MAX);
}

#[test]
fn wait_releases_the_lock_and_parks_the_caller() {
    let me = thread(1);
    let mut m = ready_mutex();
    let mut cv = Condvar::new();
    m.lock(me);
    let req = cv.wait(&mut m, me);
    assert_eq!(req.millis, u64::MAX);
    assert_eq!(req.key.raw(), 0);
    assert_eq!(req.lock.owner(), Some(me));
    assert_eq!(req.woken, None);
    assert!(!m.is_locked());
    assert!(cv.is_parked(me));
    assert_eq!(cv.parked(), 1);
}

#[test]
fn wait_wakes_the_thread_parked_on_the_lock() {
    let me = thread(1);
    let other = thread(2);
    let mut m = ready_mutex();
    let mut cv = Condvar::new();
    m.lock(me);
    assert_eq!(m.lock(other), LockOutcome::Parked);
    let req = cv.wait_timeout(&mut m, me, Duration::from_millis(10));
    assert_eq!(req.woken, Some(other));
    assert_eq!(req.millis, 10);
    assert!(!m.is_parked(other));
    assert!(!m.is_locked());
}

#[test]
fn notified_waiter_takes_the_lock_again_before_wait_returns() {
    let waiter = thread(1);
    let notifier = thread(2);
    let mut m = ready_mutex();
    let mut cv = Condvar::new();
    let mut counter = 0u32;

    // the waiter holds the lock, sees nothing to do, and waits
    assert_eq!(m.lock(waiter), LockOutcome::Acquired);
    assert_eq!(counter, 0);
    cv.wait(&mut m, waiter);

    // the notifier takes the lock, changes the counter, and notifies
    assert_eq!(m.lock(notifier), LockOutcome::Acquired);
    counter += 1;
    assert_eq!(cv.notify_one(), Some(waiter));
    assert!(!cv.is_parked(waiter));

    // the lock is still held: the wait has not returned
    assert_eq!(Condvar::reacquire(&mut m, waiter, Wake::Notified), None);
    assert_eq!(m.holder(), Some(notifier));
    assert!(m.is_parked(waiter));

    // the release wakes the waiter, which now takes the lock
    assert_eq!(m.unlock(notifier), Some(waiter));
    assert_eq!(Condvar::reacquire(&mut m, waiter, Wake::Notified), Some(true));
    assert_eq!(m.holder(), Some(waiter));
    assert_eq!(counter, 1);
}

#[test]
fn notify_one_wakes_the_longest_waiter_only() {
    let mut m = ready_mutex();
    let mut cv = Condvar::new();
    for tag in 1..=3 {
        m.lock(thread(tag));
        cv.wait(&mut m, thread(tag));
    }
    assert_eq!(cv.parked(), 3);
    assert_eq!(cv.notify_one(), Some(thread(1)));
    assert_eq!(cv.parked(), 2);
    assert!(cv.is_parked(thread(2)));
    assert!(cv.is_parked(thread(3)));
    assert_eq!(cv.notify_one(), Some(thread(2)));
    assert_eq!(cv.notify_one(), Some(thread(3)));
    assert_eq!(cv.notify_one(), None);
}

#[test]
fn notify_all_wakes_every_waiter_in_order() {
    let mut m = ready_mutex();
    let mut cv = Condvar::new();
    for tag in [5u32, 3, 9] {
        m.lock(thread(tag));
        cv.wait(&mut m, thread(tag));
    }
    assert_eq!(cv.notify_all(), vec![thread(5), thread(3), thread(9)]);
    assert_eq!(cv.parked(), 0);
    // a thread that parks after the notification is not woken by it
    m.lock(thread(4));
    cv.wait(&mut m, thread(4));
    assert!(cv.is_parked(thread(4)));
}

#[test]
fn wait_timeout_of_fifty_milliseconds_without_notifier() {
    let me = thread(1);
    let mut m = ready_mutex();
    let mut cv = Condvar::new();
    m.lock(me);
    let req = cv.wait_timeout(&mut m, me, Duration::from_millis(50));
    assert_eq!(req.millis, 50);
    assert!(cv.is_parked(me));
    // nobody notifies; the timeout runs out
    assert!(cv.expire(me));
    assert!(!cv.is_parked(me));
    assert_eq!(Condvar::reacquire(&mut m, me, Wake::TimedOut), Some(false));
    assert_eq!(m.holder(), Some(me));
}

#[test]
fn a_timeout_after_the_notification_changes_nothing() {
    let me = thread(1);
    let other = thread(2);
    let mut m = ready_mutex();
    let mut cv = Condvar::new();
    m.lock(other);
    cv.wait(&mut m, other);
    m.lock(me);
    cv.wait_timeout(&mut m, me, Duration::from_millis(5));
    assert_eq!(cv.notify_all(), vec![other, me]);
    assert!(!cv.expire(me));
    assert_eq!(cv.parked(), 0);
}

#[test]
fn expire_takes_only_the_named_thread_off_the_key() {
    let mut m = ready_mutex();
    let mut cv = Condvar::new();
    for tag in 1..=3 {
        m.lock(thread(tag));
        cv.wait_timeout(&mut m, thread(tag), Duration::from_millis(1));
    }
    assert!(cv.expire(thread(2)));
    assert_eq!(cv.notify_all(), vec![thread(1), thread(3)]);
}

#[test]
fn destroy_leaves_the_condvar_as_it_is() {
    let mut m = ready_mutex();
    let mut cv = Condvar::new();
    m.lock(thread(1));
    cv.wait(&mut m, thread(1));
    cv.destroy();
    assert!(cv.is_parked(thread(1)));
    assert_eq!(cv.key().raw(), 0);
}

#[test]
fn checked_timeout_is_none_when_the_milliseconds_do_not_fit() {
    assert_eq!(Condvar::checked_timeout_millis(Duration::from_millis(50)), Some(50));
    assert_eq!(Condvar::checked_timeout_millis(Duration::from_millis(u64::MAX)), Some(u64::MAX));
    let limit = u64::MAX / 1000;
    assert_eq!(
        Condvar::checked_timeout_millis(Duration::new(limit, 615_999_999)),
        Some(u64::MAX)
    );
    assert_eq!(Condvar::checked_timeout_millis(Duration::new(limit, 616_000_000)), None);
    assert_eq!(Condvar::checked_timeout_millis(Duration::new(limit + 1, 0)), None);
    assert_eq!(Condvar::checked_timeout_millis(Duration::new(u64::MAX, 0)), None);
}

#[test]
fn wait_returns_true_after_notify_and_false_after_timeout() {
    assert!(Wake::Notified.as_result());
    assert!(!Wake::TimedOut.as_result());
    assert_eq!(Wake::from_native(0), Wake::Notified);
    assert_eq!(Wake::from_native(0xea01), Wake::TimedOut);
    assert_eq!(Wake::from_native(1), Wake::TimedOut);
}
