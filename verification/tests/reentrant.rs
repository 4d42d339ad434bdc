use nx::identity::ThreadIdentity;
use nx::mutex::{LockOutcome, ReentrantMutex};

fn thread(tag: u32) -> ThreadIdentity {
    ThreadIdentity::new(tag).unwrap()
}

fn ready_lock() -> ReentrantMutex {
    let mut m = ReentrantMutex::uninitialized();
    m.init();
    m
}

#[test]
fn uninitialized_reentrant_lock_needs_init() {
    let mut m = ReentrantMutex::uninitialized();
    assert!(!m.is_ready());
    assert_eq!(m.owner(), None);
    assert_eq!(m.depth(), 0);
    m.init();
    assert!(m.is_ready());
    assert_eq!(m.owner(), None);
    assert_eq!(m.depth(), 0);
}

#[test]
fn first_lock_sets_owner_and_depth_one() {
    let mut m = ready_lock();
    assert_eq!(m.lock(thread(4)), LockOutcome::Acquired);
    assert_eq!(m.owner(), Some(thread(4)));
    assert_eq!(m.depth(), 1);
}

#[test]
fn n_locks_then_n_unlocks_leave_the_lock_free() {
    let me = thread(1);
    let other = thread(2);
    let mut m = ready_lock();
    let n = 4;
    for k in 1..=n {
        assert_eq!(m.lock(me), LockOutcome::Acquired);
        assert_eq!(m.depth(), k);
        assert_eq!(m.owner(), Some(me));
    }
    for k in (0..n).rev() {
        // depth is still positive here: the other thread is kept out
        assert!(!m.try_lock(other));
        assert_eq!(m.owner(), Some(me));
        assert_eq!(m.unlock(me), None);
        assert_eq!(m.depth(), k);
    }
    assert_eq!(m.owner(), None);
    assert_eq!(m.depth(), 0);
    assert!(m.try_lock(other));
    assert_eq!(m.owner(), Some(other));
    assert_eq!(m.depth(), 1);
}

#[test]
fn try_lock_reenters_for_the_owner() {
    let me = thread(1);
    let mut m = ready_lock();
    assert!(m.try_lock(me));
    assert!(m.try_lock(me));
    assert_eq!(m.depth(), 2);
    m.unlock(me);
    assert_eq!(m.owner(), Some(me));
    m.unlock(me);
    assert_eq!(m.owner(), None);
}

#[test]
fn lock_by_another_thread_parks_it_until_depth_is_zero() {
    let me = thread(1);
    let other = thread(2);
    let mut m = ready_lock();
    m.lock(me);
    m.lock(me);
    assert_eq!(m.lock(other), LockOutcome::Parked);
    assert!(m.is_parked(other));
    assert_eq!(m.depth(), 2);
    // the first unlock keeps the lock and wakes nobody
    assert_eq!(m.unlock(me), None);
    assert!(m.is_parked(other));
    // the last unlock releases and wakes the parked thread
    assert_eq!(m.unlock(me), Some(other));
    assert!(!m.is_parked(other));
    assert_eq!(m.owner(), None);
    assert_eq!(m.lock(other), LockOutcome::Acquired);
    assert_eq!(m.owner(), Some(other));
    assert_eq!(m.depth(), 1);
}

#[test]
fn destroy_returns_an_idle_reentrant_lock_to_its_first_state() {
    let mut m = ready_lock();
    m.lock(thread(1));
    m.unlock(thread(1));
    m.destroy();
    assert!(!m.is_ready());
    m.init();
    assert!(m.is_ready());
}
