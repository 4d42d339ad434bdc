use nx::identity::ThreadIdentity;
use nx::mutex::{raw, LockOutcome, LockWord, Mutex};

fn thread(tag: u32) -> ThreadIdentity {
    ThreadIdentity::new(tag).unwrap()
}

fn ready_mutex() -> Mutex {
    let mut m = Mutex::new();
    m.init();
    m
}

#[test]
fn identity_zero_is_nobody() {
    assert!(ThreadIdentity::new(0).is_none());
    assert_eq!(ThreadIdentity::new(7).unwrap().tag(), 7);
    assert_eq!(ThreadIdentity::new(u32::MAX).unwrap().tag(), u32::MAX);
    assert_eq!(thread(3), thread(3));
    assert_ne!(thread(3), thread(4));
}

#[test]
fn lock_word_names_its_holder() {
    assert_eq!(LockWord::free().raw(), 0);
    assert_eq!(LockWord::free().owner(), None);
    assert_eq!(LockWord::held_by(thread(9)).raw(), 9);
    assert_eq!(LockWord::held_by(thread(9)).owner(), Some(thread(9)));
}

#[test]
fn new_mutex_is_not_ready_until_init() {
    let mut m = Mutex::new();
    assert!(!m.is_ready());
    assert!(!m.is_locked());
    m.init();
    assert!(m.is_ready());
    assert!(!m.is_locked());
    assert_eq!(m.parked(), 0);
    assert_eq!(raw(&m).raw(), 0);
}

#[test]
fn lock_takes_a_free_mutex() {
    let mut m = ready_mutex();
    assert_eq!(m.lock(thread(1)), LockOutcome::Acquired);
    assert!(m.is_locked());
    assert_eq!(m.holder(), Some(thread(1)));
    assert_eq!(raw(&m).raw(), 1);
    assert_eq!(raw(&m).owner(), Some(thread(1)));
}

#[test]
fn try_lock_fails_on_a_held_mutex_and_changes_nothing() {
    let mut m = ready_mutex();
    assert!(m.try_lock(thread(1)));
    assert!(!m.try_lock(thread(2)));
    assert!(!m.try_lock(thread(1)));
    assert_eq!(m.holder(), Some(thread(1)));
    assert_eq!(m.parked(), 0);
}

#[test]
fn lock_parks_behind_the_holder() {
    let mut m = ready_mutex();
    assert_eq!(m.lock(thread(1)), LockOutcome::Acquired);
    assert_eq!(m.lock(thread(2)), LockOutcome::Parked);
    assert_eq!(m.lock(thread(3)), LockOutcome::Parked);
    assert_eq!(m.holder(), Some(thread(1)));
    assert!(m.is_parked(thread(2)));
    assert!(m.is_parked(thread(3)));
    assert!(!m.is_parked(thread(1)));
    assert_eq!(m.parked(), 2);
}

#[test]
fn a_parked_thread_is_not_parked_twice() {
    let mut m = ready_mutex();
    m.lock(thread(1));
    assert_eq!(m.lock(thread(2)), LockOutcome::Parked);
    assert_eq!(m.lock(thread(2)), LockOutcome::Parked);
    assert_eq!(m.parked(), 1);
}

#[test]
fn unlock_frees_and_wakes_at_most_one() {
    let mut m = ready_mutex();
    m.lock(thread(1));
    m.lock(thread(2));
    m.lock(thread(3));
    assert_eq!(m.unlock(thread(1)), Some(thread(2)));
    assert!(!m.is_locked());
    assert_eq!(m.parked(), 1);
    assert!(m.is_parked(thread(3)));
    // the woken thread asks again and gets the lock
    assert_eq!(m.lock(thread(2)), LockOutcome::Acquired);
    assert_eq!(m.unlock(thread(2)), Some(thread(3)));
    assert_eq!(m.lock(thread(3)), LockOutcome::Acquired);
    assert_eq!(m.unlock(thread(3)), None);
    assert!(!m.is_locked());
    assert_eq!(m.parked(), 0);
}

#[test]
fn unlock_without_waiters_wakes_nobody() {
    let mut m = ready_mutex();
    m.lock(thread(5));
    assert_eq!(m.unlock(thread(5)), None);
    assert_eq!(m.holder(), None);
}

#[test]
fn locked_exactly_when_one_more_lock_than_unlock() {
    let me = thread(1);
    let mut m = ready_mutex();
    let mut locks = 0u32;
    let mut unlocks = 0u32;
    assert_eq!(m.is_locked(), locks == unlocks + 1);
    for _ in 0..5 {
        assert_eq!(m.lock(me), LockOutcome::Acquired);
        locks += 1;
        assert_eq!(m.is_locked(), locks == unlocks + 1);
        assert!(m.is_locked());
        m.unlock(me);
        unlocks += 1;
        assert_eq!(m.is_locked(), locks == unlocks + 1);
        assert!(!m.is_locked());
    }
    assert_eq!(locks, 5);
    assert_eq!(unlocks, 5);
}

#[test]
fn a_second_lock_by_the_holder_does_not_complete() {
    let me = thread(1);
    let mut m = ready_mutex();
    assert_eq!(m.lock(me), LockOutcome::Acquired);
    assert_eq!(m.lock(me), LockOutcome::Parked);
    assert_eq!(m.holder(), Some(me));
}

#[test]
fn destroy_returns_an_idle_mutex_to_its_first_state() {
    let mut m = ready_mutex();
    m.lock(thread(1));
    m.unlock(thread(1));
    m.destroy();
    assert!(!m.is_ready());
    m.init();
    assert!(m.is_ready());
    assert!(m.try_lock(thread(2)));
}
