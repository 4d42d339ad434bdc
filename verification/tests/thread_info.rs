use nx::identity::ThreadIdentity;
use nx::thread_info::{current_thread, stack_guard, IdentitySource, ThreadInfo, ThreadSlot};

#[test]
fn current_thread_is_the_same_on_every_call() {
    let mut ids = IdentitySource::new();
    let mut slot = ThreadSlot::new();
    let first = current_thread(&mut slot, &mut ids);
    let second = current_thread(&mut slot, &mut ids);
    assert!(first.is_some());
    assert_eq!(first, second);
    assert_eq!(ids.issued(), 1);
}

#[test]
fn two_threads_have_different_identities() {
    let mut ids = IdentitySource::new();
    let mut a = ThreadSlot::new();
    let mut b = ThreadSlot::new();
    let ia = current_thread(&mut a, &mut ids).unwrap();
    let ib = current_thread(&mut b, &mut ids).unwrap();
    assert_ne!(ia, ib);
    assert_eq!(ia.tag(), 1);
    assert_eq!(ib.tag(), 2);
    assert_eq!(current_thread(&mut a, &mut ids), Some(ia));
    assert_eq!(current_thread(&mut b, &mut ids), Some(ib));
    assert_eq!(ids.issued(), 2);
}

#[test]
fn first_query_makes_the_record() {
    let mut ids = IdentitySource::new();
    let mut slot = ThreadSlot::new();
    assert_eq!(slot, ThreadSlot::Vacant);
    let id = current_thread(&mut slot, &mut ids).unwrap();
    assert_eq!(slot, ThreadSlot::Occupied(ThreadInfo { stack_guard: None, thread: id }));
}

#[test]
fn stack_guard_is_none_when_not_recorded() {
    let mut ids = IdentitySource::new();
    let mut slot = ThreadSlot::new();
    assert_eq!(stack_guard(&mut slot, &mut ids), None);
    // the query made the record
    assert!(matches!(slot, ThreadSlot::Occupied(_)));
    assert_eq!(ids.issued(), 1);
}

#[test]
fn set_installs_the_record() {
    let mut ids = IdentitySource::new();
    let mut slot = ThreadSlot::new();
    let me = ThreadIdentity::new(40).unwrap();
    nx::thread_info::set(&mut slot, Some(0x1000), me);
    assert_eq!(current_thread(&mut slot, &mut ids), Some(me));
    assert_eq!(stack_guard(&mut slot, &mut ids), Some(0x1000));
    assert_eq!(ids.issued(), 0);
}

#[test]
fn set_without_guard_records_none() {
    let mut ids = IdentitySource::new();
    let mut slot = ThreadSlot::new();
    nx::thread_info::set(&mut slot, None, ThreadIdentity::new(3).unwrap());
    assert_eq!(stack_guard(&mut slot, &mut ids), None);
}

#[test]
fn with_runs_the_function_on_the_record() {
    let mut ids = IdentitySource::new();
    let mut slot = ThreadSlot::new();
    nx::thread_info::set(&mut slot, Some(8), ThreadIdentity::new(5).unwrap());
    let seen = ThreadInfo::with(&mut slot, &mut ids, |info: &ThreadInfo| {
        (info.thread.tag(), info.stack_guard)
    });
    assert_eq!(seen, Some((5, Some(8))));
}

#[test]
fn a_torn_down_slot_answers_nothing() {
    let mut ids = IdentitySource::new();
    let mut slot = ThreadSlot::new();
    assert!(current_thread(&mut slot, &mut ids).is_some());
    slot.teardown();
    assert_eq!(slot, ThreadSlot::Destroyed);
    assert_eq!(current_thread(&mut slot, &mut ids), None);
    assert_eq!(stack_guard(&mut slot, &mut ids), None);
    assert_eq!(ThreadInfo::with(&mut slot, &mut ids, |_info: &ThreadInfo| 1u8), None);
    assert_eq!(slot, ThreadSlot::Destroyed);
    assert_eq!(ids.issued(), 1);
}

#[test]
fn fresh_identities_count_up_from_one() {
    let mut ids = IdentitySource::new();
    assert_eq!(ids.issued(), 0);
    assert_eq!(ids.fresh().unwrap().tag(), 1);
    assert_eq!(ids.fresh().unwrap().tag(), 2);
    assert_eq!(ids.fresh().unwrap().tag(), 3);
    assert_eq!(ids.issued(), 3);
}
