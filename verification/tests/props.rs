use threadcell::GUARD_BIT;
use threadcell::IdProvider;
use threadcell::ThreadCell;
use threadcell::ThreadId;

fn two_ids() -> (ThreadId, ThreadId) {
    let mut provider = IdProvider::new();
    (provider.fresh(), provider.fresh())
}

#[test]
fn threadid() {
    let mut provider = IdProvider::new();
    let main = provider.fresh().as_u64();
    let child = provider.fresh().as_u64();

    assert_ne!(main, 0);
    assert_ne!(main, child);
}

#[test]
fn threadid_from_raw() {
    assert!(ThreadId::from_raw(0).is_none());
    assert!(ThreadId::from_raw(GUARD_BIT).is_none());
    assert!(ThreadId::from_raw(GUARD_BIT + 17).is_none());
    assert_eq!(ThreadId::from_raw(1).expect("valid").as_u64(), 1);
    assert_eq!(
        ThreadId::from_raw(GUARD_BIT - 1).expect("valid").as_u64(),
        GUARD_BIT - 1
    );
}

#[test]
fn acquire_race_single_winner() {
    let (a, b) = two_ids();
    let mut cell = ThreadCell::new_disowned(5);

    assert!(cell.try_acquire(a));
    assert!(!cell.try_acquire(b));
    assert!(cell.is_acquired(a));
    assert!(!cell.is_acquired(b));
    assert!(cell.try_acquire(a));
    assert!(!cell.try_acquire_once(a));
}

#[test]
fn try_release_other_owner_no_side_effect() {
    let (a, b) = two_ids();
    let mut cell = ThreadCell::new_owned(7, a);

    assert!(!cell.try_release(b));
    assert!(cell.is_acquired(a));
    assert_eq!(*cell.get(a), 7);
}

#[test]
fn guard_and_raw_exclusive() {
    let (a, _) = two_ids();
    let mut cell = ThreadCell::new_disowned(0);

    assert!(cell.try_acquire(a));
    assert!(cell.try_acquire_guard(a).is_none());
    assert!(cell.try_acquire_guard_mut(a).is_none());
    assert!(cell.try_release(a));

    let guard = cell.try_acquire_guard(a).expect("disowned again");
    assert!(!cell.try_acquire(a));
    assert!(!cell.try_acquire_once(a));
    assert!(!cell.try_release(a));
    cell.release_guard(guard);
}

#[test]
fn round_trip_value() {
    let (a, b) = two_ids();
    let mut cell = ThreadCell::new_disowned(0);

    cell.acquire(a);
    *cell.get_mut(a) = 41;
    cell.release(a);
    cell.acquire(b);
    assert_eq!(*cell.get(b), 41);
}

#[test]
fn steal_raw_owned() {
    let (a, b) = two_ids();
    let mut cell = ThreadCell::new_owned(9, a);

    cell.steal(b);
    assert!(cell.is_acquired(b));
    assert!(!cell.is_owned(a));
    assert_eq!(*cell.get(b), 9);
}

#[test]
fn steal_disowned_or_own() {
    let (a, _) = two_ids();
    let mut cell = ThreadCell::new_disowned(3);

    cell.steal(a);
    assert!(cell.is_acquired(a));
    cell.steal(a);
    assert!(cell.is_acquired(a));
    assert_eq!(*cell.get(a), 3);
}

#[test]
fn guard_handoff_scenario() {
    let (a, b) = two_ids();
    let mut cell = ThreadCell::new_disowned(234);

    let guard = cell.acquire_guard(a);
    assert_eq!(*cell.get(a), 234);
    cell.release_guard(guard);

    let guard = cell.acquire_guard_mut(a);
    *cell.get_mut(a) = 345;
    cell.release_guard_mut(guard);

    let guard = cell.acquire_guard(b);
    assert_eq!(*cell.get(b), 345);
    cell.release_guard(guard);
}

#[test]
fn owned_cell_denies_other_thread() {
    let (a, b) = two_ids();
    let cell = ThreadCell::new_owned(123, a);

    assert!(cell.try_get(b).is_none());
    assert!(cell.is_owned(a));
    assert!(!cell.is_owned(b));
    assert_eq!(*cell.get(a), 123);
}

#[test]
fn no_second_guard_for_same_holder() {
    let (a, _) = two_ids();
    let mut cell = ThreadCell::new_disowned(0);

    let guard = cell.try_acquire_guard(a).expect("first guard");
    assert!(cell.try_acquire_guard(a).is_none());
    assert!(cell.try_acquire_guard_mut(a).is_none());
    cell.release_guard(guard);
}

#[test]
fn with_forwards_result() {
    let (a, _) = two_ids();
    let mut cell = ThreadCell::new_disowned(20);

    let doubled = cell.with(a, |v| *v * 2);
    assert_eq!(doubled, 40);
    assert!(cell.is_disowned());

    let old = cell.with_mut(a, |v| (*v + 1, *v));
    assert_eq!(old, 20);
    assert_eq!(cell.with(a, |v| *v), 21);
}

#[test]
fn try_with_owned_elsewhere() {
    let (a, b) = two_ids();
    let mut cell = ThreadCell::new_owned(8, a);

    assert!(cell.try_with(b, |_v| ()).is_none());
    assert!(cell.try_with_mut(b, |_v| (0, ())).is_none());
    assert!(cell.try_with(a, |_v| ()).is_none());
    assert_eq!(*cell.get(a), 8);
}

#[test]
fn into_inner_owned() {
    let (a, _) = two_ids();
    let cell = ThreadCell::new_owned(String::from("payload"), a);

    assert_eq!(cell.into_inner(a), "payload");
}

#[test]
fn acquire_get_variants() {
    let (a, _) = two_ids();
    let mut cell = ThreadCell::new_disowned(11);

    assert_eq!(*cell.acquire_get(a), 11);
    assert!(cell.is_acquired(a));
    *cell.acquire_get_mut(a) = 12;
    assert_eq!(*cell.acquire_get(a), 12);
    cell.release(a);
    assert_eq!(*cell.acquire_get_mut(a), 12);
}

#[test]
fn try_acquire_get_guarded_fails() {
    let (a, _) = two_ids();
    let mut cell = ThreadCell::new_disowned(4);

    let guard = cell.acquire_guard(a);
    assert!(cell.try_acquire_get(a).is_none());
    assert!(cell.try_acquire_get_mut(a).is_none());
    cell.release_guard(guard);
}

#[test]
fn unchecked_access() {
    let (a, _) = two_ids();
    let mut cell = ThreadCell::new_owned(30, a);

    assert_eq!(*cell.get_unchecked(), 30);
    *cell.get_mut_unchecked() = 31;
    assert_eq!(*cell.get(a), 31);
}

#[test]
fn is_disowned_tracks_state() {
    let (a, _) = two_ids();
    let mut cell = ThreadCell::new_disowned(0);

    assert!(cell.is_disowned());
    cell.acquire(a);
    assert!(!cell.is_disowned());
    cell.release(a);
    assert!(cell.is_disowned());
}
