use nio::task_counter::TaskCounter;

#[test]
fn task_counter_test_local_counter() {
    let mut counter = TaskCounter::new();
    counter.increase_local();
    counter.decrease_local();
    assert_eq!(counter.load().total(), 0);
}

#[test]
fn task_counter_test_shared_counter() {
    let mut counter = TaskCounter::new();
    assert_eq!(counter.increase_local().shared(), 0);
    counter.increase_shared();
    assert_eq!(counter.increase_local().shared(), 1);
    assert_eq!(counter.decrease_local().shared(), 1);
    assert_eq!(counter.load().total(), 2);
}

#[test]
fn task_counter_test_move_counter() {
    let mut counter = TaskCounter::new();
    counter.increase_local();
    let snapshot = counter.load();
    counter.move_shared_to_local(snapshot);
    assert_eq!(counter.load().total(), 1);

    counter.increase_shared();
    let old = counter.increase_local();
    counter.move_shared_to_local(old);

    assert_eq!(counter.load().shared(), 0);
    assert_eq!(counter.load().local(), 3);
}

#[test]
fn task_counter_new_is_empty() {
    let counter = TaskCounter::new();
    let c = counter.load();
    assert_eq!(c.local(), 0);
    assert_eq!(c.shared(), 0);
    assert!(!c.shared_queue_has_data());
}

#[test]
fn task_counter_local_and_shared_are_independent() {
    let mut counter = TaskCounter::new();
    for _ in 0..5 {
        counter.increase_shared();
    }
    for _ in 0..3 {
        counter.increase_local();
    }
    let c = counter.load();
    assert_eq!(c.local(), 3);
    assert_eq!(c.shared(), 5);
    assert_eq!(c.total(), 8);
    assert!(c.shared_queue_has_data());
}

#[test]
fn task_counter_round_trip_law() {
    let mut counter = TaskCounter::new();
    counter.increase_shared();
    counter.increase_shared();
    let before = counter.load();
    counter.increase_local();
    counter.decrease_local();
    let after = counter.load();
    assert_eq!(before.local(), after.local());
    assert_eq!(before.shared(), after.shared());
}

#[test]
fn task_counter_move_all_keeps_total() {
    let mut counter = TaskCounter::new();
    counter.increase_local();
    counter.increase_local();
    for _ in 0..4 {
        counter.increase_shared();
    }
    let snapshot = counter.load();
    assert_eq!(snapshot.total(), 6);
    counter.move_shared_to_local(snapshot);
    let c = counter.load();
    assert_eq!(c.shared(), 0);
    assert_eq!(c.local(), 6);
    assert_eq!(c.total(), 6);
}

#[test]
fn task_counter_partial_move_leaves_remainder() {
    let mut counter = TaskCounter::new();
    // the shared count lives in the low 32 bits: moving a partial snapshot
    // leaves the remainder shared
    counter.increase_shared();
    counter.increase_shared();
    counter.increase_shared();
    let mut other = TaskCounter::new();
    other.increase_shared();
    counter.move_shared_to_local(other.load());
    let c = counter.load();
    assert_eq!(c.shared(), 2);
    assert_eq!(c.local(), 1);
}
