use nio::task_queue::{Counter, TaskQueue, LOCAL_COUNTER_ONE};

#[test]
fn task_queue_test_local_counter() {
    let mut q = TaskQueue::new();
    assert_eq!(q.increase_local().total(), 0);
    assert_eq!(q.decrease_local().local(), 1);
    assert_eq!(q.load().total(), 0);
}

#[test]
fn task_queue_test_shared_counter() {
    let mut q = TaskQueue::new();
    assert_eq!(q.increase_local().shared(), 0);
    assert_eq!(q.increase_shared().local(), 1);
    assert_eq!(q.increase_local().total(), 2);
    assert_eq!(q.decrease_local().shared(), 1);
    assert_eq!(q.load().total(), 2);
}

#[test]
fn task_queue_test_move_counter() {
    let mut q = TaskQueue::new();
    assert_eq!(q.increase_local().total(), 0);
    let snapshot = q.load();
    q.move_shared_to_local(snapshot);
    assert_eq!(q.load().total(), 1);

    assert_eq!(q.increase_shared().local(), 1);
    let old = q.increase_local();
    q.move_shared_to_local(old);

    assert_eq!(q.load().shared(), 0);
    assert_eq!(q.load().local(), 3);
}

#[test]
fn test_notification_flag() {
    let mut q = TaskQueue::new();

    assert_eq!(q.load().is_notified(), false);
    assert!(!q.increase_shared_and_mark_as_notified().is_notified());

    let old = q.increase_local();
    assert_eq!(old.local(), 0);
    assert_eq!(old.shared(), 1);
    assert_eq!(old.is_notified(), true); // flag unaffected

    // Attempt to clear NOTIFIED_FLAG while shared is not empty
    let old = q.accept_notify_once_if_shared_queue_is_empty();
    assert_eq!(old.is_notified(), true);
    assert_eq!(q.load().is_notified(), true); // flag unaffected

    // clear shared counter
    q.move_shared_to_local(old);

    // Now shared is empty, clearing `NOTIFIED_FLAG` should succeed.
    let old = q.accept_notify_once_if_shared_queue_is_empty();
    assert_eq!(old.local(), 2);
    assert_eq!(old.shared(), 0);
    assert_eq!(old.is_notified(), true);

    // Mark as notified again
    let old = q.increase_shared_and_mark_as_notified();
    assert_eq!(old.is_notified(), false);

    let curr = q.load();
    assert_eq!(curr.local(), 2);
    assert_eq!(curr.shared(), 1);
    assert_eq!(curr.is_notified(), true);

    q.clear_notified_flag();
    assert_eq!(q.load().is_notified(), false);

    let old = q.increase_shared_and_mark_as_notified();
    assert_eq!(old.shared(), 1);
    assert_eq!(old.is_notified(), false);

    // Increase local
    let old = q.increase_local();
    assert_eq!(old.local(), 2);
    assert_eq!(old.is_notified(), true);

    let curr = q.load();
    assert_eq!(curr.local(), 3);
    assert_eq!(curr.shared(), 2);
    assert_eq!(curr.is_notified(), true);
}

#[test]
fn task_queue_second_sender_sees_flag() {
    let mut q = TaskQueue::new();
    let first = q.increase_shared_and_mark_as_notified();
    let second = q.increase_shared_and_mark_as_notified();
    assert!(!first.is_notified());
    assert!(second.is_notified());
    assert_eq!(q.load().shared(), 2);
}

#[test]
fn task_queue_accept_clears_once() {
    let mut q = TaskQueue::new();
    q.increase_shared_and_mark_as_notified();
    let snapshot = q.load();
    q.move_shared_to_local(snapshot);
    let first = q.accept_notify_once_if_shared_queue_is_empty();
    assert!(first.is_notified());
    let second = q.accept_notify_once_if_shared_queue_is_empty();
    assert!(!second.is_notified());
    assert_eq!(second.local(), 1);
    assert_eq!(second.shared(), 0);
    assert!(!q.load().is_notified());
}

#[test]
fn task_queue_clear_flag_keeps_counts() {
    let mut q = TaskQueue::new();
    q.increase_local();
    q.increase_shared_and_mark_as_notified();
    q.increase_shared_and_mark_as_notified();
    q.clear_notified_flag();
    let c = q.load();
    assert!(!c.is_notified());
    assert_eq!(c.local(), 1);
    assert_eq!(c.shared(), 2);
    assert!(c.shared_queue_has_data());
    // clearing an already clear flag changes nothing
    q.clear_notified_flag();
    assert_eq!(q.load().total(), 3);
}

#[test]
fn task_queue_local_does_not_touch_flag() {
    let mut q = TaskQueue::new();
    q.increase_shared_and_mark_as_notified();
    q.increase_local();
    assert!(q.load().is_notified());
    q.decrease_local();
    assert!(q.load().is_notified());
    assert_eq!(q.load().shared(), 1);
    assert_eq!(q.load().local(), 0);
}

#[test]
fn task_queue_wake_once_per_acceptance() {
    let mut q = TaskQueue::new();
    // the worker accepts on an empty shared queue
    let _ = q.accept_notify_once_if_shared_queue_is_empty();
    assert!(!q.load().is_notified());
    // first sender wakes, second does not
    assert!(!q.increase_shared_and_mark_as_notified().is_notified());
    assert!(q.increase_shared_and_mark_as_notified().is_notified());
    // the worker drains and accepts again
    let snapshot = q.load();
    q.move_shared_to_local(snapshot);
    let _ = q.accept_notify_once_if_shared_queue_is_empty();
    let c = q.load();
    assert_eq!(c.shared(), 0);
    assert_eq!(c.local(), 2);
    assert!(!c.is_notified());
    // the next sender wakes again
    assert!(!q.increase_shared_and_mark_as_notified().is_notified());
}

#[test]
fn counter_pure_steps() {
    let c = Counter::from_bits(0);
    assert!(c.accepted().is_none());
    let c1 = c.with_shared_task();
    assert!(c1.is_notified());
    assert_eq!(c1.shared(), 1);
    assert!(c1.accepted().is_none());
    let moved = Counter::from_bits(c1.bits().wrapping_add(c1.move_delta()));
    assert_eq!(moved.shared(), 0);
    assert_eq!(moved.local(), 1);
    let accepted = moved.accepted().unwrap();
    assert!(!accepted.is_notified());
    assert_eq!(accepted.local(), 1);
    assert_eq!(Counter::from_bits(LOCAL_COUNTER_ONE).local(), 1);
}

#[test]
fn shared_count_uses_bits_0_to_31() {
    // one more send on a word with 2^31 - 1 shared tasks
    let c = Counter::from_bits(0x7fff_ffff).with_shared_task();
    assert_eq!(c.shared(), 0x8000_0000);
    assert_eq!(c.local(), 0);
    assert!(c.is_notified());
    // the flag is bit 32, the local count starts at bit 33
    assert!(Counter::from_bits(1 << 32).is_notified());
    assert_eq!(Counter::from_bits(1 << 32).shared(), 0);
    assert_eq!(Counter::from_bits(1 << 33).local(), 1);
    assert_eq!(LOCAL_COUNTER_ONE, 1 << 33);
}
