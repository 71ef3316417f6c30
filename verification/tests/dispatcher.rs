use loop_coordinator::Dispatcher;
use loop_coordinator::MainThreadMarker;
use loop_coordinator::Queued;
use loop_coordinator::TargetDestroyed;

#[test]
fn a_new_dispatcher_is_alive_and_empty() {
    let mut dispatcher: Dispatcher<u32> = Dispatcher::new();
    assert!(!dispatcher.is_destroyed());
    assert_eq!(dispatcher.len(), 0);
    assert_eq!(dispatcher.next(), None);
}

#[test]
fn dispatched_operations_come_out_in_order_each_once() {
    let mut dispatcher: Dispatcher<&str> = Dispatcher::new();
    dispatcher.dispatch("a");
    dispatcher.dispatch("b");
    dispatcher.dispatch("c");
    assert_eq!(dispatcher.len(), 3);
    assert_eq!(dispatcher.next(), Some("a"));
    assert_eq!(dispatcher.next(), Some("b"));
    dispatcher.dispatch("d");
    assert_eq!(dispatcher.next(), Some("c"));
    assert_eq!(dispatcher.next(), Some("d"));
    assert_eq!(dispatcher.next(), None);
}

#[test]
fn queue_on_the_owning_thread_runs_at_once() {
    let mut dispatcher: Dispatcher<u32> = Dispatcher::new();
    dispatcher.dispatch(1);
    assert_eq!(dispatcher.queue(2, Some(MainThreadMarker::new_unchecked())), Ok(Queued::RunNow(2)));
    assert_eq!(dispatcher.len(), 1);
    assert_eq!(dispatcher.next(), Some(1));
}

#[test]
fn queue_from_another_thread_waits_behind_what_was_dispatched() {
    let mut dispatcher: Dispatcher<u32> = Dispatcher::new();
    dispatcher.dispatch(1);
    assert_eq!(dispatcher.queue(2, None), Ok(Queued::Waiting));
    dispatcher.dispatch(3);
    assert_eq!(dispatcher.next(), Some(1));
    assert_eq!(dispatcher.next(), Some(2));
    assert_eq!(dispatcher.next(), Some(3));
}

#[test]
fn a_destroyed_owner_drops_dispatches_silently() {
    let mut dispatcher: Dispatcher<u32> = Dispatcher::new();
    dispatcher.dispatch(1);
    dispatcher.destroy();
    assert!(dispatcher.is_destroyed());
    assert_eq!(dispatcher.len(), 0);
    dispatcher.dispatch(2);
    assert_eq!(dispatcher.len(), 0);
    assert_eq!(dispatcher.next(), None);
}

#[test]
fn a_destroyed_owner_fails_queue_with_target_destroyed() {
    let mut dispatcher: Dispatcher<u32> = Dispatcher::new();
    dispatcher.destroy();
    assert_eq!(dispatcher.queue(2, None), Err(TargetDestroyed));
    assert_eq!(dispatcher.queue(2, Some(MainThreadMarker::new_unchecked())), Err(TargetDestroyed));
    assert_eq!(dispatcher.len(), 0);
}
