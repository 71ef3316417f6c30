use loop_coordinator::ActivationPolicy;
use loop_coordinator::ApplicationDelegate;
use loop_coordinator::Event;
use loop_coordinator::Instant;
use loop_coordinator::MainThreadMarker;
use loop_coordinator::Recorder;
use loop_coordinator::StartCause;
use loop_coordinator::WindowEvent;
use loop_coordinator::WindowId;

fn recording() -> ApplicationDelegate<Recorder> {
    let mut delegate =
        ApplicationDelegate::new(MainThreadMarker::new_unchecked(), ActivationPolicy::Regular, true, false);
    assert!(delegate.set_event_handler(Recorder::new()).is_ok());
    delegate
}

fn events(delegate: &mut ApplicationDelegate<Recorder>) -> Vec<Event> {
    let recorder = delegate.take_event_handler().expect("a handler is installed");
    let events = recorder.events();
    assert!(delegate.set_event_handler(recorder).is_ok());
    events
}

#[test]
fn a_new_recorder_has_noted_nothing() {
    assert_eq!(Recorder::new().events(), Vec::<Event>::new());
}

#[test]
fn the_recorder_notes_every_call_in_order() {
    let mut delegate = recording();
    delegate.did_finish_launching();
    delegate.queue_redraw(WindowId(1));
    delegate.queue_redraw(WindowId(1));
    delegate.cleared(Instant::from_nanos(5));
    delegate.wakeup(Instant::from_nanos(9));
    delegate.exit();
    delegate.cleared(Instant::from_nanos(12));
    assert_eq!(
        events(&mut delegate),
        vec![
            Event::NewEvents(StartCause::Init),
            Event::CanCreateSurfaces,
            Event::WindowEvent(WindowId(1), WindowEvent::RedrawRequested),
            Event::AboutToWait,
            Event::NewEvents(StartCause::WaitCancelled { start: Instant::from_nanos(5), requested_resume: None }),
            Event::AboutToWait,
            Event::Exiting,
        ]
    );
    assert!(!delegate.is_running());
    assert_eq!(delegate.pending_redraw(), Vec::<WindowId>::new());
}

#[test]
fn with_a_quiet_handler_no_window_waits_after_the_loop_was_cleared() {
    let mut delegate = recording();
    delegate.did_finish_launching();
    delegate.queue_redraw(WindowId(1));
    delegate.queue_redraw(WindowId(2));
    delegate.queue_redraw(WindowId(1));
    delegate.cleared_with(true, Instant::from_nanos(5));
    assert_eq!(delegate.pending_redraw(), Vec::<WindowId>::new());
    let noted = events(&mut delegate);
    assert_eq!(
        noted[2..].to_vec(),
        vec![
            Event::ProxyWakeUp,
            Event::WindowEvent(WindowId(1), WindowEvent::RedrawRequested),
            Event::WindowEvent(WindowId(2), WindowEvent::RedrawRequested),
            Event::AboutToWait,
        ]
    );
}
