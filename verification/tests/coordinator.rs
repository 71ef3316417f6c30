use std::sync::atomic::Ordering;

use loop_coordinator::ActivationPolicy;
use loop_coordinator::ActiveEventLoop;
use loop_coordinator::ApplicationDelegate;
use loop_coordinator::ApplicationHandler;
use loop_coordinator::Record;
use loop_coordinator::ControlFlow;
use loop_coordinator::Event;
use loop_coordinator::Instant;
use loop_coordinator::Late;
use loop_coordinator::LateArrivals;
use loop_coordinator::LaunchPlan;
use loop_coordinator::MainThreadMarker;
use loop_coordinator::StartCause;
use loop_coordinator::WakeAt;
use loop_coordinator::WindowEvent;
use loop_coordinator::WindowId;
use loop_coordinator::window_activation_hack;

const MILLISECOND: u64 = 1_000_000;

/// Records every call, and can be told to act on the event loop during one.
#[derive(Debug, Default, PartialEq)]
struct Recorder {
    calls: Vec<Event>,
    redraw_again: Option<WindowId>,
    redraw_on_proxy_wake: Option<WindowId>,
    exit_on_about_to_wait: bool,
    control_flow_on_new_events: Option<ControlFlow>,
    seen_exit_request: Vec<bool>,
}

impl ApplicationHandler for Recorder {
    // The record that contracts speak of exists in proofs only.
    fn received(&self) -> Record {
        unreachable!()
    }

    fn new_events(&mut self, event_loop: &mut ActiveEventLoop, cause: StartCause) {
        self.calls.push(Event::NewEvents(cause));
        if let Some(control_flow) = self.control_flow_on_new_events {
            event_loop.set_control_flow(control_flow);
        }
    }

    fn can_create_surfaces(&mut self, _event_loop: &mut ActiveEventLoop) {
        self.calls.push(Event::CanCreateSurfaces);
    }

    fn window_event(&mut self, event_loop: &mut ActiveEventLoop, window_id: WindowId, event: WindowEvent) {
        self.calls.push(Event::WindowEvent(window_id, event));
        if let Some(again) = self.redraw_again.take() {
            event_loop.request_redraw(again);
        }
    }

    fn proxy_wake_up(&mut self, event_loop: &mut ActiveEventLoop) {
        self.calls.push(Event::ProxyWakeUp);
        if let Some(window_id) = self.redraw_on_proxy_wake.take() {
            event_loop.request_redraw(window_id);
        }
    }

    fn about_to_wait(&mut self, event_loop: &mut ActiveEventLoop) {
        self.calls.push(Event::AboutToWait);
        if self.exit_on_about_to_wait {
            event_loop.exit();
        }
    }

    fn exiting(&mut self, event_loop: &mut ActiveEventLoop) {
        self.calls.push(Event::Exiting);
        self.seen_exit_request.push(event_loop.exiting());
    }
}

fn redraw(raw: u64) -> Event {
    Event::WindowEvent(WindowId(raw), WindowEvent::RedrawRequested)
}

fn delegate_with(recorder: Recorder) -> ApplicationDelegate<Recorder> {
    let mut delegate = ApplicationDelegate::new(MainThreadMarker::new_unchecked(), ActivationPolicy::Regular, true, false);
    assert_eq!(delegate.set_event_handler(recorder), Ok(None));
    delegate
}

fn launched() -> ApplicationDelegate<Recorder> {
    let mut delegate = delegate_with(Recorder::default());
    delegate.did_finish_launching();
    delegate
}

/// The calls that the handler has seen, taking them out of the record.
fn calls(delegate: &mut ApplicationDelegate<Recorder>) -> Vec<Event> {
    let mut recorder = delegate.take_event_handler().expect("a handler is installed");
    let calls = std::mem::take(&mut recorder.calls);
    assert_eq!(delegate.set_event_handler(recorder), Ok(None));
    calls
}

#[test]
fn a_new_delegate_is_at_rest() {
    let mut delegate: ApplicationDelegate<Recorder> = ApplicationDelegate::new(MainThreadMarker::new_unchecked(), ActivationPolicy::Accessory, false, true);
    assert!(!delegate.is_launched());
    assert!(!delegate.is_running());
    assert!(!delegate.exiting());
    assert!(!delegate.ready());
    assert!(!delegate.in_use());
    assert!(!delegate.is_panicking());
    assert_eq!(delegate.control_flow(), ControlFlow::Wait);
    assert_eq!(delegate.start_time(), None);
    assert_eq!(delegate.wake_at(), WakeAt::Never);
    assert_eq!(delegate.pending_redraw(), Vec::<WindowId>::new());
    assert_eq!(delegate.deferred(), Vec::<Event>::new());
    assert!(!delegate.take_yield_request());
    assert!(!delegate.take_wake_request());
    assert!(!delegate.proxy_wake_up().load(Ordering::Relaxed));
}

#[test]
fn the_delegate_keeps_the_mark_of_its_thread() {
    let mtm = MainThreadMarker::new_unchecked();
    let delegate: ApplicationDelegate<Recorder> = ApplicationDelegate::new(mtm, ActivationPolicy::Regular, true, false);
    let copy = delegate.main_thread();
    assert_eq!(std::mem::size_of_val(&copy), 0);
}

#[test]
fn launch_plan_is_what_the_delegate_was_made_with() {
    let delegate: ApplicationDelegate<Recorder> = ApplicationDelegate::new(MainThreadMarker::new_unchecked(), ActivationPolicy::Accessory, false, true);
    assert_eq!(
        delegate.launch_plan(),
        Some(LaunchPlan {
            activation_policy: ActivationPolicy::Accessory,
            activate_ignoring_other_apps: true,
            default_menu: false,
        })
    );
}

#[test]
fn launch_tells_the_handler_of_init_and_then_of_surfaces() {
    let mut delegate = launched();
    assert!(delegate.is_launched());
    assert!(delegate.is_running());
    assert_eq!(delegate.wake_at(), WakeAt::Immediately);
    assert!(!delegate.take_yield_request());
    assert_eq!(calls(&mut delegate), vec![Event::NewEvents(StartCause::Init), Event::CanCreateSurfaces]);
}

#[test]
fn launch_with_stop_on_launch_asks_the_run_loop_to_yield() {
    let mut delegate = delegate_with(Recorder::default());
    delegate.set_stop_on_launch();
    delegate.did_finish_launching();
    assert!(delegate.is_running());
    assert!(delegate.take_yield_request());
    assert!(!delegate.take_yield_request());
}

#[test]
fn launch_work_is_due_once() {
    let mut delegate = launched();
    assert_eq!(delegate.launch_plan(), None);
    delegate.internal_exit();
    assert_eq!(delegate.launch_plan(), None);
    delegate.set_wait_timeout(None);
    delegate.cleared(Instant::from_nanos(1));
    assert_eq!(delegate.wake_at(), WakeAt::Immediately);
    delegate.did_finish_launching();
    assert!(delegate.is_running());
    assert_eq!(delegate.launch_plan(), None);
}

#[test]
fn a_second_launch_does_not_restart_the_waker() {
    let mut delegate = launched();
    delegate.set_control_flow(ControlFlow::WaitUntil(Instant::from_nanos(900)));
    delegate.cleared(Instant::from_nanos(100));
    assert_eq!(delegate.wake_at(), WakeAt::At(Instant::from_nanos(900)));
    delegate.did_finish_launching();
    assert_eq!(delegate.wake_at(), WakeAt::At(Instant::from_nanos(900)));
}

#[test]
fn queue_redraw_twice_then_cleared_redraws_once() {
    let mut delegate = launched();
    calls(&mut delegate);
    delegate.queue_redraw(WindowId(1));
    delegate.queue_redraw(WindowId(1));
    assert_eq!(delegate.pending_redraw(), vec![WindowId(1)]);
    delegate.cleared(Instant::from_nanos(5));
    assert_eq!(calls(&mut delegate), vec![redraw(1), Event::AboutToWait]);
    assert_eq!(delegate.pending_redraw(), Vec::<WindowId>::new());
}

#[test]
fn each_distinct_window_is_redrawn_once_in_the_order_of_its_first_request() {
    let mut delegate = launched();
    calls(&mut delegate);
    for raw in [3u64, 1, 3, 2, 1, 1, 3, 2] {
        delegate.queue_redraw(WindowId(raw));
    }
    assert_eq!(delegate.pending_redraw(), vec![WindowId(3), WindowId(1), WindowId(2)]);
    delegate.cleared(Instant::from_nanos(5));
    assert_eq!(calls(&mut delegate), vec![redraw(3), redraw(1), redraw(2), Event::AboutToWait]);
    delegate.cleared(Instant::from_nanos(6));
    assert_eq!(calls(&mut delegate), vec![Event::AboutToWait]);
}

#[test]
fn queue_redraw_asks_the_run_loop_to_wake() {
    let mut delegate = launched();
    assert!(!delegate.take_wake_request());
    delegate.queue_redraw(WindowId(4));
    assert!(delegate.take_wake_request());
    assert!(!delegate.take_wake_request());
    delegate.queue_redraw(WindowId(4));
    assert!(delegate.take_wake_request());
}

#[test]
fn a_redraw_requested_while_draining_waits_for_the_next_cycle() {
    let mut recorder = Recorder::default();
    recorder.redraw_again = Some(WindowId(1));
    let mut delegate = delegate_with(recorder);
    delegate.set_is_running(true);
    delegate.queue_redraw(WindowId(1));
    delegate.queue_redraw(WindowId(2));
    delegate.cleared(Instant::from_nanos(5));
    assert_eq!(calls(&mut delegate), vec![redraw(1), redraw(2), Event::AboutToWait]);
    assert_eq!(delegate.pending_redraw(), vec![WindowId(1)]);
    assert!(delegate.take_wake_request());
    delegate.cleared(Instant::from_nanos(6));
    assert_eq!(calls(&mut delegate), vec![redraw(1), Event::AboutToWait]);
    assert_eq!(delegate.pending_redraw(), Vec::<WindowId>::new());
}

#[test]
fn a_redraw_requested_during_the_proxy_wake_is_served_in_the_same_cycle() {
    let mut recorder = Recorder::default();
    recorder.redraw_on_proxy_wake = Some(WindowId(9));
    let mut delegate = delegate_with(recorder);
    delegate.set_is_running(true);
    delegate.proxy_wake_up().store(true, Ordering::Relaxed);
    delegate.cleared(Instant::from_nanos(5));
    assert_eq!(calls(&mut delegate), vec![Event::ProxyWakeUp, redraw(9), Event::AboutToWait]);
}

#[test]
fn the_proxy_flag_is_consumed_by_cleared() {
    let mut delegate = launched();
    calls(&mut delegate);
    let flag = delegate.proxy_wake_up();
    flag.store(true, Ordering::Relaxed);
    delegate.cleared(Instant::from_nanos(5));
    assert!(!flag.load(Ordering::Relaxed));
    assert_eq!(calls(&mut delegate), vec![Event::ProxyWakeUp, Event::AboutToWait]);
    delegate.cleared(Instant::from_nanos(6));
    assert_eq!(calls(&mut delegate), vec![Event::AboutToWait]);
}

#[test]
fn the_proxy_flag_is_kept_while_cleared_is_ignored() {
    let mut delegate = delegate_with(Recorder::default());
    let flag = delegate.proxy_wake_up();
    flag.store(true, Ordering::Relaxed);
    delegate.cleared(Instant::from_nanos(5));
    assert!(flag.load(Ordering::Relaxed));
    assert_eq!(calls(&mut delegate), vec![]);
}

#[test]
fn cleared_with_tells_of_the_proxy_wake_first() {
    let mut delegate = launched();
    calls(&mut delegate);
    delegate.queue_redraw(WindowId(2));
    delegate.cleared_with(true, Instant::from_nanos(5));
    assert_eq!(calls(&mut delegate), vec![Event::ProxyWakeUp, redraw(2), Event::AboutToWait]);
}

#[test]
fn wake_one_millisecond_before_the_deadline_is_wait_cancelled() {
    let t = Instant::from_nanos(500 * MILLISECOND);
    let start = Instant::from_nanos(100 * MILLISECOND);
    let mut delegate = launched();
    delegate.set_control_flow(ControlFlow::WaitUntil(t));
    delegate.cleared(start);
    calls(&mut delegate);
    delegate.wakeup(Instant::from_nanos(499 * MILLISECOND));
    assert_eq!(
        calls(&mut delegate),
        vec![Event::NewEvents(StartCause::WaitCancelled { start, requested_resume: Some(t) })]
    );
}

#[test]
fn wake_one_millisecond_after_the_deadline_is_resume_time_reached() {
    let t = Instant::from_nanos(500 * MILLISECOND);
    let start = Instant::from_nanos(100 * MILLISECOND);
    let mut delegate = launched();
    delegate.set_control_flow(ControlFlow::WaitUntil(t));
    delegate.cleared(start);
    calls(&mut delegate);
    delegate.wakeup(Instant::from_nanos(501 * MILLISECOND));
    assert_eq!(
        calls(&mut delegate),
        vec![Event::NewEvents(StartCause::ResumeTimeReached { start, requested_resume: t })]
    );
}

#[test]
fn wake_under_wait_is_wait_cancelled_without_resume_time() {
    let start = Instant::from_nanos(100);
    let mut delegate = launched();
    delegate.cleared(start);
    calls(&mut delegate);
    delegate.wakeup(Instant::from_nanos(700));
    assert_eq!(
        calls(&mut delegate),
        vec![Event::NewEvents(StartCause::WaitCancelled { start, requested_resume: None })]
    );
}

#[test]
fn wake_under_poll_is_poll() {
    let mut delegate = launched();
    delegate.set_control_flow(ControlFlow::Poll);
    delegate.cleared(Instant::from_nanos(100));
    assert_eq!(delegate.wake_at(), WakeAt::Immediately);
    calls(&mut delegate);
    delegate.wakeup(Instant::from_nanos(100));
    assert_eq!(calls(&mut delegate), vec![Event::NewEvents(StartCause::Poll)]);
}

#[test]
fn wake_uses_the_control_flow_that_the_handler_set() {
    let t = Instant::from_nanos(900);
    let mut recorder = Recorder::default();
    recorder.control_flow_on_new_events = Some(ControlFlow::WaitUntil(t));
    let mut delegate = delegate_with(recorder);
    delegate.did_finish_launching();
    assert_eq!(delegate.control_flow(), ControlFlow::WaitUntil(t));
    delegate.cleared(Instant::from_nanos(100));
    assert_eq!(delegate.wake_at(), WakeAt::At(t));
    calls(&mut delegate);
    delegate.wakeup(Instant::from_nanos(950));
    assert_eq!(
        calls(&mut delegate),
        vec![Event::NewEvents(StartCause::ResumeTimeReached {
            start: Instant::from_nanos(100),
            requested_resume: t,
        })]
    );
}

#[test]
fn wake_with_stop_after_wait_asks_the_run_loop_to_yield() {
    let mut delegate = launched();
    delegate.cleared(Instant::from_nanos(100));
    delegate.set_stop_after_wait(true);
    delegate.wakeup(Instant::from_nanos(200));
    assert!(delegate.take_yield_request());
    delegate.set_stop_after_wait(false);
    delegate.wakeup(Instant::from_nanos(300));
    assert!(!delegate.take_yield_request());
}

#[test]
fn stop_before_wait_yields_instead_of_sleeping() {
    let mut delegate = launched();
    calls(&mut delegate);
    delegate.set_stop_before_wait(true);
    delegate.set_control_flow(ControlFlow::WaitUntil(Instant::from_nanos(900)));
    delegate.cleared(Instant::from_nanos(100));
    assert_eq!(calls(&mut delegate), vec![Event::AboutToWait]);
    assert!(delegate.take_yield_request());
    assert!(delegate.is_running());
    assert_eq!(delegate.start_time(), None);
    assert_eq!(delegate.wake_at(), WakeAt::Immediately);
}

#[test]
fn cleared_records_the_start_of_the_sleep() {
    let mut delegate = launched();
    delegate.cleared(Instant::from_nanos(123));
    assert_eq!(delegate.start_time(), Some(Instant::from_nanos(123)));
    assert!(!delegate.take_yield_request());
    assert_eq!(delegate.wake_at(), WakeAt::Never);
}

#[test]
fn cleared_arms_the_sooner_of_the_two_deadlines() {
    let now = Instant::from_nanos(100);
    let mut delegate = launched();
    delegate.set_control_flow(ControlFlow::WaitUntil(Instant::from_nanos(900)));
    delegate.set_wait_timeout(Some(Instant::from_nanos(400)));
    delegate.cleared(now);
    assert_eq!(delegate.wake_at(), WakeAt::At(Instant::from_nanos(400)));
    delegate.set_wait_timeout(Some(Instant::from_nanos(1_000)));
    delegate.cleared(now);
    assert_eq!(delegate.wake_at(), WakeAt::At(Instant::from_nanos(900)));
    delegate.set_wait_timeout(None);
    delegate.cleared(now);
    assert_eq!(delegate.wake_at(), WakeAt::At(Instant::from_nanos(900)));
}

#[test]
fn cleared_under_wait_sleeps_until_the_pump_deadline_only() {
    let now = Instant::from_nanos(100);
    let mut delegate = launched();
    delegate.set_wait_timeout(Some(Instant::from_nanos(400)));
    delegate.cleared(now);
    assert_eq!(delegate.wake_at(), WakeAt::At(Instant::from_nanos(400)));
    delegate.set_wait_timeout(None);
    delegate.cleared(now);
    assert_eq!(delegate.wake_at(), WakeAt::Never);
}

#[test]
fn an_exit_request_is_seen_when_the_loop_is_about_to_sleep() {
    let mut delegate = launched();
    calls(&mut delegate);
    delegate.exit();
    assert!(delegate.exiting());
    assert!(delegate.is_running());
    assert!(!delegate.take_yield_request());
    delegate.cleared(Instant::from_nanos(100));
    assert!(delegate.take_yield_request());
    assert!(!delegate.is_running());
    assert!(delegate.is_launched());
    assert_eq!(delegate.start_time(), None);
    assert_eq!(calls(&mut delegate), vec![Event::AboutToWait, Event::Exiting]);
}

#[test]
fn an_exit_request_made_by_the_handler_ends_the_session() {
    let mut recorder = Recorder::default();
    recorder.exit_on_about_to_wait = true;
    let mut delegate = delegate_with(recorder);
    delegate.did_finish_launching();
    delegate.cleared(Instant::from_nanos(100));
    assert!(delegate.take_yield_request());
    assert!(!delegate.is_running());
    let recorder = delegate.take_event_handler().expect("a handler is installed");
    assert_eq!(
        recorder.calls,
        vec![
            Event::NewEvents(StartCause::Init),
            Event::CanCreateSurfaces,
            Event::AboutToWait,
            Event::Exiting,
        ]
    );
    assert_eq!(recorder.seen_exit_request, vec![true]);
}

#[test]
fn internal_exit_resets_the_session_and_keeps_the_launch() {
    let mut delegate = launched();
    calls(&mut delegate);
    delegate.set_stop_on_launch();
    delegate.set_stop_before_wait(true);
    delegate.set_stop_after_wait(true);
    delegate.set_stop_on_redraw(true);
    delegate.set_wait_timeout(Some(Instant::from_nanos(77)));
    delegate.internal_exit();
    assert_eq!(calls(&mut delegate), vec![Event::Exiting]);
    assert!(!delegate.is_running());
    assert!(delegate.is_launched());

    // None of the checkpoints is left: a new session runs through without a
    // request to yield, and sleeps without a deadline.
    delegate.did_finish_launching();
    assert!(!delegate.take_yield_request());
    delegate.cleared(Instant::from_nanos(100));
    assert!(!delegate.take_yield_request());
    assert_eq!(delegate.wake_at(), WakeAt::Never);
    delegate.wakeup(Instant::from_nanos(200));
    assert!(!delegate.take_yield_request());
    delegate.handle_redraw(WindowId(1));
    assert!(!delegate.take_yield_request());
}

#[test]
fn will_terminate_ends_the_session() {
    let mut delegate = launched();
    calls(&mut delegate);
    delegate.will_terminate();
    assert!(!delegate.is_running());
    assert!(delegate.is_launched());
    assert_eq!(calls(&mut delegate), vec![Event::Exiting]);
}

#[test]
fn a_new_session_starts_without_launching_again() {
    let mut delegate = launched();
    delegate.exit();
    delegate.cleared(Instant::from_nanos(100));
    assert!(!delegate.is_running());
    calls(&mut delegate);
    delegate.take_yield_request();

    delegate.clear_exit();
    assert!(!delegate.exiting());
    delegate.set_is_running(true);
    delegate.dispatch_init_events();
    assert!(delegate.is_running());
    assert_eq!(delegate.launch_plan(), None);
    assert_eq!(calls(&mut delegate), vec![Event::NewEvents(StartCause::Init), Event::CanCreateSurfaces]);
}

#[test]
fn wake_and_cleared_are_ignored_without_a_handler() {
    let mut delegate: ApplicationDelegate<Recorder> = ApplicationDelegate::new(MainThreadMarker::new_unchecked(), ActivationPolicy::Regular, true, false);
    delegate.set_is_running(true);
    delegate.queue_redraw(WindowId(1));
    delegate.set_stop_before_wait(true);
    delegate.set_stop_after_wait(true);
    delegate.cleared(Instant::from_nanos(100));
    delegate.wakeup(Instant::from_nanos(200));
    assert!(!delegate.take_yield_request());
    assert_eq!(delegate.pending_redraw(), vec![WindowId(1)]);
    assert_eq!(delegate.start_time(), None);
}

#[test]
fn wake_and_cleared_are_ignored_when_no_session_is_running() {
    let mut delegate = delegate_with(Recorder::default());
    delegate.queue_redraw(WindowId(1));
    delegate.set_stop_before_wait(true);
    delegate.set_stop_after_wait(true);
    delegate.cleared(Instant::from_nanos(100));
    delegate.wakeup(Instant::from_nanos(200));
    assert!(!delegate.take_yield_request());
    assert_eq!(delegate.pending_redraw(), vec![WindowId(1)]);
    assert_eq!(calls(&mut delegate), vec![]);
}

#[test]
fn wake_and_cleared_are_ignored_while_a_panic_is_on_its_way_out() {
    let mut delegate = launched();
    delegate.cleared(Instant::from_nanos(50));
    calls(&mut delegate);
    delegate.set_panicking(true);
    assert!(delegate.is_panicking());
    delegate.queue_redraw(WindowId(1));
    delegate.set_stop_after_wait(true);
    delegate.cleared(Instant::from_nanos(100));
    delegate.wakeup(Instant::from_nanos(200));
    assert!(!delegate.take_yield_request());
    assert_eq!(delegate.start_time(), Some(Instant::from_nanos(50)));
    assert_eq!(calls(&mut delegate), vec![]);
    delegate.set_panicking(false);
    delegate.cleared(Instant::from_nanos(300));
    assert_eq!(calls(&mut delegate), vec![redraw(1), Event::AboutToWait]);
}

#[test]
fn wake_and_cleared_are_ignored_while_a_call_is_in_progress() {
    let mut delegate = launched();
    delegate.cleared(Instant::from_nanos(50));
    let recorder = delegate.begin_handle().expect("a handler is free");
    assert!(delegate.in_use());
    assert!(delegate.ready());
    delegate.queue_redraw(WindowId(1));
    delegate.cleared(Instant::from_nanos(100));
    delegate.wakeup(Instant::from_nanos(200));
    assert_eq!(delegate.pending_redraw(), vec![WindowId(1)]);
    assert_eq!(delegate.start_time(), Some(Instant::from_nanos(50)));
    assert!(delegate.end_handle(recorder).is_ok());
    assert!(delegate.ready());
    assert!(!delegate.in_use());
}

#[test]
fn handle_redraw_asks_for_the_redraw_at_once() {
    let mut delegate = launched();
    calls(&mut delegate);
    delegate.handle_redraw(WindowId(6));
    assert_eq!(calls(&mut delegate), vec![redraw(6)]);
    assert!(!delegate.take_yield_request());
    assert_eq!(delegate.pending_redraw(), Vec::<WindowId>::new());
}

#[test]
fn handle_redraw_with_stop_on_redraw_asks_the_run_loop_to_yield() {
    let mut delegate = launched();
    calls(&mut delegate);
    delegate.set_stop_on_redraw(true);
    delegate.handle_redraw(WindowId(6));
    assert_eq!(calls(&mut delegate), vec![redraw(6)]);
    assert!(delegate.take_yield_request());
}

#[test]
fn handle_redraw_is_dropped_while_a_call_is_in_progress() {
    let mut delegate = launched();
    calls(&mut delegate);
    delegate.set_stop_on_redraw(true);
    let recorder = delegate.begin_handle().expect("a handler is free");
    delegate.handle_redraw(WindowId(6));
    assert!(!delegate.take_yield_request());
    assert_eq!(delegate.deferred(), Vec::<Event>::new());
    assert!(delegate.end_handle(recorder).is_ok());
    assert_eq!(calls(&mut delegate), vec![]);
}

#[test]
fn maybe_queue_with_handler_calls_at_once_when_no_call_is_in_progress() {
    let mut delegate = launched();
    calls(&mut delegate);
    let event = Event::WindowEvent(WindowId(1), WindowEvent::Focused(true));
    delegate.maybe_queue_with_handler(event);
    assert_eq!(calls(&mut delegate), vec![event]);
    assert_eq!(delegate.deferred(), Vec::<Event>::new());
}

#[test]
fn events_that_arrive_during_a_call_run_once_afterwards_in_order() {
    let mut delegate = launched();
    calls(&mut delegate);
    let first = Event::WindowEvent(WindowId(1), WindowEvent::SurfaceResized { width: 640, height: 480 });
    let second = Event::WindowEvent(WindowId(1), WindowEvent::Moved { x: -3, y: 7 });
    let third = Event::WindowEvent(WindowId(2), WindowEvent::CloseRequested);

    let recorder = delegate.begin_handle().expect("a handler is free");
    delegate.maybe_queue_with_handler(first);
    delegate.maybe_queue_with_handler(second);
    delegate.maybe_queue_with_handler(third);
    assert_eq!(recorder.calls, vec![]);
    assert_eq!(delegate.deferred(), vec![first, second, third]);
    assert!(delegate.take_wake_request());

    // Still in progress: nothing is delivered yet.
    delegate.dispatch_deferred();
    assert_eq!(delegate.deferred(), vec![first, second, third]);

    assert!(delegate.end_handle(recorder).is_ok());
    delegate.dispatch_deferred();
    assert_eq!(calls(&mut delegate), vec![first, second, third]);
    assert_eq!(delegate.deferred(), Vec::<Event>::new());

    delegate.dispatch_deferred();
    assert_eq!(calls(&mut delegate), vec![]);
}

#[test]
fn set_event_handler_over_another_hands_the_earlier_one_back() {
    let mut delegate = delegate_with(Recorder::default());
    let mut other = Recorder::default();
    other.exit_on_about_to_wait = true;
    let previous = delegate.set_event_handler(other).expect("no call is in progress");
    assert_eq!(previous, Some(Recorder::default()));
    let installed = delegate.take_event_handler().expect("a handler is installed");
    assert!(installed.exit_on_about_to_wait);
    assert!(!delegate.ready());
    assert!(delegate.take_event_handler().is_none());
}

#[test]
fn set_event_handler_is_refused_while_a_call_is_in_progress() {
    let mut delegate = delegate_with(Recorder::default());
    let recorder = delegate.begin_handle().expect("a handler is free");
    let mut other = Recorder::default();
    other.exit_on_about_to_wait = true;
    let refused = delegate.set_event_handler(other).expect_err("a call is in progress");
    assert!(refused.exit_on_about_to_wait);
    assert!(delegate.take_event_handler().is_none());
    assert!(delegate.in_use());
    assert!(delegate.end_handle(recorder).is_ok());
    let kept = delegate.take_event_handler().expect("a handler is installed");
    assert!(!kept.exit_on_about_to_wait);
}

#[test]
fn the_handler_acts_through_the_active_event_loop() {
    let mut delegate = launched();
    let event_loop = delegate.active_event_loop();
    event_loop.set_control_flow(ControlFlow::Poll);
    event_loop.request_redraw(WindowId(8));
    assert!(event_loop.is_redraw_pending(WindowId(8)));
    assert!(!event_loop.is_redraw_pending(WindowId(9)));
    assert!(!event_loop.exiting());
    event_loop.exit();
    assert!(event_loop.exiting());
    assert_eq!(event_loop.control_flow(), ControlFlow::Poll);
    assert_eq!(delegate.control_flow(), ControlFlow::Poll);
    assert!(delegate.exiting());
    assert_eq!(delegate.pending_redraw(), vec![WindowId(8)]);
}

#[test]
fn window_activation_hack_picks_the_visible_windows() {
    assert_eq!(window_activation_hack(&vec![]), Vec::<usize>::new());
    assert_eq!(window_activation_hack(&vec![false, false]), Vec::<usize>::new());
    assert_eq!(window_activation_hack(&vec![true, false, true, true, false]), vec![0, 2, 3]);
}

#[test]
fn window_id_keeps_its_raw_value() {
    assert_eq!(WindowId::from_raw(17).into_raw(), 17);
    assert_eq!(WindowId::from_raw(17), WindowId(17));
}

#[test]
fn a_wake_leaves_the_control_flow_and_the_start_of_the_sleep_alone() {
    let t = Instant::from_nanos(900);
    let mut delegate = launched();
    delegate.set_control_flow(ControlFlow::WaitUntil(t));
    delegate.cleared(Instant::from_nanos(100));
    delegate.queue_redraw(WindowId(3));
    delegate.wakeup(Instant::from_nanos(500));
    assert_eq!(delegate.control_flow(), ControlFlow::WaitUntil(t));
    assert_eq!(delegate.start_time(), Some(Instant::from_nanos(100)));
    assert_eq!(delegate.pending_redraw(), vec![WindowId(3)]);
    assert!(!delegate.exiting());
}

#[test]
fn internal_exit_leaves_the_exit_request_and_the_pending_windows_alone() {
    let mut delegate = launched();
    delegate.exit();
    delegate.queue_redraw(WindowId(3));
    delegate.internal_exit();
    assert!(delegate.exiting());
    assert_eq!(delegate.pending_redraw(), vec![WindowId(3)]);
    assert!(delegate.is_launched());
}

#[test]
fn handle_redraw_leaves_the_pending_windows_alone() {
    let mut delegate = launched();
    delegate.queue_redraw(WindowId(3));
    delegate.handle_redraw(WindowId(4));
    assert_eq!(delegate.pending_redraw(), vec![WindowId(3)]);
}

#[test]
fn late_arrivals_are_replayed_once_in_the_order_of_arrival() {
    let mut delegate = launched();
    calls(&mut delegate);
    let first = Event::WindowEvent(WindowId(1), WindowEvent::Focused(true));
    let second = Event::WindowEvent(WindowId(2), WindowEvent::Occluded(false));
    let mut late = LateArrivals::new();
    assert!(late.is_empty());
    late.push(Late::Event(first));
    late.push(Late::Redraw(WindowId(7)));
    late.push(Late::Event(second));
    late.push(Late::Redraw(WindowId(7)));
    late.push(Late::Redraw(WindowId(5)));
    assert_eq!(late.len(), 5);
    let batch = late.take();
    assert!(late.is_empty());
    assert_eq!(batch.len(), 5);
    delegate.replay(batch);
    assert_eq!(calls(&mut delegate), vec![first, second]);
    assert_eq!(delegate.pending_redraw(), vec![WindowId(7), WindowId(5)]);
    assert!(delegate.take_wake_request());
    delegate.replay(late);
    assert_eq!(calls(&mut delegate), vec![]);
}

#[test]
fn late_events_wait_while_a_call_is_in_progress() {
    let mut delegate = launched();
    calls(&mut delegate);
    let event = Event::WindowEvent(WindowId(1), WindowEvent::Destroyed);
    let recorder = delegate.begin_handle().expect("a handler is free");
    let mut late = LateArrivals::new();
    late.push(Late::Event(event));
    assert_eq!(late.take().into_vec(), vec![Late::Event(event)]);
    let mut late = LateArrivals::new();
    late.push(Late::Event(event));
    delegate.replay(late);
    assert_eq!(delegate.deferred(), vec![event]);
    assert!(delegate.end_handle(recorder).is_ok());
    delegate.dispatch_deferred();
    assert_eq!(calls(&mut delegate), vec![event]);
}
