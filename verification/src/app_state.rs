//! The application delegate: the coordinator of one event loop.

use vstd::prelude::*;
use std::sync::atomic::AtomicBool;
use std::sync::atomic::Ordering;
use std::sync::Arc;
use crate::active_event_loop::ActiveEventLoop;
use crate::active_event_loop::EventLoopState;
use crate::application::deliver;
use crate::application::ApplicationHandler;
use crate::application::Call;
use crate::delegate_state::deliveries_add_up;
use crate::delegate_state::DelegateState;
use crate::event::ControlFlow;
use crate::event::Event;
use crate::event::StartCause;
use crate::event::WindowEvent;
use crate::event::WindowId;
use crate::event_handler::EventHandler;
use crate::event_handler::HandlerState;
use crate::late::Late;
use crate::late::LateArrivals;
use crate::launch::ActivationPolicy;
use crate::launch::LaunchPlan;
use crate::main_thread::MainThreadMarker;
use crate::time::min_timeout;
use crate::time::Instant;
use crate::waker::EventLoopWaker;
use crate::waker::WakeAt;

verus! {

/// The coordinator of one event loop.
///
/// The delegate receives the notifications of the native run loop and turns
/// them into calls to the application handler. It never makes a call while
/// another one is in progress. What the native run loop has to do is left in
/// the delegate for the caller to pick up: whether to yield
/// ([`take_yield_request`](ApplicationDelegate::take_yield_request)),
/// whether to wake up
/// ([`take_wake_request`](ApplicationDelegate::take_wake_request)), and
/// what the wake timer is armed for
/// ([`wake_at`](ApplicationDelegate::wake_at)).
pub struct ApplicationDelegate<H> {
    mtm: MainThreadMarker,
    activation_policy: ActivationPolicy,
    default_menu: bool,
    activate_ignoring_other_apps: bool,
    proxy_wake_up: Arc<AtomicBool>,
    event_handler: EventHandler<H>,
    stop_on_launch: bool,
    stop_before_wait: bool,
    stop_after_wait: bool,
    stop_on_redraw: bool,
    is_launched: bool,
    is_running: bool,
    panicking: bool,
    waker: EventLoopWaker,
    start_time: Option<Instant>,
    wait_timeout: Option<Instant>,
    yield_requested: bool,
    deferred: Vec<Event>,
    event_loop: ActiveEventLoop,
}

impl<H> View for ApplicationDelegate<H> {
    type V = DelegateState<H>;

    closed spec fn view(&self) -> DelegateState<H> {
        DelegateState {
            main_thread: self.mtm,
            activation_policy: self.activation_policy,
            default_menu: self.default_menu,
            activate_ignoring_other_apps: self.activate_ignoring_other_apps,
            proxy_wake_up: self.proxy_wake_up,
            handler: self.event_handler@,
            stop_on_launch: self.stop_on_launch,
            stop_before_wait: self.stop_before_wait,
            stop_after_wait: self.stop_after_wait,
            stop_on_redraw: self.stop_on_redraw,
            is_launched: self.is_launched,
            is_running: self.is_running,
            panicking: self.panicking,
            waker: self.waker@,
            last_wait_start: self.start_time,
            wait_deadline: self.wait_timeout,
            yield_requested: self.yield_requested,
            deferred: self.deferred@,
            event_loop: self.event_loop@,
        }
    }
}

impl<H: ApplicationHandler> ApplicationDelegate<H> {
    /// A delegate for an application that has not launched: no handler, no
    /// session, no checkpoint, control flow `Wait`, nothing pending. The
    /// delegate is made on the main thread and stays there.
    pub fn new(
        mtm: MainThreadMarker,
        activation_policy: ActivationPolicy,
        default_menu: bool,
        activate_ignoring_other_apps: bool,
    ) -> (delegate: Self)
        ensures
            delegate@ == (DelegateState {
                main_thread: mtm,
                activation_policy,
                default_menu,
                activate_ignoring_other_apps,
                proxy_wake_up: delegate@.proxy_wake_up,
                handler: HandlerState::<H>::Empty,
                stop_on_launch: false,
                stop_before_wait: false,
                stop_after_wait: false,
                stop_on_redraw: false,
                is_launched: false,
                is_running: false,
                panicking: false,
                waker: WakeAt::Never,
                last_wait_start: None,
                wait_deadline: None,
                yield_requested: false,
                deferred: Seq::empty(),
                event_loop: EventLoopState {
                    control_flow: ControlFlow::Wait,
                    exit_requested: false,
                    pending_redraw: Seq::empty(),
                    wake_requested: false,
                },
            }),
    {
        ApplicationDelegate {
            mtm,
            activation_policy,
            default_menu,
            activate_ignoring_other_apps,
            proxy_wake_up: Arc::new(AtomicBool::new(false)),
            event_handler: EventHandler::new(),
            stop_on_launch: false,
            stop_before_wait: false,
            stop_after_wait: false,
            stop_on_redraw: false,
            is_launched: false,
            is_running: false,
            panicking: false,
            waker: EventLoopWaker::new(),
            start_time: None,
            wait_timeout: None,
            yield_requested: false,
            deferred: Vec::new(),
            event_loop: ActiveEventLoop::new(),
        }
    }

    /// The mark of the main thread, on which the delegate lives.
    pub fn main_thread(&self) -> (mtm: MainThreadMarker)
        ensures
            mtm == self@.main_thread,
    {
        self.mtm
    }

    /// The native work to do before the launch is handled: the activation
    /// policy, the activation and the default menu, as the delegate was made
    /// with them. It is due once, so an application that has launched has no
    /// plan.
    pub fn launch_plan(&self) -> (plan: Option<LaunchPlan>)
        ensures
            plan == self@.launch_plan(),
    {
        if self.is_launched {
            None
        } else {
            Some(
                LaunchPlan {
                    activation_policy: self.activation_policy,
                    activate_ignoring_other_apps: self.activate_ignoring_other_apps,
                    default_menu: self.default_menu,
                },
            )
        }
    }

    /// Handles the notification that the application has finished
    /// launching, once the work of the [`launch_plan`] is done.
    ///
    /// The application counts as launched from now on. On the first launch
    /// the wake scheduler is started. A session begins: the handler is told
    /// of the first round of events and that it may create its surfaces. If
    /// the run loop is to stop on launch, it is asked to yield.
    ///
    /// Must not be called while a handler call is in progress.
    ///
    /// [`launch_plan`]: ApplicationDelegate::launch_plan
    pub fn did_finish_launching(&mut self)
        requires
            !(old(self)@.handler is InUse),
        ensures
            old(self)@.launched().delivered(
                final(self)@,
                seq![Event::NewEvents(StartCause::Init), Event::CanCreateSurfaces],
            ),
    {
        if !self.is_launched {
            self.is_launched = true;
            self.waker.start();
        }
        self.set_is_running(true);
        self.dispatch_init_events();
        if self.stop_on_launch {
            self.yield_requested = true;
        }
    }

    /// Handles the notification that the application is about to terminate:
    /// the session ends as in [`internal_exit`].
    ///
    /// Must not be called while a handler call is in progress.
    ///
    /// [`internal_exit`]: ApplicationDelegate::internal_exit
    pub fn will_terminate(&mut self)
        requires
            !(old(self)@.handler is InUse),
        ensures
            old(self)@.exited().delivered(final(self)@, seq![Event::Exiting]),
    {
        self.internal_exit();
    }

    /// Installs `handler` as the application handler and hands back the
    /// handler that was installed before, if there was one, so that the
    /// caller can put it back when it is done. While a handler call is in
    /// progress nothing is installed: the delegate stays as it is and hands
    /// `handler` back as an error.
    pub fn set_event_handler(&mut self, handler: H) -> (r: Result<Option<H>, H>)
        ensures
            old(self)@.handler is Empty ==> r == Ok::<Option<H>, H>(None),
            old(self)@.handler matches HandlerState::Idle(previous) ==> r == Ok::<Option<H>, H>(Some(previous)),
            !(old(self)@.handler is InUse) ==> final(self)@ == (DelegateState {
                handler: HandlerState::Idle(handler),
                ..old(self)@
            }),
            old(self)@.handler is InUse ==> r == Err::<Option<H>, H>(handler) && final(self)@ == old(self)@,
    {
        self.event_handler.set(handler)
    }

    /// Removes the application handler and returns it. A delegate whose
    /// handler is in use, or that has none, stays as it is.
    pub fn take_event_handler(&mut self) -> (r: Option<H>)
        ensures
            old(self)@.handler matches HandlerState::Idle(handler) ==> r == Some(handler) && final(self)@ == (
            DelegateState { handler: HandlerState::Empty, ..old(self)@ }),
            !(old(self)@.handler is Idle) ==> r is None && final(self)@ == old(self)@,
    {
        self.event_handler.clear()
    }

    /// Begins a call to the handler that the caller makes itself: takes the
    /// handler out and marks it as in use, until [`end_handle`] brings it
    /// back. Returns `None`, and changes nothing, if no handler is
    /// installed or if a call is already in progress.
    ///
    /// [`end_handle`]: ApplicationDelegate::end_handle
    pub fn begin_handle(&mut self) -> (r: Option<H>)
        ensures
            old(self)@.handler matches HandlerState::Idle(handler) ==> r == Some(handler) && final(self)@ == (
            DelegateState { handler: HandlerState::InUse, ..old(self)@ }),
            !(old(self)@.handler is Idle) ==> r is None && final(self)@ == old(self)@,
    {
        self.event_handler.begin_handle()
    }

    /// Ends the call that [`begin_handle`] began: brings the handler back.
    /// A delegate whose handler is not in use stays as it is and hands
    /// `handler` back.
    ///
    /// [`begin_handle`]: ApplicationDelegate::begin_handle
    pub fn end_handle(&mut self, handler: H) -> (r: Result<(), H>)
        ensures
            old(self)@.handler is InUse ==> r is Ok && final(self)@ == (DelegateState {
                handler: HandlerState::Idle(handler),
                ..old(self)@
            }),
            !(old(self)@.handler is InUse) ==> r == Err::<(), H>(handler) && final(self)@ == old(self)@,
    {
        self.event_handler.end_handle(handler)
    }

    /// Whether a call to the handler is in progress.
    pub fn in_use(&self) -> (r: bool)
        ensures
            r == (self@.handler is InUse),
    {
        self.event_handler.in_use()
    }

    /// Whether a handler is installed at all, at rest or in use.
    pub fn ready(&self) -> (r: bool)
        ensures
            r == !(self@.handler is Empty),
    {
        self.event_handler.ready()
    }

    /// The part of the event loop that the handler may change.
    pub fn active_event_loop(&mut self) -> (event_loop: &mut ActiveEventLoop)
        ensures
            event_loop@ == old(self)@.event_loop,
            final(self)@ == (DelegateState { event_loop: final(event_loop)@, ..old(self)@ }),
    {
        &mut self.event_loop
    }

    /// The flag that any thread may set to have the application woken. The
    /// delegate consumes it when the run loop is about to sleep.
    pub fn proxy_wake_up(&self) -> (flag: Arc<AtomicBool>)
        ensures
            flag == self@.proxy_wake_up,
    {
        self.proxy_wake_up.clone()
    }

    /// Makes the run loop yield once the launch is handled. This is how a
    /// caller that pumps the loop gets control back after the first step.
    pub fn set_stop_on_launch(&mut self)
        ensures
            final(self)@ == (DelegateState { stop_on_launch: true, ..old(self)@ }),
    {
        self.stop_on_launch = true;
    }

    /// Sets whether the run loop yields instead of going to sleep.
    pub fn set_stop_before_wait(&mut self, value: bool)
        ensures
            final(self)@ == (DelegateState { stop_before_wait: value, ..old(self)@ }),
    {
        self.stop_before_wait = value;
    }

    /// Sets whether the run loop yields once a wake is handled.
    pub fn set_stop_after_wait(&mut self, value: bool)
        ensures
            final(self)@ == (DelegateState { stop_after_wait: value, ..old(self)@ }),
    {
        self.stop_after_wait = value;
    }

    /// Sets whether the run loop yields once an eager redraw is handled.
    pub fn set_stop_on_redraw(&mut self, value: bool)
        ensures
            final(self)@ == (DelegateState { stop_on_redraw: value, ..old(self)@ }),
    {
        self.stop_on_redraw = value;
    }

    /// Sets the latest instant until which the next sleep may last, or
    /// `None` for no such bound.
    pub fn set_wait_timeout(&mut self, value: Option<Instant>)
        ensures
            final(self)@ == (DelegateState { wait_deadline: value, ..old(self)@ }),
    {
        self.wait_timeout = value;
    }

    /// Ends the session: tells the handler that the loop is exiting, then
    /// clears the running state, every checkpoint and the deadline for the
    /// next sleep.
    ///
    /// That the application has launched is kept, so a later session starts
    /// without launching again.
    ///
    /// Must not be called while a handler call is in progress.
    pub fn internal_exit(&mut self)
        requires
            !(old(self)@.handler is InUse),
        ensures
            old(self)@.exited().delivered(final(self)@, seq![Event::Exiting]),
            final(self)@.is_launched == old(self)@.is_launched,
            !final(self)@.is_running && !final(self)@.stop_on_launch && !final(self)@.stop_before_wait
                && !final(self)@.stop_after_wait && !final(self)@.stop_on_redraw,
            final(self)@.wait_deadline is None,
    {
        self.with_handler(Event::Exiting);
        self.set_is_running(false);
        self.stop_on_launch = false;
        self.set_stop_on_redraw(false);
        self.set_stop_before_wait(false);
        self.set_stop_after_wait(false);
        self.set_wait_timeout(None);
    }

    /// Whether the application has launched.
    pub fn is_launched(&self) -> (value: bool)
        ensures
            value == self@.is_launched,
    {
        self.is_launched
    }

    /// Sets whether a session is active.
    pub fn set_is_running(&mut self, value: bool)
        ensures
            final(self)@ == (DelegateState { is_running: value, ..old(self)@ }),
    {
        self.is_running = value;
    }

    /// Whether a session is active.
    pub fn is_running(&self) -> (value: bool)
        ensures
            value == self@.is_running,
    {
        self.is_running
    }

    /// Asks for the session to end. Nothing stops at once: the request is
    /// seen the next time the loop is about to sleep.
    pub fn exit(&mut self)
        ensures
            final(self)@ == (DelegateState {
                event_loop: EventLoopState { exit_requested: true, ..old(self)@.event_loop },
                ..old(self)@
            }),
    {
        self.event_loop.exit();
    }

    /// Forgets a request to exit, for a new session.
    pub fn clear_exit(&mut self)
        ensures
            final(self)@ == (DelegateState {
                event_loop: EventLoopState { exit_requested: false, ..old(self)@.event_loop },
                ..old(self)@
            }),
    {
        self.event_loop.clear_exit();
    }

    /// Whether the application asked for the session to end.
    pub fn exiting(&self) -> (value: bool)
        ensures
            value == self@.event_loop.exit_requested,
    {
        self.event_loop.exiting()
    }

    /// Sets how eagerly the loop should wake from now on.
    pub fn set_control_flow(&mut self, value: ControlFlow)
        ensures
            final(self)@ == (DelegateState {
                event_loop: EventLoopState { control_flow: value, ..old(self)@.event_loop },
                ..old(self)@
            }),
    {
        self.event_loop.set_control_flow(value);
    }

    /// How eagerly the loop wakes.
    pub fn control_flow(&self) -> (value: ControlFlow)
        ensures
            value == self@.event_loop.control_flow,
    {
        self.event_loop.control_flow()
    }

    /// Tells the delegate whether a panic from inside a handler call is on
    /// its way out. While one is, the wake and sleep notifications are
    /// ignored.
    pub fn set_panicking(&mut self, value: bool)
        ensures
            final(self)@ == (DelegateState { panicking: value, ..old(self)@ }),
    {
        self.panicking = value;
    }

    /// Whether a panic from inside a handler call is on its way out.
    pub fn is_panicking(&self) -> (value: bool)
        ensures
            value == self@.panicking,
    {
        self.panicking
    }

    /// When the last sleep began, if the loop has slept at all.
    pub fn start_time(&self) -> (value: Option<Instant>)
        ensures
            value == self@.last_wait_start,
    {
        self.start_time
    }

    /// What the wake timer is armed for.
    pub fn wake_at(&self) -> (value: WakeAt)
        ensures
            value == self@.waker,
    {
        self.waker.armed()
    }

    /// Whether the run loop has been asked to yield to its caller. The
    /// request is handed out once: it is cleared by this call.
    pub fn take_yield_request(&mut self) -> (requested: bool)
        ensures
            requested == old(self)@.yield_requested,
            final(self)@ == (DelegateState { yield_requested: false, ..old(self)@ }),
    {
        let requested = self.yield_requested;
        self.yield_requested = false;
        requested
    }

    /// Whether the run loop has been asked to wake up. The request is
    /// handed out once: it is cleared by this call.
    pub fn take_wake_request(&mut self) -> (requested: bool)
        ensures
            requested == old(self)@.event_loop.wake_requested,
            final(self)@ == (DelegateState {
                event_loop: EventLoopState { wake_requested: false, ..old(self)@.event_loop },
                ..old(self)@
            }),
    {
        self.event_loop.take_wake_request()
    }

    /// The windows that wait for a redraw, each once, in the order in which
    /// they asked.
    pub fn pending_redraw(&self) -> (ids: Vec<WindowId>)
        ensures
            ids@ == self@.event_loop.pending_redraw,
            ids@.no_duplicates(),
    {
        self.event_loop.pending_redraw()
    }

    /// The events that wait for the call in progress to end, oldest first.
    pub fn deferred(&self) -> (events: Vec<Event>)
        ensures
            events@ == self@.deferred,
    {
        self.deferred.clone()
    }

    fn with_handler(&mut self, event: Event)
        requires
            !(old(self)@.handler is InUse),
        ensures
            old(self)@.delivered(final(self)@, seq![event]),
    {
        match self.event_handler.begin_handle() {
            Some(handler) => {
                let mut handler = handler;
                let ghost handed_in = self.event_loop@;
                deliver(&mut handler, &mut self.event_loop, event);
                let _ = self.event_handler.end_handle(handler);
                proof {
                    let call = Call::of(event, handed_in, self.event_loop@);
                    assert(self@.received() == old(self)@.received().push(call));
                    assert(old(self)@.calls_until(self@) =~= seq![call]);
                    assert(old(self)@.events_until(self@) =~= seq![event]);
                    assert(self@.received() =~= old(self)@.received() + old(self)@.calls_until(self@));
                }
            },
            None => {},
        }
    }

    /// Serves a redraw that the native layer wants now, ahead of the redraws
    /// that wait for the next sleep.
    ///
    /// Such a request may come out of order, from inside a handler call.
    /// Then it is dropped. Otherwise the handler is asked to redraw the
    /// window, and if the run loop is to stop on redraw, it is asked to
    /// yield, so that redraw traffic cannot keep a pumped loop from
    /// returning.
    pub fn handle_redraw(&mut self, window_id: WindowId)
        ensures
            old(self)@.handler is InUse ==> final(self)@ == old(self)@,
            !(old(self)@.handler is InUse) ==> (DelegateState {
                yield_requested: old(self)@.yield_requested || old(self)@.stop_on_redraw,
                ..old(self)@
            }).delivered(final(self)@, seq![Event::redraw(window_id)]),
    {
        if !self.event_handler.in_use() {
            self.with_handler(Event::WindowEvent(window_id, WindowEvent::RedrawRequested));
            if self.stop_on_redraw {
                self.yield_requested = true;
            }
        }
    }

    /// Asks for the window `window_id` to be drawn again before the next
    /// sleep, and for the native run loop to wake up, so that the request
    /// is served promptly even while the loop waits. A window waits at most
    /// once, however often it asks.
    pub fn queue_redraw(&mut self, window_id: WindowId)
        ensures
            final(self)@ == (DelegateState {
                event_loop: old(self)@.event_loop.queue_redraw(window_id),
                ..old(self)@
            }),
            final(self)@.event_loop.pending_redraw.no_duplicates(),
    {
        self.event_loop.request_redraw(window_id);
    }

    /// Makes the call `event` to the handler now, or, if a handler call is
    /// in progress, puts it behind the events that already wait and asks
    /// the native run loop to wake up. The events that wait are delivered by
    /// [`dispatch_deferred`]. Without a handler the event is dropped.
    ///
    /// [`dispatch_deferred`]: ApplicationDelegate::dispatch_deferred
    pub fn maybe_queue_with_handler(&mut self, event: Event)
        ensures
            old(self)@.handler is InUse ==> final(self)@ == old(self)@.defer(event),
            !(old(self)@.handler is InUse) ==> old(self)@.delivered(final(self)@, seq![event]),
    {
        if !self.event_handler.in_use() {
            self.with_handler(event);
        } else {
            self.deferred.push(event);
            self.event_loop.request_wake();
        }
    }

    /// Delivers the events that had to wait for a handler call to end, each
    /// once, oldest first, and leaves none waiting. While a handler call is
    /// in progress nothing is delivered and the events go on waiting.
    /// Without a handler the events are dropped.
    pub fn dispatch_deferred(&mut self)
        ensures
            old(self)@.ran_deferred(final(self)@),
    {
        if self.event_handler.in_use() {
            return;
        }
        let mut events: Vec<Event> = Vec::new();
        std::mem::swap(&mut events, &mut self.deferred);
        let ghost start = self@;
        let mut i: usize = 0;
        while i < events.len()
            invariant
                i <= events.len(),
                !(start.handler is InUse),
                start.delivered(self@, events@.take(i as int)),
            decreases events.len() - i,
        {
            let event = events[i];
            let ghost before = self@;
            self.with_handler(event);
            proof {
                deliveries_add_up(start, before, self@, events@.take(i as int), seq![event]);
                assert(events@.take(i + 1) == events@.take(i as int) + seq![event]);
            }
            i = i + 1;
        }
        proof {
            assert(events@.take(i as int) == events@);
        }
    }

    /// Takes in what arrived while the delegate could not be reached: each
    /// arrival once, in the order of arrival. A redraw request is queued as
    /// by [`queue_redraw`], an event is handled as by
    /// [`maybe_queue_with_handler`].
    ///
    /// [`queue_redraw`]: ApplicationDelegate::queue_redraw
    /// [`maybe_queue_with_handler`]: ApplicationDelegate::maybe_queue_with_handler
    pub fn replay(&mut self, arrivals: LateArrivals)
        ensures
            old(self)@.replayed(final(self)@, arrivals@),
    {
        let arrivals = arrivals.into_vec();
        let mut i: usize = 0;
        while i < arrivals.len()
            invariant
                i <= arrivals.len(),
                old(self)@.replayed(self@, arrivals@.take(i as int)),
            decreases arrivals.len() - i,
        {
            let ghost between = self@;
            match arrivals[i] {
                Late::Redraw(window_id) => self.queue_redraw(window_id),
                Late::Event(event) => self.maybe_queue_with_handler(event),
            }
            proof {
                assert(arrivals@.take(i + 1).drop_last() == arrivals@.take(i as int));
                assert(arrivals@.take(i + 1).last() == arrivals@[i as int]);
                assert(between.arrived(self@, arrivals@[i as int]));
                assert(old(self)@.replayed(between, arrivals@.take(i + 1).drop_last()));
            }
            i = i + 1;
        }
        proof {
            assert(arrivals@.take(i as int) == arrivals@);
        }
    }

    /// Begins a session for the handler: tells it of the first round of
    /// events, then that it may create its surfaces.
    ///
    /// Must not be called while a handler call is in progress.
    pub fn dispatch_init_events(&mut self)
        requires
            !(old(self)@.handler is InUse),
        ensures
            old(self)@.delivered(final(self)@, seq![Event::NewEvents(StartCause::Init), Event::CanCreateSurfaces]),
    {
        self.with_handler(Event::NewEvents(StartCause::Init));
        let ghost begun = self@;
        self.with_handler(Event::CanCreateSurfaces);
        proof {
            deliveries_add_up(
                old(self)@,
                begun,
                self@,
                seq![Event::NewEvents(StartCause::Init)],
                seq![Event::CanCreateSurfaces],
            );
            assert(seq![Event::NewEvents(StartCause::Init)] + seq![Event::CanCreateSurfaces] == seq![
                Event::NewEvents(StartCause::Init),
                Event::CanCreateSurfaces,
            ]);
        }
    }

    /// Handles the notification that the run loop woke up, at `now`.
    ///
    /// Ignored while a panic is on its way out, while no handler is free to
    /// be called, and while no session is active. Otherwise, if the run loop
    /// is to stop after waiting, it is asked to yield; and the handler is
    /// told that a round of events begins, with the cause that the control
    /// flow, the start of the sleep and `now` give.
    ///
    /// A wake that is not ignored must follow a sleep.
    pub fn wakeup(&mut self, now: Instant)
        requires
            !old(self)@.blocked() ==> old(self)@.last_wait_start is Some,
        ensures
            old(self)@.blocked() ==> final(self)@ == old(self)@,
            !old(self)@.blocked() ==> (DelegateState {
                yield_requested: old(self)@.yield_requested || old(self)@.stop_after_wait,
                ..old(self)@
            }).delivered(
                final(self)@,
                seq![
                    Event::NewEvents(
                        StartCause::spec_after_wait(
                            old(self)@.event_loop.control_flow,
                            old(self)@.last_wait_start->0,
                            now,
                        ),
                    ),
                ],
            ),
    {
        if self.panicking || !self.event_handler.ready() || self.event_handler.in_use() || !self.is_running {
            return;
        }
        if self.stop_after_wait {
            self.yield_requested = true;
        }
        let start = self.start_time.unwrap();
        let cause = StartCause::after_wait(self.control_flow(), start, now);
        self.with_handler(Event::NewEvents(cause));
    }

    fn take_proxy_wake(&self) -> bool {
        self.proxy_wake_up.swap(false, Ordering::Relaxed)
    }

    /// Handles the notification that the run loop is about to sleep, at
    /// `now`.
    ///
    /// Ignored while a panic is on its way out, while no handler is free to
    /// be called, and while no session is active. Otherwise the proxy flag
    /// is consumed and the rest is done by [`cleared_with`], for the value
    /// that the flag had.
    ///
    /// [`cleared_with`]: ApplicationDelegate::cleared_with
    pub fn cleared(&mut self, now: Instant)
        ensures
            old(self)@.blocked() ==> final(self)@ == old(self)@,
            !old(self)@.blocked() ==> exists|proxy_woke: bool| #[trigger]
                old(self)@.cleared(final(self)@, proxy_woke, now),
    {
        if self.panicking || !self.event_handler.ready() || self.event_handler.in_use() || !self.is_running {
            return;
        }
        let proxy_woke = self.take_proxy_wake();
        self.cleared_with(proxy_woke, now);
    }

    /// Prepares the sleep of the run loop at `now`, where `proxy_woke` tells
    /// whether another thread asked for the application to be woken.
    ///
    /// Ignored while a panic is on its way out, while no handler is free to
    /// be called, and while no session is active. Otherwise the handler is
    /// told of the proxy wake, if there was one. Then the windows that wait
    /// for a redraw are taken, and the handler is asked to redraw each of
    /// them once: a window that asks again during these calls waits for the
    /// next time. Then the handler is told that the loop is about to sleep,
    /// and [`settle`] decides how the run loop goes on.
    ///
    /// [`settle`]: ApplicationDelegate::settle
    pub fn cleared_with(&mut self, proxy_woke: bool, now: Instant)
        ensures
            old(self)@.blocked() ==> final(self)@ == old(self)@,
            !old(self)@.blocked() ==> old(self)@.cleared(final(self)@, proxy_woke, now),
    {
        if self.panicking || !self.event_handler.ready() || self.event_handler.in_use() || !self.is_running {
            return;
        }
        if proxy_woke {
            self.with_handler(Event::ProxyWakeUp);
        }
        let ghost woken = self@;
        let redraw = self.event_loop.take_pending_redraw();
        let mut i: usize = 0;
        while i < redraw.len()
            invariant
                i <= redraw.len(),
                redraw@ == woken.event_loop.pending_redraw,
                woken.handler is Idle,
                woken.drained().delivered(self@, Event::redraws(redraw@.take(i as int))),
            decreases redraw.len() - i,
        {
            let window_id = redraw[i];
            let ghost before = self@;
            self.with_handler(Event::WindowEvent(window_id, WindowEvent::RedrawRequested));
            proof {
                deliveries_add_up(
                    woken.drained(),
                    before,
                    self@,
                    Event::redraws(redraw@.take(i as int)),
                    seq![Event::redraw(window_id)],
                );
                assert(Event::redraws(redraw@.take(i + 1)) == Event::redraws(redraw@.take(i as int)) + seq![
                    Event::redraw(window_id),
                ]);
            }
            i = i + 1;
        }
        let ghost redrawn = self@;
        self.with_handler(Event::AboutToWait);
        let ghost drawn = self@;
        proof {
            assert(redraw@.take(i as int) == redraw@);
            deliveries_add_up(woken.drained(), redrawn, drawn, Event::redraws(redraw@), seq![Event::AboutToWait]);
            assert(Event::redraws(redraw@) + seq![Event::AboutToWait] == Event::redraws(redraw@).push(
                Event::AboutToWait,
            ));
        }
        self.settle(now);
        proof {
            reveal(DelegateState::cleared_through);
            assert(old(self)@.cleared_through(woken, drawn, self@, proxy_woke, now));
        }
    }

    /// Decides, at `now`, how the run loop goes on once the handler was told
    /// that the loop is about to sleep.
    ///
    /// If the application asked to exit, the run loop is asked to yield and
    /// the session ends as in [`internal_exit`]. If the run loop is to stop
    /// before it sleeps, it is asked to yield. Otherwise the sleep begins at
    /// `now`, and the wake timer is armed for the sooner of the caller's
    /// deadline and the control flow's own, where a missing deadline does
    /// not shorten the other.
    ///
    /// Must not be called while a handler call is in progress.
    ///
    /// [`internal_exit`]: ApplicationDelegate::internal_exit
    pub fn settle(&mut self, now: Instant)
        requires
            !(old(self)@.handler is InUse),
        ensures
            old(self)@.settled(final(self)@, now),
    {
        if self.exiting() {
            self.yield_requested = true;
            self.internal_exit();
        } else if self.stop_before_wait {
            self.yield_requested = true;
        } else {
            self.start_time = Some(now);
            let app_timeout = self.control_flow().deadline(now);
            self.waker.start_at(now, min_timeout(self.wait_timeout, app_timeout));
        }
    }
}

} // verus!
