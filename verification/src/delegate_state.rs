//! The state of the application delegate as contracts see it, the steps
//! that lead from one state to the next, and what holds of them.

use vstd::prelude::*;
use std::sync::atomic::AtomicBool;
use std::sync::Arc;
use crate::active_event_loop::EventLoopState;
use crate::application::ApplicationHandler;
use crate::application::Call;
use crate::event::Event;
use crate::event::StartCause;
use crate::event::WindowId;
use crate::event_handler::HandlerState;
use crate::late::Late;
use crate::launch::ActivationPolicy;
use crate::launch::LaunchPlan;
use crate::main_thread::MainThreadMarker;
use crate::pending_redraw::queued_redraws_are_distinct;
use crate::pending_redraw::redraws_name_each_window;
use crate::pending_redraw::spec_queue_redraws;
use crate::time::spec_min_timeout;
use crate::time::Instant;
use crate::waker::WakeAt;

verus! {

/// What an [`ApplicationDelegate`] holds.
pub struct DelegateState<H> {
    /// The mark of the main thread, on which the delegate lives.
    pub main_thread: MainThreadMarker,
    /// The activation policy to set at launch.
    pub activation_policy: ActivationPolicy,
    /// Whether to build the default menu at launch.
    pub default_menu: bool,
    /// Whether to activate the application at launch even if another one is
    /// active.
    pub activate_ignoring_other_apps: bool,
    /// The flag that other threads set to have the application woken.
    pub proxy_wake_up: Arc<AtomicBool>,
    /// The application handler, if one is installed.
    pub handler: HandlerState<H>,
    /// Whether the run loop yields once the launch is handled.
    pub stop_on_launch: bool,
    /// Whether the run loop yields instead of going to sleep.
    pub stop_before_wait: bool,
    /// Whether the run loop yields once a wake is handled.
    pub stop_after_wait: bool,
    /// Whether the run loop yields once an eager redraw is handled.
    pub stop_on_redraw: bool,
    /// Whether the application has launched.
    pub is_launched: bool,
    /// Whether a session is active.
    pub is_running: bool,
    /// Whether a panic from inside a handler call is on its way out.
    pub panicking: bool,
    /// What the wake timer is armed for.
    pub waker: WakeAt,
    /// When the last sleep began.
    pub last_wait_start: Option<Instant>,
    /// The latest instant until which the next sleep may last, if the
    /// caller that pumps the loop set one.
    pub wait_deadline: Option<Instant>,
    /// Whether the native run loop has been asked to yield to its caller.
    pub yield_requested: bool,
    /// The events that arrived while a handler call was in progress and
    /// that wait for their turn, oldest first.
    pub deferred: Seq<Event>,
    /// The part that the handler may change.
    pub event_loop: EventLoopState,
}

impl<H: ApplicationHandler> DelegateState<H> {
    /// Whether the wake and sleep notifications are ignored: a panic is on
    /// its way out, no handler is free to be called, or no session is
    /// active.
    pub open spec fn blocked(self) -> bool {
        self.panicking || !(self.handler is Idle) || !self.is_running
    }

    /// The calls that the installed handler has on its record. While no
    /// handler is at rest in the delegate there is no record to speak of.
    pub open spec fn received(self) -> Seq<Call> {
        match self.handler {
            HandlerState::Idle(handler) => handler.received(),
            _ => Seq::empty(),
        }
    }

    /// The calls that the handler received between this state and the
    /// later state `after`: what its record holds beyond what it held.
    pub open spec fn calls_until(self, after: DelegateState<H>) -> Seq<Call> {
        after.received().skip(self.received().len() as int)
    }

    /// What the calls between this state and the later state `after` were
    /// for, in the order in which they were made.
    pub open spec fn events_until(self, after: DelegateState<H>) -> Seq<Event> {
        Call::events(self.calls_until(after))
    }

    /// Whether `after` is this state after the delegate made the calls
    /// `events` to the handler, one after the other.
    ///
    /// The handler has these calls, and no others, on its record beyond
    /// what it had. The first call found the event loop as it is in this
    /// state, each later call found it as the call before had left it, and
    /// `after` has the event loop as the last call left it: the delegate
    /// did not touch it in between. What the handler did during the calls,
    /// to itself and to the event loop, is open. Nothing else has changed.
    /// Without a handler that is free to be called, no call is made and
    /// nothing changes.
    pub open spec fn delivered(self, after: DelegateState<H>, events: Seq<Event>) -> bool {
        &&& after == (DelegateState { handler: after.handler, event_loop: after.event_loop, ..self })
        &&& if self.handler is Idle && events.len() > 0 {
            &&& after.handler is Idle
            &&& after.received() == self.received() + self.calls_until(after)
            &&& self.events_until(after) == events
            &&& Call::chained(self.event_loop, self.calls_until(after), after.event_loop)
        } else {
            after.handler == self.handler && after.event_loop == self.event_loop
        }
    }

    /// The native work that is due before the launch is handled: none once
    /// the application has launched.
    pub open spec fn launch_plan(self) -> Option<LaunchPlan> {
        if self.is_launched {
            None
        } else {
            Some(
                LaunchPlan {
                    activation_policy: self.activation_policy,
                    activate_ignoring_other_apps: self.activate_ignoring_other_apps,
                    default_menu: self.default_menu,
                },
            )
        }
    }

    /// This state with the launch recorded and a session begun: the
    /// application has launched and is running, the wake scheduler is
    /// started if this is the first launch, and the run loop is asked to
    /// yield if it is to stop on launch.
    pub open spec fn launched(self) -> DelegateState<H> {
        DelegateState {
            is_launched: true,
            is_running: true,
            waker: if self.is_launched {
                self.waker
            } else {
                WakeAt::Immediately
            },
            yield_requested: self.yield_requested || self.stop_on_launch,
            ..self
        }
    }

    /// This state with the session ended: not running, no checkpoint set, no
    /// deadline for the next sleep. Whether the application has launched is
    /// kept.
    pub open spec fn exited(self) -> DelegateState<H> {
        DelegateState {
            is_running: false,
            stop_on_launch: false,
            stop_before_wait: false,
            stop_after_wait: false,
            stop_on_redraw: false,
            wait_deadline: None,
            ..self
        }
    }

    /// This state with `event` put behind the events that wait for the
    /// handler call in progress to end, and with the native run loop asked
    /// to wake up.
    pub open spec fn defer(self, event: Event) -> DelegateState<H> {
        DelegateState {
            deferred: self.deferred.push(event),
            event_loop: EventLoopState { wake_requested: true, ..self.event_loop },
            ..self
        }
    }

    /// This state with the events `events` put, one after the other, behind
    /// the events that wait.
    pub open spec fn defer_all(self, events: Seq<Event>) -> DelegateState<H>
        decreases events.len(),
    {
        if events.len() == 0 {
            self
        } else {
            self.defer_all(events.drop_last()).defer(events.last())
        }
    }

    /// Whether `after` is this state after the events that waited were
    /// delivered: each once, oldest first, with none left waiting. While a
    /// handler call is in progress nothing is delivered and the events go on
    /// waiting. Without a handler the events are dropped.
    pub open spec fn ran_deferred(self, after: DelegateState<H>) -> bool {
        if self.handler is InUse {
            after == self
        } else {
            (DelegateState { deferred: Seq::empty(), ..self }).delivered(after, self.deferred)
        }
    }

    /// This state after a redraw was asked for each window of `requests`,
    /// in turn.
    pub open spec fn queue_redraws(self, requests: Seq<WindowId>) -> DelegateState<H>
        decreases requests.len(),
    {
        if requests.len() == 0 {
            self
        } else {
            let earlier = self.queue_redraws(requests.drop_last());
            DelegateState { event_loop: earlier.event_loop.queue_redraw(requests.last()), ..earlier }
        }
    }

    /// This state with no window waiting for a redraw.
    pub open spec fn drained(self) -> DelegateState<H> {
        DelegateState { event_loop: self.event_loop.drained(), ..self }
    }

    /// Whether `after` is this state after the delegate decided, at `now`,
    /// how the run loop goes on once the handler was told that the loop is
    /// about to sleep.
    ///
    /// If the application asked to exit, the run loop is asked to yield and
    /// the session ends, with a last call to the handler. If the run loop is
    /// to stop before it sleeps, it is asked to yield. Otherwise the sleep
    /// begins at `now` and the wake timer is armed for the sooner of the
    /// caller's deadline and the control flow's own.
    pub open spec fn settled(self, after: DelegateState<H>, now: Instant) -> bool {
        if self.event_loop.exit_requested {
            (DelegateState { yield_requested: true, ..self }).exited().delivered(after, seq![Event::Exiting])
        } else if self.stop_before_wait {
            after == (DelegateState { yield_requested: true, ..self })
        } else {
            after == (DelegateState {
                last_wait_start: Some(now),
                waker: WakeAt::for_deadline(
                    now,
                    spec_min_timeout(self.wait_deadline, self.event_loop.control_flow.spec_deadline(now)),
                ),
                ..self
            })
        }
    }

    /// Whether the delegate went from this state through `woken` and `drawn`
    /// to `after` when the run loop was about to sleep at `now`: it told the
    /// handler of the proxy wake, if there was one, which led to `woken`;
    /// it then took the windows that waited for a redraw, asked the handler
    /// to redraw each of them once and told it that the loop is about to
    /// sleep, which led to `drawn`; and it settled how the run loop goes on.
    #[verifier::opaque]
    pub open spec fn cleared_through(
        self,
        woken: DelegateState<H>,
        drawn: DelegateState<H>,
        after: DelegateState<H>,
        proxy_woke: bool,
        now: Instant,
    ) -> bool {
        &&& self.delivered(
            woken,
            if proxy_woke {
                seq![Event::ProxyWakeUp]
            } else {
                Seq::empty()
            },
        )
        &&& woken.event_loop.pending_redraw.no_duplicates()
        &&& woken.drained().delivered(
            drawn,
            Event::redraws(woken.event_loop.pending_redraw).push(Event::AboutToWait),
        )
        &&& drawn.settled(after, now)
    }

    /// Whether `after` is this state after the late arrival `late` was
    /// taken in: a redraw request is queued, and an event is delivered to
    /// the handler, or put behind the events that wait if a handler call is
    /// in progress.
    pub open spec fn arrived(self, after: DelegateState<H>, late: Late) -> bool {
        match late {
            Late::Redraw(window_id) => after == (DelegateState {
                event_loop: self.event_loop.queue_redraw(window_id),
                ..self
            }),
            Late::Event(event) => if self.handler is InUse {
                after == self.defer(event)
            } else {
                self.delivered(after, seq![event])
            },
        }
    }

    /// Whether `after` is this state after the late arrivals `arrivals`
    /// were taken in, each once, in the order in which they arrived.
    pub open spec fn replayed(self, after: DelegateState<H>, arrivals: Seq<Late>) -> bool
        decreases arrivals.len(),
    {
        if arrivals.len() == 0 {
            after == self
        } else {
            exists|between: DelegateState<H>|
                self.replayed(between, arrivals.drop_last()) && #[trigger] between.arrived(after, arrivals.last())
        }
    }

    /// Whether the handler received, between this state and `after`, the
    /// calls of one preparation of a sleep, each on the event loop as the
    /// call before left it, with the windows taken once in between, and
    /// `after` is what the decision on the last of them gives.
    pub open spec fn cleared_steps(self, after: DelegateState<H>, proxy_woke: bool, now: Instant) -> bool {
        let before = self;
        let calls = before.calls_until(after);
        let first = if proxy_woke {
            1int
        } else {
            0int
        };
        let found = if proxy_woke {
            calls[0].handed_back
        } else {
            before.event_loop
        };
        let windows = found.pending_redraw;
        let about = first + windows.len();
        let left = calls[about].handed_back;
        let last = if left.exit_requested {
            seq![Event::Exiting]
        } else {
            Seq::empty()
        };
        &&& after.handler is Idle
        &&& after.received() == before.received() + calls
        &&& windows.no_duplicates()
        &&& calls.len() == about + 1 + last.len()
        &&& Call::events(calls) == (if proxy_woke {
            seq![Event::ProxyWakeUp]
        } else {
            Seq::empty()
        }) + Event::redraws(windows).push(Event::AboutToWait) + last
        &&& proxy_woke ==> calls[0].handed_in == before.event_loop
        &&& calls[first].handed_in == found.drained()
        &&& forall|i: int| first < i < calls.len() ==> (#[trigger] calls[i]).handed_in == calls[i - 1].handed_back
        &&& after.event_loop == calls.last().handed_back
        &&& if left.exit_requested {
            after == (DelegateState {
                handler: after.handler,
                event_loop: after.event_loop,
                yield_requested: true,
                ..before.exited()
            })
        } else if before.stop_before_wait {
            after == (DelegateState {
                handler: after.handler,
                event_loop: left,
                yield_requested: true,
                ..before
            })
        } else {
            after == (DelegateState {
                handler: after.handler,
                event_loop: left,
                last_wait_start: Some(now),
                waker: WakeAt::for_deadline(
                    now,
                    spec_min_timeout(before.wait_deadline, left.control_flow.spec_deadline(now)),
                ),
                ..before
            })
        }
    }

    /// Whether `after` is this state after the run loop was about to sleep
    /// at `now`, with `proxy_woke` telling whether another thread had asked
    /// for the application to be woken.
    pub open spec fn cleared(self, after: DelegateState<H>, proxy_woke: bool, now: Instant) -> bool {
        exists|woken: DelegateState<H>, drawn: DelegateState<H>| #[trigger]
            self.cleared_through(woken, drawn, after, proxy_woke, now)
    }
}

/// Calls made in a row on one event loop stay in a row when they are put
/// together: if `first` led from `start` to `between` and `then` led from
/// `between` to `end`, then `first` followed by `then` led from `start` to
/// `end`.
pub proof fn chains_add_up(
    start: EventLoopState,
    between: EventLoopState,
    end: EventLoopState,
    first: Seq<Call>,
    then: Seq<Call>,
)
    requires
        Call::chained(start, first, between),
        Call::chained(between, then, end),
    ensures
        Call::chained(start, first + then, end),
        Call::events(first + then) == Call::events(first) + Call::events(then),
{
    let all = first + then;
    assert(Call::events(all) =~= Call::events(first) + Call::events(then));
    if first.len() == 0 {
        assert(all =~= then);
    } else if then.len() == 0 {
        assert(all =~= first);
    } else {
        assert forall|i: int| 0 < i < all.len() implies (#[trigger] all[i]).handed_in == all[i - 1].handed_back by {
            if i < first.len() {
                assert(all[i] == first[i]);
            } else if i == first.len() {
                assert(all[i] == then[0]);
                assert(all[i - 1] == first.last());
            } else {
                assert(all[i] == then[i - first.len()]);
                assert(all[i - 1] == then[i - first.len() - 1]);
            }
        }
        assert(all.last() == then.last());
        assert(all[0] == first[0]);
    }
}

/// What a step of calls to a handler at rest amounts to: the handler is at
/// rest again, its record has grown by the calls of the step and by nothing
/// else, the calls were for the events of the step, and they were made in a
/// row on the event loop.
pub proof fn delivered_calls<H: ApplicationHandler>(
    before: DelegateState<H>,
    after: DelegateState<H>,
    events: Seq<Event>,
)
    requires
        before.handler is Idle,
        before.delivered(after, events),
    ensures
        after.handler is Idle,
        after.received() == before.received() + before.calls_until(after),
        before.events_until(after) == events,
        before.calls_until(after).len() == events.len(),
        Call::chained(before.event_loop, before.calls_until(after), after.event_loop),
{
    if events.len() == 0 {
        assert(before.calls_until(after) =~= Seq::<Call>::empty());
        assert(after.received() =~= before.received() + before.calls_until(after));
        assert(before.events_until(after) =~= events);
    } else {
        assert(Call::events(before.calls_until(after)).len() == events.len());
    }
}

/// Calls made one after the other add up: if `first` led from `before` to
/// `between` and `then` led from `between` to `after`, then `first`
/// followed by `then` led from `before` to `after`.
pub proof fn deliveries_add_up<H: ApplicationHandler>(
    before: DelegateState<H>,
    between: DelegateState<H>,
    after: DelegateState<H>,
    first: Seq<Event>,
    then: Seq<Event>,
)
    requires
        before.delivered(between, first),
        between.delivered(after, then),
    ensures
        before.delivered(after, first + then),
{
    if before.handler is Idle {
        delivered_calls(before, between, first);
        delivered_calls(between, after, then);
        let c1 = before.calls_until(between);
        let c2 = between.calls_until(after);
        assert(after.received() =~= before.received() + (c1 + c2));
        assert(before.calls_until(after) =~= c1 + c2);
        chains_add_up(before.event_loop, between.event_loop, after.event_loop, c1, c2);
        assert(before.events_until(after) =~= first + then);
        assert(after.received() =~= before.received() + before.calls_until(after));
        if first.len() == 0 && then.len() == 0 {
            assert(between == before);
            assert(after.handler == between.handler);
        }
    } else {
        assert(first.len() == 0 ==> first + then =~= then);
        assert(then.len() == 0 ==> first + then =~= first);
    }
}

/// Deferring events changes what waits and asks for a wake, and nothing
/// else: no call is made and the call in progress stays in progress.
pub proof fn deferring_keeps_the_call<H: ApplicationHandler>(busy: DelegateState<H>, events: Seq<Event>)
    ensures
        busy.defer_all(events) == (DelegateState {
            deferred: busy.deferred + events,
            event_loop: EventLoopState {
                wake_requested: busy.event_loop.wake_requested || events.len() > 0,
                ..busy.event_loop
            },
            ..busy
        }),
    decreases events.len(),
{
    if events.len() == 0 {
        assert(busy.deferred + events == busy.deferred);
    } else {
        deferring_keeps_the_call(busy, events.drop_last());
        assert((busy.deferred + events.drop_last()).push(events.last()) == busy.deferred + events);
    }
}

/// Once the application has launched it stays launched: no step of the
/// delegate other than the launch itself changes whether it has.
pub proof fn launch_is_never_undone<H: ApplicationHandler>(
    before: DelegateState<H>,
    after: DelegateState<H>,
    events: Seq<Event>,
    event: Event,
    proxy_woke: bool,
    now: Instant,
)
    requires
        before.delivered(after, events) || before.settled(after, now) || before.cleared(after, proxy_woke, now)
            || before.ran_deferred(after) || after == before.exited() || after == before.defer(event),
    ensures
        after.is_launched == before.is_launched,
{
    reveal(DelegateState::cleared_through);
    if before.cleared(after, proxy_woke, now) {
        let (woken, drawn) = choose|woken: DelegateState<H>, drawn: DelegateState<H>| #[trigger]
            before.cleared_through(woken, drawn, after, proxy_woke, now);
    }
}

/// Ending a session clears the running state, all four checkpoints and the
/// deadline for the next sleep, and keeps whether the application has
/// launched, so that a launched application has no launch work left after
/// the session.
pub proof fn exit_keeps_the_launch<H: ApplicationHandler>(before: DelegateState<H>, after: DelegateState<H>)
    requires
        before.exited().delivered(after, seq![Event::Exiting]),
    ensures
        after.is_launched == before.is_launched,
        before.is_launched ==> after.launch_plan() is None,
        !after.is_running,
        !after.stop_on_launch,
        !after.stop_before_wait,
        !after.stop_after_wait,
        !after.stop_on_redraw,
        after.wait_deadline is None,
        after.waker == before.waker,
        after.last_wait_start == before.last_wait_start,
{
}

/// The work of the launch is done once: after a launch no launch work is
/// due, and a launch of an application that has launched before begins a
/// session and leaves the wake scheduler as it was.
pub proof fn launch_work_is_done_once<H: ApplicationHandler>(before: DelegateState<H>, after: DelegateState<H>)
    requires
        before.launched().delivered(after, seq![Event::NewEvents(StartCause::Init), Event::CanCreateSurfaces]),
    ensures
        after.is_launched,
        after.is_running,
        after.launch_plan() is None,
        before.is_launched ==> before.launch_plan() is None && after.waker == before.waker,
        !before.is_launched ==> before.launch_plan() is Some && after.waker == WakeAt::Immediately,
{
}

/// Asking for redraws changes which windows wait and asks for a wake, and
/// nothing else.
pub proof fn queueing_redraws_keeps_the_rest<H: ApplicationHandler>(before: DelegateState<H>, requests: Seq<WindowId>)
    ensures
        before.queue_redraws(requests) == (DelegateState {
            event_loop: EventLoopState {
                pending_redraw: spec_queue_redraws(before.event_loop.pending_redraw, requests),
                wake_requested: before.event_loop.wake_requested || requests.len() > 0,
                ..before.event_loop
            },
            ..before
        }),
    decreases requests.len(),
{
    if requests.len() > 0 {
        queueing_redraws_keeps_the_rest(before, requests.drop_last());
    }
}

/// A run loop that is to stop before it sleeps is asked to yield when it is
/// about to sleep, whether or not the session goes on; the sleep does not
/// begin and the wake timer is left as it was.
pub proof fn stop_before_wait_yields<H: ApplicationHandler>(
    before: DelegateState<H>,
    after: DelegateState<H>,
    proxy_woke: bool,
    now: Instant,
)
    requires
        !before.blocked(),
        before.stop_before_wait,
        before.cleared(after, proxy_woke, now),
    ensures
        after.yield_requested,
        after.waker == before.waker,
        after.last_wait_start == before.last_wait_start,
        after.is_running ==> !after.event_loop.exit_requested && after.stop_before_wait,
{
    reveal(DelegateState::cleared_through);
    let (woken, drawn) = choose|woken: DelegateState<H>, drawn: DelegateState<H>| #[trigger]
        before.cleared_through(woken, drawn, after, proxy_woke, now);
}


/// At most one handler call is in progress: events that arrive during a
/// call are not delivered inside it. They wait, in the order in which they
/// arrived, behind the events that waited already, and once the call has
/// ended the handler is called for each of them exactly once, in that
/// order, and none is left waiting.
///
/// `busy` is a state in which a call is in progress, `events` arrive during
/// it, the call ends and brings back `handler`, and `after` is the state
/// once the waiting events were delivered.
pub proof fn deferred_events_run_once_in_order<H: ApplicationHandler>(
    busy: DelegateState<H>,
    events: Seq<Event>,
    handler: H,
    after: DelegateState<H>,
)
    requires
        busy.handler is InUse,
        (DelegateState { handler: HandlerState::Idle(handler), ..busy.defer_all(events) }).ran_deferred(after),
    ensures
        busy.defer_all(events).handler is InUse,
        busy.defer_all(events).deferred == busy.deferred + events,
        after.handler matches HandlerState::Idle(called) && called.received() == handler.received() + (
        DelegateState { handler: HandlerState::Idle(handler), ..busy }).calls_until(after),
        Call::events((DelegateState { handler: HandlerState::Idle(handler), ..busy }).calls_until(after))
            == busy.deferred + events,
        after.deferred.len() == 0,
{
    deferring_keeps_the_call(busy, events);
    let ended = DelegateState { handler: HandlerState::Idle(handler), ..busy.defer_all(events) };
    let emptied = DelegateState { deferred: Seq::empty(), ..ended };
    delivered_calls(emptied, after, ended.deferred);
    assert(emptied.received() == handler.received());
    assert((DelegateState { handler: HandlerState::Idle(handler), ..busy }).received() == handler.received());
}

/// Calls that are made in a row and that each leave the event loop as they
/// found it leave it, together, as the first of them found it.
pub proof fn quiet_chain_keeps_the_loop(start: EventLoopState, calls: Seq<Call>, end: EventLoopState)
    requires
        Call::chained(start, calls, end),
        Call::quiet(calls),
    ensures
        end == start,
        forall|i: int| 0 <= i < calls.len() ==> (#[trigger] calls[i]).handed_in == start,
    decreases calls.len(),
{
    if calls.len() > 0 {
        let earlier = calls.drop_last();
        if earlier.len() == 0 {
            assert(calls.last() == calls[0]);
        } else {
            assert(Call::chained(start, earlier, calls.last().handed_in)) by {
                assert(earlier[0] == calls[0]);
                assert forall|i: int| 0 < i < earlier.len() implies (#[trigger] earlier[i]).handed_in == earlier[i
                    - 1].handed_back by {
                    assert(earlier[i] == calls[i]);
                    assert(earlier[i - 1] == calls[i - 1]);
                }
                assert(calls[calls.len() - 1].handed_in == calls[calls.len() - 2].handed_back);
                assert(earlier.last() == calls[calls.len() - 2]);
            }
            assert(Call::quiet(earlier)) by {
                assert forall|i: int| 0 <= i < earlier.len() implies (#[trigger] earlier[i]).handed_back
                    == earlier[i].handed_in by {
                    assert(earlier[i] == calls[i]);
                }
            }
            quiet_chain_keeps_the_loop(start, earlier, calls.last().handed_in);
            assert forall|i: int| 0 <= i < calls.len() implies (#[trigger] calls[i]).handed_in == start by {
                if i < earlier.len() {
                    assert(earlier[i] == calls[i]);
                }
            }
        }
    }
}

/// A step of calls to the handler changes the event loop only through the
/// handler: the first call finds the event loop as the delegate had it, and
/// the delegate is left with what the last call handed back. So if every
/// call of the step leaves the event loop as it found it, the step leaves
/// the control flow, the request to exit and the windows that wait for a
/// redraw as they were.
pub proof fn calls_hand_the_loop_on<H: ApplicationHandler>(
    before: DelegateState<H>,
    after: DelegateState<H>,
    events: Seq<Event>,
)
    requires
        before.handler is Idle,
        events.len() > 0,
        before.delivered(after, events),
    ensures
        before.calls_until(after).len() == events.len(),
        before.calls_until(after)[0].handed_in == before.event_loop,
        after.event_loop == before.calls_until(after).last().handed_back,
        Call::quiet(before.calls_until(after)) ==> after.event_loop == before.event_loop,
{
    delivered_calls(before, after, events);
    if Call::quiet(before.calls_until(after)) {
        quiet_chain_keeps_the_loop(before.event_loop, before.calls_until(after), after.event_loop);
    }
}

/// What the preparation of a sleep comes to, call by call, whatever the
/// handler does.
///
/// The handler receives, beyond what it had on record: the proxy wake if
/// there was one; then one redraw request for each window that waited when
/// the windows were taken, which is after the proxy wake; then the notice
/// that the loop is about to sleep; and, if the application had asked to
/// exit by then, the notice that the session ends.
///
/// The delegate touches the event loop once: it takes the windows that wait
/// before the first redraw request. Apart from that every call finds the
/// event loop as the call before left it, and the delegate is left with
/// what the last call handed back. How the run loop goes on is decided on
/// what the about-to-wait call handed back.
#[verifier::rlimit(100)]
pub proof fn cleared_step_by_step<H: ApplicationHandler>(
    before: DelegateState<H>,
    after: DelegateState<H>,
    proxy_woke: bool,
    now: Instant,
)
    requires
        !before.blocked(),
        before.cleared(after, proxy_woke, now),
    ensures
        before.cleared_steps(after, proxy_woke, now),
{
    let (woken, drawn) = choose|woken: DelegateState<H>, drawn: DelegateState<H>| #[trigger]
        before.cleared_through(woken, drawn, after, proxy_woke, now);
    cleared_parts(before, woken, drawn, after, proxy_woke, now);
    cleared_frame(before, woken, drawn, after, proxy_woke, now);
    let c1 = before.calls_until(woken);
    let c2 = woken.calls_until(drawn);
    let c3 = drawn.calls_until(after);
    three_chains(
        c1,
        c2,
        c3,
        before.event_loop,
        woken.event_loop,
        woken.event_loop.drained(),
        drawn.event_loop,
        after.event_loop,
    );
    let calls = before.calls_until(after);
    assert(calls == c1 + c2 + c3);
    let first = if proxy_woke {
        1int
    } else {
        0int
    };
    assert(c1.len() == first);
    let found = if proxy_woke {
        calls[0].handed_back
    } else {
        before.event_loop
    };
    assert(found == woken.event_loop);
    let about = first + found.pending_redraw.len();
    assert(about == first + c2.len() - 1);
    assert(calls[about].handed_back == drawn.event_loop);
}

/// The calls of three steps that follow one another, put together: each
/// call but the first of the second step finds the event loop as the call
/// before left it.
proof fn three_chains(
    c1: Seq<Call>,
    c2: Seq<Call>,
    c3: Seq<Call>,
    start: EventLoopState,
    woken: EventLoopState,
    drained: EventLoopState,
    drawn: EventLoopState,
    end: EventLoopState,
)
    requires
        Call::chained(start, c1, woken),
        Call::chained(drained, c2, drawn),
        Call::chained(drawn, c3, end),
        c1.len() <= 1,
        c2.len() >= 1,
        c3.len() <= 1,
    ensures
        ({
            let calls = c1 + c2 + c3;
            let first = c1.len() as int;
            &&& calls.len() == c1.len() + c2.len() + c3.len()
            &&& c1.len() == 1 ==> calls[0].handed_in == start && calls[0].handed_back == woken
            &&& c1.len() == 0 ==> woken == start
            &&& calls[first].handed_in == drained
            &&& calls[first + c2.len() - 1].handed_back == drawn
            &&& forall|i: int| first < i < calls.len() ==> (#[trigger] calls[i]).handed_in == calls[i - 1].handed_back
            &&& calls.last().handed_back == end
            &&& Call::events(calls) == Call::events(c1) + Call::events(c2) + Call::events(c3)
        }),
{
    let calls = c1 + c2 + c3;
    let first = c1.len() as int;
    assert(Call::events(calls) =~= Call::events(c1) + Call::events(c2) + Call::events(c3));
    assert(calls[first] == c2[0]);
    assert(calls[first + c2.len() - 1] == c2.last());
    if c1.len() == 1 {
        assert(calls[0] == c1[0]);
        assert(c1.last() == c1[0]);
    }
    assert forall|i: int| first < i < calls.len() implies (#[trigger] calls[i]).handed_in == calls[i
        - 1].handed_back by {
        if i < first + c2.len() {
            assert(calls[i] == c2[i - first]);
            assert(calls[i - 1] == c2[i - first - 1]);
        } else {
            assert(calls[i] == c3[0]);
            assert(calls[i - 1] == c2.last());
        }
    }
    if c3.len() > 0 {
        assert(calls.last() == c3[0]);
        assert(c3.last() == c3[0]);
    } else {
        assert(calls.last() == c2.last());
    }
}

/// Records that grow step by step: what was added in three steps is what
/// the last record holds beyond the first.
proof fn records_add_up(r0: Seq<Call>, r1: Seq<Call>, r2: Seq<Call>, r3: Seq<Call>)
    requires
        r1 == r0 + r1.skip(r0.len() as int),
        r2 == r1 + r2.skip(r1.len() as int),
        r3 == r2 + r3.skip(r2.len() as int),
    ensures
        r3.skip(r0.len() as int) == r1.skip(r0.len() as int) + r2.skip(r1.len() as int) + r3.skip(r2.len() as int),
        r3 == r0 + r3.skip(r0.len() as int),
{
    let c1 = r1.skip(r0.len() as int);
    let c2 = r2.skip(r1.len() as int);
    let c3 = r3.skip(r2.len() as int);
    assert(r3 =~= r0 + (c1 + c2 + c3));
    assert(r3.skip(r0.len() as int) =~= c1 + c2 + c3);
    assert(r3 =~= r0 + r3.skip(r0.len() as int));
}

/// The three steps of the preparation of a sleep, each with the calls that
/// the handler received in it.
#[verifier::rlimit(50)]
proof fn cleared_parts<H: ApplicationHandler>(
    before: DelegateState<H>,
    woken: DelegateState<H>,
    drawn: DelegateState<H>,
    after: DelegateState<H>,
    proxy_woke: bool,
    now: Instant,
)
    requires
        !before.blocked(),
        before.cleared_through(woken, drawn, after, proxy_woke, now),
    ensures
        after.handler is Idle,
        ({
            let c1 = before.calls_until(woken);
            let c2 = woken.calls_until(drawn);
            let c3 = drawn.calls_until(after);
            let windows = woken.event_loop.pending_redraw;
            &&& before.calls_until(after) == c1 + c2 + c3
            &&& after.received() == before.received() + before.calls_until(after)
            &&& windows.no_duplicates()
            &&& c1.len() == (if proxy_woke {
                1int
            } else {
                0int
            })
            &&& c2.len() == windows.len() + 1
            &&& c3.len() == (if drawn.event_loop.exit_requested {
                1int
            } else {
                0int
            })
            &&& Call::events(c1) == (if proxy_woke {
                seq![Event::ProxyWakeUp]
            } else {
                Seq::empty()
            })
            &&& Call::events(c2) == Event::redraws(windows).push(Event::AboutToWait)
            &&& Call::events(c3) == (if drawn.event_loop.exit_requested {
                seq![Event::Exiting]
            } else {
                Seq::empty()
            })
            &&& Call::chained(before.event_loop, c1, woken.event_loop)
            &&& Call::chained(woken.event_loop.drained(), c2, drawn.event_loop)
            &&& Call::chained(drawn.event_loop, c3, after.event_loop)
        }),
{
    reveal(DelegateState::cleared_through);
    let proxy = if proxy_woke {
        seq![Event::ProxyWakeUp]
    } else {
        Seq::empty()
    };
    let windows = woken.event_loop.pending_redraw;
    let told = Event::redraws(windows).push(Event::AboutToWait);
    let ended = (DelegateState { yield_requested: true, ..drawn }).exited();
    delivered_calls(before, woken, proxy);
    delivered_calls(woken.drained(), drawn, told);
    if drawn.event_loop.exit_requested {
        delivered_calls(ended, after, seq![Event::Exiting]);
    } else {
        assert(drawn.calls_until(after) =~= Seq::<Call>::empty());
        assert(Call::events(drawn.calls_until(after)) =~= Seq::<Event>::empty());
        assert(after.received() =~= drawn.received() + drawn.calls_until(after));
    }
    records_add_up(before.received(), woken.received(), drawn.received(), after.received());
}

/// What the three steps of the preparation of a sleep leave of the state in
/// which they began: everything but the handler and the event loop, up to
/// the decision on how the run loop goes on.
proof fn cleared_frame<H: ApplicationHandler>(
    before: DelegateState<H>,
    woken: DelegateState<H>,
    drawn: DelegateState<H>,
    after: DelegateState<H>,
    proxy_woke: bool,
    now: Instant,
)
    requires
        before.cleared_through(woken, drawn, after, proxy_woke, now),
    ensures
        drawn == (DelegateState { handler: drawn.handler, event_loop: drawn.event_loop, ..before }),
        if drawn.event_loop.exit_requested {
            after == (DelegateState {
                handler: after.handler,
                event_loop: after.event_loop,
                yield_requested: true,
                ..before.exited()
            })
        } else if before.stop_before_wait {
            after == (DelegateState {
                handler: after.handler,
                event_loop: drawn.event_loop,
                yield_requested: true,
                ..before
            })
        } else {
            after == (DelegateState {
                handler: after.handler,
                event_loop: drawn.event_loop,
                last_wait_start: Some(now),
                waker: WakeAt::for_deadline(
                    now,
                    spec_min_timeout(before.wait_deadline, drawn.event_loop.control_flow.spec_deadline(now)),
                ),
                ..before
            })
        },
{
    reveal(DelegateState::cleared_through);
}

/// What the preparation of a sleep comes to with a handler that leaves the
/// event loop as it finds it.
///
/// The handler is told of the proxy wake if there was one, is asked to
/// redraw each window that waited, once, and is told that the loop is about
/// to sleep. Afterwards no window waits for a redraw, and the control flow
/// and the request to exit are as they were. If the application had asked
/// to exit, the run loop is asked to yield, the handler is told that the
/// session ends, the session is over and the wake timer is left alone. If
/// not, the run loop is asked to yield or the sleep begins, as the
/// checkpoint says.
pub proof fn cleared_with_a_quiet_handler<H: ApplicationHandler>(
    before: DelegateState<H>,
    after: DelegateState<H>,
    proxy_woke: bool,
    now: Instant,
)
    requires
        !before.blocked(),
        before.cleared(after, proxy_woke, now),
        Call::quiet(before.calls_until(after)),
    ensures
        before.event_loop.pending_redraw.no_duplicates(),
        Event::redraws(before.event_loop.pending_redraw).no_duplicates(),
        before.events_until(after) == (if proxy_woke {
            seq![Event::ProxyWakeUp]
        } else {
            Seq::empty()
        }) + Event::redraws(before.event_loop.pending_redraw).push(Event::AboutToWait) + (if before.event_loop.exit_requested {
            seq![Event::Exiting]
        } else {
            Seq::empty()
        }),
        after.event_loop == before.event_loop.drained(),
        after.event_loop.pending_redraw.len() == 0,
        before.event_loop.exit_requested ==> after.yield_requested && !after.is_running && after.waker == before.waker
            && after.last_wait_start == before.last_wait_start,
        !before.event_loop.exit_requested ==> (DelegateState {
            handler: before.handler,
            event_loop: before.event_loop,
            ..after
        }) == (if before.stop_before_wait {
            DelegateState { yield_requested: true, ..before }
        } else {
            DelegateState {
                last_wait_start: Some(now),
                waker: WakeAt::for_deadline(
                    now,
                    spec_min_timeout(before.wait_deadline, before.event_loop.control_flow.spec_deadline(now)),
                ),
                ..before
            }
        }),
{
    cleared_step_by_step(before, after, proxy_woke, now);
    quiet_steps(before, after, proxy_woke, now);
}

/// The same, from the calls step by step.
#[verifier::rlimit(60)]
proof fn quiet_steps<H: ApplicationHandler>(
    before: DelegateState<H>,
    after: DelegateState<H>,
    proxy_woke: bool,
    now: Instant,
)
    requires
        before.cleared_steps(after, proxy_woke, now),
        Call::quiet(before.calls_until(after)),
    ensures
        before.event_loop.pending_redraw.no_duplicates(),
        Event::redraws(before.event_loop.pending_redraw).no_duplicates(),
        before.events_until(after) == (if proxy_woke {
            seq![Event::ProxyWakeUp]
        } else {
            Seq::empty()
        }) + Event::redraws(before.event_loop.pending_redraw).push(Event::AboutToWait) + (if before.event_loop.exit_requested {
            seq![Event::Exiting]
        } else {
            Seq::empty()
        }),
        after.event_loop == before.event_loop.drained(),
        after.event_loop.pending_redraw.len() == 0,
        before.event_loop.exit_requested ==> after.yield_requested && !after.is_running && after.waker == before.waker
            && after.last_wait_start == before.last_wait_start,
        !before.event_loop.exit_requested ==> (DelegateState {
            handler: before.handler,
            event_loop: before.event_loop,
            ..after
        }) == (if before.stop_before_wait {
            DelegateState { yield_requested: true, ..before }
        } else {
            DelegateState {
                last_wait_start: Some(now),
                waker: WakeAt::for_deadline(
                    now,
                    spec_min_timeout(before.wait_deadline, before.event_loop.control_flow.spec_deadline(now)),
                ),
                ..before
            }
        }),
{
    let calls = before.calls_until(after);
    let first = if proxy_woke {
        1int
    } else {
        0int
    };
    if proxy_woke {
        assert(calls[0].handed_back == calls[0].handed_in);
    }
    let rest = calls.skip(first);
    assert(Call::chained(before.event_loop.drained(), rest, after.event_loop)) by {
        assert(rest[0] == calls[first]);
        assert(rest.last() == calls.last());
        assert forall|i: int| 0 < i < rest.len() implies (#[trigger] rest[i]).handed_in == rest[i - 1].handed_back by {
            assert(rest[i] == calls[first + i]);
            assert(rest[i - 1] == calls[first + i - 1]);
        }
    }
    assert(Call::quiet(rest)) by {
        assert forall|i: int| 0 <= i < rest.len() implies (#[trigger] rest[i]).handed_back == rest[i].handed_in by {
            assert(rest[i] == calls[first + i]);
        }
    }
    quiet_chain_keeps_the_loop(before.event_loop.drained(), rest, after.event_loop);
    let about = first + before.event_loop.pending_redraw.len();
    assert(calls[about] == rest[about - first]);
    assert(calls[about].handed_back == before.event_loop.drained());
    redraws_name_each_window(before.event_loop.pending_redraw);
}

/// However often windows asked for a redraw since the loop last slept:
/// when it is about to sleep again, a handler that leaves the event loop as
/// it finds it is asked to redraw each window that asked, or that waited
/// before, exactly once, and no window waits afterwards.
pub proof fn queued_windows_are_redrawn_once<H: ApplicationHandler>(
    before: DelegateState<H>,
    requests: Seq<WindowId>,
    after: DelegateState<H>,
    proxy_woke: bool,
    now: Instant,
)
    requires
        before.event_loop.pending_redraw.no_duplicates(),
        !before.blocked(),
        before.queue_redraws(requests).cleared(after, proxy_woke, now),
        Call::quiet(before.queue_redraws(requests).calls_until(after)),
    ensures
        ({
            let drawn = Event::redraws(spec_queue_redraws(before.event_loop.pending_redraw, requests));
            &&& drawn.no_duplicates()
            &&& forall|window_id: WindowId| #[trigger]
                drawn.contains(Event::redraw(window_id)) <==> before.event_loop.pending_redraw.contains(window_id)
                    || requests.contains(window_id)
            &&& before.events_until(after) == (if proxy_woke {
                seq![Event::ProxyWakeUp]
            } else {
                Seq::empty()
            }) + drawn.push(Event::AboutToWait) + (if before.event_loop.exit_requested {
                seq![Event::Exiting]
            } else {
                Seq::empty()
            })
            &&& after.event_loop.pending_redraw.len() == 0
        }),
{
    queueing_redraws_keeps_the_rest(before, requests);
    queued_redraws_are_distinct(before.event_loop.pending_redraw, requests);
    cleared_with_a_quiet_handler(before.queue_redraws(requests), after, proxy_woke, now);
    assert(before.queue_redraws(requests).received() == before.received());
}

/// What arrived while the delegate could not be reached is not lost and
/// not doubled: when the arrivals are taken in, a handler at rest is called
/// for each event among them exactly once, in the order of arrival, and
/// every window that asked for a redraw among them waits for it unless the
/// handler decides otherwise.
pub proof fn late_events_are_delivered_in_order<H: ApplicationHandler>(
    before: DelegateState<H>,
    after: DelegateState<H>,
    arrivals: Seq<Late>,
)
    requires
        before.handler is Idle,
        before.replayed(after, arrivals),
    ensures
        after.handler is Idle,
        after.received() == before.received() + before.calls_until(after),
        before.events_until(after) == Late::events(arrivals),
        after.deferred == before.deferred,
        Call::quiet(before.calls_until(after)) ==> after.event_loop.pending_redraw == spec_queue_redraws(
            before.event_loop.pending_redraw,
            Late::redraws(arrivals),
        ),
    decreases arrivals.len(),
{
    if arrivals.len() == 0 {
        assert(before.calls_until(after) =~= Seq::<Call>::empty());
        assert(after.received() =~= before.received() + before.calls_until(after));
        assert(before.events_until(after) =~= Late::events(arrivals));
    } else {
        let between = choose|between: DelegateState<H>|
            before.replayed(between, arrivals.drop_last()) && #[trigger] between.arrived(after, arrivals.last());
        late_events_are_delivered_in_order(before, between, arrivals.drop_last());
        let c1 = before.calls_until(between);
        match arrivals.last() {
            Late::Redraw(window_id) => {
                assert(after.received() == between.received());
                assert(before.calls_until(after) =~= c1);
                assert(Late::redraws(arrivals).drop_last() =~= Late::redraws(arrivals.drop_last()));
                assert(Late::redraws(arrivals).last() == window_id);
            },
            Late::Event(event) => {
                delivered_calls(between, after, seq![event]);
                let c2 = between.calls_until(after);
                assert(after.received() =~= before.received() + (c1 + c2));
                assert(before.calls_until(after) =~= c1 + c2);
                assert(before.events_until(after) =~= Late::events(arrivals.drop_last()) + seq![event]);
                assert(after.received() =~= before.received() + before.calls_until(after));
                if Call::quiet(before.calls_until(after)) {
                    assert(Call::quiet(c1)) by {
                        assert forall|i: int| 0 <= i < c1.len() implies (#[trigger] c1[i]).handed_back
                            == c1[i].handed_in by {
                            assert(c1[i] == before.calls_until(after)[i]);
                        }
                    }
                    assert(Call::quiet(c2)) by {
                        assert forall|i: int| 0 <= i < c2.len() implies (#[trigger] c2[i]).handed_back
                            == c2[i].handed_in by {
                            assert(c2[i] == before.calls_until(after)[c1.len() + i]);
                        }
                    }
                    quiet_chain_keeps_the_loop(between.event_loop, c2, after.event_loop);
                    assert(Late::redraws(arrivals) == Late::redraws(arrivals.drop_last()));
                }
            },
        }
    }
}

} // verus!
