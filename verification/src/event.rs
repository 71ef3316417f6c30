//! The values that travel between the delegate and the application handler.

use vstd::prelude::*;
use crate::time::Instant;

verus! {

/// Names one window of the application.
#[derive(Clone, Copy, PartialEq, Eq, Structural, Debug, Hash)]
pub struct WindowId(pub u64);

impl WindowId {
    /// The identifier that stands for the raw native value `raw`.
    pub fn from_raw(raw: u64) -> (id: WindowId)
        ensures
            id == WindowId(raw),
    {
        WindowId(raw)
    }

    /// The raw native value behind this identifier.
    pub fn into_raw(self) -> (raw: u64)
        ensures
            raw == self.0,
    {
        self.0
    }
}

/// Something that happened to one window.
///
/// The delegate issues `RedrawRequested` itself; the other events come from
/// the native window and pass through the delegate unread.
#[derive(Clone, Copy, PartialEq, Eq, Structural, Debug)]
pub enum WindowEvent {
    /// The window's contents should be drawn again.
    RedrawRequested,
    /// The user asked for the window to be closed.
    CloseRequested,
    /// The window is gone.
    Destroyed,
    /// The window gained (`true`) or lost (`false`) the input focus.
    Focused(bool),
    /// The window became fully hidden (`true`) or visible again (`false`).
    Occluded(bool),
    /// The window's surface has a new size, in physical pixels.
    SurfaceResized { width: u32, height: u32 },
    /// The window has a new position, in physical pixels.
    Moved { x: i32, y: i32 },
}

/// How eagerly the application wants the loop to wake between dispatches.
#[derive(Clone, Copy, PartialEq, Eq, Structural, Debug)]
pub enum ControlFlow {
    /// Wake again at once, whether or not anything happened.
    Poll,
    /// Sleep until something outside the application wakes the loop.
    Wait,
    /// Sleep until the given instant, or until something wakes the loop
    /// before it.
    WaitUntil(Instant),
}

impl Default for ControlFlow {
    /// The control flow of a fresh event loop is `Wait`.
    fn default() -> (c: ControlFlow)
        ensures
            c == ControlFlow::Wait,
    {
        ControlFlow::Wait
    }
}

impl ControlFlow {
    /// The instant at which this control flow asks the loop to wake once it
    /// goes to sleep at `now`: never for `Wait`, `now` itself for `Poll`, and
    /// the requested instant for `WaitUntil`.
    pub open spec fn spec_deadline(self, now: Instant) -> Option<Instant> {
        match self {
            ControlFlow::Wait => None,
            ControlFlow::Poll => Some(now),
            ControlFlow::WaitUntil(instant) => Some(instant),
        }
    }

    /// The instant at which this control flow asks the loop to wake once it
    /// goes to sleep at `now`, or `None` if it asks for no wake at all.
    pub fn deadline(self, now: Instant) -> (r: Option<Instant>)
        ensures
            r == self.spec_deadline(now),
    {
        match self {
            ControlFlow::Wait => None,
            ControlFlow::Poll => Some(now),
            ControlFlow::WaitUntil(instant) => Some(instant),
        }
    }
}

/// Why a round of event processing began.
#[derive(Clone, Copy, PartialEq, Eq, Structural, Debug)]
#[allow(inconsistent_fields)]
pub enum StartCause {
    /// The loop slept until the instant the application had asked for.
    /// `start` is when the sleep began.
    ResumeTimeReached { start: Instant, requested_resume: Instant },
    /// The loop woke before the requested instant, or no instant had been
    /// requested. `start` is when the sleep began.
    WaitCancelled { start: Instant, requested_resume: Option<Instant> },
    /// The loop did not sleep at all, because the control flow was `Poll`.
    Poll,
    /// The very first round of a session.
    Init,
}

impl StartCause {
    /// The cause of a wake at `now`, after a sleep that began at `start`
    /// under `control_flow`.
    ///
    /// A timer may fire early, so a wake under `WaitUntil(t)` counts as
    /// reaching the resume time only if `now` is `t` or later.
    pub open spec fn spec_after_wait(control_flow: ControlFlow, start: Instant, now: Instant) -> StartCause {
        match control_flow {
            ControlFlow::Poll => StartCause::Poll,
            ControlFlow::Wait => StartCause::WaitCancelled { start, requested_resume: None },
            ControlFlow::WaitUntil(requested_resume) => if now.reached(requested_resume) {
                StartCause::ResumeTimeReached { start, requested_resume }
            } else {
                StartCause::WaitCancelled { start, requested_resume: Some(requested_resume) }
            },
        }
    }

    /// Derives the cause of a wake at `now`, after a sleep that began at
    /// `start` under `control_flow`.
    pub fn after_wait(control_flow: ControlFlow, start: Instant, now: Instant) -> (cause: StartCause)
        ensures
            cause == StartCause::spec_after_wait(control_flow, start, now),
    {
        match control_flow {
            ControlFlow::Poll => StartCause::Poll,
            ControlFlow::Wait => StartCause::WaitCancelled { start, requested_resume: None },
            ControlFlow::WaitUntil(requested_resume) => {
                if now.has_reached(requested_resume) {
                    StartCause::ResumeTimeReached { start, requested_resume }
                } else {
                    StartCause::WaitCancelled { start, requested_resume: Some(requested_resume) }
                }
            },
        }
    }
}

/// The cause of a wake depends on nothing but the control flow, the start of
/// the sleep and the instant of the wake: `Wait` always gives `WaitCancelled`
/// without a resume time, `Poll` always gives `Poll`, and `WaitUntil(t)`
/// gives `ResumeTimeReached` exactly when the wake is at or after `t`, and
/// `WaitCancelled` with `t` as its resume time otherwise.
pub proof fn start_cause_follows_control_flow(start: Instant, now: Instant, t: Instant)
    ensures
        StartCause::spec_after_wait(ControlFlow::Wait, start, now) == (StartCause::WaitCancelled {
            start,
            requested_resume: None,
        }),
        StartCause::spec_after_wait(ControlFlow::Poll, start, now) == StartCause::Poll,
        StartCause::spec_after_wait(ControlFlow::WaitUntil(t), start, now) is ResumeTimeReached <==> now.nanos
            >= t.nanos,
        now.nanos >= t.nanos ==> StartCause::spec_after_wait(ControlFlow::WaitUntil(t), start, now) == (
        StartCause::ResumeTimeReached { start, requested_resume: t }),
        now.nanos < t.nanos ==> StartCause::spec_after_wait(ControlFlow::WaitUntil(t), start, now) == (
        StartCause::WaitCancelled { start, requested_resume: Some(t) }),
        forall|control_flow: ControlFlow|
            !(#[trigger] StartCause::spec_after_wait(control_flow, start, now) is Init),
{
}

/// One call that the delegate makes to the application handler.
#[derive(Clone, Copy, PartialEq, Eq, Structural, Debug)]
pub enum Event {
    /// A round of event processing begins, for the given cause.
    NewEvents(StartCause),
    /// The application may create its surfaces now.
    CanCreateSurfaces,
    /// Something happened to a window.
    WindowEvent(WindowId, WindowEvent),
    /// Another thread asked for the application to be woken.
    ProxyWakeUp,
    /// All pending events were delivered and the loop is about to sleep.
    AboutToWait,
    /// The session ends; this is the last call of the session.
    Exiting,
}

impl Event {
    /// The request to draw the window `id` again.
    pub open spec fn redraw(id: WindowId) -> Event {
        Event::WindowEvent(id, WindowEvent::RedrawRequested)
    }

    /// One redraw request for each window of `ids`, in the same order.
    pub open spec fn redraws(ids: Seq<WindowId>) -> Seq<Event> {
        Seq::new(ids.len(), |i: int| Event::redraw(ids[i]))
    }
}

} // verus!
