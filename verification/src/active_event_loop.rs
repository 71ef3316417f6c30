//! The part of the event loop that the application handler may change.

use vstd::prelude::*;
use crate::event::ControlFlow;
use crate::event::WindowId;
use crate::pending_redraw::spec_queue_redraw;
use crate::pending_redraw::PendingRedraw;

verus! {

/// What an [`ActiveEventLoop`] holds.
pub struct EventLoopState {
    /// How eagerly the application wants the loop to wake.
    pub control_flow: ControlFlow,
    /// Whether the application asked for the session to end.
    pub exit_requested: bool,
    /// The windows that wait for a redraw, in the order in which they asked.
    pub pending_redraw: Seq<WindowId>,
    /// Whether the native run loop has been asked to wake up.
    pub wake_requested: bool,
}

impl EventLoopState {
    /// This state with no window waiting for a redraw.
    pub open spec fn drained(self) -> EventLoopState {
        EventLoopState { pending_redraw: Seq::empty(), ..self }
    }

    /// The state after a redraw was asked for the window `window_id`.
    pub open spec fn queue_redraw(self, window_id: WindowId) -> EventLoopState {
        EventLoopState {
            pending_redraw: spec_queue_redraw(self.pending_redraw, window_id),
            wake_requested: true,
            ..self
        }
    }
}

/// The part of the event loop that the application handler may touch while
/// it runs: the control flow, the request to exit, and the requests to
/// redraw a window.
pub struct ActiveEventLoop {
    control_flow: ControlFlow,
    exit: bool,
    pending_redraw: PendingRedraw,
    wake_requested: bool,
}

impl View for ActiveEventLoop {
    type V = EventLoopState;

    closed spec fn view(&self) -> EventLoopState {
        EventLoopState {
            control_flow: self.control_flow,
            exit_requested: self.exit,
            pending_redraw: self.pending_redraw@,
            wake_requested: self.wake_requested,
        }
    }
}

impl ActiveEventLoop {
    pub(crate) fn new() -> (event_loop: Self)
        ensures
            event_loop@ == (EventLoopState {
                control_flow: ControlFlow::Wait,
                exit_requested: false,
                pending_redraw: Seq::empty(),
                wake_requested: false,
            }),
    {
        ActiveEventLoop {
            control_flow: ControlFlow::Wait,
            exit: false,
            pending_redraw: PendingRedraw::new(),
            wake_requested: false,
        }
    }

    /// Sets how eagerly the loop should wake from now on.
    pub fn set_control_flow(&mut self, value: ControlFlow)
        ensures
            final(self)@ == (EventLoopState { control_flow: value, ..old(self)@ }),
    {
        self.control_flow = value;
    }

    /// How eagerly the loop wakes.
    pub fn control_flow(&self) -> (value: ControlFlow)
        ensures
            value == self@.control_flow,
    {
        self.control_flow
    }

    /// Asks for the session to end. Nothing stops at once: the request is
    /// seen the next time the loop is about to sleep.
    pub fn exit(&mut self)
        ensures
            final(self)@ == (EventLoopState { exit_requested: true, ..old(self)@ }),
    {
        self.exit = true;
    }

    /// Whether the application asked for the session to end.
    pub fn exiting(&self) -> (value: bool)
        ensures
            value == self@.exit_requested,
    {
        self.exit
    }

    /// Asks for the window `window_id` to be drawn again, and for the native
    /// run loop to wake up so that the request is served promptly. A window
    /// waits at most once, however often it asks.
    pub fn request_redraw(&mut self, window_id: WindowId)
        ensures
            final(self)@ == old(self)@.queue_redraw(window_id),
            final(self)@.pending_redraw.no_duplicates(),
    {
        self.pending_redraw.insert(window_id);
        self.wake_requested = true;
    }

    /// Whether the window `window_id` waits for a redraw.
    pub fn is_redraw_pending(&self, window_id: WindowId) -> (pending: bool)
        ensures
            pending == self@.pending_redraw.contains(window_id),
    {
        self.pending_redraw.contains(window_id)
    }

    pub(crate) fn clear_exit(&mut self)
        ensures
            final(self)@ == (EventLoopState { exit_requested: false, ..old(self)@ }),
    {
        self.exit = false;
    }

    pub(crate) fn request_wake(&mut self)
        ensures
            final(self)@ == (EventLoopState { wake_requested: true, ..old(self)@ }),
    {
        self.wake_requested = true;
    }

    pub(crate) fn take_wake_request(&mut self) -> (requested: bool)
        ensures
            requested == old(self)@.wake_requested,
            final(self)@ == (EventLoopState { wake_requested: false, ..old(self)@ }),
    {
        let requested = self.wake_requested;
        self.wake_requested = false;
        requested
    }

    pub(crate) fn take_pending_redraw(&mut self) -> (ids: Vec<WindowId>)
        ensures
            ids@ == old(self)@.pending_redraw,
            ids@.no_duplicates(),
            final(self)@ == (EventLoopState { pending_redraw: Seq::empty(), ..old(self)@ }),
    {
        self.pending_redraw.take()
    }

    pub(crate) fn pending_redraw(&self) -> (ids: Vec<WindowId>)
        ensures
            ids@ == self@.pending_redraw,
            ids@.no_duplicates(),
    {
        self.pending_redraw.to_vec()
    }
}

} // verus!
