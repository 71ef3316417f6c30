//! The application's side of the event loop.

use vstd::prelude::*;
use crate::active_event_loop::ActiveEventLoop;
use crate::active_event_loop::EventLoopState;
use crate::event::Event;
use crate::event::StartCause;
use crate::event::WindowEvent;
use crate::event::WindowId;

verus! {

/// One call to the handler, as the handler keeps it on record: what the
/// call was, the state of the event loop that was handed to it, and the
/// state in which the handler handed the event loop back.
pub struct Call {
    /// What the handler was called for.
    pub event: Event,
    /// The event loop as the call found it.
    pub handed_in: EventLoopState,
    /// The event loop as the call left it.
    pub handed_back: EventLoopState,
}

impl Call {
    /// The record of the call `event` that found the event loop as
    /// `handed_in` and left it as `handed_back`.
    pub open spec fn of(event: Event, handed_in: EventLoopState, handed_back: EventLoopState) -> Call {
        Call { event, handed_in, handed_back }
    }

    /// What the calls `calls` were for, in the same order.
    pub open spec fn events(calls: Seq<Call>) -> Seq<Event> {
        Seq::new(calls.len(), |i: int| calls[i].event)
    }

    /// Whether the calls `calls` were made in a row on an event loop that
    /// was `start` before the first of them and `end` after the last: the
    /// first call was handed `start`, each later call was handed what the
    /// call before it handed back, and the last call handed back `end`.
    /// Nothing else touched the event loop in between.
    pub open spec fn chained(start: EventLoopState, calls: Seq<Call>, end: EventLoopState) -> bool {
        if calls.len() == 0 {
            end == start
        } else {
            &&& calls[0].handed_in == start
            &&& forall|i: int| 0 < i < calls.len() ==> (#[trigger] calls[i]).handed_in == calls[i - 1].handed_back
            &&& calls.last().handed_back == end
        }
    }

    /// Whether none of the calls `calls` changed the event loop: each handed
    /// back what it was handed.
    pub open spec fn quiet(calls: Seq<Call>) -> bool {
        forall|i: int| 0 <= i < calls.len() ==> (#[trigger] calls[i]).handed_back == calls[i].handed_in
    }
}

/// The record that a handler keeps of the calls that it has received,
/// oldest first. The record is a ghost: it exists in contracts and proofs
/// and is never computed when the program runs.
pub type Record = Seq<Call>;

/// The application's side of the event loop. The delegate calls these
/// methods one at a time, never one inside another, and hands each of them
/// the part of the event loop that the application may change.
///
/// A handler keeps a record of the calls that it has received. What the
/// delegate promises about its calls to the handler is stated over this
/// record, so every method adds the call to it, with the state of the event
/// loop before and after. What a method does to the event loop and to the
/// rest of the handler is up to the application.
///
/// A handler that is verified holds the record in a ghost field, and its
/// methods are checked against it. A handler that is not verified cannot
/// hold a ghost: its `received` is never called and may be left
/// unreachable, and what is proved of the delegate's calls is proved on the
/// understanding that each method is one call.
pub trait ApplicationHandler {
    /// The calls that this handler has received, oldest first.
    spec fn received(&self) -> Record;

    /// A round of event processing begins.
    fn new_events(&mut self, event_loop: &mut ActiveEventLoop, cause: StartCause)
        ensures
            final(self).received() == old(self).received().push(
                Call::of(Event::NewEvents(cause), old(event_loop)@, final(event_loop)@),
            ),
    ;

    /// The application may create its surfaces. Called once per session,
    /// right after the first `new_events`.
    fn can_create_surfaces(&mut self, event_loop: &mut ActiveEventLoop)
        ensures
            final(self).received() == old(self).received().push(
                Call::of(Event::CanCreateSurfaces, old(event_loop)@, final(event_loop)@),
            ),
    ;

    /// Something happened to the window `window_id`.
    fn window_event(&mut self, event_loop: &mut ActiveEventLoop, window_id: WindowId, event: WindowEvent)
        ensures
            final(self).received() == old(self).received().push(
                Call::of(Event::WindowEvent(window_id, event), old(event_loop)@, final(event_loop)@),
            ),
    ;

    /// Another thread asked for the application to be woken.
    fn proxy_wake_up(&mut self, event_loop: &mut ActiveEventLoop)
        ensures
            final(self).received() == old(self).received().push(
                Call::of(Event::ProxyWakeUp, old(event_loop)@, final(event_loop)@),
            ),
    ;

    /// All pending events were delivered and the loop is about to sleep.
    fn about_to_wait(&mut self, event_loop: &mut ActiveEventLoop)
        ensures
            final(self).received() == old(self).received().push(
                Call::of(Event::AboutToWait, old(event_loop)@, final(event_loop)@),
            ),
    ;

    /// The session ends.
    fn exiting(&mut self, event_loop: &mut ActiveEventLoop)
        ensures
            final(self).received() == old(self).received().push(
                Call::of(Event::Exiting, old(event_loop)@, final(event_loop)@),
            ),
    ;
}

/// Makes the call `event` to the handler: the method that stands for
/// `event` is called once, on the event loop as it is, and the handler has
/// the call on its record afterwards.
pub(crate) fn deliver<H: ApplicationHandler>(handler: &mut H, event_loop: &mut ActiveEventLoop, event: Event)
    ensures
        final(handler).received() == old(handler).received().push(
            Call::of(event, old(event_loop)@, final(event_loop)@),
        ),
{
    match event {
        Event::NewEvents(cause) => handler.new_events(event_loop, cause),
        Event::CanCreateSurfaces => handler.can_create_surfaces(event_loop),
        Event::WindowEvent(window_id, event) => handler.window_event(event_loop, window_id, event),
        Event::ProxyWakeUp => handler.proxy_wake_up(event_loop),
        Event::AboutToWait => handler.about_to_wait(event_loop),
        Event::Exiting => handler.exiting(event_loop),
    }
}

} // verus!
