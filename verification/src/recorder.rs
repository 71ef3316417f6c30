//! A handler that takes note of what it is called for and leaves the event
//! loop alone.

use vstd::prelude::*;
use crate::active_event_loop::ActiveEventLoop;
use crate::application::ApplicationHandler;
use crate::application::Call;
use crate::application::Record;
use crate::event::Event;
use crate::event::StartCause;
use crate::event::WindowEvent;
use crate::event::WindowId;

verus! {

struct Notes {
    events: Vec<Event>,
    record: Ghost<Seq<Call>>,
}

/// A handler that writes down what it is called for, in order, and does
/// nothing else: every call leaves the event loop as it found it.
pub struct Recorder {
    notes: Notes,
}

impl Recorder {
    #[verifier::type_invariant]
    spec fn well_formed(self) -> bool {
        &&& self.notes.events@ == Call::events(self.notes.record@)
        &&& Call::quiet(self.notes.record@)
    }

    /// A recorder that has not been called.
    pub fn new() -> (recorder: Self)
        ensures
            recorder.received() == Seq::<Call>::empty(),
    {
        let notes = Notes { events: Vec::new(), record: Ghost(Seq::empty()) };
        assert(notes.events@ =~= Call::events(notes.record@));
        Recorder { notes }
    }

    /// What the recorder was called for, oldest first. Each of these calls
    /// left the event loop as it found it.
    pub fn events(&self) -> (events: Vec<Event>)
        ensures
            events@ == Call::events(self.received()),
            Call::quiet(self.received()),
    {
        proof {
            use_type_invariant(self);
        }
        self.notes.events.clone()
    }

    fn note(&mut self, event_loop: &ActiveEventLoop, event: Event)
        ensures
            final(self).received() == old(self).received().push(Call::of(event, event_loop@, event_loop@)),
    {
        proof {
            use_type_invariant(&*self);
        }
        let mut notes = Notes { events: Vec::new(), record: Ghost(Seq::empty()) };
        assert(notes.events@ =~= Call::events(notes.record@));
        std::mem::swap(&mut notes, &mut self.notes);
        let ghost before = notes.record@;
        notes.events.push(event);
        proof {
            notes.record@ = notes.record@.push(Call::of(event, event_loop@, event_loop@));
            assert(notes.events@ =~= Call::events(notes.record@));
            assert forall|i: int| 0 <= i < notes.record@.len() implies (#[trigger] notes.record@[i]).handed_back
                == notes.record@[i].handed_in by {
                if i < before.len() {
                    assert(notes.record@[i] == before[i]);
                }
            }
        }
        self.notes = notes;
    }
}

impl ApplicationHandler for Recorder {
    closed spec fn received(&self) -> Record {
        self.notes.record@
    }

    fn new_events(&mut self, event_loop: &mut ActiveEventLoop, cause: StartCause) {
        self.note(event_loop, Event::NewEvents(cause));
    }

    fn can_create_surfaces(&mut self, event_loop: &mut ActiveEventLoop) {
        self.note(event_loop, Event::CanCreateSurfaces);
    }

    fn window_event(&mut self, event_loop: &mut ActiveEventLoop, window_id: WindowId, event: WindowEvent) {
        self.note(event_loop, Event::WindowEvent(window_id, event));
    }

    fn proxy_wake_up(&mut self, event_loop: &mut ActiveEventLoop) {
        self.note(event_loop, Event::ProxyWakeUp);
    }

    fn about_to_wait(&mut self, event_loop: &mut ActiveEventLoop) {
        self.note(event_loop, Event::AboutToWait);
    }

    fn exiting(&mut self, event_loop: &mut ActiveEventLoop) {
        self.note(event_loop, Event::Exiting);
    }
}

} // verus!
