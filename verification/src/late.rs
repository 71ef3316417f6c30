//! What arrives for the delegate while it cannot be reached, because it is
//! in the middle of a handler call.

use vstd::prelude::*;
use crate::event::Event;
use crate::event::WindowId;

verus! {

/// Something that arrived for the delegate while it could not be reached.
#[derive(Clone, Copy, PartialEq, Eq, Structural, Debug)]
pub enum Late {
    /// A window asked to be drawn again.
    Redraw(WindowId),
    /// The handler is to be called for an event.
    Event(Event),
}

impl Late {
    /// The events among the arrivals `arrivals`, in the order of arrival.
    pub open spec fn events(arrivals: Seq<Late>) -> Seq<Event>
        decreases arrivals.len(),
    {
        if arrivals.len() == 0 {
            Seq::empty()
        } else {
            match arrivals.last() {
                Late::Event(event) => Late::events(arrivals.drop_last()).push(event),
                Late::Redraw(_) => Late::events(arrivals.drop_last()),
            }
        }
    }

    /// The windows that asked for a redraw among the arrivals `arrivals`,
    /// in the order of arrival.
    pub open spec fn redraws(arrivals: Seq<Late>) -> Seq<WindowId>
        decreases arrivals.len(),
    {
        if arrivals.len() == 0 {
            Seq::empty()
        } else {
            match arrivals.last() {
                Late::Redraw(window_id) => Late::redraws(arrivals.drop_last()).push(window_id),
                Late::Event(_) => Late::redraws(arrivals.drop_last()),
            }
        }
    }
}

/// The arrivals that wait for the delegate, in the order in which they
/// arrived.
pub struct LateArrivals {
    waiting: Vec<Late>,
}

impl View for LateArrivals {
    type V = Seq<Late>;

    closed spec fn view(&self) -> Seq<Late> {
        self.waiting@
    }
}

impl LateArrivals {
    /// No arrivals.
    pub fn new() -> (arrivals: Self)
        ensures
            arrivals@ == Seq::<Late>::empty(),
    {
        LateArrivals { waiting: Vec::new() }
    }

    /// Puts `late` behind the arrivals that wait already.
    pub fn push(&mut self, late: Late)
        ensures
            final(self)@ == old(self)@.push(late),
    {
        self.waiting.push(late);
    }

    /// Takes out all the arrivals that wait, in the order in which they
    /// arrived, and leaves none waiting.
    pub fn take(&mut self) -> (taken: LateArrivals)
        ensures
            taken@ == old(self)@,
            final(self)@ == Seq::<Late>::empty(),
    {
        let mut waiting: Vec<Late> = Vec::new();
        std::mem::swap(&mut waiting, &mut self.waiting);
        LateArrivals { waiting }
    }

    /// Whether no arrival waits.
    pub fn is_empty(&self) -> (empty: bool)
        ensures
            empty == (self@.len() == 0),
    {
        self.waiting.len() == 0
    }

    /// How many arrivals wait.
    pub fn len(&self) -> (len: usize)
        ensures
            len == self@.len(),
    {
        self.waiting.len()
    }

    /// The arrivals, in the order in which they arrived.
    pub fn into_vec(self) -> (arrivals: Vec<Late>)
        ensures
            arrivals@ == self@,
    {
        self.waiting
    }
}

} // verus!
