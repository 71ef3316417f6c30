//! The set of windows that wait for a redraw.

use vstd::prelude::*;
use crate::event::Event;
use crate::event::WindowId;

verus! {

/// The windows that wait for a redraw after `window_id` asked for one: asking
/// again for a window that already waits changes nothing, and a new window
/// goes to the end.
pub open spec fn spec_queue_redraw(pending: Seq<WindowId>, window_id: WindowId) -> Seq<WindowId> {
    if pending.contains(window_id) {
        pending
    } else {
        pending.push(window_id)
    }
}

/// The windows that wait for a redraw after each window of `requests` asked
/// for one, in turn.
pub open spec fn spec_queue_redraws(pending: Seq<WindowId>, requests: Seq<WindowId>) -> Seq<WindowId>
    decreases requests.len(),
{
    if requests.len() == 0 {
        pending
    } else {
        spec_queue_redraw(spec_queue_redraws(pending, requests.drop_last()), requests.last())
    }
}

/// The set of windows that wait for a redraw. A window is in it at most
/// once; the windows are kept in the order in which they first asked.
pub struct PendingRedraw {
    ids: Vec<WindowId>,
}

impl View for PendingRedraw {
    type V = Seq<WindowId>;

    closed spec fn view(&self) -> Seq<WindowId> {
        self.ids@
    }
}

impl PendingRedraw {
    #[verifier::type_invariant]
    spec fn well_formed(self) -> bool {
        self.ids@.no_duplicates()
    }

    /// The empty set.
    pub fn new() -> (pending: Self)
        ensures
            pending@ == Seq::<WindowId>::empty(),
    {
        PendingRedraw { ids: Vec::new() }
    }

    /// Whether the window `window_id` is in the set.
    pub fn contains(&self, window_id: WindowId) -> (found: bool)
        ensures
            found == self@.contains(window_id),
    {
        let mut i: usize = 0;
        while i < self.ids.len()
            invariant
                i <= self.ids.len(),
                forall|j: int| 0 <= j < i ==> self.ids@[j] != window_id,
            decreases self.ids.len() - i,
        {
            if self.ids[i] == window_id {
                return true;
            }
            i = i + 1;
        }
        false
    }

    /// Puts the window `window_id` into the set, unless it is there already.
    pub fn insert(&mut self, window_id: WindowId)
        ensures
            final(self)@ == spec_queue_redraw(old(self)@, window_id),
            final(self)@.no_duplicates(),
    {
        proof {
            use_type_invariant(&*self);
        }
        if !self.contains(window_id) {
            let mut ids: Vec<WindowId> = Vec::new();
            std::mem::swap(&mut ids, &mut self.ids);
            ids.push(window_id);
            self.ids = ids;
        }
    }

    /// Empties the set and returns the windows that were in it, each once,
    /// in the order in which they first asked.
    pub fn take(&mut self) -> (ids: Vec<WindowId>)
        ensures
            ids@ == old(self)@,
            ids@.no_duplicates(),
            final(self)@ == Seq::<WindowId>::empty(),
    {
        proof {
            use_type_invariant(&*self);
        }
        let mut ids: Vec<WindowId> = Vec::new();
        std::mem::swap(&mut ids, &mut self.ids);
        ids
    }

    /// The windows of the set, each once, in the order in which they first
    /// asked.
    pub fn to_vec(&self) -> (ids: Vec<WindowId>)
        ensures
            ids@ == self@,
            ids@.no_duplicates(),
    {
        proof {
            use_type_invariant(self);
        }
        self.ids.clone()
    }
}

/// However often and in whatever order windows ask for a redraw, each
/// window that asked waits exactly once: the windows that wait are distinct,
/// they are those that waited before together with those that asked, and
/// the redraw requests made from them name each of these windows once.
pub proof fn queued_redraws_are_distinct(pending: Seq<WindowId>, requests: Seq<WindowId>)
    requires
        pending.no_duplicates(),
    ensures
        spec_queue_redraws(pending, requests).no_duplicates(),
        forall|window_id: WindowId| #[trigger]
            spec_queue_redraws(pending, requests).contains(window_id) <==> pending.contains(window_id)
                || requests.contains(window_id),
        Event::redraws(spec_queue_redraws(pending, requests)).no_duplicates(),
        Event::redraws(spec_queue_redraws(pending, requests)).len() == spec_queue_redraws(pending, requests).len(),
        forall|window_id: WindowId| #[trigger]
            Event::redraws(spec_queue_redraws(pending, requests)).contains(Event::redraw(window_id))
                <==> pending.contains(window_id) || requests.contains(window_id),
    decreases requests.len(),
{
    let queued = spec_queue_redraws(pending, requests);
    if requests.len() > 0 {
        let earlier = spec_queue_redraws(pending, requests.drop_last());
        queued_redraws_are_distinct(pending, requests.drop_last());
        assert forall|window_id: WindowId| #[trigger]
            queued.contains(window_id) <==> pending.contains(window_id) || requests.contains(
                window_id,
            ) by {
            assert(earlier.contains(window_id) <==> pending.contains(window_id) || requests.drop_last().contains(
                window_id,
            ));
            if requests.contains(window_id) {
                let i = choose|i: int| 0 <= i < requests.len() && requests[i] == window_id;
                if i < requests.len() - 1 {
                    assert(requests.drop_last()[i] == window_id);
                }
            }
            if requests.drop_last().contains(window_id) {
                let i = choose|i: int| 0 <= i < requests.drop_last().len() && requests.drop_last()[i] == window_id;
                assert(requests[i] == window_id);
            }
            if !earlier.contains(requests.last()) {
                assert(queued == earlier.push(requests.last()));
                if queued.contains(window_id) {
                    let i = choose|i: int| 0 <= i < queued.len() && queued[i] == window_id;
                    if i < earlier.len() {
                        assert(earlier[i] == window_id);
                    }
                }
                if earlier.contains(window_id) {
                    let i = choose|i: int| 0 <= i < earlier.len() && earlier[i] == window_id;
                    assert(queued[i] == window_id);
                }
                assert(queued[earlier.len() as int] == requests.last());
            }
        }
    }
    redraws_name_each_window(queued);
}

/// The redraw requests made from a sequence of windows name the same
/// windows, in the same places: a window is requested as often as it occurs.
pub proof fn redraws_name_each_window(ids: Seq<WindowId>)
    ensures
        Event::redraws(ids).len() == ids.len(),
        forall|i: int| 0 <= i < ids.len() ==> #[trigger] Event::redraws(ids)[i] == Event::redraw(ids[i]),
        forall|window_id: WindowId| #[trigger]
            Event::redraws(ids).contains(Event::redraw(window_id)) <==> ids.contains(window_id),
        ids.no_duplicates() <==> Event::redraws(ids).no_duplicates(),
{
    let events = Event::redraws(ids);
    assert forall|window_id: WindowId| #[trigger]
        events.contains(Event::redraw(window_id)) <==> ids.contains(window_id) by {
        if events.contains(Event::redraw(window_id)) {
            let i = choose|i: int| 0 <= i < events.len() && events[i] == Event::redraw(window_id);
            assert(ids[i] == window_id);
        }
        if ids.contains(window_id) {
            let i = choose|i: int| 0 <= i < ids.len() && ids[i] == window_id;
            assert(events[i] == Event::redraw(window_id));
        }
    }
    if ids.no_duplicates() {
        assert forall|i: int, j: int| 0 <= i < events.len() && 0 <= j < events.len() && i != j implies events[i]
            != events[j] by {
            assert(ids[i] != ids[j]);
        }
    }
    if events.no_duplicates() {
        assert forall|i: int, j: int| 0 <= i < ids.len() && 0 <= j < ids.len() && i != j implies ids[i]
            != ids[j] by {
            assert(events[i] != events[j]);
        }
    }
}

} // verus!
