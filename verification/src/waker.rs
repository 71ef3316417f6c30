//! The wake scheduler: what the one native wake timer is armed for.

use vstd::prelude::*;
use crate::time::Instant;

verus! {

/// What the native wake timer is armed for.
#[derive(Clone, Copy, PartialEq, Eq, Structural, Debug)]
pub enum WakeAt {
    /// The timer is not armed: the loop sleeps until something else wakes it.
    Never,
    /// The timer fires as soon as the loop would sleep.
    Immediately,
    /// The timer fires at the given instant.
    At(Instant),
}

impl WakeAt {
    /// What the timer is armed for when, at `now`, a wake is asked for at
    /// `deadline`: nothing without a deadline, an immediate wake for a
    /// deadline that `now` has reached, and the deadline itself otherwise.
    pub open spec fn for_deadline(now: Instant, deadline: Option<Instant>) -> WakeAt {
        match deadline {
            None => WakeAt::Never,
            Some(instant) => if now.reached(instant) {
                WakeAt::Immediately
            } else {
                WakeAt::At(instant)
            },
        }
    }
}

/// Schedules the next wake of the native run loop.
///
/// The scheduler owns a single timer. Every call replaces what the timer was
/// armed for before, so at most one wake is ever scheduled.
#[derive(Clone, Copy, PartialEq, Eq, Structural, Debug)]
pub struct EventLoopWaker {
    armed: WakeAt,
}

impl View for EventLoopWaker {
    type V = WakeAt;

    closed spec fn view(&self) -> WakeAt {
        self.armed
    }
}

impl EventLoopWaker {
    /// A scheduler whose timer is not armed.
    pub fn new() -> (waker: Self)
        ensures
            waker@ == WakeAt::Never,
    {
        EventLoopWaker { armed: WakeAt::Never }
    }

    /// What the timer is armed for.
    pub fn armed(&self) -> (r: WakeAt)
        ensures
            r == self@,
    {
        self.armed
    }

    /// Begins scheduling: arms the timer for an immediate wake. Starting a
    /// scheduler that is already in this state changes nothing.
    pub fn start(&mut self)
        ensures
            final(self)@ == WakeAt::Immediately,
    {
        self.armed = WakeAt::Immediately;
    }

    /// Disarms the timer.
    pub fn stop(&mut self)
        ensures
            final(self)@ == WakeAt::Never,
    {
        self.armed = WakeAt::Never;
    }

    /// Arms the timer, at `now`, for a wake at `deadline`, in place of
    /// whatever it was armed for. Without a deadline the timer is disarmed
    /// and the loop relies on outside stimuli alone; a deadline that `now`
    /// has reached gives an immediate wake.
    pub fn start_at(&mut self, now: Instant, deadline: Option<Instant>)
        ensures
            final(self)@ == WakeAt::for_deadline(now, deadline),
    {
        match deadline {
            Some(instant) => {
                if now.has_reached(instant) {
                    self.start();
                } else {
                    self.armed = WakeAt::At(instant);
                }
            },
            None => self.stop(),
        }
    }
}

} // verus!
