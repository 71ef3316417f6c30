//! The cell that holds the application handler and guards it against
//! reentrant use.

use vstd::prelude::*;

verus! {

enum Slot<H> {
    Empty,
    Idle(H),
    InUse,
}

/// What an [`EventHandler`] holds.
pub enum HandlerState<H> {
    /// No handler is installed.
    Empty,
    /// A handler is installed and no call to it is in progress.
    Idle(H),
    /// A handler is installed and a call to it is in progress: the handler
    /// is with whoever makes that call.
    InUse,
}

/// Holds the one application handler of an event loop.
///
/// A handler is installed with [`set`](EventHandler::set) and removed with
/// [`clear`](EventHandler::clear); a handler may be installed over another
/// one, which is handed back to be restored later. To call it, the handler is taken out with
/// [`begin_handle`](EventHandler::begin_handle) and brought back with
/// [`end_handle`](EventHandler::end_handle); in between the cell is in use
/// and hands the handler to nobody else, so that at most one call to the
/// handler is ever in progress.
pub struct EventHandler<H> {
    slot: Slot<H>,
}

impl<H> View for EventHandler<H> {
    type V = HandlerState<H>;

    closed spec fn view(&self) -> HandlerState<H> {
        match self.slot {
            Slot::Empty => HandlerState::Empty,
            Slot::Idle(handler) => HandlerState::Idle(handler),
            Slot::InUse => HandlerState::InUse,
        }
    }
}

impl<H> EventHandler<H> {
    /// A cell without a handler.
    pub fn new() -> (cell: Self)
        ensures
            cell@ is Empty,
    {
        EventHandler { slot: Slot::Empty }
    }

    /// Installs `handler` and hands back the handler that was installed
    /// before, if there was one, so that the caller can put it back when it
    /// is done. While a call is in progress nothing is installed: the cell
    /// stays as it is and hands `handler` back as an error.
    pub fn set(&mut self, handler: H) -> (r: Result<Option<H>, H>)
        ensures
            old(self)@ is Empty ==> r == Ok::<Option<H>, H>(None) && final(self)@ == HandlerState::Idle(handler),
            old(self)@ matches HandlerState::Idle(previous) ==> r == Ok::<Option<H>, H>(Some(previous)),
            old(self)@ is Idle ==> final(self)@ == HandlerState::Idle(handler),
            old(self)@ is InUse ==> r == Err::<Option<H>, H>(handler) && final(self)@ == old(self)@,
    {
        let mut slot = Slot::InUse;
        std::mem::swap(&mut slot, &mut self.slot);
        match slot {
            Slot::Empty => {
                self.slot = Slot::Idle(handler);
                Ok(None)
            },
            Slot::Idle(previous) => {
                self.slot = Slot::Idle(handler);
                Ok(Some(previous))
            },
            Slot::InUse => Err(handler),
        }
    }

    /// Removes the installed handler and returns it. A cell that is empty or
    /// in use stays as it is.
    pub fn clear(&mut self) -> (r: Option<H>)
        ensures
            old(self)@ matches HandlerState::Idle(handler) ==> r == Some(handler) && final(self)@ is Empty,
            !(old(self)@ is Idle) ==> r is None && final(self)@ == old(self)@,
    {
        let mut slot = Slot::Empty;
        std::mem::swap(&mut slot, &mut self.slot);
        match slot {
            Slot::Empty => None,
            Slot::Idle(handler) => Some(handler),
            Slot::InUse => {
                self.slot = Slot::InUse;
                None
            },
        }
    }

    /// Whether a call to the handler is in progress.
    pub fn in_use(&self) -> (r: bool)
        ensures
            r == (self@ is InUse),
    {
        match &self.slot {
            Slot::InUse => true,
            _ => false,
        }
    }

    /// Whether a handler is installed at all, at rest or in use.
    pub fn ready(&self) -> (r: bool)
        ensures
            r == !(self@ is Empty),
    {
        match &self.slot {
            Slot::Empty => false,
            _ => true,
        }
    }

    /// Begins a call to the handler: takes the handler out and marks the
    /// cell as in use. Returns `None`, and changes nothing, if no handler is
    /// installed or if a call is already in progress.
    pub fn begin_handle(&mut self) -> (r: Option<H>)
        ensures
            old(self)@ matches HandlerState::Idle(handler) ==> r == Some(handler) && final(self)@ is InUse,
            !(old(self)@ is Idle) ==> r is None && final(self)@ == old(self)@,
    {
        let mut slot = Slot::InUse;
        std::mem::swap(&mut slot, &mut self.slot);
        match slot {
            Slot::Idle(handler) => Some(handler),
            Slot::Empty => {
                self.slot = Slot::Empty;
                None
            },
            Slot::InUse => None,
        }
    }

    /// Ends the call that [`begin_handle`](EventHandler::begin_handle)
    /// began: brings the handler back, so that the next call can begin. A cell
    /// that is not in use stays as it is and hands `handler` back.
    pub fn end_handle(&mut self, handler: H) -> (r: Result<(), H>)
        ensures
            old(self)@ is InUse ==> r is Ok && final(self)@ == HandlerState::Idle(handler),
            !(old(self)@ is InUse) ==> r == Err::<(), H>(handler) && final(self)@ == old(self)@,
    {
        let mut slot = Slot::InUse;
        std::mem::swap(&mut slot, &mut self.slot);
        match slot {
            Slot::InUse => {
                self.slot = Slot::Idle(handler);
                Ok(())
            },
            Slot::Empty => {
                self.slot = Slot::Empty;
                Err(handler)
            },
            Slot::Idle(current) => {
                self.slot = Slot::Idle(current);
                Err(handler)
            },
        }
    }
}

} // verus!
