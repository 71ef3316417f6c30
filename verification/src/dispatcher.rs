//! The mailbox of a thread-affine value: the operations that other threads
//! want run on the thread that owns the value.
//!
//! The mailbox decides what becomes of an operation: whether it runs at
//! once, waits for its turn, or is dropped because the owner is gone. It
//! runs nothing itself and blocks nobody: the owner takes the operations
//! out and runs them, and a caller that has to wait for its operation is
//! told so.

use vstd::prelude::*;
use std::collections::VecDeque;
use crate::main_thread::MainThreadMarker;

verus! {

/// The error of an operation that needs an answer from an owner that is
/// gone.
#[derive(Clone, Copy, PartialEq, Eq, Structural, Debug)]
pub struct TargetDestroyed;

/// What becomes of an operation whose result the caller needs.
#[derive(Debug, PartialEq, Eq)]
pub enum Queued<O> {
    /// The caller is on the owning thread: it runs the operation itself,
    /// at once.
    RunNow(O),
    /// The operation waits for its turn: the caller blocks until the
    /// owning thread has run it.
    Waiting,
}

/// What a [`Dispatcher`] holds.
pub struct DispatcherState<O> {
    /// The operations that wait for the owning thread, oldest first.
    pub waiting: Seq<O>,
    /// Whether the owner of the value is gone.
    pub destroyed: bool,
}

impl<O> DispatcherState<O> {
    /// This state after the operations `operations` were dispatched, one
    /// after the other.
    pub open spec fn dispatch_all(self, operations: Seq<O>) -> DispatcherState<O> {
        if self.destroyed {
            self
        } else {
            DispatcherState { waiting: self.waiting + operations, ..self }
        }
    }

    /// This state after the owning thread took out the `count` oldest
    /// operations.
    pub open spec fn taken(self, count: nat) -> DispatcherState<O> {
        DispatcherState { waiting: self.waiting.skip(count as int), ..self }
    }
}

/// Carries operations from any thread to the one thread that owns a value.
pub struct Dispatcher<O> {
    waiting: VecDeque<O>,
    destroyed: bool,
}

impl<O> View for Dispatcher<O> {
    type V = DispatcherState<O>;

    closed spec fn view(&self) -> DispatcherState<O> {
        DispatcherState { waiting: self.waiting@, destroyed: self.destroyed }
    }
}

impl<O> Dispatcher<O> {
    /// The mailbox of a live owner, with nothing waiting.
    pub fn new() -> (dispatcher: Self)
        ensures
            dispatcher@ == (DispatcherState { waiting: Seq::<O>::empty(), destroyed: false }),
    {
        Dispatcher { waiting: VecDeque::new(), destroyed: false }
    }

    /// Schedules `operation` to run on the owning thread, behind the
    /// operations that wait already. Nothing is reported back. If the owner
    /// is gone the operation is dropped.
    pub fn dispatch(&mut self, operation: O)
        ensures
            final(self)@ == old(self)@.dispatch_all(seq![operation]),
            !old(self)@.destroyed ==> final(self)@.waiting == old(self)@.waiting.push(operation),
    {
        if !self.destroyed {
            self.waiting.push_back(operation);
            proof {
                assert(old(self)@.waiting.push(operation) == old(self)@.waiting + seq![operation]);
            }
        }
    }

    /// Submits `operation` for a caller that needs its result.
    ///
    /// If the owner is gone the operation is dropped and the call fails. A
    /// caller on the owning thread, which shows the mark of that thread,
    /// gets the operation back to run it at once. Any other caller has its
    /// operation put behind those that wait already, and has to block until
    /// the owning thread has run it.
    pub fn queue(&mut self, operation: O, main_thread: Option<MainThreadMarker>) -> (r: Result<
        Queued<O>,
        TargetDestroyed,
    >)
        ensures
            old(self)@.destroyed ==> r is Err && final(self)@ == old(self)@,
            !old(self)@.destroyed && main_thread is Some ==> r == Ok::<Queued<O>, TargetDestroyed>(
                Queued::RunNow(operation),
            ) && final(self)@ == old(self)@,
            !old(self)@.destroyed && main_thread is None ==> r == Ok::<Queued<O>, TargetDestroyed>(Queued::Waiting)
                && final(self)@ == old(self)@.dispatch_all(seq![operation]),
    {
        if self.destroyed {
            Err(TargetDestroyed)
        } else if main_thread.is_some() {
            Ok(Queued::RunNow(operation))
        } else {
            self.waiting.push_back(operation);
            proof {
                assert(old(self)@.waiting.push(operation) == old(self)@.waiting + seq![operation]);
            }
            Ok(Queued::Waiting)
        }
    }

    /// Takes out the operation that has waited longest, for the owning
    /// thread to run it.
    pub fn next(&mut self) -> (operation: Option<O>)
        ensures
            old(self)@.waiting.len() == 0 ==> operation is None && final(self)@ == old(self)@,
            old(self)@.waiting.len() > 0 ==> operation == Some(old(self)@.waiting[0]),
            old(self)@.waiting.len() > 0 ==> final(self)@ == old(self)@.taken(1),
    {
        let operation = self.waiting.pop_front();
        proof {
            if old(self)@.waiting.len() > 0 {
                assert(old(self)@.waiting.skip(1) == old(self)@.waiting.subrange(1, old(self)@.waiting.len() as int));
            }
        }
        operation
    }

    /// Records that the owner of the value is gone. The operations that
    /// still wait are dropped, and from now on every operation is.
    pub fn destroy(&mut self)
        ensures
            final(self)@ == (DispatcherState { waiting: Seq::<O>::empty(), destroyed: true }),
    {
        self.destroyed = true;
        self.waiting.clear();
    }

    /// Whether the owner of the value is gone.
    pub fn is_destroyed(&self) -> (destroyed: bool)
        ensures
            destroyed == self@.destroyed,
    {
        self.destroyed
    }

    /// How many operations wait for the owning thread.
    pub fn len(&self) -> (len: usize)
        ensures
            len == self@.waiting.len(),
    {
        self.waiting.len()
    }
}

/// Operations run in the order in which they were dispatched, each once:
/// after `operations` were dispatched to a live owner with nothing waiting,
/// the `i`-th operation that the owner takes out is the `i`-th that was
/// dispatched, and when it has taken out as many as were dispatched, none is
/// left.
pub proof fn dispatched_operations_run_in_order<O>(start: DispatcherState<O>, operations: Seq<O>, i: int)
    requires
        !start.destroyed,
        start.waiting.len() == 0,
        0 <= i < operations.len(),
    ensures
        start.dispatch_all(operations).taken(i as nat).waiting[0] == operations[i],
        start.dispatch_all(operations).taken(operations.len()).waiting.len() == 0,
{
    assert(start.waiting + operations == operations);
}

/// Dispatching one operation after the other is the same as dispatching
/// them together, and once the owner is gone dispatching changes nothing.
pub proof fn dispatching_adds_up<O>(start: DispatcherState<O>, first: Seq<O>, then: Seq<O>)
    ensures
        start.dispatch_all(first).dispatch_all(then) == start.dispatch_all(first + then),
        start.destroyed ==> start.dispatch_all(first) == start,
{
    assert((start.waiting + first) + then == start.waiting + (first + then));
}

} // verus!
