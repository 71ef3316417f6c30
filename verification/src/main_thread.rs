//! The token of the main thread.

use vstd::prelude::*;
use std::marker::PhantomData;
use std::rc::Rc;

verus! {

/// The mark of the main thread: whoever holds one runs on the one thread
/// that may touch the state of the native user interface.
///
/// The marker holds nothing and costs nothing. It cannot be sent to another
/// thread, and neither can anything that holds one, so a value that was made
/// with a marker stays on the main thread.
#[derive(Clone, Copy, Debug)]
pub struct MainThreadMarker {
    not_send: PhantomData<Rc<()>>,
}

impl MainThreadMarker {
    /// A marker for the current thread. The caller vouches that the current
    /// thread is the main thread; nothing here can check it.
    pub fn new_unchecked() -> MainThreadMarker {
        MainThreadMarker { not_send: PhantomData }
    }
}

} // verus!
