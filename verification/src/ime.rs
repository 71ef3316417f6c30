//! The registry of input-method contexts: which window has one, and what
//! has to be done to the native contexts when the input of a window
//! changes.
//!
//! The registry makes no native call. Where a native context has to be
//! created, destroyed, focused or moved, it says so in what it returns, and
//! the caller does it.

use vstd::prelude::*;
use std::collections::HashMap;
use vstd::std_specs::iter::IteratorSpec;

verus! {

broadcast use vstd::std_specs::hash::group_hash_axioms;

/// What the input method reports about the text that is being composed in a
/// window.
#[derive(Debug, Clone, PartialEq, Eq, Hash)]
pub enum ImeEvent {
    /// Input through the input method became possible.
    Enabled,
    /// A composition began.
    Start,
    /// The composed text changed: the text, and the position of the cursor
    /// in it.
    Update(String, usize),
    /// The composition ended.
    End,
    /// Input through the input method is no longer possible.
    Disabled,
}

/// A request from a window to the handler of the input method.
#[derive(Debug, Clone, Copy, PartialEq, Eq, Hash)]
pub enum ImeRequest {
    /// Set the area of the composed text for the given window: the window,
    /// then the position and the size of the area.
    Area(u64, i16, i16, u16, u16),
    /// Allow or forbid input through the input method for the given window.
    Allow(u64, bool),
}

/// What the registry knows of one native input context.
#[derive(Debug, Clone, Copy, PartialEq, Eq, Structural, Hash)]
pub struct ImeContext {
    /// The native handle of the context.
    pub ic: u64,
    /// Whether the context takes input through the input method.
    pub allowed: bool,
}

impl ImeContext {
    /// Whether the context takes input through the input method.
    pub fn is_allowed(&self) -> (allowed: bool)
        ensures
            allowed == self.allowed,
    {
        self.allowed
    }
}

/// A native input context that the caller has to create.
#[derive(Debug, Clone, Copy, PartialEq, Eq, Structural, Hash)]
pub struct ContextRequest {
    /// The window that the context is for.
    pub window: u64,
    /// Whether the context is to take input through the input method.
    pub with_ime: bool,
}

/// The outcome of removing the context of a window.
#[derive(Debug, Clone, Copy, PartialEq, Eq, Structural, Hash)]
pub struct RemovedContext {
    /// Whether the window had a context.
    pub removed: bool,
    /// The native context that the caller has to destroy, if there is one.
    pub destroy: Option<u64>,
}

/// The area of the composed text to set on a native context.
#[derive(Debug, Clone, Copy, PartialEq, Eq, Structural, Hash)]
pub struct SpotArea {
    /// The native handle of the context.
    pub ic: u64,
    /// The horizontal position of the area.
    pub x: i16,
    /// The vertical position of the area.
    pub y: i16,
    /// The width of the area.
    pub width: u16,
    /// The height of the area.
    pub height: u16,
}

/// The native work that changes whether a window takes input through the
/// input method.
#[derive(Debug, Clone, Copy, PartialEq, Eq, Structural, Hash)]
pub struct ChangeAllowed {
    /// The native context to destroy first, if the window had one.
    pub destroy: Option<u64>,
    /// The native context to create in its place.
    pub create: ContextRequest,
}

/// The state of the input method: its native handle, the contexts of the
/// windows, and whether the server end of the input method is gone.
pub struct ImeInner {
    /// The native handle of the open input method, if one is open.
    pub im: Option<u64>,
    /// For each window that asked for a context: its context, or `None` if
    /// the window waits for the input method to come back.
    pub contexts: HashMap<u64, Option<ImeContext>>,
    /// Whether the input method was destroyed on the server end, as happens
    /// when the input-method server is stopped or started again.
    pub is_destroyed: bool,
    /// Whether the open input method is the fallback.
    pub is_fallback: bool,
}

/// What an [`ImeInner`] holds.
pub struct ImeState {
    /// The native handle of the open input method, if one is open.
    pub im: Option<u64>,
    /// The context, or the empty place, of each window that asked for one.
    pub contexts: Map<u64, Option<ImeContext>>,
    /// Whether the input method was destroyed on the server end.
    pub is_destroyed: bool,
    /// Whether the open input method is the fallback.
    pub is_fallback: bool,
}

impl ImeState {
    /// The context through which the window `window` takes its input now:
    /// the one registered for it, unless the input method is destroyed.
    pub open spec fn live_context(self, window: u64) -> Option<ImeContext> {
        if !self.is_destroyed && self.contexts.contains_key(window) {
            self.contexts[window]
        } else {
            None
        }
    }

    /// The native handle of the context through which the window `window`
    /// takes its input now.
    pub open spec fn live_ic(self, window: u64) -> Option<u64> {
        match self.live_context(window) {
            Some(context) => Some(context.ic),
            None => None,
        }
    }

    /// Whether `ic` is the native handle of a registered context.
    pub open spec fn has_ic(self, ic: u64) -> bool {
        exists|window: u64| self.contexts.contains_key(window) && #[trigger] Self::is_ic_of(self.contexts[window], ic)
    }

    /// Whether `entry` is a context with the native handle `ic`.
    pub open spec fn is_ic_of(entry: Option<ImeContext>, ic: u64) -> bool {
        entry matches Some(context) && context.ic == ic
    }
}

impl View for ImeInner {
    type V = ImeState;

    open spec fn view(&self) -> ImeState {
        ImeState {
            im: self.im,
            contexts: self.contexts@,
            is_destroyed: self.is_destroyed,
            is_fallback: self.is_fallback,
        }
    }
}

impl ImeInner {
    /// The state of an input method that is not open yet and has no
    /// contexts.
    pub fn new() -> (inner: Self)
        ensures
            inner@ == (ImeState { im: None, contexts: Map::empty(), is_destroyed: false, is_fallback: false }),
    {
        ImeInner { im: None, contexts: HashMap::new(), is_destroyed: false, is_fallback: false }
    }

    /// The input method that the caller has to close: the open one, unless
    /// the server end is gone already.
    pub fn close_im_if_necessary(&self) -> (close: Option<u64>)
        ensures
            close == if !self@.is_destroyed {
                self@.im
            } else {
                None
            },
    {
        if !self.is_destroyed && self.im.is_some() {
            self.im
        } else {
            None
        }
    }

    /// The context that the caller has to destroy when it gives up the
    /// native context `ic`: `ic` itself, unless the server end is gone
    /// already and has taken the context with it.
    pub fn destroy_ic_if_necessary(&self, ic: u64) -> (destroy: Option<u64>)
        ensures
            destroy == if !self@.is_destroyed {
                Some(ic)
            } else {
                None
            },
    {
        if !self.is_destroyed {
            Some(ic)
        } else {
            None
        }
    }

    /// The contexts that the caller has to destroy when it gives up the
    /// input method: every registered context, in no particular order,
    /// unless the server end is gone already.
    pub fn destroy_all_contexts_if_necessary(&self) -> (destroy: Vec<u64>)
        ensures
            self@.is_destroyed ==> destroy@.len() == 0,
            !self@.is_destroyed ==> forall|ic: u64| destroy@.contains(ic) <==> self@.has_ic(ic),
            destroy@.len() <= self@.contexts.dom().len(),
    {
        let mut destroy: Vec<u64> = Vec::new();
        if self.is_destroyed {
            return destroy;
        }
        let ghost all = self.contexts.iter().remaining();
        for entry in it: self.contexts.iter()
            invariant
                it.seq() == all,
                all == self.contexts.iter().remaining(),
                destroy@.len() <= it.index(),
                forall|ic: u64|
                    destroy@.contains(ic) <==> exists|j: int|
                        0 <= j < it.index() && ImeState::is_ic_of(*(#[trigger] all[j]).1, ic),
        {
            let ghost before = destroy@;
            let ghost index = it.index();
            assert(entry == all[index]);
            match entry.1 {
                Some(context) => {
                    destroy.push(context.ic);
                    proof {
                        assert forall|ic: u64|
                            destroy@.contains(ic) <==> exists|j: int|
                                0 <= j < index + 1 && ImeState::is_ic_of(*(#[trigger] all[j]).1, ic) by {
                            if destroy@.contains(ic) {
                                let k = choose|k: int| 0 <= k < destroy@.len() && destroy@[k] == ic;
                                if k < before.len() {
                                    assert(before[k] == ic);
                                    assert(before.contains(ic));
                                } else {
                                    assert(ImeState::is_ic_of(*all[index].1, ic));
                                }
                            }
                            if exists|j: int| 0 <= j < index + 1 && ImeState::is_ic_of(*(#[trigger] all[j]).1, ic) {
                                let j = choose|j: int|
                                    0 <= j < index + 1 && ImeState::is_ic_of(*(#[trigger] all[j]).1, ic);
                                if j < index {
                                    assert(before.contains(ic));
                                    let k = choose|k: int| 0 <= k < before.len() && before[k] == ic;
                                    assert(destroy@[k] == ic);
                                } else {
                                    assert(destroy@[before.len() as int] == ic);
                                }
                            }
                        }
                    }
                },
                None => {
                    proof {
                        assert forall|ic: u64|
                            destroy@.contains(ic) <==> exists|j: int|
                                0 <= j < index + 1 && ImeState::is_ic_of(*(#[trigger] all[j]).1, ic) by {
                            if exists|j: int| 0 <= j < index + 1 && ImeState::is_ic_of(*(#[trigger] all[j]).1, ic) {
                                let j = choose|j: int|
                                    0 <= j < index + 1 && ImeState::is_ic_of(*(#[trigger] all[j]).1, ic);
                                assert(j < index);
                            }
                        }
                    }
                },
            }
        }
        proof {
            let state = self@;
            assert(state.contexts == self.contexts@);
            assert forall|ic: u64| destroy@.contains(ic) <==> state.has_ic(ic) by {
                if destroy@.contains(ic) {
                    let j = choose|j: int| 0 <= j < all.len() && ImeState::is_ic_of(*(#[trigger] all[j]).1, ic);
                    let window = *all[j].0;
                    assert(state.contexts.contains_key(window) && state.contexts[window] == *all[j].1);
                    assert(ImeState::is_ic_of(state.contexts[window], ic));
                    assert(state.has_ic(ic));
                }
                if state.has_ic(ic) {
                    let window = choose|window: u64|
                        state.contexts.contains_key(window) && #[trigger] ImeState::is_ic_of(
                            state.contexts[window],
                            ic,
                        );
                    assert(all.contains((&window, &state.contexts[window])));
                    let j = choose|j: int| 0 <= j < all.len() && all[j] == (&window, &state.contexts[window]);
                    assert(ImeState::is_ic_of(*all[j].1, ic));
                    assert(destroy@.contains(ic));
                }
            }
        }
        destroy
    }
}

/// The input method of one connection to the display.
pub struct Ime {
    inner: ImeInner,
}

impl View for Ime {
    type V = ImeState;

    closed spec fn view(&self) -> ImeState {
        self.inner@
    }
}

impl Ime {
    /// The registry for the open input method with the native handle `im`,
    /// without any context yet.
    pub fn new(im: u64, is_fallback: bool) -> (ime: Self)
        ensures
            ime@ == (ImeState { im: Some(im), contexts: Map::empty(), is_destroyed: false, is_fallback }),
    {
        let mut inner = ImeInner::new();
        inner.is_fallback = is_fallback;
        inner.im = Some(im);
        Ime { inner }
    }

    /// The state of the input method.
    pub fn inner(&self) -> (inner: &ImeInner)
        ensures
            inner@ == self@,
    {
        &self.inner
    }

    /// Records whether the server end of the input method is gone.
    pub fn set_destroyed(&mut self, is_destroyed: bool)
        ensures
            final(self)@ == (ImeState { is_destroyed, ..old(self)@ }),
    {
        self.inner.is_destroyed = is_destroyed;
    }

    /// Whether the input method was destroyed on the server end.
    pub fn is_destroyed(&self) -> (destroyed: bool)
        ensures
            destroyed == self@.is_destroyed,
    {
        self.inner.is_destroyed
    }

    /// Begins to give the window `window` a context.
    ///
    /// While the input method is destroyed no native context can be made:
    /// the window gets an empty place in the registry, so that it gets a
    /// context when the input method comes back, and nothing is left to do.
    /// Otherwise the caller has to create the native context that is
    /// returned and register it with [`context_created`]; until then the
    /// registry stays as it is, so a failed creation leaves no trace.
    ///
    /// [`context_created`]: Ime::context_created
    pub fn create_context(&mut self, window: u64, with_ime: bool) -> (create: Option<ContextRequest>)
        ensures
            old(self)@.is_destroyed ==> create is None && final(self)@ == (ImeState {
                contexts: old(self)@.contexts.insert(window, None),
                ..old(self)@
            }),
            !old(self)@.is_destroyed ==> create == Some(ContextRequest { window, with_ime }),
            !old(self)@.is_destroyed ==> final(self)@ == old(self)@,
    {
        if self.is_destroyed() {
            self.inner.contexts.insert(window, None);
            None
        } else {
            Some(ContextRequest { window, with_ime })
        }
    }

    /// Registers the native context `context` that was created for the
    /// window `window`, in place of whatever the window had, and returns
    /// what to report to the window: `Enabled` if the context takes input
    /// through the input method, `Disabled` if not.
    pub fn context_created(&mut self, window: u64, context: ImeContext) -> (event: ImeEvent)
        ensures
            final(self)@ == (ImeState {
                contexts: old(self)@.contexts.insert(window, Some(context)),
                ..old(self)@
            }),
            context.allowed ==> event == ImeEvent::Enabled,
            !context.allowed ==> event == ImeEvent::Disabled,
    {
        let event = if context.is_allowed() {
            ImeEvent::Enabled
        } else {
            ImeEvent::Disabled
        };
        self.inner.contexts.insert(window, Some(context));
        event
    }

    /// The native handle of the context through which the window `window`
    /// takes its input now, if it has one and the input method is not
    /// destroyed.
    pub fn get_context(&self, window: u64) -> (ic: Option<u64>)
        ensures
            ic == self@.live_ic(window),
    {
        if self.is_destroyed() {
            return None;
        }
        match self.inner.contexts.get(&window) {
            Some(Some(context)) => Some(context.ic),
            _ => None,
        }
    }

    /// Takes the window `window` out of the registry. If the window had a
    /// context, the caller has to destroy it natively, unless the server
    /// end of the input method is gone and has taken the context with it.
    pub fn remove_context(&mut self, window: u64) -> (removed: RemovedContext)
        ensures
            final(self)@ == (ImeState { contexts: old(self)@.contexts.remove(window), ..old(self)@ }),
            removed.removed == (old(self)@.contexts.contains_key(window) && old(self)@.contexts[window] is Some),
            removed.destroy == old(self)@.live_ic(window),
    {
        match self.inner.contexts.remove(&window) {
            Some(Some(context)) => RemovedContext {
                removed: true,
                destroy: self.inner.destroy_ic_if_necessary(context.ic),
            },
            _ => RemovedContext { removed: false, destroy: None },
        }
    }

    /// The native context that the caller has to give the input focus to,
    /// for the window `window`. `None` means that there is nothing to do:
    /// the window has no context or the input method is destroyed.
    pub fn focus(&self, window: u64) -> (ic: Option<u64>)
        ensures
            ic == self@.live_ic(window),
    {
        self.get_context(window)
    }

    /// The native context that the caller has to take the input focus
    /// from, for the window `window`. `None` means that there is nothing
    /// to do: the window has no context or the input method is destroyed.
    pub fn unfocus(&self, window: u64) -> (ic: Option<u64>)
        ensures
            ic == self@.live_ic(window),
    {
        self.get_context(window)
    }

    /// The area of the composed text that the caller has to set natively,
    /// for the window `window`. `None` means that there is nothing to do:
    /// the window has no context or the input method is destroyed.
    pub fn send_xim_area(&self, window: u64, x: i16, y: i16, w: u16, h: u16) -> (area: Option<SpotArea>)
        ensures
            area == match self@.live_ic(window) {
                Some(ic) => Some(SpotArea { ic, x, y, width: w, height: h }),
                None => None,
            },
    {
        match self.get_context(window) {
            Some(ic) => Some(SpotArea { ic, x, y, width: w, height: h }),
            None => None,
        }
    }

    /// Changes whether the window `window` takes input through the input
    /// method.
    ///
    /// Nothing happens while the input method is destroyed, or if the
    /// window has a context that is as asked for already. Otherwise the
    /// window is taken out of the registry, and the caller has to destroy
    /// its native context, if it had one, and to create a new one, which it
    /// registers with [`context_created`].
    ///
    /// [`context_created`]: Ime::context_created
    pub fn set_ime_allowed(&mut self, window: u64, allowed: bool) -> (change: Option<ChangeAllowed>)
        ensures
            old(self)@.settled_as(window, allowed) ==> change is None && final(self)@ == old(self)@,
            !old(self)@.settled_as(window, allowed) ==> change == Some(
                ChangeAllowed {
                    destroy: old(self)@.live_ic(window),
                    create: ContextRequest { window, with_ime: allowed },
                },
            ) && final(self)@ == (ImeState { contexts: old(self)@.contexts.remove(window), ..old(self)@ }),
    {
        if self.is_destroyed() {
            return None;
        }
        match self.inner.contexts.get(&window) {
            Some(Some(context)) => {
                if allowed == context.is_allowed() {
                    return None;
                }
            },
            _ => {},
        }
        let removed = self.remove_context(window);
        match self.create_context(window, allowed) {
            Some(create) => Some(ChangeAllowed { destroy: removed.destroy, create }),
            None => None,
        }
    }

    /// Whether the window `window` takes input through the input method
    /// now.
    pub fn is_ime_allowed(&self, window: u64) -> (allowed: bool)
        ensures
            allowed == (self@.live_context(window) matches Some(context) && context.allowed),
    {
        if self.is_destroyed() {
            false
        } else {
            match self.inner.contexts.get(&window) {
                Some(Some(context)) => context.is_allowed(),
                _ => false,
            }
        }
    }
}

impl ImeState {
    /// Whether nothing has to change for the window `window` to take input
    /// through the input method, or not to take it, as `allowed` says: the
    /// input method is destroyed, or the window has a context that is so
    /// already.
    pub open spec fn settled_as(self, window: u64, allowed: bool) -> bool {
        self.is_destroyed || (self.live_context(window) matches Some(context) && context.allowed == allowed)
    }
}

} // verus!
