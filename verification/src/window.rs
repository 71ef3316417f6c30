//! What a window on a canvas decides before it asks the browser for
//! anything.

use vstd::prelude::*;

verus! {

/// How the cursor is held to a window.
#[derive(Clone, Copy, PartialEq, Eq, Structural, Debug)]
pub enum CursorGrabMode {
    /// The cursor moves freely.
    Free,
    /// The cursor cannot leave the window.
    Confined,
    /// The cursor is locked in place and hidden.
    Locked,
}

/// What to ask of the pointer lock of the document.
#[derive(Clone, Copy, PartialEq, Eq, Structural, Debug)]
pub enum PointerLock {
    /// Give the pointer lock up.
    Exit,
    /// Ask for the pointer lock.
    Request,
}

/// The error of a request that a canvas cannot serve.
#[derive(Clone, Copy, PartialEq, Eq, Structural, Debug)]
pub enum NotSupportedError {
    /// A canvas cannot confine the cursor.
    ConfinedCursor,
}

/// The appearance of a window.
#[derive(Clone, Copy, PartialEq, Eq, Structural, Debug)]
pub enum Theme {
    /// Dark text on a light ground.
    Light,
    /// Light text on a dark ground.
    Dark,
}

/// Decides what a request to hold the cursor in the mode `mode` asks of the
/// pointer lock: a free cursor gives the lock up, a locked cursor asks for
/// it, and a confined cursor is more than a canvas can do.
pub fn set_cursor_grab(mode: CursorGrabMode) -> (r: Result<PointerLock, NotSupportedError>)
    ensures
        r == match mode {
            CursorGrabMode::Free => Ok::<PointerLock, NotSupportedError>(PointerLock::Exit),
            CursorGrabMode::Locked => Ok::<PointerLock, NotSupportedError>(PointerLock::Request),
            CursorGrabMode::Confined => Err::<PointerLock, NotSupportedError>(NotSupportedError::ConfinedCursor),
        },
{
    match mode {
        CursorGrabMode::Free => Ok(PointerLock::Exit),
        CursorGrabMode::Locked => Ok(PointerLock::Request),
        CursorGrabMode::Confined => Err(NotSupportedError::ConfinedCursor),
    }
}

/// The theme of a window, from whether the browser prefers a dark
/// appearance, which is `None` if it does not tell.
pub fn theme(is_dark_mode: Option<bool>) -> (r: Option<Theme>)
    ensures
        r == match is_dark_mode {
            Some(true) => Some(Theme::Dark),
            Some(false) => Some(Theme::Light),
            None => None,
        },
{
    match is_dark_mode {
        Some(is_dark_mode) => if is_dark_mode {
            Some(Theme::Dark)
        } else {
            Some(Theme::Light)
        },
        None => None,
    }
}

} // verus!
