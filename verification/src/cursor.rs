//! Cursor-grab modes, and the rules about holding and giving up a grab.
use vstd::prelude::*;

verus! {

pub const LAUFEY_CURSOR_GRAB_NONE: i32 = 0;

pub const LAUFEY_CURSOR_GRAB_CONFINED: i32 = 1;

pub const LAUFEY_CURSOR_GRAB_LOCKED: i32 = 2;

/// A grab that a window can hold: `Confined` keeps the visible cursor inside
/// the window, `Locked` hides it and turns movement into relative motion.
#[derive(Clone, Copy, Debug, PartialEq, Eq, Structural)]
pub enum AcceptedCursorGrabMode {
    Confined,
    Locked,
}

/// The grab that the backend accepted, and for which window.
#[derive(Clone, Copy, Debug, PartialEq, Eq, Structural)]
pub struct AcceptedCursorGrab {
    pub window_id: u32,
    pub mode: AcceptedCursorGrabMode,
}

/// A native grab that could not be released and has to be tried again.
/// `detached` says that the window has been closed meanwhile, and that the host
/// keeps the native window alive until the grab is gone.
#[derive(Clone, Copy, Debug, PartialEq, Eq, Structural)]
pub struct PendingPointerUngrab {
    pub window_id: u32,
    pub detached: bool,
}

/// The grab mode a request code asks for, if it asks for one.
pub open spec fn requested_mode(mode: i32) -> Option<AcceptedCursorGrabMode> {
    if mode == LAUFEY_CURSOR_GRAB_CONFINED {
        Some(AcceptedCursorGrabMode::Confined)
    } else if mode == LAUFEY_CURSOR_GRAB_LOCKED {
        Some(AcceptedCursorGrabMode::Locked)
    } else {
        None
    }
}

pub fn accepted_cursor_grab_mode(mode: i32) -> (accepted: Option<AcceptedCursorGrabMode>)
    ensures
        accepted == requested_mode(mode),
{
    match mode {
        LAUFEY_CURSOR_GRAB_CONFINED => Some(AcceptedCursorGrabMode::Confined),
        LAUFEY_CURSOR_GRAB_LOCKED => Some(AcceptedCursorGrabMode::Locked),
        _ => None,
    }
}

/// The window that relative motion goes to: the one with a locked cursor.
pub open spec fn locked_window(grab: Option<AcceptedCursorGrab>) -> Option<u32> {
    match grab {
        Some(held) => if held.mode == AcceptedCursorGrabMode::Locked {
            Some(held.window_id)
        } else {
            None
        },
        None => None,
    }
}

pub fn locked_cursor_grab_window(grab: Option<AcceptedCursorGrab>) -> (window: Option<u32>)
    ensures
        window == locked_window(grab),
{
    match grab {
        Some(AcceptedCursorGrab { window_id, mode: AcceptedCursorGrabMode::Locked }) => Some(
            window_id,
        ),
        _ => None,
    }
}

/// Nothing of a grab is left on the window: it neither holds one nor waits for
/// one to be released.
pub open spec fn release_complete(
    grab: Option<AcceptedCursorGrab>,
    pending_ungrab: Option<u32>,
    window_id: u32,
) -> bool {
    &&& grab matches Some(held) ==> held.window_id != window_id
    &&& pending_ungrab != Some(window_id)
}

pub fn cursor_release_complete(
    grab: Option<AcceptedCursorGrab>,
    pending_ungrab: Option<u32>,
    window_id: u32,
) -> (complete: bool)
    ensures
        complete == release_complete(grab, pending_ungrab, window_id),
{
    let held_elsewhere = match grab {
        Some(held) => held.window_id != window_id,
        None => true,
    };
    let not_pending = match pending_ungrab {
        Some(pending) => pending != window_id,
        None => true,
    };
    held_elsewhere && not_pending
}

} // verus!
