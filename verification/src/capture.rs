//! Cursor capture acquisition: lock before confine, and a cursor that is
//! hidden only while a capture is actually held.

use vstd::prelude::*;

verus! {

/// The cursor grab modes a window backend offers.
#[derive(Debug, Clone, Copy, PartialEq, Eq, Structural)]
pub enum CursorGrab {
    /// No grab: the cursor moves freely.
    Free,
    /// The cursor is confined to the window.
    Confined,
    /// The cursor is locked in place.
    Locked,
}

/// The capture the backend actually holds after an attempt.
#[derive(Debug, Clone, Copy, PartialEq, Eq, Structural)]
pub enum PointerCaptureStatus {
    /// The cursor is free.
    Released,
    /// The cursor is locked.
    Locked,
    /// The cursor is confined.
    Confined,
    /// The backend refused the request.
    Unavailable,
}

/// Whether a status holds the cursor, so that it must stay hidden.
pub open spec fn holds_cursor(status: PointerCaptureStatus) -> bool {
    status is Locked || status is Confined
}

/// Applies a capture request through a backend: `grab` tries one grab mode
/// and reports success, `set_visible` shows or hides the cursor. A request
/// tries a lock first, then confinement, and on failure of both releases
/// the grab again; a release asks for no grab. The cursor is then hidden
/// exactly when a capture is held.
pub fn apply_backend<G: Fn(CursorGrab) -> bool, V: Fn(bool)>(
    grab: G,
    set_visible: V,
    requested: bool,
) -> (status: PointerCaptureStatus)
    requires
        forall|mode: CursorGrab| grab.requires((mode,)),
        forall|visible: bool| set_visible.requires((visible,)),
    ensures
        !requested ==> (status == PointerCaptureStatus::Released && grab.ensures(
            (CursorGrab::Free,),
            true,
        )) || (status == PointerCaptureStatus::Unavailable && grab.ensures(
            (CursorGrab::Free,),
            false,
        )),
        requested ==> (status == PointerCaptureStatus::Locked && grab.ensures(
            (CursorGrab::Locked,),
            true,
        )) || (status == PointerCaptureStatus::Confined && grab.ensures(
            (CursorGrab::Locked,),
            false,
        ) && grab.ensures((CursorGrab::Confined,), true)) || (status
            == PointerCaptureStatus::Unavailable && grab.ensures((CursorGrab::Locked,), false)
            && grab.ensures((CursorGrab::Confined,), false)),
{
    let status = if !requested {
        if grab(CursorGrab::Free) {
            PointerCaptureStatus::Released
        } else {
            PointerCaptureStatus::Unavailable
        }
    } else if grab(CursorGrab::Locked) {
        PointerCaptureStatus::Locked
    } else if grab(CursorGrab::Confined) {
        PointerCaptureStatus::Confined
    } else {
        // A failed acquisition never leaves an intentionally hidden cursor.
        let _ = grab(CursorGrab::Free);
        PointerCaptureStatus::Unavailable
    };
    let held = match status {
        PointerCaptureStatus::Locked | PointerCaptureStatus::Confined => true,
        _ => false,
    };
    set_visible(!held);
    status
}

/// Focus and acquisition state of the desktop cursor capture.
#[derive(Debug, Clone, Copy, PartialEq, Eq, Structural)]
pub struct CaptureState {
    /// The window has keyboard focus.
    pub focused: bool,
    /// A lock or confinement is held.
    pub active: bool,
}

impl CaptureState {
    /// No focus and no capture.
    pub fn new() -> (state: Self)
        ensures
            !state.focused && !state.active,
    {
        CaptureState { focused: false, active: false }
    }

    /// Records a focus change; it never acquires a capture.
    pub fn set_focused(&mut self, focused: bool)
        ensures
            final(self).focused == focused,
            final(self).active == old(self).active,
    {
        self.focused = focused;
    }

    /// Raw motion is consumed only while focused and capturing.
    pub fn accepts_motion(&self) -> (accepts: bool)
        ensures
            accepts == (self.focused && self.active),
    {
        self.focused && self.active
    }

    /// Records the outcome of an acquisition attempt.
    pub fn record(&mut self, status: PointerCaptureStatus)
        ensures
            final(self).active == holds_cursor(status),
            final(self).focused == old(self).focused,
    {
        self.active = match status {
            PointerCaptureStatus::Locked | PointerCaptureStatus::Confined => true,
            _ => false,
        };
    }

    /// Drops the capture.
    pub fn release(&mut self)
        ensures
            !final(self).active,
            final(self).focused == old(self).focused,
    {
        self.active = false;
    }
}

} // verus!
