//! State model of the window presenter.
//!
//! The shell owns one main window; what this crate decides is the target
//! state of each presenter action. Reveal is the compound
//! show+focus+raise+center action triggered by the bound hotkey and by the
//! tray; hide keeps the window's contents and only withdraws it.

use vstd::prelude::*;

verus! {

/// The presenter-visible state of the main window.
#[derive(Clone, Copy, PartialEq, Eq, Structural, Debug)]
pub struct WindowState {
    pub visible: bool,
    pub focused: bool,
    pub always_on_top: bool,
    pub centered: bool,
}

/// What any window state becomes under the reveal action.
pub open spec fn reveal_spec(w: WindowState) -> WindowState {
    WindowState { visible: true, focused: true, always_on_top: true, centered: true }
}

/// What a window state becomes under the hide action: withdrawn and
/// unfocused, with the rest of its presentation kept.
pub open spec fn hide_spec(w: WindowState) -> WindowState {
    WindowState { visible: false, focused: false, ..w }
}

impl WindowState {
    /// The application starts minimised to the tray: not visible, not focused.
    pub fn startup() -> (w: WindowState)
        ensures
            w == (WindowState {
                visible: false,
                focused: false,
                always_on_top: false,
                centered: false,
            }),
    {
        WindowState { visible: false, focused: false, always_on_top: false, centered: false }
    }

    /// The reveal action: make the window visible, focused, raised above
    /// other windows and centered; safe in any state, a no-op when already
    /// revealed.
    pub fn present(self) -> (w: WindowState)
        ensures
            w == reveal_spec(self),
    {
        WindowState { visible: true, focused: true, always_on_top: true, centered: true }
    }

    /// The hide action: withdraw the window without tearing it down.
    pub fn withdraw(self) -> (w: WindowState)
        ensures
            w == hide_spec(self),
    {
        WindowState { visible: false, focused: false, ..self }
    }
}

/// Revealing twice ends in the same state as revealing once: the action is
/// idempotent, never a toggle.
pub proof fn lemma_reveal_idempotent(w: WindowState)
    ensures
        reveal_spec(reveal_spec(w)) == reveal_spec(w),
{
}

/// The window resource itself: open and presented somehow, or torn down.
/// Hide keeps the resource (and with it the window's own state); close
/// destroys it, and only an explicit user request ever closes.
#[derive(Clone, Copy, PartialEq, Eq, Structural, Debug)]
pub enum WindowResource {
    Open(WindowState),
    Closed,
}

impl WindowResource {
    /// Tear the window down.
    pub fn close(self) -> (r: WindowResource)
        ensures
            r == WindowResource::Closed,
    {
        WindowResource::Closed
    }

    /// Hide keeps an open window open, only withdrawn; a closed window has
    /// nothing left to hide.
    pub fn withdraw(self) -> (r: WindowResource)
        ensures
            r == (match self {
                WindowResource::Open(w) => WindowResource::Open(hide_spec(w)),
                WindowResource::Closed => WindowResource::Closed,
            }),
    {
        match self {
            WindowResource::Open(w) => WindowResource::Open(w.withdraw()),
            WindowResource::Closed => WindowResource::Closed,
        }
    }
}

} // verus!
