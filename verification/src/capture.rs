//! Whether the window has captured the input.
//!
//! Keys and mouse motion steer the camera only while the cursor is grabbed.
//! The cursor is grabbed by a click into the focused window and let go when
//! the window loses the focus, when the cursor leaves it, or on Escape.

use crate::input::after_key;
use crate::input::Input;
use crate::input::KeyCode;
use vstd::prelude::*;

verus! {

/// What the window knows of focus and cursor.
#[derive(Clone, Copy, Debug, PartialEq, Eq, Structural)]
pub struct Capture {
    pub is_focused: bool,
    pub cursor_in_window: bool,
    pub cursor_grabbed: bool,
}

/// What happened to the window.
#[derive(Clone, Copy, Debug, PartialEq, Eq, Structural)]
pub enum WindowChange {
    /// The window gained (`true`) or lost the focus.
    Focused(bool),
    CursorEntered,
    CursorLeft,
    /// The left mouse button went down.
    LeftButtonPressed,
}

/// What is to be done with the cursor.
#[derive(Clone, Copy, Debug, PartialEq, Eq, Structural)]
pub enum CursorAction {
    /// Nothing.
    Keep,
    /// Confine the cursor to the window, or lock it, and hide it.
    Grab,
    /// Let the cursor go and show it.
    Release,
}

/// The state of a window that has just been made: focused, the cursor
/// outside and free.
pub open spec fn fresh() -> Capture {
    Capture { is_focused: true, cursor_in_window: false, cursor_grabbed: false }
}

/// The state after a change, and what is to be done with the cursor.
pub open spec fn changed(c: Capture, change: WindowChange) -> (Capture, CursorAction) {
    match change {
        WindowChange::Focused(true) => (Capture { is_focused: true, ..c }, CursorAction::Keep),
        WindowChange::Focused(false) => (
            Capture { is_focused: false, cursor_grabbed: false, ..c },
            CursorAction::Release,
        ),
        WindowChange::CursorEntered => (Capture { cursor_in_window: true, ..c }, CursorAction::Keep),
        WindowChange::CursorLeft => (
            Capture { cursor_in_window: false, cursor_grabbed: false, ..c },
            if c.cursor_grabbed {
                CursorAction::Release
            } else {
                CursorAction::Keep
            },
        ),
        WindowChange::LeftButtonPressed => if c.is_focused && c.cursor_in_window {
            (Capture { cursor_grabbed: true, ..c }, CursorAction::Grab)
        } else {
            (c, CursorAction::Keep)
        },
    }
}

/// The state and the input after a key went down or up, and what is to be
/// done with the cursor: a key is taken only while the cursor is grabbed,
/// and Escape, once it is down, lets the cursor go.
pub open spec fn keyed(c: Capture, input: Input, code: KeyCode, is_pressed: bool) -> (
    Capture,
    Input,
    CursorAction,
) {
    if !c.cursor_grabbed {
        (c, input, CursorAction::Keep)
    } else {
        let next = after_key(input, code, is_pressed);
        if next.is_escape_pressed {
            (Capture { cursor_grabbed: false, ..c }, next, CursorAction::Release)
        } else {
            (c, next, CursorAction::Keep)
        }
    }
}

impl Capture {
    /// The state of a window that has just been made.
    pub fn new() -> (c: Capture)
        ensures
            c == fresh(),
    {
        Capture { is_focused: true, cursor_in_window: false, cursor_grabbed: false }
    }

    /// Takes a change of the window and says what is to be done with the
    /// cursor.
    pub fn window_event(&mut self, change: WindowChange) -> (action: CursorAction)
        ensures
            (*final(self), action) == changed(*old(self), change),
    {
        match change {
            WindowChange::Focused(focused) => {
                self.is_focused = focused;
                if !focused {
                    self.cursor_grabbed = false;
                    CursorAction::Release
                } else {
                    CursorAction::Keep
                }
            },
            WindowChange::CursorEntered => {
                self.cursor_in_window = true;
                CursorAction::Keep
            },
            WindowChange::CursorLeft => {
                self.cursor_in_window = false;
                if self.cursor_grabbed {
                    self.cursor_grabbed = false;
                    CursorAction::Release
                } else {
                    CursorAction::Keep
                }
            },
            WindowChange::LeftButtonPressed => {
                if self.is_focused && self.cursor_in_window {
                    self.cursor_grabbed = true;
                    CursorAction::Grab
                } else {
                    CursorAction::Keep
                }
            },
        }
    }

    /// Takes a key that went down or up, hands it to the input if the
    /// cursor is grabbed, and says what is to be done with the cursor.
    pub fn key_event(&mut self, input: &mut Input, code: KeyCode, is_pressed: bool) -> (action:
        CursorAction)
        ensures
            (*final(self), *final(input), action) == keyed(*old(self), *old(input), code, is_pressed),
    {
        if !self.cursor_grabbed {
            return CursorAction::Keep;
        }
        input.handle_key(code, is_pressed);
        if input.is_escape_pressed {
            self.cursor_grabbed = false;
            CursorAction::Release
        } else {
            CursorAction::Keep
        }
    }

    /// Whether mouse motion is to be added to the pending motion.
    pub fn takes_motion(&self) -> (r: bool)
        ensures
            r == self.cursor_grabbed,
    {
        self.cursor_grabbed
    }
}

/// The cursor is grabbed only in a click into the focused window with the
/// cursor inside, and never stays grabbed when the window loses the focus or
/// the cursor leaves.
pub proof fn lemma_grabbed_only_inside(c: Capture, change: WindowChange)
    ensures
        changed(c, change).0.cursor_grabbed && !c.cursor_grabbed ==> change
            == WindowChange::LeftButtonPressed && c.is_focused && c.cursor_in_window,
        change == WindowChange::Focused(false) || change == WindowChange::CursorLeft ==> !changed(
            c,
            change,
        ).0.cursor_grabbed,
        changed(c, change).1 == CursorAction::Grab ==> changed(c, change).0.cursor_grabbed,
        changed(c, change).1 == CursorAction::Release ==> !changed(c, change).0.cursor_grabbed,
{
}

/// A key changes the input only while the cursor is grabbed.
pub proof fn lemma_keys_need_capture(c: Capture, input: Input, code: KeyCode, is_pressed: bool)
    ensures
        !c.cursor_grabbed ==> keyed(c, input, code, is_pressed) == (c, input, CursorAction::Keep),
        keyed(c, input, code, is_pressed).2 != CursorAction::Grab,
{
}

} // verus!
