//! What the user asks for between two frames.
//!
//! Key presses set and clear movement intents; mouse motion adds up until
//! the camera takes it, once a frame.

use crate::scalar::Scalar;
use crate::scalar::ZERO;
use vstd::prelude::*;

verus! {

/// The keys that mean something here. Every other key is `Other`.
#[derive(Clone, Copy, Debug, PartialEq, Eq, Structural)]
pub enum KeyCode {
    KeyW,
    ArrowUp,
    KeyS,
    ArrowDown,
    KeyA,
    ArrowLeft,
    KeyD,
    ArrowRight,
    Space,
    ShiftLeft,
    ShiftRight,
    Escape,
    Other,
}

/// A direction in which the camera can be moved, relative to where it
/// looks.
#[derive(Clone, Copy, Debug, PartialEq, Eq, Structural)]
pub enum Movement {
    Forward,
    Backward,
    Right,
    Left,
    Up,
    Down,
}

/// The intents that are pending. `mouse_delta` is the motion of the mouse
/// since the camera last took it; the caller adds each motion to it.
#[derive(Clone, Copy, Debug, PartialEq, Eq)]
pub struct Input {
    pub is_forward_pressed: bool,
    pub is_backward_pressed: bool,
    pub is_left_pressed: bool,
    pub is_right_pressed: bool,
    pub is_space_pressed: bool,
    pub is_shift_pressed: bool,
    pub is_escape_pressed: bool,
    pub mouse_delta: (Scalar, Scalar),
}

/// No key pressed, no motion pending.
pub open spec fn idle() -> Input {
    Input {
        is_forward_pressed: false,
        is_backward_pressed: false,
        is_left_pressed: false,
        is_right_pressed: false,
        is_space_pressed: false,
        is_shift_pressed: false,
        is_escape_pressed: false,
        mouse_delta: (Scalar { bits: ZERO }, Scalar { bits: ZERO }),
    }
}

/// Whether the key stands for an intent.
pub open spec fn known(code: KeyCode) -> bool {
    code != KeyCode::Other
}

/// The input after a key went down (`is_pressed`) or up: the key's intent
/// is set to `is_pressed`, and nothing else changes.
pub open spec fn after_key(input: Input, code: KeyCode, is_pressed: bool) -> Input {
    match code {
        KeyCode::KeyW | KeyCode::ArrowUp => Input { is_forward_pressed: is_pressed, ..input },
        KeyCode::KeyS | KeyCode::ArrowDown => Input { is_backward_pressed: is_pressed, ..input },
        KeyCode::KeyA | KeyCode::ArrowLeft => Input { is_left_pressed: is_pressed, ..input },
        KeyCode::KeyD | KeyCode::ArrowRight => Input { is_right_pressed: is_pressed, ..input },
        KeyCode::Space => Input { is_space_pressed: is_pressed, ..input },
        KeyCode::ShiftLeft | KeyCode::ShiftRight => Input { is_shift_pressed: is_pressed, ..input },
        KeyCode::Escape => Input { is_escape_pressed: is_pressed, ..input },
        KeyCode::Other => input,
    }
}

/// One movement if the intent is there, none if it is not.
pub open spec fn when(pressed: bool, m: Movement) -> Seq<Movement> {
    if pressed {
        seq![m]
    } else {
        Seq::<Movement>::empty()
    }
}

/// The movements that the pressed keys ask for, in the order in which the
/// camera makes them: forward, backward, right, left, up, down. Opposite keys
/// pressed together give both movements.
pub open spec fn movements_of(input: Input) -> Seq<Movement> {
    when(input.is_forward_pressed, Movement::Forward) + when(
        input.is_backward_pressed,
        Movement::Backward,
    ) + when(input.is_right_pressed, Movement::Right) + when(input.is_left_pressed, Movement::Left)
        + when(input.is_space_pressed, Movement::Up) + when(input.is_shift_pressed, Movement::Down)
}

impl Input {
    /// No key pressed, no motion pending.
    pub fn new() -> (input: Input)
        ensures
            input == idle(),
    {
        Input {
            is_forward_pressed: false,
            is_backward_pressed: false,
            is_left_pressed: false,
            is_right_pressed: false,
            is_space_pressed: false,
            is_shift_pressed: false,
            is_escape_pressed: false,
            mouse_delta: (Scalar { bits: ZERO }, Scalar { bits: ZERO }),
        }
    }

    /// Takes the pending mouse motion: returns it and leaves none.
    pub fn take_mouse_delta(&mut self) -> (delta: (Scalar, Scalar))
        ensures
            delta == old(self).mouse_delta,
            *final(self) == (Input {
                mouse_delta: (Scalar { bits: ZERO }, Scalar { bits: ZERO }),
                ..*old(self)
            }),
    {
        let delta = self.mouse_delta;
        self.mouse_delta = (Scalar { bits: ZERO }, Scalar { bits: ZERO });
        delta
    }

    /// Records that a key went down or up. Returns whether the key stands
    /// for an intent.
    pub fn handle_key(&mut self, code: KeyCode, is_pressed: bool) -> (handled: bool)
        ensures
            handled == known(code),
            *final(self) == after_key(*old(self), code, is_pressed),
    {
        match code {
            KeyCode::KeyW | KeyCode::ArrowUp => {
                self.is_forward_pressed = is_pressed;
                true
            },
            KeyCode::KeyS | KeyCode::ArrowDown => {
                self.is_backward_pressed = is_pressed;
                true
            },
            KeyCode::KeyA | KeyCode::ArrowLeft => {
                self.is_left_pressed = is_pressed;
                true
            },
            KeyCode::KeyD | KeyCode::ArrowRight => {
                self.is_right_pressed = is_pressed;
                true
            },
            KeyCode::Space => {
                self.is_space_pressed = is_pressed;
                true
            },
            KeyCode::ShiftLeft | KeyCode::ShiftRight => {
                self.is_shift_pressed = is_pressed;
                true
            },
            KeyCode::Escape => {
                self.is_escape_pressed = is_pressed;
                true
            },
            KeyCode::Other => false,
        }
    }

    /// The movements that the pressed keys ask for, in the order in which
    /// the camera makes them.
    pub fn movements(&self) -> (r: Vec<Movement>)
        ensures
            r@ == movements_of(*self),
    {
        let mut r: Vec<Movement> = Vec::new();
        if self.is_forward_pressed {
            r.push(Movement::Forward);
        }
        if self.is_backward_pressed {
            r.push(Movement::Backward);
        }
        if self.is_right_pressed {
            r.push(Movement::Right);
        }
        if self.is_left_pressed {
            r.push(Movement::Left);
        }
        if self.is_space_pressed {
            r.push(Movement::Up);
        }
        if self.is_shift_pressed {
            r.push(Movement::Down);
        }
        r
    }
}

} // verus!
