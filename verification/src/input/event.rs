//! Input events as the operating system's injection facility encodes them.
//!
//! An event is a triple of type, code and value. The virtual mouse uses two
//! event types, key events for its buttons and relative-motion events for its
//! axes, and two codes of each.

use vstd::prelude::*;

verus! {

/// Event type of a key or button state change.
pub const EV_KEY: u16 = 0x01;

/// Event type of a relative motion.
pub const EV_REL: u16 = 0x02;

/// Code of the left mouse button.
pub const BTN_LEFT: u16 = 0x110;

/// Code of the right mouse button.
pub const BTN_RIGHT: u16 = 0x111;

/// Code of the horizontal relative axis.
pub const REL_X: u16 = 0x00;

/// Code of the vertical relative axis.
pub const REL_Y: u16 = 0x01;

/// Value of a key event that reports the button as pressed.
pub const PRESSED: i32 = 1;

/// Value of a key event that reports the button as released.
pub const RELEASED: i32 = 0;

/// The buttons of the virtual mouse. There is no way to name any other.
#[derive(Clone, Copy, Debug, PartialEq, Eq, Structural)]
pub enum Button {
    Left,
    Right,
}

impl Button {
    /// The key code of the button.
    pub open spec fn spec_code(&self) -> u16 {
        match self {
            Button::Left => BTN_LEFT,
            Button::Right => BTN_RIGHT,
        }
    }

    /// The key code of the button.
    #[verifier::when_used_as_spec(spec_code)]
    pub fn code(&self) -> (code: u16)
        ensures
            code == self.spec_code(),
    {
        match self {
            Button::Left => BTN_LEFT,
            Button::Right => BTN_RIGHT,
        }
    }
}

/// The relative axes of the virtual mouse.
#[derive(Clone, Copy, Debug, PartialEq, Eq, Structural)]
pub enum Axis {
    X,
    Y,
}

impl Axis {
    /// The code of the axis.
    pub open spec fn spec_code(&self) -> u16 {
        match self {
            Axis::X => REL_X,
            Axis::Y => REL_Y,
        }
    }

    /// The code of the axis.
    #[verifier::when_used_as_spec(spec_code)]
    pub fn code(&self) -> (code: u16)
        ensures
            code == self.spec_code(),
    {
        match self {
            Axis::X => REL_X,
            Axis::Y => REL_Y,
        }
    }
}

/// One input event: its type, its code and its value.
#[derive(Clone, Copy, Debug, PartialEq, Eq, Structural)]
pub struct InputEvent {
    pub kind: u16,
    pub code: u16,
    pub value: i32,
}

impl InputEvent {
    /// The key event that sets `key` to `value`.
    pub open spec fn button(key: Button, value: i32) -> InputEvent {
        InputEvent { kind: EV_KEY, code: key.code(), value }
    }

    /// The relative-motion event that moves by `value` along `axis`.
    pub open spec fn motion(axis: Axis, value: i32) -> InputEvent {
        InputEvent { kind: EV_REL, code: axis.code(), value }
    }
}

/// Encodes a state change of `key`: `value` is [`PRESSED`] or [`RELEASED`].
pub fn key_event(key: Button, value: i32) -> (event: InputEvent)
    ensures
        event == InputEvent::button(key, value),
{
    InputEvent { kind: EV_KEY, code: key.code(), value }
}

/// Encodes a motion by `value` along `axis`.
pub fn move_event(axis: Axis, value: i32) -> (event: InputEvent)
    ensures
        event == InputEvent::motion(axis, value),
{
    InputEvent { kind: EV_REL, code: axis.code(), value }
}

} // verus!
