//! The events of the engine.

use crate::input::Button;
use crate::input::Key;
use vstd::prelude::*;

verus! {

/// The application was asked to quit.
#[derive(Clone, Copy, PartialEq, Eq, Structural, Debug)]
pub struct ApplicationQuit;

/// A key went down.
#[derive(Clone, Copy, PartialEq, Eq, Structural, Debug)]
pub struct KeyPress(pub Key);

/// A key came up.
#[derive(Clone, Copy, PartialEq, Eq, Structural, Debug)]
pub struct KeyRelease(pub Key);

/// A mouse button went down.
#[derive(Clone, Copy, PartialEq, Eq, Structural, Debug)]
pub struct ButtonPress(pub Button);

/// A mouse button came up.
#[derive(Clone, Copy, PartialEq, Eq, Structural, Debug)]
pub struct ButtonRelease(pub Button);

/// The mouse moved to a new position.
#[derive(Clone, Copy, PartialEq, Eq, Structural, Debug)]
pub struct MouseMove {
    pub x: i16,
    pub y: i16,
}

/// The mouse wheel turned by so many steps.
#[derive(Clone, Copy, PartialEq, Eq, Structural, Debug)]
pub struct MouseWheel(pub i8);

/// The window took a new size.
#[derive(Clone, Copy, PartialEq, Eq, Structural, Debug)]
pub struct Resize {
    pub width: u16,
    pub height: u16,
}

/// An event that the input state gives rise to.
#[derive(Clone, Copy, PartialEq, Eq, Structural, Debug)]
pub enum InputEvent {
    KeyPress(KeyPress),
    KeyRelease(KeyRelease),
    ButtonPress(ButtonPress),
    ButtonRelease(ButtonRelease),
    MouseMove(MouseMove),
    MouseWheel(MouseWheel),
}

} // verus!
