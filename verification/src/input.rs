//! Keyboard and mouse state: what is held down now, and what was at the last update.

use crate::event::ButtonPress;
use crate::event::ButtonRelease;
use crate::event::InputEvent;
use crate::event::KeyPress;
use crate::event::KeyRelease;
use crate::event::MouseMove;
use crate::event::MouseWheel;
use vstd::prelude::*;

verus! {

/// Number of mouse buttons.
pub const BUTTON_COUNT: usize = 3;

/// Number of key codes.
pub const KEY_CODES: usize = 256;

/// A mouse button.
#[derive(Clone, Copy, PartialEq, Eq, Structural, Debug)]
pub enum Button {
    Left,
    Middle,
    Right,
}

/// A key of the keyboard.
#[derive(Clone, Copy, PartialEq, Eq, Structural, Debug)]
pub enum Key {
    BackSpace,
    Enter,
    Tab,
    Shift,
    Ctrl,
    Pause,
    CapsLock,
    Esc,
    Convert,
    NonConvert,
    Accept,
    ModeChange,
    Space,
    Prior,
    Next,
    End,
    Home,
    Left,
    Up,
    Right,
    Down,
    Select,
    Print,
    Execute,
    Snapshot,
    Insert,
    Delete,
    Help,
    A,
    B,
    C,
    D,
    E,
    F,
    G,
    H,
    I,
    J,
    K,
    L,
    M,
    N,
    O,
    P,
    Q,
    R,
    S,
    T,
    U,
    V,
    W,
    X,
    Y,
    Z,
    LeftWin,
    RightWin,
    Apps,
    Sleep,
    NumPad0,
    NumPad1,
    NumPad2,
    NumPad3,
    NumPad4,
    NumPad5,
    NumPad6,
    NumPad7,
    NumPad8,
    NumPad9,
    Multiply,
    Add,
    Separator,
    Subtract,
    Decimal,
    Divide,
    F1,
    F2,
    F3,
    F4,
    F5,
    F6,
    F7,
    F8,
    F9,
    F10,
    F11,
    F12,
    F13,
    F14,
    F15,
    F16,
    F17,
    F18,
    F19,
    F20,
    F21,
    F22,
    F23,
    F24,
    NumLock,
    Scroll,
    NumPadEqual,
    LeftShift,
    RightShift,
    LeftCtrl,
    RightCtrl,
    LeftMenu,
    RightMenu,
    Semicolon,
    Plus,
    Comma,
    Minus,
    Period,
    Slash,
    Grave,
}

/// Position of each button in enumeration order.
pub open spec fn button_index(button: Button) -> nat {
    match button {
        Button::Left => 0,
        Button::Middle => 1,
        Button::Right => 2,
    }
}

/// The code of each key.
pub open spec fn key_code(key: Key) -> u8 {
    match key {
        Key::BackSpace => 0x08,
        Key::Enter => 0x0D,
        Key::Tab => 0x09,
        Key::Shift => 0x10,
        Key::Ctrl => 0x11,
        Key::Pause => 0x13,
        Key::CapsLock => 0x14,
        Key::Esc => 0x1B,
        Key::Convert => 0x1C,
        Key::NonConvert => 0x1D,
        Key::Accept => 0x1E,
        Key::ModeChange => 0x1F,
        Key::Space => 0x20,
        Key::Prior => 0x21,
        Key::Next => 0x22,
        Key::End => 0x23,
        Key::Home => 0x24,
        Key::Left => 0x25,
        Key::Up => 0x26,
        Key::Right => 0x27,
        Key::Down => 0x28,
        Key::Select => 0x29,
        Key::Print => 0x2A,
        Key::Execute => 0x2B,
        Key::Snapshot => 0x2C,
        Key::Insert => 0x2D,
        Key::Delete => 0x2E,
        Key::Help => 0x2F,
        Key::A => 0x41,
        Key::B => 0x42,
        Key::C => 0x43,
        Key::D => 0x44,
        Key::E => 0x45,
        Key::F => 0x46,
        Key::G => 0x47,
        Key::H => 0x48,
        Key::I => 0x49,
        Key::J => 0x4A,
        Key::K => 0x4B,
        Key::L => 0x4C,
        Key::M => 0x4D,
        Key::N => 0x4E,
        Key::O => 0x4F,
        Key::P => 0x50,
        Key::Q => 0x51,
        Key::R => 0x52,
        Key::S => 0x53,
        Key::T => 0x54,
        Key::U => 0x55,
        Key::V => 0x56,
        Key::W => 0x57,
        Key::X => 0x58,
        Key::Y => 0x59,
        Key::Z => 0x5A,
        Key::LeftWin => 0x5B,
        Key::RightWin => 0x5C,
        Key::Apps => 0x5D,
        Key::Sleep => 0x5F,
        Key::NumPad0 => 0x60,
        Key::NumPad1 => 0x61,
        Key::NumPad2 => 0x62,
        Key::NumPad3 => 0x63,
        Key::NumPad4 => 0x64,
        Key::NumPad5 => 0x65,
        Key::NumPad6 => 0x66,
        Key::NumPad7 => 0x67,
        Key::NumPad8 => 0x68,
        Key::NumPad9 => 0x69,
        Key::Multiply => 0x6A,
        Key::Add => 0x6B,
        Key::Separator => 0x6C,
        Key::Subtract => 0x6D,
        Key::Decimal => 0x6E,
        Key::Divide => 0x6F,
        Key::F1 => 0x70,
        Key::F2 => 0x71,
        Key::F3 => 0x72,
        Key::F4 => 0x73,
        Key::F5 => 0x74,
        Key::F6 => 0x75,
        Key::F7 => 0x76,
        Key::F8 => 0x77,
        Key::F9 => 0x78,
        Key::F10 => 0x79,
        Key::F11 => 0x7A,
        Key::F12 => 0x7B,
        Key::F13 => 0x7C,
        Key::F14 => 0x7D,
        Key::F15 => 0x7E,
        Key::F16 => 0x7F,
        Key::F17 => 0x80,
        Key::F18 => 0x81,
        Key::F19 => 0x82,
        Key::F20 => 0x83,
        Key::F21 => 0x84,
        Key::F22 => 0x85,
        Key::F23 => 0x86,
        Key::F24 => 0x87,
        Key::NumLock => 0x90,
        Key::Scroll => 0x91,
        Key::NumPadEqual => 0x92,
        Key::LeftShift => 0xA0,
        Key::RightShift => 0xA1,
        Key::LeftCtrl => 0xA2,
        Key::RightCtrl => 0xA3,
        Key::LeftMenu => 0xA4,
        Key::RightMenu => 0xA5,
        Key::Semicolon => 0xBA,
        Key::Plus => 0xBB,
        Key::Comma => 0xBC,
        Key::Minus => 0xBD,
        Key::Period => 0xBE,
        Key::Slash => 0xBF,
        Key::Grave => 0xC0,
    }
}

/// The key with a given code, if there is one.
pub open spec fn key_with_code(code: u8) -> Option<Key> {
    if code == 0x08 {
        Some(Key::BackSpace)
    } else if code == 0x0D {
        Some(Key::Enter)
    } else if code == 0x09 {
        Some(Key::Tab)
    } else if code == 0x10 {
        Some(Key::Shift)
    } else if code == 0x11 {
        Some(Key::Ctrl)
    } else if code == 0x13 {
        Some(Key::Pause)
    } else if code == 0x14 {
        Some(Key::CapsLock)
    } else if code == 0x1B {
        Some(Key::Esc)
    } else if code == 0x1C {
        Some(Key::Convert)
    } else if code == 0x1D {
        Some(Key::NonConvert)
    } else if code == 0x1E {
        Some(Key::Accept)
    } else if code == 0x1F {
        Some(Key::ModeChange)
    } else if code == 0x20 {
        Some(Key::Space)
    } else if code == 0x21 {
        Some(Key::Prior)
    } else if code == 0x22 {
        Some(Key::Next)
    } else if code == 0x23 {
        Some(Key::End)
    } else if code == 0x24 {
        Some(Key::Home)
    } else if code == 0x25 {
        Some(Key::Left)
    } else if code == 0x26 {
        Some(Key::Up)
    } else if code == 0x27 {
        Some(Key::Right)
    } else if code == 0x28 {
        Some(Key::Down)
    } else if code == 0x29 {
        Some(Key::Select)
    } else if code == 0x2A {
        Some(Key::Print)
    } else if code == 0x2B {
        Some(Key::Execute)
    } else if code == 0x2C {
        Some(Key::Snapshot)
    } else if code == 0x2D {
        Some(Key::Insert)
    } else if code == 0x2E {
        Some(Key::Delete)
    } else if code == 0x2F {
        Some(Key::Help)
    } else if code == 0x41 {
        Some(Key::A)
    } else if code == 0x42 {
        Some(Key::B)
    } else if code == 0x43 {
        Some(Key::C)
    } else if code == 0x44 {
        Some(Key::D)
    } else if code == 0x45 {
        Some(Key::E)
    } else if code == 0x46 {
        Some(Key::F)
    } else if code == 0x47 {
        Some(Key::G)
    } else if code == 0x48 {
        Some(Key::H)
    } else if code == 0x49 {
        Some(Key::I)
    } else if code == 0x4A {
        Some(Key::J)
    } else if code == 0x4B {
        Some(Key::K)
    } else if code == 0x4C {
        Some(Key::L)
    } else if code == 0x4D {
        Some(Key::M)
    } else if code == 0x4E {
        Some(Key::N)
    } else if code == 0x4F {
        Some(Key::O)
    } else if code == 0x50 {
        Some(Key::P)
    } else if code == 0x51 {
        Some(Key::Q)
    } else if code == 0x52 {
        Some(Key::R)
    } else if code == 0x53 {
        Some(Key::S)
    } else if code == 0x54 {
        Some(Key::T)
    } else if code == 0x55 {
        Some(Key::U)
    } else if code == 0x56 {
        Some(Key::V)
    } else if code == 0x57 {
        Some(Key::W)
    } else if code == 0x58 {
        Some(Key::X)
    } else if code == 0x59 {
        Some(Key::Y)
    } else if code == 0x5A {
        Some(Key::Z)
    } else if code == 0x5B {
        Some(Key::LeftWin)
    } else if code == 0x5C {
        Some(Key::RightWin)
    } else if code == 0x5D {
        Some(Key::Apps)
    } else if code == 0x5F {
        Some(Key::Sleep)
    } else if code == 0x60 {
        Some(Key::NumPad0)
    } else if code == 0x61 {
        Some(Key::NumPad1)
    } else if code == 0x62 {
        Some(Key::NumPad2)
    } else if code == 0x63 {
        Some(Key::NumPad3)
    } else if code == 0x64 {
        Some(Key::NumPad4)
    } else if code == 0x65 {
        Some(Key::NumPad5)
    } else if code == 0x66 {
        Some(Key::NumPad6)
    } else if code == 0x67 {
        Some(Key::NumPad7)
    } else if code == 0x68 {
        Some(Key::NumPad8)
    } else if code == 0x69 {
        Some(Key::NumPad9)
    } else if code == 0x6A {
        Some(Key::Multiply)
    } else if code == 0x6B {
        Some(Key::Add)
    } else if code == 0x6C {
        Some(Key::Separator)
    } else if code == 0x6D {
        Some(Key::Subtract)
    } else if code == 0x6E {
        Some(Key::Decimal)
    } else if code == 0x6F {
        Some(Key::Divide)
    } else if code == 0x70 {
        Some(Key::F1)
    } else if code == 0x71 {
        Some(Key::F2)
    } else if code == 0x72 {
        Some(Key::F3)
    } else if code == 0x73 {
        Some(Key::F4)
    } else if code == 0x74 {
        Some(Key::F5)
    } else if code == 0x75 {
        Some(Key::F6)
    } else if code == 0x76 {
        Some(Key::F7)
    } else if code == 0x77 {
        Some(Key::F8)
    } else if code == 0x78 {
        Some(Key::F9)
    } else if code == 0x79 {
        Some(Key::F10)
    } else if code == 0x7A {
        Some(Key::F11)
    } else if code == 0x7B {
        Some(Key::F12)
    } else if code == 0x7C {
        Some(Key::F13)
    } else if code == 0x7D {
        Some(Key::F14)
    } else if code == 0x7E {
        Some(Key::F15)
    } else if code == 0x7F {
        Some(Key::F16)
    } else if code == 0x80 {
        Some(Key::F17)
    } else if code == 0x81 {
        Some(Key::F18)
    } else if code == 0x82 {
        Some(Key::F19)
    } else if code == 0x83 {
        Some(Key::F20)
    } else if code == 0x84 {
        Some(Key::F21)
    } else if code == 0x85 {
        Some(Key::F22)
    } else if code == 0x86 {
        Some(Key::F23)
    } else if code == 0x87 {
        Some(Key::F24)
    } else if code == 0x90 {
        Some(Key::NumLock)
    } else if code == 0x91 {
        Some(Key::Scroll)
    } else if code == 0x92 {
        Some(Key::NumPadEqual)
    } else if code == 0xA0 {
        Some(Key::LeftShift)
    } else if code == 0xA1 {
        Some(Key::RightShift)
    } else if code == 0xA2 {
        Some(Key::LeftCtrl)
    } else if code == 0xA3 {
        Some(Key::RightCtrl)
    } else if code == 0xA4 {
        Some(Key::LeftMenu)
    } else if code == 0xA5 {
        Some(Key::RightMenu)
    } else if code == 0xBA {
        Some(Key::Semicolon)
    } else if code == 0xBB {
        Some(Key::Plus)
    } else if code == 0xBC {
        Some(Key::Comma)
    } else if code == 0xBD {
        Some(Key::Minus)
    } else if code == 0xBE {
        Some(Key::Period)
    } else if code == 0xBF {
        Some(Key::Slash)
    } else if code == 0xC0 {
        Some(Key::Grave)
    } else {
        None
    }
}

impl Button {
    /// Position of the button in enumeration order.
    pub fn index(self) -> (i: usize)
        ensures
            i == button_index(self),
            i < BUTTON_COUNT,
    {
        match self {
            Button::Left => 0,
            Button::Middle => 1,
            Button::Right => 2,
        }
    }
}

impl Key {
    /// The key's code.
    pub fn code(self) -> (code: u8)
        ensures
            code == key_code(self),
            key_with_code(code) == Some(self),
    {
        match self {
            Key::BackSpace => 0x08,
            Key::Enter => 0x0D,
            Key::Tab => 0x09,
            Key::Shift => 0x10,
            Key::Ctrl => 0x11,
            Key::Pause => 0x13,
            Key::CapsLock => 0x14,
            Key::Esc => 0x1B,
            Key::Convert => 0x1C,
            Key::NonConvert => 0x1D,
            Key::Accept => 0x1E,
            Key::ModeChange => 0x1F,
            Key::Space => 0x20,
            Key::Prior => 0x21,
            Key::Next => 0x22,
            Key::End => 0x23,
            Key::Home => 0x24,
            Key::Left => 0x25,
            Key::Up => 0x26,
            Key::Right => 0x27,
            Key::Down => 0x28,
            Key::Select => 0x29,
            Key::Print => 0x2A,
            Key::Execute => 0x2B,
            Key::Snapshot => 0x2C,
            Key::Insert => 0x2D,
            Key::Delete => 0x2E,
            Key::Help => 0x2F,
            Key::A => 0x41,
            Key::B => 0x42,
            Key::C => 0x43,
            Key::D => 0x44,
            Key::E => 0x45,
            Key::F => 0x46,
            Key::G => 0x47,
            Key::H => 0x48,
            Key::I => 0x49,
            Key::J => 0x4A,
            Key::K => 0x4B,
            Key::L => 0x4C,
            Key::M => 0x4D,
            Key::N => 0x4E,
            Key::O => 0x4F,
            Key::P => 0x50,
            Key::Q => 0x51,
            Key::R => 0x52,
            Key::S => 0x53,
            Key::T => 0x54,
            Key::U => 0x55,
            Key::V => 0x56,
            Key::W => 0x57,
            Key::X => 0x58,
            Key::Y => 0x59,
            Key::Z => 0x5A,
            Key::LeftWin => 0x5B,
            Key::RightWin => 0x5C,
            Key::Apps => 0x5D,
            Key::Sleep => 0x5F,
            Key::NumPad0 => 0x60,
            Key::NumPad1 => 0x61,
            Key::NumPad2 => 0x62,
            Key::NumPad3 => 0x63,
            Key::NumPad4 => 0x64,
            Key::NumPad5 => 0x65,
            Key::NumPad6 => 0x66,
            Key::NumPad7 => 0x67,
            Key::NumPad8 => 0x68,
            Key::NumPad9 => 0x69,
            Key::Multiply => 0x6A,
            Key::Add => 0x6B,
            Key::Separator => 0x6C,
            Key::Subtract => 0x6D,
            Key::Decimal => 0x6E,
            Key::Divide => 0x6F,
            Key::F1 => 0x70,
            Key::F2 => 0x71,
            Key::F3 => 0x72,
            Key::F4 => 0x73,
            Key::F5 => 0x74,
            Key::F6 => 0x75,
            Key::F7 => 0x76,
            Key::F8 => 0x77,
            Key::F9 => 0x78,
            Key::F10 => 0x79,
            Key::F11 => 0x7A,
            Key::F12 => 0x7B,
            Key::F13 => 0x7C,
            Key::F14 => 0x7D,
            Key::F15 => 0x7E,
            Key::F16 => 0x7F,
            Key::F17 => 0x80,
            Key::F18 => 0x81,
            Key::F19 => 0x82,
            Key::F20 => 0x83,
            Key::F21 => 0x84,
            Key::F22 => 0x85,
            Key::F23 => 0x86,
            Key::F24 => 0x87,
            Key::NumLock => 0x90,
            Key::Scroll => 0x91,
            Key::NumPadEqual => 0x92,
            Key::LeftShift => 0xA0,
            Key::RightShift => 0xA1,
            Key::LeftCtrl => 0xA2,
            Key::RightCtrl => 0xA3,
            Key::LeftMenu => 0xA4,
            Key::RightMenu => 0xA5,
            Key::Semicolon => 0xBA,
            Key::Plus => 0xBB,
            Key::Comma => 0xBC,
            Key::Minus => 0xBD,
            Key::Period => 0xBE,
            Key::Slash => 0xBF,
            Key::Grave => 0xC0,
        }
    }

    /// The key with the code `code`; `None` for a code that no key has.
    pub fn from_repr(code: u8) -> (key: Option<Key>)
        ensures
            key == key_with_code(code),
            key matches Some(k) ==> key_code(k) == code,
    {
        match code {
            0x08 => Some(Key::BackSpace),
            0x0D => Some(Key::Enter),
            0x09 => Some(Key::Tab),
            0x10 => Some(Key::Shift),
            0x11 => Some(Key::Ctrl),
            0x13 => Some(Key::Pause),
            0x14 => Some(Key::CapsLock),
            0x1B => Some(Key::Esc),
            0x1C => Some(Key::Convert),
            0x1D => Some(Key::NonConvert),
            0x1E => Some(Key::Accept),
            0x1F => Some(Key::ModeChange),
            0x20 => Some(Key::Space),
            0x21 => Some(Key::Prior),
            0x22 => Some(Key::Next),
            0x23 => Some(Key::End),
            0x24 => Some(Key::Home),
            0x25 => Some(Key::Left),
            0x26 => Some(Key::Up),
            0x27 => Some(Key::Right),
            0x28 => Some(Key::Down),
            0x29 => Some(Key::Select),
            0x2A => Some(Key::Print),
            0x2B => Some(Key::Execute),
            0x2C => Some(Key::Snapshot),
            0x2D => Some(Key::Insert),
            0x2E => Some(Key::Delete),
            0x2F => Some(Key::Help),
            0x41 => Some(Key::A),
            0x42 => Some(Key::B),
            0x43 => Some(Key::C),
            0x44 => Some(Key::D),
            0x45 => Some(Key::E),
            0x46 => Some(Key::F),
            0x47 => Some(Key::G),
            0x48 => Some(Key::H),
            0x49 => Some(Key::I),
            0x4A => Some(Key::J),
            0x4B => Some(Key::K),
            0x4C => Some(Key::L),
            0x4D => Some(Key::M),
            0x4E => Some(Key::N),
            0x4F => Some(Key::O),
            0x50 => Some(Key::P),
            0x51 => Some(Key::Q),
            0x52 => Some(Key::R),
            0x53 => Some(Key::S),
            0x54 => Some(Key::T),
            0x55 => Some(Key::U),
            0x56 => Some(Key::V),
            0x57 => Some(Key::W),
            0x58 => Some(Key::X),
            0x59 => Some(Key::Y),
            0x5A => Some(Key::Z),
            0x5B => Some(Key::LeftWin),
            0x5C => Some(Key::RightWin),
            0x5D => Some(Key::Apps),
            0x5F => Some(Key::Sleep),
            0x60 => Some(Key::NumPad0),
            0x61 => Some(Key::NumPad1),
            0x62 => Some(Key::NumPad2),
            0x63 => Some(Key::NumPad3),
            0x64 => Some(Key::NumPad4),
            0x65 => Some(Key::NumPad5),
            0x66 => Some(Key::NumPad6),
            0x67 => Some(Key::NumPad7),
            0x68 => Some(Key::NumPad8),
            0x69 => Some(Key::NumPad9),
            0x6A => Some(Key::Multiply),
            0x6B => Some(Key::Add),
            0x6C => Some(Key::Separator),
            0x6D => Some(Key::Subtract),
            0x6E => Some(Key::Decimal),
            0x6F => Some(Key::Divide),
            0x70 => Some(Key::F1),
            0x71 => Some(Key::F2),
            0x72 => Some(Key::F3),
            0x73 => Some(Key::F4),
            0x74 => Some(Key::F5),
            0x75 => Some(Key::F6),
            0x76 => Some(Key::F7),
            0x77 => Some(Key::F8),
            0x78 => Some(Key::F9),
            0x79 => Some(Key::F10),
            0x7A => Some(Key::F11),
            0x7B => Some(Key::F12),
            0x7C => Some(Key::F13),
            0x7D => Some(Key::F14),
            0x7E => Some(Key::F15),
            0x7F => Some(Key::F16),
            0x80 => Some(Key::F17),
            0x81 => Some(Key::F18),
            0x82 => Some(Key::F19),
            0x83 => Some(Key::F20),
            0x84 => Some(Key::F21),
            0x85 => Some(Key::F22),
            0x86 => Some(Key::F23),
            0x87 => Some(Key::F24),
            0x90 => Some(Key::NumLock),
            0x91 => Some(Key::Scroll),
            0x92 => Some(Key::NumPadEqual),
            0xA0 => Some(Key::LeftShift),
            0xA1 => Some(Key::RightShift),
            0xA2 => Some(Key::LeftCtrl),
            0xA3 => Some(Key::RightCtrl),
            0xA4 => Some(Key::LeftMenu),
            0xA5 => Some(Key::RightMenu),
            0xBA => Some(Key::Semicolon),
            0xBB => Some(Key::Plus),
            0xBC => Some(Key::Comma),
            0xBD => Some(Key::Minus),
            0xBE => Some(Key::Period),
            0xBF => Some(Key::Slash),
            0xC0 => Some(Key::Grave),
            _ => None,
        }
    }
}


/// What the input state holds: for the keyboard and the mouse, what is so now and what
/// was so at the last update. The keys are indexed by code, the buttons by position.
pub struct InputView {
    pub initialized: bool,
    pub keys_then: Seq<bool>,
    pub keys_now: Seq<bool>,
    pub buttons_then: Seq<bool>,
    pub buttons_now: Seq<bool>,
    pub position_then: (i16, i16),
    pub position_now: (i16, i16),
}

/// A run of keys or buttons of which none is down.
pub open spec fn all_up(count: nat) -> Seq<bool> {
    Seq::new(count, |i: int| false)
}

impl InputView {
    /// Every key and button up, the mouse at the origin.
    pub open spec fn cleared(initialized: bool) -> InputView {
        InputView {
            initialized,
            keys_then: all_up(KEY_CODES as nat),
            keys_now: all_up(KEY_CODES as nat),
            buttons_then: all_up(BUTTON_COUNT as nat),
            buttons_now: all_up(BUTTON_COUNT as nat),
            position_then: (0, 0),
            position_now: (0, 0),
        }
    }

    /// Whether `key` is down now.
    pub open spec fn key_down(self, key: Key) -> bool {
        self.keys_now[key_code(key) as int]
    }

    /// Whether `key` was down at the last update.
    pub open spec fn key_was_down(self, key: Key) -> bool {
        self.keys_then[key_code(key) as int]
    }

    /// Whether `button` is down now.
    pub open spec fn button_down(self, button: Button) -> bool {
        self.buttons_now[button_index(button) as int]
    }

    /// Whether `button` was down at the last update.
    pub open spec fn button_was_down(self, button: Button) -> bool {
        self.buttons_then[button_index(button) as int]
    }

    /// The state after `key` went down or came up.
    pub open spec fn with_key(self, key: Key, press: bool) -> InputView {
        InputView { keys_now: self.keys_now.update(key_code(key) as int, press), ..self }
    }

    /// The state after `button` went down or came up.
    pub open spec fn with_button(self, button: Button, press: bool) -> InputView {
        InputView {
            buttons_now: self.buttons_now.update(button_index(button) as int, press),
            ..self
        }
    }

    /// The state after the mouse moved to `(x, y)`.
    pub open spec fn with_position(self, x: i16, y: i16) -> InputView {
        InputView { position_now: (x, y), ..self }
    }

    /// The state after an update: what is so now is also what was so then.
    pub open spec fn updated(self) -> InputView {
        InputView {
            keys_then: self.keys_now,
            buttons_then: self.buttons_now,
            position_then: self.position_now,
            ..self
        }
    }
}

/// The input state of the engine.
pub struct InputState {
    initialized: bool,
    keys_then: Vec<bool>,
    keys_now: Vec<bool>,
    buttons_then: Vec<bool>,
    buttons_now: Vec<bool>,
    position_then: (i16, i16),
    position_now: (i16, i16),
}

impl View for InputState {
    type V = InputView;

    closed spec fn view(&self) -> InputView {
        InputView {
            initialized: self.initialized,
            keys_then: self.keys_then@,
            keys_now: self.keys_now@,
            buttons_then: self.buttons_then@,
            buttons_now: self.buttons_now@,
            position_then: self.position_then,
            position_now: self.position_now,
        }
    }
}

/// A run of `count` flags, none set.
fn cleared_flags(count: usize) -> (flags: Vec<bool>)
    ensures
        flags@ == all_up(count as nat),
{
    let mut flags: Vec<bool> = Vec::new();
    while flags.len() < count
        invariant
            flags@.len() <= count,
            forall|i: int| 0 <= i < flags@.len() ==> !flags@[i],
        decreases count - flags@.len(),
    {
        flags.push(false);
    }
    assert(flags@ =~= all_up(count as nat));
    flags
}

impl InputState {
    /// There is a flag for every key code and for every button.
    pub open spec fn wf(&self) -> bool {
        &&& self@.keys_then.len() == KEY_CODES
        &&& self@.keys_now.len() == KEY_CODES
        &&& self@.buttons_then.len() == BUTTON_COUNT
        &&& self@.buttons_now.len() == BUTTON_COUNT
    }

    /// The state before the input system is started: not initialized, every key and
    /// button up, the mouse at the origin.
    pub fn new() -> (state: InputState)
        ensures
            state.wf(),
            state@ == InputView::cleared(false),
    {
        InputState {
            initialized: false,
            keys_then: cleared_flags(KEY_CODES),
            keys_now: cleared_flags(KEY_CODES),
            buttons_then: cleared_flags(BUTTON_COUNT),
            buttons_now: cleared_flags(BUTTON_COUNT),
            position_then: (0, 0),
            position_now: (0, 0),
        }
    }
}

/// Starts the input system: every key and button up, the mouse at the origin.
pub fn init(state: &mut InputState)
    ensures
        final(state).wf(),
        final(state)@ == InputView::cleared(true),
{
    *state = InputState {
        initialized: true,
        keys_then: cleared_flags(KEY_CODES),
        keys_now: cleared_flags(KEY_CODES),
        buttons_then: cleared_flags(BUTTON_COUNT),
        buttons_now: cleared_flags(BUTTON_COUNT),
        position_then: (0, 0),
        position_now: (0, 0),
    };
}

/// Stops the input system. What the state holds stays, but is no longer reported.
pub fn close(state: &mut InputState)
    ensures
        final(state)@ == (InputView { initialized: false, ..old(state)@ }),
{
    state.initialized = false;
}

/// Ends a frame: what is so now becomes what was so then. Nothing happens while the
/// input system is not started.
pub fn update(state: &mut InputState)
    requires
        old(state).wf(),
    ensures
        final(state).wf(),
        final(state)@ == if old(state)@.initialized {
            old(state)@.updated()
        } else {
            old(state)@
        },
{
    if state.initialized {
        let mut i: usize = 0;
        while i < KEY_CODES
            invariant
                i <= KEY_CODES,
                state.wf(),
                state@.keys_now == old(state)@.keys_now,
                state@.buttons_now == old(state)@.buttons_now,
                state@.buttons_then == old(state)@.buttons_then,
                state@.position_now == old(state)@.position_now,
                state@.position_then == old(state)@.position_then,
                state@.initialized,
                forall|j: int| 0 <= j < i ==> state@.keys_then[j] == state@.keys_now[j],
            decreases KEY_CODES - i,
        {
            let down = state.keys_now[i];
            state.keys_then[i] = down;
            i = i + 1;
        }
        let mut i: usize = 0;
        while i < BUTTON_COUNT
            invariant
                i <= BUTTON_COUNT,
                state.wf(),
                state@.keys_now == old(state)@.keys_now,
                state@.keys_then =~= old(state)@.keys_now,
                state@.buttons_now == old(state)@.buttons_now,
                state@.position_now == old(state)@.position_now,
                state@.position_then == old(state)@.position_then,
                state@.initialized,
                forall|j: int| 0 <= j < i ==> state@.buttons_then[j] == state@.buttons_now[j],
            decreases BUTTON_COUNT - i,
        {
            let down = state.buttons_now[i];
            state.buttons_then[i] = down;
            i = i + 1;
        }
        state.position_then = state.position_now;
        assert(state@.buttons_then =~= old(state)@.buttons_now);
    }
}

/// Whether `key` is up now. Every key is up while the input system is not started.
pub fn is_key_up(state: &InputState, key: Key) -> (up: bool)
    requires
        state.wf(),
    ensures
        up == !(state@.initialized && state@.key_down(key)),
{
    if !state.initialized {
        true
    } else {
        !state.keys_now[key.code() as usize]
    }
}

/// Whether `key` is down now. No key is down while the input system is not started.
pub fn is_key_down(state: &InputState, key: Key) -> (down: bool)
    requires
        state.wf(),
    ensures
        down == (state@.initialized && state@.key_down(key)),
{
    if !state.initialized {
        false
    } else {
        state.keys_now[key.code() as usize]
    }
}

/// Whether `key` was up at the last update.
pub fn was_key_up(state: &InputState, key: Key) -> (up: bool)
    requires
        state.wf(),
    ensures
        up == !(state@.initialized && state@.key_was_down(key)),
{
    if !state.initialized {
        true
    } else {
        !state.keys_then[key.code() as usize]
    }
}

/// Whether `key` was down at the last update.
pub fn was_key_down(state: &InputState, key: Key) -> (down: bool)
    requires
        state.wf(),
    ensures
        down == (state@.initialized && state@.key_was_down(key)),
{
    if !state.initialized {
        false
    } else {
        state.keys_then[key.code() as usize]
    }
}

/// Records that `key` went down or came up. Where that changes the key's state, the
/// event to fire is returned; where it does not, nothing changes.
pub fn process_key(state: &mut InputState, key: Key, press: bool) -> (event: Option<InputEvent>)
    requires
        old(state).wf(),
    ensures
        final(state).wf(),
        old(state)@.key_down(key) == press ==> event.is_none() && final(state)@ == old(state)@,
        old(state)@.key_down(key) != press ==> final(state)@ == old(state)@.with_key(key, press)
            && event == Some(
            if press {
                InputEvent::KeyPress(KeyPress(key))
            } else {
                InputEvent::KeyRelease(KeyRelease(key))
            },
        ),
{
    let code = key.code() as usize;
    if state.keys_now[code] != press {
        state.keys_now[code] = press;
        if press {
            Some(InputEvent::KeyPress(KeyPress(key)))
        } else {
            Some(InputEvent::KeyRelease(KeyRelease(key)))
        }
    } else {
        None
    }
}

/// Whether `button` is up now. Every button is up while the input system is not
/// started.
pub fn is_button_up(state: &InputState, button: Button) -> (up: bool)
    requires
        state.wf(),
    ensures
        up == !(state@.initialized && state@.button_down(button)),
{
    if !state.initialized {
        true
    } else {
        !state.buttons_now[button.index()]
    }
}

/// Whether `button` is down now. No button is down while the input system is not
/// started.
pub fn is_button_down(state: &InputState, button: Button) -> (down: bool)
    requires
        state.wf(),
    ensures
        down == (state@.initialized && state@.button_down(button)),
{
    if !state.initialized {
        false
    } else {
        state.buttons_now[button.index()]
    }
}

/// Whether `button` was up at the last update.
pub fn was_button_up(state: &InputState, button: Button) -> (up: bool)
    requires
        state.wf(),
    ensures
        up == !(state@.initialized && state@.button_was_down(button)),
{
    if !state.initialized {
        true
    } else {
        !state.buttons_then[button.index()]
    }
}

/// Whether `button` was down at the last update.
pub fn was_button_down(state: &InputState, button: Button) -> (down: bool)
    requires
        state.wf(),
    ensures
        down == (state@.initialized && state@.button_was_down(button)),
{
    if !state.initialized {
        false
    } else {
        state.buttons_then[button.index()]
    }
}

/// Where the mouse is now; the origin while the input system is not started.
pub fn get_mouse_now(state: &InputState) -> (position: (i16, i16))
    ensures
        position == if state@.initialized {
            state@.position_now
        } else {
            (0i16, 0i16)
        },
{
    if !state.initialized {
        (0, 0)
    } else {
        state.position_now
    }
}

/// Where the mouse was at the last update; the origin while the input system is not
/// started.
pub fn get_mouse_then(state: &InputState) -> (position: (i16, i16))
    ensures
        position == if state@.initialized {
            state@.position_then
        } else {
            (0i16, 0i16)
        },
{
    if !state.initialized {
        (0, 0)
    } else {
        state.position_then
    }
}

/// Records that `button` went down or came up. Where that changes the button's state,
/// the event to fire is returned; where it does not, nothing changes.
pub fn process_button(state: &mut InputState, button: Button, press: bool) -> (event: Option<
    InputEvent,
>)
    requires
        old(state).wf(),
    ensures
        final(state).wf(),
        old(state)@.button_down(button) == press ==> event.is_none() && final(state)@ == old(
            state,
        )@,
        old(state)@.button_down(button) != press ==> final(state)@ == old(state)@.with_button(
            button,
            press,
        ) && event == Some(
            if press {
                InputEvent::ButtonPress(ButtonPress(button))
            } else {
                InputEvent::ButtonRelease(ButtonRelease(button))
            },
        ),
{
    let index = button.index();
    if state.buttons_now[index] != press {
        state.buttons_now[index] = press;
        if press {
            Some(InputEvent::ButtonPress(ButtonPress(button)))
        } else {
            Some(InputEvent::ButtonRelease(ButtonRelease(button)))
        }
    } else {
        None
    }
}

/// Records that the mouse is at `(x, y)`. Where that is a new position, the event to
/// fire is returned; where it is not, nothing changes.
pub fn process_mouse_move(state: &mut InputState, x: i16, y: i16) -> (event: Option<InputEvent>)
    ensures
        old(state)@.position_now == (x, y) ==> event.is_none() && final(state)@ == old(state)@,
        old(state)@.position_now != (x, y) ==> final(state)@ == old(state)@.with_position(x, y)
            && event == Some(InputEvent::MouseMove(MouseMove { x, y })),
{
    if state.position_now.0 != x || state.position_now.1 != y {
        state.position_now = (x, y);
        Some(InputEvent::MouseMove(MouseMove { x, y }))
    } else {
        None
    }
}

/// The event to fire for a turn of the mouse wheel. The wheel has no state to record.
pub fn process_mouse_wheel(z_delta: i8) -> (event: InputEvent)
    ensures
        event == InputEvent::MouseWheel(MouseWheel(z_delta)),
{
    InputEvent::MouseWheel(MouseWheel(z_delta))
}

} // verus!
