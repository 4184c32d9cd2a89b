//! What the messages of the window system mean to the engine: those of a Win32 window,
//! and the one message of an X11 window manager that the engine listens for.
//!
//! Talking to the window system belongs to the application: it hands each message over,
//! performs the action that comes back and hands the input events on.

use crate::event::InputEvent;
use crate::input::key_with_code;
use crate::input::process_button;
use crate::input::process_key;
use crate::input::process_mouse_move;
use crate::input::process_mouse_wheel;
use crate::input::Button;
use crate::input::InputState;
use crate::input::InputView;
use crate::input::Key;
use vstd::prelude::*;

verus! {

pub const WM_DESTROY: u32 = 0x0002;

pub const WM_SIZE: u32 = 0x0005;

pub const WM_CLOSE: u32 = 0x0010;

pub const WM_ERASEBKGND: u32 = 0x0014;

pub const WM_KEYDOWN: u32 = 0x0100;

pub const WM_KEYUP: u32 = 0x0101;

pub const WM_SYSKEYDOWN: u32 = 0x0104;

pub const WM_SYSKEYUP: u32 = 0x0105;

pub const WM_MOUSEMOVE: u32 = 0x0200;

pub const WM_LBUTTONDOWN: u32 = 0x0201;

pub const WM_LBUTTONUP: u32 = 0x0202;

pub const WM_RBUTTONDOWN: u32 = 0x0204;

pub const WM_RBUTTONUP: u32 = 0x0205;

pub const WM_MBUTTONDOWN: u32 = 0x0207;

pub const WM_MBUTTONUP: u32 = 0x0208;

pub const WM_MOUSEWHEEL: u32 = 0x020A;

/// What a window message asks of the engine.
#[derive(Clone, Copy, PartialEq, Eq, Structural, Debug)]
pub enum WindowAction {
    /// The background is not to be erased: the application draws all of it.
    KeepBackground,
    /// The window is asked to close.
    Close,
    /// The window is gone: the message loop is to end.
    Quit,
    /// A key went down (`true`) or came up.
    Key(Key, bool),
    /// A mouse button went down (`true`) or came up.
    Button(Button, bool),
    /// The mouse moved to a position in the window.
    MouseMove(i16, i16),
    /// The wheel turned away from the user (`1`) or towards the user (`-1`).
    MouseWheel(i8),
    /// Nothing that concerns the engine.
    Pass,
}

/// The bits `from` to `from + 15` of a word, as a signed number of 16 bits.
pub open spec fn signed_word(word: u64, from: nat) -> int {
    let bits = (word as int / vstd::arithmetic::power2::pow2(from) as int) % 0x1_0000;
    if bits >= 0x8000 {
        bits - 0x1_0000
    } else {
        bits
    }
}

/// The bits `from` to `from + 7` of a word, as a signed number of 8 bits.
pub open spec fn signed_byte(word: u64, from: nat) -> int {
    let bits = (word as int / vstd::arithmetic::power2::pow2(from) as int) % 0x100;
    if bits >= 0x80 {
        bits - 0x100
    } else {
        bits
    }
}

/// What a message asks of the engine.
///
/// A key message carries the key's code in the low byte of its first word; a code that
/// no key has asks nothing. A mouse move carries the position in the two low half-words
/// of its second word. A turn of the wheel carries its amount in the second half-word of
/// its first word, of which the low byte counts, and only its direction is kept; an
/// amount of zero asks nothing.
pub open spec fn action_of(message: u32, wparam: u64, lparam: u64) -> WindowAction {
    if message == WM_ERASEBKGND {
        WindowAction::KeepBackground
    } else if message == WM_CLOSE {
        WindowAction::Close
    } else if message == WM_DESTROY {
        WindowAction::Quit
    } else if message == WM_KEYDOWN || message == WM_SYSKEYDOWN || message == WM_KEYUP || message
        == WM_SYSKEYUP {
        match key_with_code((wparam % 0x100) as u8) {
            Some(key) => WindowAction::Key(key, message == WM_KEYDOWN || message == WM_SYSKEYDOWN),
            None => WindowAction::Pass,
        }
    } else if message == WM_MOUSEMOVE {
        WindowAction::MouseMove(signed_word(lparam, 0) as i16, signed_word(lparam, 16) as i16)
    } else if message == WM_MOUSEWHEEL {
        let amount = signed_byte(wparam, 16);
        if amount == 0 {
            WindowAction::Pass
        } else if amount < 0 {
            WindowAction::MouseWheel(-1i8)
        } else {
            WindowAction::MouseWheel(1i8)
        }
    } else if message == WM_LBUTTONDOWN || message == WM_LBUTTONUP {
        WindowAction::Button(Button::Left, message == WM_LBUTTONDOWN)
    } else if message == WM_MBUTTONDOWN || message == WM_MBUTTONUP {
        WindowAction::Button(Button::Middle, message == WM_MBUTTONDOWN)
    } else if message == WM_RBUTTONDOWN || message == WM_RBUTTONUP {
        WindowAction::Button(Button::Right, message == WM_RBUTTONDOWN)
    } else {
        WindowAction::Pass
    }
}

/// The result that the window procedure returns for an action without asking the
/// system's default procedure: `None` where the default procedure is to be asked.
pub open spec fn result_of(action: WindowAction) -> Option<i64> {
    match action {
        WindowAction::KeepBackground => Some(1),
        WindowAction::Close => Some(0),
        WindowAction::Quit => Some(0),
        _ => None,
    }
}

/// The low half-word of `word`, or the one above it, as a signed number.
fn half_word(word: u64, high: bool) -> (value: i16)
    ensures
        value == signed_word(
            word,
            if high {
                16
            } else {
                0
            },
        ),
{
    proof {
        vstd::arithmetic::power2::lemma2_to64();
    }
    let bits = if high {
        (word / 0x1_0000) % 0x1_0000
    } else {
        word % 0x1_0000
    };
    if bits >= 0x8000 {
        (bits as i64 - 0x1_0000) as i16
    } else {
        bits as i16
    }
}

/// Reads off a window message what it asks of the engine.
pub fn interpret(message: u32, wparam: u64, lparam: u64) -> (action: WindowAction)
    ensures
        action == action_of(message, wparam, lparam),
{
    if message == WM_ERASEBKGND {
        WindowAction::KeepBackground
    } else if message == WM_CLOSE {
        WindowAction::Close
    } else if message == WM_DESTROY {
        WindowAction::Quit
    } else if message == WM_KEYDOWN || message == WM_SYSKEYDOWN || message == WM_KEYUP || message
        == WM_SYSKEYUP {
        let press = message == WM_KEYDOWN || message == WM_SYSKEYDOWN;
        match Key::from_repr((wparam % 0x100) as u8) {
            Some(key) => WindowAction::Key(key, press),
            None => WindowAction::Pass,
        }
    } else if message == WM_MOUSEMOVE {
        WindowAction::MouseMove(half_word(lparam, false), half_word(lparam, true))
    } else if message == WM_MOUSEWHEEL {
        proof {
            vstd::arithmetic::power2::lemma2_to64();
        }
        let bits = (wparam / 0x1_0000) % 0x100;
        if bits == 0 {
            WindowAction::Pass
        } else if bits >= 0x80 {
            WindowAction::MouseWheel(-1)
        } else {
            WindowAction::MouseWheel(1)
        }
    } else if message == WM_LBUTTONDOWN || message == WM_LBUTTONUP {
        WindowAction::Button(Button::Left, message == WM_LBUTTONDOWN)
    } else if message == WM_MBUTTONDOWN || message == WM_MBUTTONUP {
        WindowAction::Button(Button::Middle, message == WM_MBUTTONDOWN)
    } else if message == WM_RBUTTONDOWN || message == WM_RBUTTONUP {
        WindowAction::Button(Button::Right, message == WM_RBUTTONDOWN)
    } else {
        WindowAction::Pass
    }
}

impl WindowAction {
    /// The result that the window procedure returns without asking the system's default
    /// procedure; `None` where the default procedure is to be asked.
    pub fn result(&self) -> (result: Option<i64>)
        ensures
            result == result_of(*self),
    {
        match self {
            WindowAction::KeepBackground => Some(1),
            WindowAction::Close => Some(0),
            WindowAction::Quit => Some(0),
            _ => None,
        }
    }
}

/// What the input state holds after an action.
pub open spec fn input_after(view: InputView, action: WindowAction) -> InputView {
    match action {
        WindowAction::Key(key, press) => view.with_key(key, press),
        WindowAction::Button(button, press) => view.with_button(button, press),
        WindowAction::MouseMove(x, y) => view.with_position(x, y),
        _ => view,
    }
}

/// Records an action in the input state and returns the event to fire, if the action
/// calls for one: a key or a button that changes its state, a move to a new position,
/// every turn of the wheel.
pub fn record(state: &mut InputState, action: WindowAction) -> (event: Option<InputEvent>)
    requires
        old(state).wf(),
    ensures
        final(state).wf(),
        event.is_some() ==> final(state)@ == input_after(old(state)@, action),
        event.is_none() ==> final(state)@ == old(state)@,
        event.is_some() <==> match action {
            WindowAction::Key(key, press) => old(state)@.key_down(key) != press,
            WindowAction::Button(button, press) => old(state)@.button_down(button) != press,
            WindowAction::MouseMove(x, y) => old(state)@.position_now != (x, y),
            WindowAction::MouseWheel(_) => true,
            _ => false,
        },
{
    match action {
        WindowAction::Key(key, press) => process_key(state, key, press),
        WindowAction::Button(button, press) => process_button(state, button, press),
        WindowAction::MouseMove(x, y) => process_mouse_move(state, x, y),
        WindowAction::MouseWheel(z_delta) => Some(process_mouse_wheel(z_delta)),
        _ => None,
    }
}


/// Whether a message from the X11 window manager asks the window to close: it does
/// where its first word is the atom under which the window announced that it takes
/// such requests. `first_word` is `None` for an event that is no client message.
pub fn closes_window(first_word: Option<u32>, delete_window: u32) -> (closes: bool)
    ensures
        closes == (first_word == Some(delete_window)),
{
    match first_word {
        Some(word) => word == delete_window,
        None => false,
    }
}

} // verus!
