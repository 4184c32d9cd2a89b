use strings::event::InputEvent;
use strings::event::KeyPress;
use strings::event::MouseWheel;
use strings::input::init;
use strings::input::is_key_down;
use strings::input::Button;
use strings::input::InputState;
use strings::input::Key;
use strings::platform::record;
use strings::platform::closes_window;
use strings::platform::interpret;
use strings::platform::WindowAction;
use strings::platform::WM_CLOSE;
use strings::platform::WM_DESTROY;
use strings::platform::WM_ERASEBKGND;
use strings::platform::WM_KEYDOWN;
use strings::platform::WM_KEYUP;
use strings::platform::WM_LBUTTONDOWN;
use strings::platform::WM_MBUTTONUP;
use strings::platform::WM_MOUSEMOVE;
use strings::platform::WM_MOUSEWHEEL;
use strings::platform::WM_RBUTTONDOWN;
use strings::platform::WM_SIZE;
use strings::platform::WM_SYSKEYDOWN;
use strings::platform::WM_SYSKEYUP;

#[test]
fn window_messages_are_interpreted() {
    assert_eq!(interpret(WM_ERASEBKGND, 0, 0), WindowAction::KeepBackground);
    assert_eq!(interpret(WM_CLOSE, 0, 0), WindowAction::Close);
    assert_eq!(interpret(WM_DESTROY, 0, 0), WindowAction::Quit);
    assert_eq!(interpret(WM_SIZE, 1, 2), WindowAction::Pass);
    assert_eq!(interpret(0x7777, 1, 2), WindowAction::Pass);
    assert_eq!(interpret(WM_KEYDOWN, 0x41, 0), WindowAction::Key(Key::A, true));
    assert_eq!(interpret(WM_SYSKEYDOWN, 0x141, 0), WindowAction::Key(Key::A, true));
    assert_eq!(interpret(WM_KEYUP, 0x1B, 0), WindowAction::Key(Key::Esc, false));
    assert_eq!(interpret(WM_SYSKEYUP, 0x20, 0), WindowAction::Key(Key::Space, false));
    assert_eq!(interpret(WM_KEYDOWN, 0x00, 0), WindowAction::Pass);
    assert_eq!(interpret(WM_LBUTTONDOWN, 0, 0), WindowAction::Button(Button::Left, true));
    assert_eq!(interpret(WM_MBUTTONUP, 0, 0), WindowAction::Button(Button::Middle, false));
    assert_eq!(interpret(WM_RBUTTONDOWN, 0, 0), WindowAction::Button(Button::Right, true));
}

#[test]
fn mouse_words_are_signed() {
    assert_eq!(interpret(WM_MOUSEMOVE, 0, 0x0064_00C8), WindowAction::MouseMove(200, 100));
    assert_eq!(interpret(WM_MOUSEMOVE, 0, 0xFFFF_FFFE), WindowAction::MouseMove(-2, -1));
    assert_eq!(
        interpret(WM_MOUSEMOVE, 0, 0xFFFF_FFFF_8000_7FFF),
        WindowAction::MouseMove(32767, -32768)
    );
    assert_eq!(interpret(WM_MOUSEWHEEL, 120 << 16, 0), WindowAction::MouseWheel(1));
    assert_eq!(interpret(WM_MOUSEWHEEL, 0xFF88 << 16, 0), WindowAction::MouseWheel(-1));
    assert_eq!(interpret(WM_MOUSEWHEEL, 0x0100 << 16, 0), WindowAction::Pass);
    assert_eq!(interpret(WM_MOUSEWHEEL, 0x0008, 0), WindowAction::Pass);
}

#[test]
fn actions_have_results_and_are_recorded() {
    assert_eq!(WindowAction::KeepBackground.result(), Some(1));
    assert_eq!(WindowAction::Close.result(), Some(0));
    assert_eq!(WindowAction::Quit.result(), Some(0));
    assert_eq!(WindowAction::Pass.result(), None);
    assert_eq!(WindowAction::Key(Key::A, true).result(), None);
    let mut state = InputState::new();
    init(&mut state);
    assert_eq!(
        record(&mut state, interpret(WM_KEYDOWN, 0x41, 0)),
        Some(InputEvent::KeyPress(KeyPress(Key::A)))
    );
    assert_eq!(record(&mut state, interpret(WM_KEYDOWN, 0x41, 0)), None);
    assert_eq!(is_key_down(&state, Key::A), true);
    assert_eq!(record(&mut state, WindowAction::Close), None);
    assert_eq!(
        record(&mut state, WindowAction::MouseWheel(-1)),
        Some(InputEvent::MouseWheel(MouseWheel(-1)))
    );
}

#[test]
fn only_the_delete_request_closes() {
    assert_eq!(closes_window(Some(77), 77), true);
    assert_eq!(closes_window(Some(78), 77), false);
    assert_eq!(closes_window(None, 77), false);
    assert_eq!(closes_window(None, 0), false);
}
