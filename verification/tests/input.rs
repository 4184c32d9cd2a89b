use strings::event::ButtonPress;
use strings::event::ButtonRelease;
use strings::event::InputEvent;
use strings::event::KeyPress;
use strings::event::KeyRelease;
use strings::event::MouseMove;
use strings::event::MouseWheel;
use strings::input::close;
use strings::input::get_mouse_now;
use strings::input::get_mouse_then;
use strings::input::init;
use strings::input::is_button_down;
use strings::input::is_button_up;
use strings::input::is_key_down;
use strings::input::is_key_up;
use strings::input::process_button;
use strings::input::process_key;
use strings::input::process_mouse_move;
use strings::input::process_mouse_wheel;
use strings::input::update;
use strings::input::was_button_down;
use strings::input::was_button_up;
use strings::input::was_key_down;
use strings::input::was_key_up;
use strings::input::Button;
use strings::input::InputState;
use strings::input::Key;

#[test]
fn nothing_is_reported_before_init() {
    let mut state = InputState::new();
    assert_eq!(is_key_up(&state, Key::A), true);
    assert_eq!(is_key_down(&state, Key::A), false);
    assert_eq!(was_key_up(&state, Key::A), true);
    assert_eq!(was_key_down(&state, Key::A), false);
    assert_eq!(is_button_up(&state, Button::Left), true);
    assert_eq!(is_button_down(&state, Button::Left), false);
    assert_eq!(was_button_up(&state, Button::Right), true);
    assert_eq!(was_button_down(&state, Button::Right), false);
    assert_eq!(get_mouse_now(&state), (0, 0));
    assert_eq!(get_mouse_then(&state), (0, 0));
    assert_eq!(
        process_key(&mut state, Key::A, true),
        Some(InputEvent::KeyPress(KeyPress(Key::A)))
    );
    assert_eq!(is_key_down(&state, Key::A), false);
    assert_eq!(
        process_mouse_move(&mut state, 3, 4),
        Some(InputEvent::MouseMove(MouseMove { x: 3, y: 4 }))
    );
    assert_eq!(get_mouse_now(&state), (0, 0));
}

#[test]
fn keys_change_state_once() {
    let mut state = InputState::new();
    init(&mut state);
    assert_eq!(is_key_up(&state, Key::Space), true);
    assert_eq!(
        process_key(&mut state, Key::Space, true),
        Some(InputEvent::KeyPress(KeyPress(Key::Space)))
    );
    assert_eq!(process_key(&mut state, Key::Space, true), None);
    assert_eq!(is_key_down(&state, Key::Space), true);
    assert_eq!(is_key_up(&state, Key::Space), false);
    assert_eq!(is_key_down(&state, Key::Enter), false);
    assert_eq!(was_key_down(&state, Key::Space), false);
    update(&mut state);
    assert_eq!(was_key_down(&state, Key::Space), true);
    assert_eq!(was_key_up(&state, Key::Space), false);
    assert_eq!(
        process_key(&mut state, Key::Space, false),
        Some(InputEvent::KeyRelease(KeyRelease(Key::Space)))
    );
    assert_eq!(process_key(&mut state, Key::Space, false), None);
    assert_eq!(is_key_up(&state, Key::Space), true);
    assert_eq!(was_key_down(&state, Key::Space), true);
    update(&mut state);
    assert_eq!(was_key_up(&state, Key::Space), true);
}

#[test]
fn buttons_and_mouse_follow_updates() {
    let mut state = InputState::new();
    init(&mut state);
    assert_eq!(
        process_button(&mut state, Button::Middle, true),
        Some(InputEvent::ButtonPress(ButtonPress(Button::Middle)))
    );
    assert_eq!(process_button(&mut state, Button::Middle, true), None);
    assert_eq!(is_button_down(&state, Button::Middle), true);
    assert_eq!(is_button_up(&state, Button::Middle), false);
    assert_eq!(is_button_up(&state, Button::Left), true);
    assert_eq!(was_button_down(&state, Button::Middle), false);
    assert_eq!(
        process_mouse_move(&mut state, -5, 700),
        Some(InputEvent::MouseMove(MouseMove { x: -5, y: 700 }))
    );
    assert_eq!(process_mouse_move(&mut state, -5, 700), None);
    assert_eq!(get_mouse_now(&state), (-5, 700));
    assert_eq!(get_mouse_then(&state), (0, 0));
    update(&mut state);
    assert_eq!(get_mouse_then(&state), (-5, 700));
    assert_eq!(was_button_down(&state, Button::Middle), true);
    assert_eq!(was_button_up(&state, Button::Middle), false);
    assert_eq!(
        process_button(&mut state, Button::Middle, false),
        Some(InputEvent::ButtonRelease(ButtonRelease(Button::Middle)))
    );
    assert_eq!(is_button_up(&state, Button::Middle), true);
    assert_eq!(process_mouse_wheel(-1), InputEvent::MouseWheel(MouseWheel(-1)));
}

#[test]
fn close_hides_and_init_clears() {
    let mut state = InputState::new();
    init(&mut state);
    process_key(&mut state, Key::Z, true);
    process_mouse_move(&mut state, 9, 9);
    close(&mut state);
    assert_eq!(is_key_down(&state, Key::Z), false);
    assert_eq!(get_mouse_now(&state), (0, 0));
    update(&mut state);
    init(&mut state);
    assert_eq!(is_key_down(&state, Key::Z), false);
    assert_eq!(was_key_down(&state, Key::Z), false);
    assert_eq!(get_mouse_now(&state), (0, 0));
}

#[test]
fn key_codes_round_trip() {
    assert_eq!(Key::BackSpace.code(), 0x08);
    assert_eq!(Key::A.code(), 0x41);
    assert_eq!(Key::Grave.code(), 0xC0);
    assert_eq!(Key::from_repr(0x1B), Some(Key::Esc));
    assert_eq!(Key::from_repr(0x00), None);
    assert_eq!(Key::from_repr(0xFF), None);
    let mut known = 0;
    for code in 0..=255u8 {
        if let Some(key) = Key::from_repr(code) {
            assert_eq!(key.code(), code);
            known += 1;
        }
    }
    assert_eq!(known, 114);
    assert_eq!(Button::Left.index(), 0);
    assert_eq!(Button::Right.index(), 2);
}
