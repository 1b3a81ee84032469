use magma::input::{InputHandler, KeyCode, KeyState, KeyboardInput};

fn key(scancode: u32, state: KeyState, code: u32) -> KeyboardInput {
    KeyboardInput { scancode, state, keycode: Some(KeyCode { code }) }
}

#[test]
fn new_handler_has_no_pressed_keys() {
    let handler = InputHandler::new();
    assert!(handler.keyboard_inputs.is_empty());
    assert!(!handler.is_key_pressed(KeyCode { code: 1 }));
}

#[test]
fn press_then_key_is_pressed() {
    let mut handler = InputHandler::new();
    handler.process_keyboard_input(key(30, KeyState::Pressed, 4));
    assert!(handler.is_key_pressed(KeyCode { code: 4 }));
    assert!(!handler.is_key_pressed(KeyCode { code: 5 }));
    assert_eq!(handler.keyboard_inputs.len(), 1);
}

#[test]
fn press_then_release_is_not_pressed() {
    let mut handler = InputHandler::new();
    handler.process_keyboard_input(key(30, KeyState::Pressed, 4));
    handler.process_keyboard_input(key(31, KeyState::Pressed, 5));
    handler.process_keyboard_input(key(30, KeyState::Released, 4));
    assert!(!handler.is_key_pressed(KeyCode { code: 4 }));
    assert!(handler.is_key_pressed(KeyCode { code: 5 }));
    assert_eq!(handler.keyboard_inputs, vec![key(31, KeyState::Pressed, 5)]);
}

#[test]
fn repeated_press_is_listed_once() {
    let mut handler = InputHandler::new();
    handler.process_keyboard_input(key(30, KeyState::Pressed, 4));
    handler.process_keyboard_input(key(30, KeyState::Pressed, 4));
    assert_eq!(handler.keyboard_inputs.len(), 1);
}

#[test]
fn release_of_unlisted_key_changes_nothing() {
    let mut handler = InputHandler::new();
    handler.process_keyboard_input(key(30, KeyState::Released, 4));
    assert!(handler.keyboard_inputs.is_empty());
    handler.process_keyboard_input(key(30, KeyState::Pressed, 4));
    assert_eq!(handler.keyboard_inputs, vec![key(30, KeyState::Pressed, 4)]);
    assert!(handler.is_key_pressed(KeyCode { code: 4 }));
}

#[test]
fn input_without_keycode_presses_no_key() {
    let mut handler = InputHandler::new();
    handler.process_keyboard_input(KeyboardInput { scancode: 9, state: KeyState::Pressed, keycode: None });
    assert_eq!(handler.keyboard_inputs.len(), 1);
    assert!(!handler.is_key_pressed(KeyCode { code: 9 }));
}

#[test]
fn handler_keys_stay_distinct() {
    let mut handler = InputHandler::new();
    assert!(handler.keys_distinct());
    handler.process_keyboard_input(key(30, KeyState::Pressed, 4));
    handler.process_keyboard_input(key(31, KeyState::Pressed, 5));
    handler.process_keyboard_input(key(30, KeyState::Pressed, 4));
    assert!(handler.keys_distinct());
    let doubled = InputHandler { keyboard_inputs: vec![key(30, KeyState::Pressed, 4), key(30, KeyState::Released, 4)] };
    assert!(!doubled.keys_distinct());
}
