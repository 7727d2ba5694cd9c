use chip8::keyboard::Keyboard;

#[test]
fn test_fresh_keyboard_is_idle() {
    let keyboard = Keyboard::new();
    assert_eq!(keyboard.key_last_pressed(), None);
    assert!(!keyboard.has_signal_keypress());
    assert!(!keyboard.is_key_pressed(0));
}

#[test]
fn test_release_records_key_and_signal() {
    let mut keyboard = Keyboard::new();
    keyboard.key_down(5);
    assert!(keyboard.is_key_pressed(5));
    assert!(!keyboard.is_key_pressed(4));
    keyboard.key_up();
    assert_eq!(keyboard.key_last_pressed(), Some(5));
    assert!(keyboard.has_signal_keypress());
    assert!(!keyboard.is_key_pressed(5));
}

#[test]
fn test_clear_signals_keeps_last_released() {
    let mut keyboard = Keyboard::new();
    keyboard.key_down(5);
    keyboard.key_up();
    keyboard.clear_signals();
    assert!(!keyboard.has_signal_keypress());
    assert_eq!(keyboard.key_last_pressed(), Some(5));
}

#[test]
fn test_last_key_wins() {
    let mut keyboard = Keyboard::new();
    keyboard.key_down(2);
    keyboard.key_down(7);
    assert!(keyboard.is_key_pressed(7));
    assert!(!keyboard.is_key_pressed(2));
    keyboard.key_up();
    assert_eq!(keyboard.key_last_pressed(), Some(7));
}
