use twors::input::Input;
use twors::keyboard::Keyboard;
use twors::mouse::Mouse as MouseState;
use twors::{Key, Mouse, Vertex2};

#[test]
fn key_state_cycle() {
    let mut keyboard = Keyboard::default();
    assert!(keyboard.is_up(Key::KeyA));

    keyboard.handle_key_down(Key::KeyA);
    assert!(keyboard.is_pressed(Key::KeyA));
    assert!(keyboard.is_down(Key::KeyA));

    keyboard.transition_states();
    assert!(!keyboard.is_pressed(Key::KeyA));
    assert!(keyboard.is_down(Key::KeyA));

    keyboard.handle_key_up(Key::KeyA);
    assert!(keyboard.is_released(Key::KeyA));
    assert!(keyboard.is_up(Key::KeyA));

    keyboard.transition_states();
    assert!(!keyboard.is_released(Key::KeyA));
    assert!(keyboard.is_up(Key::KeyA));
}

#[test]
fn keys_do_not_interfere() {
    let mut keyboard = Keyboard::default();
    keyboard.handle_key_down(Key::ArrowLeft);
    assert!(keyboard.is_pressed(Key::ArrowLeft));
    assert!(keyboard.is_up(Key::ArrowRight));
    assert!(!keyboard.is_down(Key::ArrowRight));
    keyboard.handle_key_down(Key::NumpadSubtract);
    keyboard.transition_states();
    assert!(keyboard.is_down(Key::ArrowLeft));
    assert!(keyboard.is_down(Key::NumpadSubtract));
    assert!(keyboard.is_up(Key::ArrowDown));
}

#[test]
fn key_codes() {
    assert_eq!(Key::new("KeyA"), Ok(Key::KeyA));
    assert_eq!(Key::new("ArrowDown"), Ok(Key::ArrowDown));
    assert_eq!(Key::new("F12"), Ok(Key::F12));
    assert_eq!(Key::new("NumpadSubtract"), Ok(Key::NumpadSubtract));
    assert_eq!(Key::new("Digit0"), Ok(Key::Digit0));
    let err = Key::new("Keya").unwrap_err();
    assert_eq!(err.message(), "Unsupported keyboard key code: 'Keya'");
    let err = Key::new("").unwrap_err();
    assert_eq!(err.message(), "Unsupported keyboard key code: ''");
}

#[test]
fn key_events_by_code() {
    let mut keyboard = Keyboard::default();
    assert!(keyboard.key_down("Space").is_ok());
    assert!(keyboard.is_pressed(Key::Space));
    let err = keyboard.key_down("Hyper").unwrap_err();
    assert_eq!(err.message(), "Unsupported keyboard key code: 'Hyper'");
    assert!(keyboard.is_pressed(Key::Space));
    assert!(keyboard.key_up("Space").is_ok());
    assert!(keyboard.is_released(Key::Space));
}

#[test]
fn mouse_button_numbers() {
    assert_eq!(Mouse::new(0), Ok(Mouse::LMB));
    assert_eq!(Mouse::new(1), Ok(Mouse::MMB));
    assert_eq!(Mouse::new(2), Ok(Mouse::RMB));
    assert_eq!(Mouse::new(3).unwrap_err().message(), "Unsupported mouse key code: '3'");
    assert_eq!(Mouse::new(-17).unwrap_err().message(), "Unsupported mouse key code: '-17'");
    assert_eq!(Mouse::new(1024).unwrap_err().message(), "Unsupported mouse key code: '1024'");
}

#[test]
fn mouse_state_and_position() {
    let mut mouse = MouseState::default();
    assert_eq!(mouse.position(), Vertex2::new(0, 0));
    mouse.handle_move(120, -4);
    assert_eq!(mouse.position(), Vertex2::new(120, -4));
    assert!(mouse.button_down(2).is_ok());
    assert!(mouse.is_pressed(Mouse::RMB));
    assert!(mouse.is_up(Mouse::LMB));
    assert!(mouse.button_down(7).is_err());
    mouse.transition_states();
    assert!(mouse.is_down(Mouse::RMB));
    assert_eq!(mouse.position(), Vertex2::new(120, -4));
    assert!(mouse.button_up(2).is_ok());
    assert!(mouse.is_released(Mouse::RMB));
}

#[test]
fn input_transition_covers_both() {
    let mut input = Input::default();
    input.keyboard.handle_key_down(Key::Enter);
    input.mouse.handle_button_up(Mouse::LMB);
    input.transition_states();
    assert!(input.keyboard.is_down(Key::Enter));
    assert!(!input.keyboard.is_pressed(Key::Enter));
    assert!(input.mouse.is_up(Mouse::LMB));
    assert!(!input.mouse.is_released(Mouse::LMB));
}
