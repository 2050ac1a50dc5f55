use twors::key_state_map::{KeyState, KeyStateMap};

#[derive(Clone, Copy, Eq, Hash, PartialEq)]
enum MouseButton {
    Main,
    Secondary,
}

#[test]
fn initial() {
    let input = KeyStateMap::default();
    assert_eq!(input.state(&MouseButton::Main), KeyState::Up);
}

#[test]
fn transition_noop() {
    let mut input = KeyStateMap::default();
    input.transition_states();
    assert_eq!(input.state(&MouseButton::Main), KeyState::Up);
}

#[test]
fn transition_pressed_down() {
    let mut input = KeyStateMap::default();

    input.handle_key_down(&MouseButton::Main);
    assert_eq!(input.state(&MouseButton::Main), KeyState::Pressed);

    input.transition_states();
    assert_eq!(input.state(&MouseButton::Main), KeyState::Down);
}

#[test]
fn transition_released_inactive() {
    let mut input = KeyStateMap::default();
    input.handle_key_down(&MouseButton::Main);
    input.transition_states();
    assert_eq!(input.state(&MouseButton::Main), KeyState::Down);

    input.handle_key_up(&MouseButton::Main);
    assert_eq!(input.state(&MouseButton::Main), KeyState::Released); // pressed vs released

    input.transition_states();
    assert_eq!(input.state(&MouseButton::Main), KeyState::Up);
}

#[test]
fn independent() {
    let mut input = KeyStateMap::default();

    input.handle_key_down(&MouseButton::Main);
    assert_eq!(input.state(&MouseButton::Main), KeyState::Pressed);
    assert_eq!(input.state(&MouseButton::Secondary), KeyState::Up);

    input.transition_states();
    assert_eq!(input.state(&MouseButton::Main), KeyState::Down);
    assert_eq!(input.state(&MouseButton::Secondary), KeyState::Up);

    input.handle_key_up(&MouseButton::Main);
    input.handle_key_down(&MouseButton::Secondary);
    assert_eq!(input.state(&MouseButton::Main), KeyState::Released);
    assert_eq!(input.state(&MouseButton::Secondary), KeyState::Pressed);

    input.transition_states();
    assert_eq!(input.state(&MouseButton::Main), KeyState::Up);
    assert_eq!(input.state(&MouseButton::Secondary), KeyState::Down);
}

#[test]
fn key_cycle_queries() {
    let mut input = KeyStateMap::default();
    assert!(input.is_up(&MouseButton::Main));
    assert!(!input.is_down(&MouseButton::Main));

    input.handle_key_down(&MouseButton::Main);
    assert!(input.is_pressed(&MouseButton::Main));
    assert!(input.is_down(&MouseButton::Main));
    assert!(!input.is_up(&MouseButton::Main));

    input.transition_states();
    assert!(!input.is_pressed(&MouseButton::Main));
    assert!(input.is_down(&MouseButton::Main));

    input.handle_key_up(&MouseButton::Main);
    assert!(input.is_released(&MouseButton::Main));
    assert!(input.is_up(&MouseButton::Main));
    assert!(!input.is_down(&MouseButton::Main));

    input.transition_states();
    assert!(!input.is_released(&MouseButton::Main));
    assert!(input.is_up(&MouseButton::Main));
    assert_eq!(input.state(&MouseButton::Main), KeyState::Up);
}

#[test]
fn repeated_down_stays_pressed() {
    let mut input = KeyStateMap::default();
    input.handle_key_down(&MouseButton::Main);
    input.transition_states();
    input.handle_key_down(&MouseButton::Main);
    assert_eq!(input.state(&MouseButton::Main), KeyState::Pressed);
}
