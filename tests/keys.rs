use gpu_life::frame::InputEvent;
use gpu_life::keys::{command_for_key, Key, MovementKeys};

#[test]
fn movement_keys_are_held_and_released() {
    let mut m = MovementKeys::new();
    assert!(m.process_keyboard(Key::KeyW, true));
    assert!(m.process_keyboard(Key::ArrowLeft, true));
    assert!(m.forward && m.left && !m.backward && !m.right);
    assert!(m.process_keyboard(Key::ArrowUp, false));
    assert!(!m.forward && m.left);
    assert!(m.process_keyboard(Key::KeyD, true));
    assert!(m.process_keyboard(Key::ArrowDown, true));
    assert!(m.right && m.backward);
}

#[test]
fn other_keys_are_not_movement() {
    let mut m = MovementKeys::new();
    for key in [Key::Escape, Key::KeyN, Key::Space, Key::Other] {
        assert!(!m.process_keyboard(key, true));
    }
    assert_eq!(m, MovementKeys::new());
}

#[test]
fn presses_map_to_frame_events() {
    assert_eq!(command_for_key(Key::Escape, true), Some(InputEvent::Exit));
    assert_eq!(command_for_key(Key::KeyN, true), Some(InputEvent::SingleStep));
    assert_eq!(command_for_key(Key::Space, true), Some(InputEvent::ToggleRun));
    assert_eq!(command_for_key(Key::Space, false), None);
    assert_eq!(command_for_key(Key::Escape, false), None);
    assert_eq!(command_for_key(Key::KeyW, true), None);
    assert_eq!(command_for_key(Key::Other, true), None);
}
