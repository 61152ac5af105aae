use render_core::camera::CameraController;
use render_core::camera::KeyCode;
use render_core::camera::WindowInput;

fn key(key: KeyCode, pressed: bool) -> WindowInput {
    WindowInput::Key { key, pressed }
}

#[test]
fn controller_starts_with_no_keys_held() {
    let c = CameraController::new(200);
    assert_eq!(c.speed_milli, 200);
    assert!(!c.up_pressed);
    assert!(!c.down_pressed);
    assert!(!c.forward_pressed);
    assert!(!c.backward_pressed);
    assert!(!c.left_pressed);
    assert!(!c.right_pressed);
}

#[test]
fn each_key_drives_its_own_flag() {
    let mut c = CameraController::new(200);
    assert!(c.process_inputs(&key(KeyCode::CharW, true)));
    assert!(c.forward_pressed);
    assert!(c.process_inputs(&key(KeyCode::CharS, true)));
    assert!(c.backward_pressed);
    assert!(c.process_inputs(&key(KeyCode::CharA, true)));
    assert!(c.left_pressed);
    assert!(c.process_inputs(&key(KeyCode::CharD, true)));
    assert!(c.right_pressed);
    assert!(c.process_inputs(&key(KeyCode::Space, true)));
    assert!(c.up_pressed);
    assert!(c.process_inputs(&key(KeyCode::Control, true)));
    assert!(c.down_pressed);
}

#[test]
fn releasing_a_key_clears_only_its_flag() {
    let mut c = CameraController::new(200);
    c.process_inputs(&key(KeyCode::CharW, true));
    c.process_inputs(&key(KeyCode::CharA, true));
    c.process_inputs(&key(KeyCode::CharW, false));
    assert!(!c.forward_pressed);
    assert!(c.left_pressed);
}

#[test]
fn unrecognised_input_changes_nothing() {
    let mut c = CameraController::new(200);
    c.process_inputs(&key(KeyCode::CharW, true));
    assert!(!c.process_inputs(&key(KeyCode::Other, true)));
    assert!(!c.process_inputs(&WindowInput::Other));
    assert!(c.forward_pressed);
    assert!(!c.backward_pressed);
}
