use brepview::camera::{CameraController, Movement};
use brepview::input::{log_key_event, log_mouse_event, Key};

#[test]
fn idle_controller_does_not_move() {
    let c = CameraController::new();
    let zero = Movement { forward: 0, right: 0, up: 0 };
    assert_eq!(c.movement(), zero);
    assert_eq!(c.movement(), zero);
}

#[test]
fn forward_key_moves_one_step_forward() {
    let mut c = CameraController::new();
    assert!(c.handle_key(Key::W, true));
    assert_eq!(c.movement(), Movement { forward: 1, right: 0, up: 0 });
    assert!(c.handle_key(Key::W, false));
    assert_eq!(c.movement(), Movement { forward: 0, right: 0, up: 0 });
}

#[test]
fn each_direction_has_its_sign() {
    let mut c = CameraController::new();
    c.handle_key(Key::ArrowDown, true);
    c.handle_key(Key::A, true);
    c.handle_key(Key::LeftShift, true);
    assert_eq!(c.movement(), Movement { forward: -1, right: -1, up: -1 });
    let mut c = CameraController::new();
    c.handle_key(Key::ArrowUp, true);
    c.handle_key(Key::D, true);
    c.handle_key(Key::Space, true);
    assert_eq!(c.movement(), Movement { forward: 1, right: 1, up: 1 });
}

#[test]
fn opposite_keys_cancel() {
    let mut c = CameraController::new();
    c.handle_key(Key::W, true);
    c.handle_key(Key::S, true);
    c.handle_key(Key::ArrowLeft, true);
    c.handle_key(Key::ArrowRight, true);
    assert_eq!(c.movement(), Movement { forward: 0, right: 0, up: 0 });
}

#[test]
fn other_keys_do_not_steer() {
    let mut c = CameraController::new();
    assert!(!c.handle_key(Key::Other, true));
    assert!(!c.handle_key(Key::Q, true));
    assert_eq!(c, CameraController::new());
}

#[test]
fn only_key_events_are_logged() {
    assert!(log_key_event());
    assert!(!log_mouse_event());
}
