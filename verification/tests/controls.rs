use bevy::input::keyboard::KeyCode;
use bevy::input::mouse::MouseButton;
use rts_camera_controls::controls::RtsCameraControls;

#[test]
fn default_bindings_and_tunables() {
    let controls = RtsCameraControls::default();
    assert_eq!(controls.key_up, KeyCode::ArrowUp);
    assert_eq!(controls.key_down, KeyCode::ArrowDown);
    assert_eq!(controls.key_left, KeyCode::ArrowLeft);
    assert_eq!(controls.key_right, KeyCode::ArrowRight);
    assert_eq!(controls.button_rotate, MouseButton::Middle);
    assert_eq!(controls.edge_pan_width, 50_000);
    assert_eq!(controls.pan_speed, 15_000);
    assert!(controls.enabled);
}

#[test]
fn controls_compare_by_their_fields() {
    let a = RtsCameraControls::default();
    let b = RtsCameraControls { key_up: KeyCode::KeyW, ..a };
    assert_eq!(a, a.clone());
    assert_ne!(a, b);
}
