use bevy::input::mouse::MouseButton;
use bevy::input::ButtonInput;
use rts_camera_controls::controls::RtsCameraControls;
use rts_camera_controls::fixed::UNIT;
use rts_camera_controls::rotate::{motion_sum, rotate, yaw_step, MotionDelta, MotionEvent};
use rts_camera_controls::window::WindowView;

fn moved(dx: i32, dy: i32) -> MotionEvent {
    MotionEvent { dx, dy }
}

fn window_of_width(width: u32) -> Option<WindowView> {
    Some(WindowView { width, height: 800, cursor: None })
}

fn yaw_for(dx: i32, width: u32) -> i128 {
    yaw_step(RtsCameraControls::default(), true, &[moved(dx, 0)], window_of_width(width)).unwrap()
}

fn rotate_buttons(pressed: &[MouseButton]) -> ButtonInput<MouseButton> {
    let mut buttons: ButtonInput<MouseButton> = ButtonInput::default();
    for &button in pressed {
        buttons.press(button);
    }
    buttons
}

#[test]
fn motion_sum_adds_both_axes() {
    assert_eq!(motion_sum(&[]), MotionDelta { x: 0, y: 0 });
    assert_eq!(
        motion_sum(&[moved(3, -4), moved(10, 20), moved(-1, 1)]),
        MotionDelta { x: 12, y: 17 }
    );
}

#[test]
fn motion_sum_does_not_overflow() {
    let events = vec![moved(i32::MAX, i32::MIN); 4096];
    assert_eq!(
        motion_sum(&events),
        MotionDelta { x: 4096 * 2_147_483_647i128, y: -4096 * 2_147_483_648i128 }
    );
}

#[test]
fn quarter_of_the_width_is_a_quarter_of_a_half_turn() {
    // 250 of 1000 to the right: minus a quarter of pi
    let controls = RtsCameraControls::default();
    let buttons = rotate_buttons(&[MouseButton::Middle]);
    let step = rotate(&controls, &buttons, &[moved(250, 0)], window_of_width(1000));
    assert_eq!(step, Some(-250_000));
    assert_eq!(yaw_for(250, 1000), -(UNIT as i128) / 4);
}

#[test]
fn full_width_is_a_half_turn() {
    for &width in [1u32, 2, 3, 640, 1000, 1920, 3840, u32::MAX / 2].iter() {
        assert_eq!(yaw_for(width as i32, width), -(UNIT as i128));
        assert_eq!(yaw_for(-(width as i32), width), UNIT as i128);
    }
}

#[test]
fn half_the_width_doubles_the_yaw() {
    assert_eq!(yaw_for(250, 500), -500_000);
    assert_eq!(yaw_for(250, 500), 2 * yaw_for(250, 1000));
    assert_eq!(yaw_for(-120, 960), 125_000);
    assert_eq!(yaw_for(-120, 480), 2 * yaw_for(-120, 960));
    // where the wider yaw is rounded, the narrower is twice it or one beyond
    assert_eq!(yaw_for(1, 6), -166_666);
    assert_eq!(yaw_for(1, 3), -333_333);
    assert_eq!(yaw_for(5, 14), -357_142);
    assert_eq!(yaw_for(5, 7), -714_285);
}

#[test]
fn yaw_does_not_depend_on_the_resolution() {
    assert_eq!(yaw_for(100, 700), yaw_for(200, 1400));
    assert_eq!(yaw_for(100, 700), yaw_for(100_000, 700_000));
    assert_eq!(yaw_for(-33, 1000), yaw_for(-99, 3000));
}

#[test]
fn yaw_rounds_toward_zero_both_ways() {
    assert_eq!(yaw_for(1, 3), -333_333);
    assert_eq!(yaw_for(-1, 3), 333_333);
    assert_eq!(yaw_for(2, 3), -666_666);
    assert_eq!(yaw_for(-2, 3), 666_666);
}

#[test]
fn events_of_a_frame_add_up() {
    let controls = RtsCameraControls::default();
    let events = [moved(100, 5), moved(200, -50), moved(-50, 7)];
    assert_eq!(yaw_step(controls, true, &events, window_of_width(1000)), Some(-250_000));
    // vertical movement turns nothing
    let events = [moved(0, 500)];
    assert_eq!(yaw_step(controls, true, &events, window_of_width(1000)), Some(0));
}

#[test]
fn no_motion_is_no_turn() {
    let controls = RtsCameraControls::default();
    assert_eq!(yaw_step(controls, true, &[], window_of_width(1000)), Some(0));
}

#[test]
fn more_than_the_width_is_more_than_a_half_turn() {
    assert_eq!(yaw_for(3000, 1000), -3_000_000);
    assert_eq!(yaw_for(i32::MAX, 1), -2_147_483_647_000_000);
    assert_eq!(yaw_for(i32::MIN, 1), 2_147_483_648_000_000);
    assert_eq!(yaw_for(i32::MAX, u32::MAX), -499_999);
}

#[test]
fn button_up_turns_nothing() {
    let controls = RtsCameraControls::default();
    let events = [moved(250, 0)];
    assert_eq!(yaw_step(controls, false, &events, window_of_width(1000)), None);
    let buttons = rotate_buttons(&[]);
    assert_eq!(rotate(&controls, &buttons, &events, window_of_width(1000)), None);
    let buttons = rotate_buttons(&[MouseButton::Left, MouseButton::Right]);
    assert_eq!(rotate(&controls, &buttons, &events, window_of_width(1000)), None);
}

#[test]
fn rotate_follows_the_bound_button() {
    let controls = RtsCameraControls {
        button_rotate: MouseButton::Right,
        ..RtsCameraControls::default()
    };
    let events = [moved(-500, 0)];
    let buttons = rotate_buttons(&[MouseButton::Right]);
    assert_eq!(rotate(&controls, &buttons, &events, window_of_width(1000)), Some(500_000));
    let buttons = rotate_buttons(&[MouseButton::Middle]);
    assert_eq!(rotate(&controls, &buttons, &events, window_of_width(1000)), None);
    let mut buttons = rotate_buttons(&[MouseButton::Right]);
    buttons.release(MouseButton::Right);
    assert_eq!(rotate(&controls, &buttons, &events, window_of_width(1000)), None);
}

#[test]
fn no_window_turns_nothing() {
    let controls = RtsCameraControls::default();
    let events = [moved(250, 0)];
    assert_eq!(yaw_step(controls, true, &events, None), None);
    let buttons = rotate_buttons(&[MouseButton::Middle]);
    assert_eq!(rotate(&controls, &buttons, &events, None), None);
}

#[test]
fn window_without_width_turns_nothing() {
    let controls = RtsCameraControls::default();
    assert_eq!(yaw_step(controls, true, &[moved(250, 0)], window_of_width(0)), None);
}

#[test]
fn disabled_rotate_gives_nothing() {
    let controls = RtsCameraControls { enabled: false, ..RtsCameraControls::default() };
    let events = [moved(250, 0)];
    assert_eq!(yaw_step(controls, true, &events, window_of_width(1000)), None);
    let buttons = rotate_buttons(&[MouseButton::Middle]);
    assert_eq!(rotate(&controls, &buttons, &events, window_of_width(1000)), None);
}
