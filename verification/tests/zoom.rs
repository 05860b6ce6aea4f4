use bevy::input::mouse::MouseScrollUnit;
use rts_camera_controls::camera::RtsCamera;
use rts_camera_controls::controls::RtsCameraControls;
use rts_camera_controls::fixed::UNIT;
use rts_camera_controls::zoom::{scroll_sum, zoom, zoom_target, ScrollEvent, SCROLL_LIMIT};

fn line(amount: i32) -> ScrollEvent {
    ScrollEvent { unit: MouseScrollUnit::Line, amount }
}

fn pixel(amount: i32) -> ScrollEvent {
    ScrollEvent { unit: MouseScrollUnit::Pixel, amount }
}

fn zoomed(start: i32, events: &[ScrollEvent]) -> i32 {
    let mut cam = RtsCamera { target_zoom: start };
    zoom(&mut cam, &RtsCameraControls::default(), events);
    cam.target_zoom
}

#[test]
fn line_counts_a_thousand_times_a_pixel() {
    assert_eq!(line(1).contribution(), 1000);
    assert_eq!(pixel(1).contribution(), 1);
    assert_eq!(line(-250).contribution(), -250_000);
    assert_eq!(pixel(-250).contribution(), -250);
}

#[test]
fn contribution_at_the_limits() {
    assert_eq!(line(i32::MIN).contribution(), -SCROLL_LIMIT);
    assert_eq!(line(i32::MAX).contribution(), 2_147_483_647_000);
    assert_eq!(pixel(i32::MAX).contribution(), 2_147_483_647);
    assert_eq!(pixel(i32::MIN).contribution(), -2_147_483_648);
}

#[test]
fn scroll_sum_adds_every_event() {
    assert_eq!(scroll_sum(&[]), 0);
    assert_eq!(scroll_sum(&[line(1000)]), 1_000_000);
    assert_eq!(scroll_sum(&[line(1000), pixel(500), line(-2000)]), -999_500);
}

#[test]
fn scroll_sum_does_not_overflow() {
    let events = vec![line(i32::MAX); 1000];
    assert_eq!(scroll_sum(&events), 2_147_483_647_000_000i128);
    let events = vec![line(i32::MIN); 1000];
    assert_eq!(scroll_sum(&events), -2_147_483_648_000_000i128);
}

#[test]
fn zoom_adds_half_of_the_scroll() {
    // 0.5 + 0.5 * 0.2 lines
    assert_eq!(zoomed(500_000, &[line(200)]), 600_000);
    // 0.5 - 0.5 * 0.4 lines
    assert_eq!(zoomed(500_000, &[line(-400)]), 300_000);
    // two events in one frame
    assert_eq!(zoomed(100_000, &[line(200), line(300)]), 350_000);
    assert_eq!(zoom_target(500_000, 200_000), 600_000);
}

#[test]
fn zoom_is_clamped_above() {
    assert_eq!(zoomed(900_000, &[line(1000)]), UNIT);
    assert_eq!(zoomed(0, &[line(i32::MAX), line(i32::MAX), line(i32::MAX)]), UNIT);
    assert_eq!(zoom_target(0, i128::MAX), UNIT);
}

#[test]
fn zoom_is_clamped_below() {
    assert_eq!(zoomed(100_000, &[line(-1000)]), 0);
    assert_eq!(zoomed(UNIT, &[line(i32::MIN), pixel(i32::MIN)]), 0);
    assert_eq!(zoom_target(UNIT, i128::MIN), 0);
}

#[test]
fn zoom_stays_in_range_for_many_sequences() {
    let amounts = [i32::MIN, -1_000_000, -1001, -1, 0, 1, 999, 1_000_000, i32::MAX];
    let starts = [i32::MIN, -1, 0, 1, 500_000, UNIT, UNIT + 1, i32::MAX];
    for &start in starts.iter() {
        for &a in amounts.iter() {
            for &b in amounts.iter() {
                let level = zoomed(start, &[line(a), pixel(b), line(b)]);
                assert!(0 <= level && level <= UNIT);
            }
        }
    }
}

#[test]
fn zoom_clamps_a_level_that_was_out_of_range() {
    assert_eq!(zoomed(-5, &[]), 0);
    assert_eq!(zoomed(UNIT + 7, &[]), UNIT);
    assert_eq!(zoomed(2 * UNIT, &[line(-1000)]), UNIT);
}

#[test]
fn no_events_leave_the_level() {
    assert_eq!(zoomed(0, &[]), 0);
    assert_eq!(zoomed(123_456, &[]), 123_456);
    assert_eq!(zoomed(UNIT, &[]), UNIT);
}

#[test]
fn thousand_pixels_zoom_like_one_line() {
    // a pixel event of 1000.0 against a line event of 1.0
    let by_pixels = zoomed(200_000, &[pixel(1_000_000)]);
    let by_line = zoomed(200_000, &[line(1000)]);
    assert_eq!(by_pixels, by_line);
    assert_eq!(by_line, 700_000);
    assert_eq!(pixel(1_000_000).contribution(), line(1000).contribution());
    // and inside a longer frame
    let a = zoomed(400_000, &[line(-100), pixel(250_000), pixel(7)]);
    let b = zoomed(400_000, &[line(-100), line(250), pixel(7)]);
    assert_eq!(a, b);
}

#[test]
fn pixel_scroll_is_scaled_down() {
    // 100 pixels are a tenth of a line: the level moves by 0.05
    assert_eq!(zoomed(500_000, &[pixel(100_000)]), 550_000);
    assert_eq!(zoomed(500_000, &[pixel(-100_000)]), 450_000);
}

#[test]
fn half_of_an_odd_scroll_rounds_toward_zero() {
    assert_eq!(zoomed(500_000, &[pixel(3)]), 500_001);
    assert_eq!(zoomed(500_000, &[pixel(-3)]), 499_999);
    assert_eq!(zoomed(500_000, &[pixel(1)]), 500_000);
    assert_eq!(zoomed(500_000, &[pixel(-1)]), 500_000);
    assert_eq!(zoom_target(10, -3), 9);
    assert_eq!(zoom_target(10, 3), 11);
}

#[test]
fn opposite_scrolls_cancel_before_the_clamp() {
    // the sum is taken first: far up and as far down is no movement
    assert_eq!(zoomed(900_000, &[line(5000), line(-5000)]), 900_000);
    assert_eq!(zoomed(100_000, &[line(-5000), line(5000)]), 100_000);
}

#[test]
fn disabled_zoom_changes_nothing() {
    let controls = RtsCameraControls { enabled: false, ..RtsCameraControls::default() };
    let mut cam = RtsCamera { target_zoom: 250_000 };
    zoom(&mut cam, &controls, &[line(1000), pixel(5000)]);
    assert_eq!(cam, RtsCamera { target_zoom: 250_000 });
    // not even a level out of range is touched
    let mut cam = RtsCamera { target_zoom: 3 * UNIT };
    zoom(&mut cam, &controls, &[line(-1000)]);
    assert_eq!(cam.target_zoom, 3 * UNIT);
    let mut cam = RtsCamera { target_zoom: -9 };
    zoom(&mut cam, &controls, &[]);
    assert_eq!(cam.target_zoom, -9);
}

#[test]
fn every_camera_reads_the_same_events() {
    let events = [line(200), pixel(100_000)];
    let controls = RtsCameraControls::default();
    let mut first = RtsCamera { target_zoom: 0 };
    let mut second = RtsCamera { target_zoom: 500_000 };
    zoom(&mut first, &controls, &events);
    zoom(&mut second, &controls, &events);
    assert_eq!(first.target_zoom, 150_000);
    assert_eq!(second.target_zoom, 650_000);
}
