//! The rotate updater: while the rotate button is down, the pointer's motion
//! turns the focus about the vertical axis.
//!
//! The angle goes by the part of the window's width that the pointer crossed,
//! not by the count of pixels: a drag across the whole window is a half turn
//! on every screen.

use crate::controls::RtsCameraControls;
use crate::fixed::{
    div_round_zero, div_toward_zero, lemma_div_toward_zero_bounds, lemma_div_toward_zero_exact,
    lemma_div_toward_zero_halving, lemma_div_toward_zero_scale, UNIT,
};
use crate::input::{button_pressed, pressed_buttons};
use crate::window::WindowView;
use bevy::input::mouse::MouseButton;
use bevy::input::ButtonInput;
use vstd::prelude::*;

verus! {

/// No motion event moves the pointer further than this along an axis.
pub const MOTION_LIMIT: i64 = 2_147_483_648;

/// One movement of the pointer, in the unit of the window's width.
#[derive(Debug, PartialEq, Eq, Clone, Copy)]
pub struct MotionEvent {
    /// Movement to the right.
    pub dx: i32,
    /// Movement downward.
    pub dy: i32,
}

/// The pointer's movement over a whole frame.
#[derive(Debug, PartialEq, Eq, Clone, Copy)]
pub struct MotionDelta {
    /// Movement to the right.
    pub x: i128,
    /// Movement downward.
    pub y: i128,
}

/// The pointer's movement to the right over a whole frame: the sum over its
/// events.
pub open spec fn motion_total_x(events: Seq<MotionEvent>) -> int
    decreases events.len(),
{
    if events.len() == 0 {
        0
    } else {
        motion_total_x(events.drop_last()) + events.last().dx
    }
}

/// The pointer's movement downward over a whole frame: the sum over its
/// events.
pub open spec fn motion_total_y(events: Seq<MotionEvent>) -> int
    decreases events.len(),
{
    if events.len() == 0 {
        0
    } else {
        motion_total_y(events.drop_last()) + events.last().dy
    }
}

/// The pointer's movement over a whole frame. The events are only read, so
/// every camera of a frame can be given the same ones.
pub fn motion_sum(events: &[MotionEvent]) -> (delta: MotionDelta)
    ensures
        delta.x == motion_total_x(events@),
        delta.y == motion_total_y(events@),
        -(MOTION_LIMIT * events@.len()) <= delta.x <= MOTION_LIMIT * events@.len(),
        -(MOTION_LIMIT * events@.len()) <= delta.y <= MOTION_LIMIT * events@.len(),
        events@.len() <= usize::MAX,
{
    let mut x: i128 = 0;
    let mut y: i128 = 0;
    let mut i: usize = 0;
    while i < events.len()
        invariant
            0 <= i <= events@.len(),
            x == motion_total_x(events@.take(i as int)),
            y == motion_total_y(events@.take(i as int)),
            -(MOTION_LIMIT * i) <= x <= MOTION_LIMIT * i,
            -(MOTION_LIMIT * i) <= y <= MOTION_LIMIT * i,
        decreases events@.len() - i,
    {
        let event = events[i];
        proof {
            assert(events@.take(i + 1).drop_last() =~= events@.take(i as int));
            assert(events@.take(i + 1).last() == events@[i as int]);
            assert(MOTION_LIMIT * (i + 1) == MOTION_LIMIT * i + MOTION_LIMIT && 0 <= MOTION_LIMIT
                * i <= 2_147_483_648 * 0xffff_ffff_ffff_ffff) by (nonlinear_arith)
                requires
                    MOTION_LIMIT == 2_147_483_648,
                    0 <= i <= 0xffff_ffff_ffff_ffff,
            ;
        }
        x = x + (event.dx as i128);
        y = y + (event.dy as i128);
        i = i + 1;
    }
    proof {
        assert(events@.take(events@.len() as int) =~= events@);
    }
    MotionDelta { x, y }
}

/// The yaw for a movement of `delta_x` to the right in a window `width` wide,
/// in millionths of a half turn: the part of the width that was crossed, with
/// the sign turned, so that a drag to the right gives a negative yaw.
pub open spec fn spec_yaw(delta_x: int, width: u32) -> int
    recommends
        width > 0,
{
    -div_toward_zero(delta_x * UNIT, width as int)
}

/// The yaw for a movement of `delta_x` to the right in a window `width` wide.
fn yaw(delta_x: i128, width: u32) -> (angle: i128)
    requires
        width > 0,
        -(MOTION_LIMIT * usize::MAX) <= delta_x <= MOTION_LIMIT * usize::MAX,
    ensures
        angle == spec_yaw(delta_x as int, width),
{
    proof {
        assert(-(2_147_483_648 * 0xffff_ffff_ffff_ffff * 1_000_000) <= delta_x * UNIT
            <= 2_147_483_648 * 0xffff_ffff_ffff_ffff * 1_000_000) by (nonlinear_arith)
            requires
                -(MOTION_LIMIT * usize::MAX) <= delta_x <= MOTION_LIMIT * usize::MAX,
                MOTION_LIMIT == 2_147_483_648,
                0 <= usize::MAX <= 0xffff_ffff_ffff_ffff,
                UNIT == 1_000_000,
        ;
        let a = delta_x * UNIT;
        let q = div_toward_zero(a, width as int);
        lemma_div_toward_zero_bounds(a, width as int);
        assert(a >= 0 ==> q <= a) by (nonlinear_arith)
            requires
                a >= 0 ==> q >= 0 && a - q * width >= 0,
                width > 0,
        ;
        assert(a <= 0 ==> q >= a) by (nonlinear_arith)
            requires
                a <= 0 ==> q <= 0 && q * width - a >= 0,
                width > 0,
        ;
    }
    let crossed: i128 = div_round_zero(delta_x * (UNIT as i128), width as i128);
    -crossed
}

/// What the rotate updater gives for one camera and one frame: the yaw for
/// the frame's movement, where the camera is enabled, the rotate button is
/// down and there is a window with some width. Otherwise nothing turns.
pub open spec fn spec_yaw_step(
    controls: RtsCameraControls,
    rotating: bool,
    motion: Seq<MotionEvent>,
    window: Option<WindowView>,
) -> Option<i128> {
    match window {
        Some(w) if controls.enabled && rotating && w.width > 0 => Some(
            spec_yaw(motion_total_x(motion), w.width) as i128,
        ),
        _ => None,
    }
}

/// The yaw of one camera in one frame, in millionths of a half turn about the
/// camera's own vertical axis, from whether the rotate button is down, the
/// frame's motion events and the window. `None` means that the camera is left
/// alone.
pub fn yaw_step(
    controls: RtsCameraControls,
    rotating: bool,
    motion: &[MotionEvent],
    window: Option<WindowView>,
) -> (step: Option<i128>)
    ensures
        step == spec_yaw_step(controls, rotating, motion@, window),
        step is Some <==> controls.enabled && rotating && window is Some && window->Some_0.width
            > 0,
        step matches Some(angle) ==> angle == spec_yaw(
            motion_total_x(motion@),
            window->Some_0.width,
        ),
{
    if !controls.enabled || !rotating {
        return None;
    }
    match window {
        Some(w) => {
            if w.width == 0 {
                return None;
            }
            let delta = motion_sum(motion);
            assert(MOTION_LIMIT * motion@.len() <= MOTION_LIMIT * usize::MAX) by (nonlinear_arith)
                requires
                    motion@.len() <= usize::MAX,
                    MOTION_LIMIT > 0,
            ;
            Some(yaw(delta.x, w.width))
        },
        None => None,
    }
}

/// The rotate updater for one camera: reads the rotate button from the input
/// state and gives the frame's yaw. `None` means that the camera is left
/// alone.
pub fn rotate(
    controls: &RtsCameraControls,
    buttons: &ButtonInput<MouseButton>,
    motion: &[MotionEvent],
    window: Option<WindowView>,
) -> (step: Option<i128>)
    ensures
        step == spec_yaw_step(
            *controls,
            pressed_buttons(*buttons).contains(controls.button_rotate),
            motion@,
            window,
        ),
        !controls.enabled ==> step is None,
{
    if !controls.enabled {
        return None;
    }
    let rotating = button_pressed(buttons, controls.button_rotate);
    yaw_step(*controls, rotating, motion, window)
}

/// A drag across the whole width of the window is a half turn, whatever the
/// width: to the right it turns by minus one, to the left by one.
pub proof fn lemma_full_width_is_half_turn(width: u32)
    requires
        width > 0,
    ensures
        spec_yaw(width as int, width) == -UNIT,
        spec_yaw(-(width as int), width) == UNIT,
{
    lemma_div_toward_zero_exact(UNIT as int, width as int);
    lemma_div_toward_zero_exact(-(UNIT as int), width as int);
    assert(width * UNIT == UNIT * width && (-(width as int)) * UNIT == (-(UNIT as int)) * width)
        by (nonlinear_arith);
}

/// The yaw goes by the part of the width that was crossed: the same movement
/// on a screen `scale` times as fine, where it counts `scale` times as many
/// units in a window `scale` times as wide, gives the same yaw.
pub proof fn lemma_yaw_ignores_resolution(delta_x: int, width: u32, scale: u32)
    requires
        width > 0,
        scale > 0,
        scale * width <= u32::MAX,
    ensures
        spec_yaw(scale * delta_x, (scale * width) as u32) == spec_yaw(delta_x, width),
{
    lemma_div_toward_zero_scale(delta_x * UNIT, width as int, scale as int);
    assert(scale * (delta_x * UNIT) == (scale * delta_x) * UNIT) by (nonlinear_arith);
}

/// The same movement in a window of half the width turns twice as far, up to
/// the rounding of the last millionth, and exactly twice as far where the
/// wider window's yaw is exact.
pub proof fn lemma_half_width_doubles_yaw(delta_x: int, half: u32)
    requires
        half > 0,
        2 * half <= u32::MAX,
    ensures
        ({
            let narrow = spec_yaw(delta_x, half);
            let wide = spec_yaw(delta_x, (2 * half) as u32);
            &&& delta_x >= 0 ==> 2 * wide - 1 <= narrow <= 2 * wide
            &&& delta_x <= 0 ==> 2 * wide <= narrow <= 2 * wide + 1
            &&& (delta_x * UNIT) % (2 * half) == 0 ==> narrow == 2 * wide
        }),
{
    lemma_div_toward_zero_halving(delta_x * UNIT, half as int);
    assert((delta_x >= 0 ==> delta_x * UNIT >= 0) && (delta_x <= 0 ==> delta_x * UNIT <= 0))
        by (nonlinear_arith)
        requires
            UNIT > 0,
    ;
}

/// A drag to the right turns one way, the same drag to the left turns as far
/// the other way, and no movement turns nothing.
pub proof fn lemma_yaw_mirrors(delta_x: int, width: u32)
    requires
        width > 0,
    ensures
        spec_yaw(-delta_x, width) == -spec_yaw(delta_x, width),
        delta_x >= 0 ==> spec_yaw(delta_x, width) <= 0,
        delta_x <= 0 ==> spec_yaw(delta_x, width) >= 0,
        spec_yaw(0, width) == 0,
{
    lemma_div_toward_zero_bounds(delta_x * UNIT, width as int);
    assert((-delta_x) * UNIT == -(delta_x * UNIT) && (delta_x >= 0 ==> delta_x * UNIT >= 0) && (
    delta_x <= 0 ==> delta_x * UNIT <= 0)) by (nonlinear_arith)
        requires
            UNIT > 0,
    ;
    assert(0int * UNIT == 0);
    lemma_div_toward_zero_bounds(0, width as int);
}

/// The movement of two runs of events, one after the other, is the sum of
/// their movements.
pub proof fn lemma_motion_total_concat(first: Seq<MotionEvent>, second: Seq<MotionEvent>)
    ensures
        motion_total_x(first + second) == motion_total_x(first) + motion_total_x(second),
        motion_total_y(first + second) == motion_total_y(first) + motion_total_y(second),
    decreases second.len(),
{
    if second.len() == 0 {
        assert(first + second =~= first);
    } else {
        assert((first + second).drop_last() =~= first + second.drop_last());
        assert((first + second).last() == second.last());
        lemma_motion_total_concat(first, second.drop_last());
    }
}

} // verus!
