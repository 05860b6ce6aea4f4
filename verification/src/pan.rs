//! The pan updater: keys and the window's edges move the focus point.
//!
//! The keys come first. Only where they ask for no movement at all, and the
//! rotate button is up, does the cursor near an edge of the window pan. The
//! direction found is brought to unit length, and the distance travelled in
//! the frame is the time passed times the pan speed times a factor that falls
//! with the zoom level.

use crate::camera::RtsCamera;
use crate::controls::RtsCameraControls;
use crate::fixed::{div_round_zero, div_toward_zero, lemma_div_toward_zero_exact, UNIT};
use crate::input::{button_pressed, key_pressed, pressed_buttons, pressed_keys};
use crate::window::{axis, spec_axis, PanAxes, WindowView};
use bevy::input::keyboard::KeyCode;
use bevy::input::mouse::MouseButton;
use bevy::input::ButtonInput;
use vstd::prelude::*;

verus! {

/// Each component of a unit vector along a diagonal, in millionths: the
/// largest whole number whose square, doubled, is at most one.
pub const DIAGONAL: i32 = 707_106;

/// Which of the four pan keys are down.
#[derive(Debug, PartialEq, Eq, Clone, Copy)]
pub struct HeldKeys {
    /// The key for up (or forward).
    pub up: bool,
    /// The key for down (or back).
    pub down: bool,
    /// The key for left.
    pub left: bool,
    /// The key for right.
    pub right: bool,
}

/// A direction in the camera's own frame, in millionths: of unit length, or
/// zero.
#[derive(Debug, PartialEq, Eq, Clone, Copy)]
pub struct Direction {
    /// Component toward the camera's right.
    pub right: i32,
    /// Component forward.
    pub forward: i32,
}

/// The movement of the focus point in one frame: `distance` along
/// `direction`, in the camera's own frame.
#[derive(Debug, PartialEq, Eq, Clone, Copy)]
pub struct PanStep {
    /// Where to move: a unit vector, or zero for no movement.
    pub direction: Direction,
    /// How far, in millionths of a world unit.
    pub distance: i128,
}

impl HeldKeys {
    /// The keys of `controls` that `keys` holds as pressed.
    pub open spec fn read(controls: RtsCameraControls, keys: ButtonInput<KeyCode>) -> HeldKeys {
        HeldKeys {
            up: pressed_keys(keys).contains(controls.key_up),
            down: pressed_keys(keys).contains(controls.key_down),
            left: pressed_keys(keys).contains(controls.key_left),
            right: pressed_keys(keys).contains(controls.key_right),
        }
    }

    /// The pan that the keys ask for: opposed keys cancel, the two axes add.
    pub open spec fn spec_axes(&self) -> PanAxes {
        PanAxes {
            right: spec_axis(self.right, self.left),
            forward: spec_axis(self.up, self.down),
        }
    }

    /// The pan that the keys ask for.
    #[verifier::when_used_as_spec(spec_axes)]
    pub fn axes(&self) -> (axes: PanAxes)
        ensures
            axes == self.spec_axes(),
            axes.well_formed(),
    {
        PanAxes { right: axis(self.right, self.left), forward: axis(self.up, self.down) }
    }
}

/// The pan of one frame, from exactly one of the two sources. The keys decide
/// wherever they ask for any movement. Otherwise, and only while the rotate
/// button is up and there is a window, the cursor near its edges decides.
pub open spec fn spec_choose_axes(
    held: HeldKeys,
    rotating: bool,
    edge_pan_width: u32,
    window: Option<WindowView>,
) -> PanAxes {
    if !held.axes().is_zero() || rotating {
        held.axes()
    } else {
        match window {
            Some(w) => w.edge_axes(edge_pan_width),
            None => PanAxes::zero(),
        }
    }
}

/// The pan of one frame, from the keys or else from the window's edges.
#[verifier::when_used_as_spec(spec_choose_axes)]
pub fn choose_axes(
    held: HeldKeys,
    rotating: bool,
    edge_pan_width: u32,
    window: Option<WindowView>,
) -> (axes: PanAxes)
    ensures
        axes == spec_choose_axes(held, rotating, edge_pan_width, window),
        axes.well_formed(),
        !held.axes().is_zero() ==> axes == held.axes(),
        rotating ==> axes == held.axes(),
{
    let keyboard = held.axes();
    if !keyboard.is_zero() || rotating {
        keyboard
    } else {
        match window {
            Some(w) => w.edge_axes(edge_pan_width),
            None => PanAxes { right: 0, forward: 0 },
        }
    }
}

/// One component of the unit vector along a pan: it points where `pull`
/// points, and is the whole unit long where the other axis rests, `DIAGONAL`
/// where both are pulled.
pub open spec fn unit_component(pull: i8, other: i8) -> i32 {
    let along = if other == 0 {
        UNIT
    } else {
        DIAGONAL
    };
    if pull == 0 {
        0i32
    } else if pull > 0 {
        along
    } else {
        (-along) as i32
    }
}

/// The unit vector along `axes`, or zero where `axes` is zero.
pub open spec fn spec_normalize_or_zero(axes: PanAxes) -> Direction {
    Direction {
        right: unit_component(axes.right, axes.forward),
        forward: unit_component(axes.forward, axes.right),
    }
}

/// The unit vector along `axes`, or zero where `axes` is zero.
#[verifier::when_used_as_spec(spec_normalize_or_zero)]
pub fn normalize_or_zero(axes: PanAxes) -> (direction: Direction)
    ensures
        direction == spec_normalize_or_zero(axes),
{
    let right: i32 = signed_length(axes.right, axes.forward);
    let forward: i32 = signed_length(axes.forward, axes.right);
    Direction { right, forward }
}

/// One component of the unit vector along a pan.
fn signed_length(pull: i8, other: i8) -> (component: i32)
    ensures
        component == unit_component(pull, other),
{
    let along: i32 = if other == 0 {
        UNIT
    } else {
        DIAGONAL
    };
    if pull == 0 {
        0
    } else if pull > 0 {
        along
    } else {
        -along
    }
}

/// The factor by which the zoom level scales the pan speed, in millionths:
/// one when fully zoomed out, falling in a straight line to a half when fully
/// zoomed in, and on along that line for a level out of range.
pub open spec fn spec_pan_speed_factor(target_zoom: i32) -> int {
    div_toward_zero(2 * UNIT - target_zoom, 2)
}

/// The factor by which the zoom level scales the pan speed, in millionths.
pub fn pan_speed_factor(target_zoom: i32) -> (factor: i64)
    ensures
        factor == spec_pan_speed_factor(target_zoom),
{
    let doubled: i128 = 2 * (UNIT as i128) - (target_zoom as i128);
    let factor: i128 = div_round_zero(doubled, 2);
    factor as i64
}

/// How far the focus point travels in a frame of `dt_micros` microseconds at
/// `pan_speed` thousandths of a world unit per second, in millionths of a
/// world unit: time times speed times the zoom's factor.
pub open spec fn spec_pan_distance(dt_micros: u32, pan_speed: u32, target_zoom: i32) -> int {
    div_toward_zero(dt_micros * pan_speed * spec_pan_speed_factor(target_zoom), 1000 * UNIT)
}

/// How far the focus point travels in one frame, in millionths of a world
/// unit.
pub fn pan_distance(dt_micros: u32, pan_speed: u32, target_zoom: i32) -> (distance: i128)
    ensures
        distance == spec_pan_distance(dt_micros, pan_speed, target_zoom),
{
    let factor: i64 = pan_speed_factor(target_zoom);
    let ghost limit: int = 0xffff_ffffint * 0xffff_ffffint;
    assert(0 <= dt_micros * pan_speed <= limit) by (nonlinear_arith)
        requires
            0 <= dt_micros <= 0xffff_ffff,
            0 <= pan_speed <= 0xffff_ffff,
            limit == 0xffff_ffff * 0xffff_ffff,
    ;
    let travelled: i128 = (dt_micros as i128) * (pan_speed as i128);
    assert(-0x4100_0000 <= factor <= 0x4100_0000);
    assert(-0x4100_0000 * limit <= travelled * factor <= 0x4100_0000 * limit) by (nonlinear_arith)
        requires
            0 <= travelled <= limit,
            -0x4100_0000 <= factor <= 0x4100_0000,
    ;
    let scaled: i128 = travelled * (factor as i128);
    assert(1000 * UNIT == 1_000_000_000);
    div_round_zero(scaled, 1_000_000_000)
}

/// What the pan updater gives for one camera and one frame. A disabled camera
/// is passed over. An enabled one moves along the unit vector of the pan that
/// `spec_choose_axes` picks, by the frame's distance.
pub open spec fn spec_pan_step(
    cam: RtsCamera,
    controls: RtsCameraControls,
    held: HeldKeys,
    rotating: bool,
    window: Option<WindowView>,
    dt_micros: u32,
) -> Option<PanStep> {
    if controls.enabled {
        Some(
            PanStep {
                direction: spec_normalize_or_zero(
                    spec_choose_axes(held, rotating, controls.edge_pan_width, window),
                ),
                distance: spec_pan_distance(dt_micros, controls.pan_speed, cam.target_zoom) as i128,
            },
        )
    } else {
        None
    }
}

/// The pan of one camera in one frame, from the pan keys that are down,
/// whether the rotate button is down, the window and the time passed.
/// `None` means that the camera is left alone.
#[verifier::when_used_as_spec(spec_pan_step)]
pub fn pan_step(
    cam: RtsCamera,
    controls: RtsCameraControls,
    held: HeldKeys,
    rotating: bool,
    window: Option<WindowView>,
    dt_micros: u32,
) -> (step: Option<PanStep>)
    ensures
        step == spec_pan_step(cam, controls, held, rotating, window, dt_micros),
        controls.enabled <==> step is Some,
        step matches Some(s) ==> s.distance == spec_pan_distance(
            dt_micros,
            controls.pan_speed,
            cam.target_zoom,
        ),
{
    if !controls.enabled {
        return None;
    }
    let axes = choose_axes(held, rotating, controls.edge_pan_width, window);
    let direction = normalize_or_zero(axes);
    let distance = pan_distance(dt_micros, controls.pan_speed, cam.target_zoom);
    Some(PanStep { direction, distance })
}

/// The pan updater for one camera: reads the four pan keys and the rotate
/// button from the input state and gives the frame's pan. `None` means that
/// the camera is disabled and left alone.
pub fn pan(
    cam: &RtsCamera,
    controls: &RtsCameraControls,
    keys: &ButtonInput<KeyCode>,
    buttons: &ButtonInput<MouseButton>,
    window: Option<WindowView>,
    dt_micros: u32,
) -> (step: Option<PanStep>)
    ensures
        step == spec_pan_step(
            *cam,
            *controls,
            HeldKeys::read(*controls, *keys),
            pressed_buttons(*buttons).contains(controls.button_rotate),
            window,
            dt_micros,
        ),
        controls.enabled <==> step is Some,
{
    if !controls.enabled {
        return None;
    }
    let held = HeldKeys {
        up: key_pressed(keys, controls.key_up),
        down: key_pressed(keys, controls.key_down),
        left: key_pressed(keys, controls.key_left),
        right: key_pressed(keys, controls.key_right),
    };
    let rotating = button_pressed(buttons, controls.button_rotate);
    pan_step(*cam, *controls, held, rotating, window, dt_micros)
}

/// Wherever the keys ask for any movement, the cursor adds nothing: the pan
/// is the keys' own, whatever the window and the cursor in it.
pub proof fn lemma_keys_silence_edges(
    cam: RtsCamera,
    controls: RtsCameraControls,
    held: HeldKeys,
    rotating: bool,
    window: Option<WindowView>,
    dt_micros: u32,
)
    requires
        !held.axes().is_zero(),
    ensures
        spec_choose_axes(held, rotating, controls.edge_pan_width, window) == held.axes(),
        spec_pan_step(cam, controls, held, rotating, window, dt_micros) == spec_pan_step(
            cam,
            controls,
            held,
            rotating,
            None,
            dt_micros,
        ),
{
}

/// While the rotate button is down the cursor adds nothing either.
pub proof fn lemma_rotating_silences_edges(
    held: HeldKeys,
    edge_pan_width: u32,
    window: Option<WindowView>,
)
    ensures
        spec_choose_axes(held, true, edge_pan_width, window) == held.axes(),
{
}

/// With the keys at rest and the rotate button up, the pan is the one that the
/// cursor asks for.
pub proof fn lemma_edges_pan_when_keys_rest(
    held: HeldKeys,
    edge_pan_width: u32,
    window: WindowView,
)
    requires
        held.axes().is_zero(),
    ensures
        spec_choose_axes(held, false, edge_pan_width, Some(window)) == window.edge_axes(
            edge_pan_width,
        ),
{
}

/// The direction of a pan is of unit length, whether one axis is pulled or
/// both: never longer than one, and shorter by less than two millionths. It
/// points where the pan points, and no pan gives no direction.
pub proof fn lemma_direction_is_unit(axes: PanAxes)
    requires
        axes.well_formed(),
    ensures
        ({
            let d = spec_normalize_or_zero(axes);
            &&& axes.is_zero() ==> d.right == 0 && d.forward == 0
            &&& !axes.is_zero() ==> (UNIT - 2) * (UNIT - 2) < d.right * d.right + d.forward
                * d.forward <= UNIT * UNIT
            &&& d.right * axes.right >= 0 && d.forward * axes.forward >= 0
            &&& (d.right == 0 <==> axes.right == 0) && (d.forward == 0 <==> axes.forward == 0)
            &&& axes.right != 0 && axes.forward != 0 ==> d.right * d.right == d.forward
                * d.forward
        }),
{
    let d = spec_normalize_or_zero(axes);
    assert(UNIT * UNIT == 1_000_000_000_000 && (UNIT - 2) * (UNIT - 2) == 999_996_000_004)
        by (nonlinear_arith)
        requires
            UNIT == 1_000_000,
    ;
    lemma_component_square(d.right as int, axes.right as int);
    lemma_component_square(d.forward as int, axes.forward as int);
}

/// The square of a component of a unit vector, and its sign against the pull.
proof fn lemma_component_square(c: int, pull: int)
    requires
        c == 0 || c == UNIT || c == -UNIT || c == DIAGONAL || c == -DIAGONAL,
        -1 <= pull <= 1,
        (c > 0 <==> pull > 0) && (c < 0 <==> pull < 0),
    ensures
        c == 0 ==> c * c == 0,
        c == UNIT || c == -UNIT ==> c * c == 1_000_000_000_000,
        c == DIAGONAL || c == -DIAGONAL ==> c * c == 499_998_895_236,
        c * pull >= 0,
{
    assert(c == 0 ==> c * c == 0) by (nonlinear_arith);
    assert(c == 1_000_000 || c == -1_000_000 ==> c * c == 1_000_000_000_000) by (nonlinear_arith);
    assert(c == 707_106 || c == -707_106 ==> c * c == 499_998_895_236) by (nonlinear_arith);
    assert(c * pull >= 0) by (nonlinear_arith)
        requires
            (c > 0 <==> pull > 0) && (c < 0 <==> pull < 0),
    ;
}

/// `DIAGONAL` is the best there is: one millionth more on each component and
/// the diagonal would be longer than one.
pub proof fn lemma_diagonal_is_longest()
    ensures
        2 * (DIAGONAL * DIAGONAL) <= UNIT * UNIT < 2 * ((DIAGONAL + 1) * (DIAGONAL + 1)),
{
    assert(UNIT * UNIT == 1_000_000_000_000 && DIAGONAL * DIAGONAL == 499_998_895_236 && (DIAGONAL
        + 1) * (DIAGONAL + 1) == 500_000_309_449) by (nonlinear_arith)
        requires
            UNIT == 1_000_000,
            DIAGONAL == 707_106,
    ;
}

/// Two keys at once travel as far as one: the distance of a frame depends on
/// the time, the speed and the zoom level alone, not on what pulls.
pub proof fn lemma_distance_ignores_direction(
    cam: RtsCamera,
    controls: RtsCameraControls,
    one: HeldKeys,
    other: HeldKeys,
    rotating_one: bool,
    rotating_other: bool,
    window_one: Option<WindowView>,
    window_other: Option<WindowView>,
    dt_micros: u32,
)
    requires
        controls.enabled,
    ensures
        spec_pan_step(cam, controls, one, rotating_one, window_one, dt_micros)->Some_0.distance
            == spec_pan_step(
            cam,
            controls,
            other,
            rotating_other,
            window_other,
            dt_micros,
        )->Some_0.distance,
{
}

/// The speed factor is one at zoom zero, a half at zoom one and three
/// quarters halfway, and lies on the straight line between: twice the factor
/// is two less the zoom level, to the millionth where the level is even and
/// rounded toward zero where it is odd.
pub proof fn lemma_pan_speed_factor_line(target_zoom: i32)
    ensures
        spec_pan_speed_factor(0) == UNIT,
        spec_pan_speed_factor(UNIT) == 500_000,
        spec_pan_speed_factor(500_000) == 750_000,
        target_zoom % 2 == 0 ==> 2 * spec_pan_speed_factor(target_zoom) == 2 * UNIT - target_zoom,
        target_zoom % 2 != 0 && target_zoom <= 2 * UNIT ==> 2 * spec_pan_speed_factor(target_zoom)
            == 2 * UNIT - target_zoom - 1,
        target_zoom % 2 != 0 && target_zoom > 2 * UNIT ==> 2 * spec_pan_speed_factor(target_zoom)
            == 2 * UNIT - target_zoom + 1,
        0 <= target_zoom <= UNIT ==> UNIT / 2 <= spec_pan_speed_factor(target_zoom) <= UNIT,
{
}

/// A deeper zoom never pans faster.
pub proof fn lemma_pan_speed_factor_falls(lower: i32, higher: i32)
    requires
        lower <= higher,
    ensures
        spec_pan_speed_factor(higher) <= spec_pan_speed_factor(lower),
{
}

/// In a frame of one second at zoom zero the focus point travels the pan
/// speed itself; with no time passed, or at speed zero, it stays.
pub proof fn lemma_pan_distance_at_rest_and_full(dt_micros: u32, pan_speed: u32, target_zoom: i32)
    ensures
        spec_pan_distance(1_000_000, pan_speed, 0) == 1000 * pan_speed,
        spec_pan_distance(0, pan_speed, target_zoom) == 0,
        spec_pan_distance(dt_micros, 0, target_zoom) == 0,
{
    assert(1_000_000 * pan_speed * spec_pan_speed_factor(0) == (1000 * pan_speed) * (1000 * UNIT))
        by (nonlinear_arith)
        requires
            spec_pan_speed_factor(0) == UNIT,
            UNIT == 1_000_000,
    ;
    lemma_div_toward_zero_exact(1000 * pan_speed, 1000 * UNIT);
    assert(0 * pan_speed * spec_pan_speed_factor(target_zoom) == 0) by (nonlinear_arith);
    assert(dt_micros * 0 * spec_pan_speed_factor(target_zoom) == 0) by (nonlinear_arith);
}

} // verus!
