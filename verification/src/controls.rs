//! The control configuration of one camera.

use crate::camera::RtsCamera;
use crate::fixed::UNIT;
use crate::pan::{spec_pan_step, HeldKeys};
use crate::rotate::{spec_yaw_step, MotionEvent};
use crate::window::WindowView;
use crate::zoom::{spec_zoom, ScrollEvent};
use bevy::input::keyboard::KeyCode;
use bevy::input::mouse::MouseButton;
use vstd::prelude::*;

verus! {

/// Key and button bindings and tunables of one controlled camera. The host may
/// replace them at any time; the updaters read them afresh each frame.
#[derive(Debug, PartialEq, Eq, Clone, Copy)]
pub struct RtsCameraControls {
    /// The key that pans the camera up (or forward).
    pub key_up: KeyCode,
    /// The key that pans the camera down (or backward).
    pub key_down: KeyCode,
    /// The key that pans the camera left.
    pub key_left: KeyCode,
    /// The key that pans the camera right.
    pub key_right: KeyCode,
    /// The pointer button that is held to rotate the camera.
    pub button_rotate: MouseButton,
    /// How far from the window's edge the cursor starts to pan, as a part of
    /// the window's height, in millionths. Zero switches edge panning off.
    pub edge_pan_width: u32,
    /// Speed of the pan, by keys or by the edge, in thousandths of a world
    /// unit per second.
    pub pan_speed: u32,
    /// Whether these controls act at all.
    pub enabled: bool,
}

impl RtsCameraControls {
    /// The bindings and tunables that `default` gives: the arrow keys, the
    /// middle button, an edge band of five hundredths of the height, fifteen
    /// world units per second, enabled.
    pub open spec fn standard() -> RtsCameraControls {
        RtsCameraControls {
            key_up: KeyCode::ArrowUp,
            key_down: KeyCode::ArrowDown,
            key_left: KeyCode::ArrowLeft,
            key_right: KeyCode::ArrowRight,
            button_rotate: MouseButton::Middle,
            edge_pan_width: 50_000,
            pan_speed: 15_000,
            enabled: true,
        }
    }

    /// The tunables are in their ranges: the edge band is at most the whole
    /// height, and the speed is positive.
    pub open spec fn in_range(self) -> bool {
        self.edge_pan_width <= UNIT && self.pan_speed > 0
    }
}

impl Default for RtsCameraControls {
    fn default() -> (controls: RtsCameraControls)
        ensures
            controls == RtsCameraControls::standard(),
            controls.in_range(),
    {
        RtsCameraControls {
            key_up: KeyCode::ArrowUp,
            key_down: KeyCode::ArrowDown,
            key_left: KeyCode::ArrowLeft,
            key_right: KeyCode::ArrowRight,
            button_rotate: MouseButton::Middle,
            edge_pan_width: 50_000,
            pan_speed: 15_000,
            enabled: true,
        }
    }
}

/// Disabled controls do nothing: whatever the frame's input, the zoom level
/// stays as it is, out of range or not, and there is neither a pan nor a yaw
/// to apply to the focus.
pub proof fn lemma_disabled_controls_do_nothing(
    cam: RtsCamera,
    controls: RtsCameraControls,
    scroll: Seq<ScrollEvent>,
    held: HeldKeys,
    rotating: bool,
    motion: Seq<MotionEvent>,
    window: Option<WindowView>,
    dt_micros: u32,
)
    requires
        !controls.enabled,
    ensures
        spec_zoom(cam, controls, scroll) == cam,
        spec_pan_step(cam, controls, held, rotating, window, dt_micros) is None,
        spec_yaw_step(controls, rotating, motion, window) is None,
{
}

} // verus!
