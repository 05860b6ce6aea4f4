//! Per-frame input policy for a strategy-game camera.
//!
//! Each frame the host hands over what its input backend gathered: which keys
//! and pointer buttons are down, the scroll and motion events of the frame,
//! the window's size with the cursor in it, and the time that has passed. The
//! three updaters turn that into the camera's targets: `zoom` writes the target
//! zoom level, `pan` gives the step by which the focus point moves in the
//! camera's own frame, and `rotate` gives the yaw by which it turns. The host
//! applies the step and the yaw to its transform.
//!
//! All quantities are whole numbers in fixed units, so every result is exact
//! and the same on every machine. Levels and factors are counted in millionths
//! (`UNIT` is one), scroll amounts in thousandths of a line or of a pixel,
//! time in microseconds, speed in thousandths of a world unit per second, and
//! angles in millionths of a half turn. Lengths on screen are counted in one
//! unit of the host's choice, a pixel or a fixed part of one: only their
//! ratios enter. A quotient that is not whole is rounded toward zero.

pub mod camera;
pub mod controls;
pub mod fixed;
pub mod input;
pub mod pan;
pub mod rotate;
pub mod window;
pub mod zoom;
