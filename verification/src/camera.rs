//! The camera's targets, as far as they are counted here.

use crate::fixed::UNIT;
use vstd::prelude::*;

verus! {

/// The target state of one camera that the updaters read and write. The focus
/// pose stays with the host: `pan` and `rotate` hand out the step and the yaw
/// that the host applies to it.
#[derive(Debug, PartialEq, Eq, Clone, Copy)]
pub struct RtsCamera {
    /// The zoom level to move toward, in millionths: zero is fully zoomed
    /// out, `UNIT` fully zoomed in. The host shares this field, so no updater
    /// relies on its being in range.
    pub target_zoom: i32,
}

impl RtsCamera {
    /// The zoom level lies between zero and one.
    pub open spec fn zoom_in_range(self) -> bool {
        0 <= self.target_zoom <= UNIT
    }
}

} // verus!
