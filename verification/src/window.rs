//! The primary window as the updaters see it: its size, and the cursor while
//! it is inside.

use crate::fixed::UNIT;
use vstd::prelude::*;

verus! {

/// A pan along the camera's own axes, before it is brought to unit length:
/// each component is -1, 0 or 1.
#[derive(Debug, PartialEq, Eq, Clone, Copy)]
pub struct PanAxes {
    /// 1 toward the camera's right, -1 toward its left.
    pub right: i8,
    /// 1 forward, -1 back.
    pub forward: i8,
}

/// The net pull of two opposed inputs on one axis: 1 where only `plus` acts,
/// -1 where only `minus` acts, 0 where both or neither do.
pub open spec fn spec_axis(plus: bool, minus: bool) -> i8 {
    if plus == minus {
        0i8
    } else if plus {
        1i8
    } else {
        -1i8
    }
}

/// The net pull of two opposed inputs on one axis.
#[verifier::when_used_as_spec(spec_axis)]
pub fn axis(plus: bool, minus: bool) -> (pull: i8)
    ensures
        pull == spec_axis(plus, minus),
{
    if plus == minus {
        0
    } else if plus {
        1
    } else {
        -1
    }
}

impl PanAxes {
    /// No pan.
    pub open spec fn zero() -> PanAxes {
        PanAxes { right: 0, forward: 0 }
    }

    /// Neither axis is pulled.
    pub open spec fn spec_is_zero(&self) -> bool {
        self.right == 0 && self.forward == 0
    }

    /// Each component is -1, 0 or 1.
    pub open spec fn well_formed(self) -> bool {
        -1 <= self.right <= 1 && -1 <= self.forward <= 1
    }

    /// Whether neither axis is pulled.
    #[verifier::when_used_as_spec(spec_is_zero)]
    pub fn is_zero(&self) -> (none: bool)
        ensures
            none == self.spec_is_zero(),
    {
        self.right == 0 && self.forward == 0
    }
}

/// Where the cursor is in the window, from its top left corner.
#[derive(Debug, PartialEq, Eq, Clone, Copy)]
pub struct Cursor {
    /// Distance from the left edge.
    pub x: i32,
    /// Distance from the top edge.
    pub y: i32,
}

/// The primary window for one frame. All lengths are in one unit.
#[derive(Debug, PartialEq, Eq, Clone, Copy)]
pub struct WindowView {
    /// Width of the window.
    pub width: u32,
    /// Height of the window.
    pub height: u32,
    /// The cursor, or `None` while it is outside the window.
    pub cursor: Option<Cursor>,
}

impl WindowView {
    /// The cursor, if there is one, lies within the window's area.
    pub open spec fn cursor_inside(self) -> bool {
        match self.cursor {
            Some(c) => 0 <= c.x <= self.width && 0 <= c.y <= self.height,
            None => true,
        }
    }

    /// Width of the band along each edge in which the cursor pans, in
    /// millionths of the unit of length: the window's height times
    /// `edge_pan_width`.
    pub open spec fn band(self, edge_pan_width: u32) -> int {
        self.height * edge_pan_width
    }

    /// The cursor at `c` is within the band of the left edge.
    pub open spec fn near_left(self, c: Cursor, edge_pan_width: u32) -> bool {
        c.x * UNIT < self.band(edge_pan_width)
    }

    /// The cursor at `c` is within the band of the right edge.
    pub open spec fn near_right(self, c: Cursor, edge_pan_width: u32) -> bool {
        c.x * UNIT > self.width * UNIT - self.band(edge_pan_width)
    }

    /// The cursor at `c` is within the band of the top edge.
    pub open spec fn near_top(self, c: Cursor, edge_pan_width: u32) -> bool {
        c.y * UNIT < self.band(edge_pan_width)
    }

    /// The cursor at `c` is within the band of the bottom edge.
    pub open spec fn near_bottom(self, c: Cursor, edge_pan_width: u32) -> bool {
        c.y * UNIT > self.height * UNIT - self.band(edge_pan_width)
    }

    /// The pan that the cursor asks for by being near an edge: left and right
    /// from its `x`, forward at the top and back at the bottom from its `y`,
    /// each test on its own. Without a cursor there is none.
    pub open spec fn spec_edge_axes(&self, edge_pan_width: u32) -> PanAxes {
        match self.cursor {
            Some(c) => PanAxes {
                right: spec_axis(
                    self.near_right(c, edge_pan_width),
                    self.near_left(c, edge_pan_width),
                ),
                forward: spec_axis(
                    self.near_top(c, edge_pan_width),
                    self.near_bottom(c, edge_pan_width),
                ),
            },
            None => PanAxes::zero(),
        }
    }

    /// The pan that the cursor asks for by being near an edge of the window.
    #[verifier::when_used_as_spec(spec_edge_axes)]
    pub fn edge_axes(&self, edge_pan_width: u32) -> (axes: PanAxes)
        ensures
            axes == self.spec_edge_axes(edge_pan_width),
            axes.well_formed(),
            self.cursor is None ==> axes.is_zero(),
    {
        match self.cursor {
            Some(c) => {
                assert(0 <= self.height * edge_pan_width <= 0xffff_ffff * 0xffff_ffff)
                    by (nonlinear_arith)
                    requires
                        0 <= self.height <= 0xffff_ffff,
                        0 <= edge_pan_width <= 0xffff_ffff,
                ;
                assert(c.x * UNIT == c.x * 1_000_000 && c.y * UNIT == c.y * 1_000_000
                    && self.width * UNIT == self.width * 1_000_000
                    && self.height * UNIT == self.height * 1_000_000) by (nonlinear_arith)
                    requires
                        UNIT == 1_000_000,
                ;
                let band: i128 = (self.height as i128) * (edge_pan_width as i128);
                let x: i128 = (c.x as i128) * (UNIT as i128);
                let y: i128 = (c.y as i128) * (UNIT as i128);
                let right_edge: i128 = (self.width as i128) * (UNIT as i128) - band;
                let bottom_edge: i128 = (self.height as i128) * (UNIT as i128) - band;
                PanAxes {
                    right: axis(x > right_edge, x < band),
                    forward: axis(y < band, y > bottom_edge),
                }
            },
            None => PanAxes { right: 0, forward: 0 },
        }
    }
}

/// With an edge band of width zero no cursor inside the window pans, wherever
/// it is.
pub proof fn lemma_zero_band_never_pans(window: WindowView)
    requires
        window.cursor_inside(),
    ensures
        window.edge_axes(0).is_zero(),
{
}

/// A cursor that is clear of all four bands does not pan.
pub proof fn lemma_clear_of_bands_never_pans(window: WindowView, edge_pan_width: u32)
    requires
        window.cursor matches Some(c) ==> {
            &&& !window.near_left(c, edge_pan_width)
            &&& !window.near_right(c, edge_pan_width)
            &&& !window.near_top(c, edge_pan_width)
            &&& !window.near_bottom(c, edge_pan_width)
        },
    ensures
        window.edge_axes(edge_pan_width).is_zero(),
{
}

} // verus!
