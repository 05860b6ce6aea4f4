//! The zoom updater: the frame's scroll events move the target zoom level.

use crate::camera::RtsCamera;
use crate::controls::RtsCameraControls;
use crate::fixed::{clamp_unit, div_round_zero, div_toward_zero, UNIT};
use bevy::input::mouse::MouseScrollUnit;
use vstd::prelude::*;

verus! {

/// One turn of the wheel, or one stroke on a touch pad.
#[derive(Debug, PartialEq, Eq, Clone, Copy)]
pub struct ScrollEvent {
    /// Whether `amount` counts lines or pixels.
    pub unit: MouseScrollUnit,
    /// How far was scrolled, in thousandths of a line or of a pixel.
    pub amount: i32,
}

/// No event adds more than this to a frame's scroll, in either direction.
pub const SCROLL_LIMIT: i64 = 2_147_483_648_000;

impl ScrollEvent {
    /// What the event adds to the frame's scroll, in millionths of a line: a
    /// line counts as it is, a pixel as a thousandth of a line.
    pub open spec fn spec_contribution(&self) -> int {
        match self.unit {
            MouseScrollUnit::Line => self.amount * 1000,
            MouseScrollUnit::Pixel => self.amount as int,
        }
    }

    /// What the event adds to the frame's scroll, in millionths of a line.
    pub fn contribution(&self) -> (lines: i64)
        ensures
            lines == self.spec_contribution(),
            -SCROLL_LIMIT <= lines <= SCROLL_LIMIT,
    {
        match self.unit {
            MouseScrollUnit::Line => (self.amount as i64) * 1000,
            MouseScrollUnit::Pixel => self.amount as i64,
        }
    }
}

/// The scroll of a whole frame, in millionths of a line: the sum of what its
/// events add.
pub open spec fn scroll_total(events: Seq<ScrollEvent>) -> int
    decreases events.len(),
{
    if events.len() == 0 {
        0
    } else {
        scroll_total(events.drop_last()) + events.last().spec_contribution()
    }
}

/// The scroll of a whole frame, in millionths of a line. The events are only
/// read, so every camera of a frame can be given the same ones.
pub fn scroll_sum(events: &[ScrollEvent]) -> (total: i128)
    ensures
        total == scroll_total(events@),
        -(SCROLL_LIMIT * events@.len()) <= total <= SCROLL_LIMIT * events@.len(),
{
    let mut total: i128 = 0;
    let mut i: usize = 0;
    while i < events.len()
        invariant
            0 <= i <= events@.len(),
            total == scroll_total(events@.take(i as int)),
            -(SCROLL_LIMIT * i) <= total <= SCROLL_LIMIT * i,
        decreases events@.len() - i,
    {
        let lines: i64 = events[i].contribution();
        proof {
            assert(events@.take(i + 1).drop_last() =~= events@.take(i as int));
            assert(events@.take(i + 1).last() == events@[i as int]);
        }
        assert(SCROLL_LIMIT * (i + 1) == SCROLL_LIMIT * i + SCROLL_LIMIT && 0 <= SCROLL_LIMIT * i
            <= 2_147_483_648_000 * 0xffff_ffff_ffff_ffff) by (nonlinear_arith)
            requires
                SCROLL_LIMIT == 2_147_483_648_000,
                0 <= i <= 0xffff_ffff_ffff_ffff,
        ;
        total = total + (lines as i128);
        i = i + 1;
    }
    proof {
        assert(events@.take(events@.len() as int) =~= events@);
    }
    total
}

/// The zoom level after a frame that scrolled by `scrolled` millionths of a
/// line: half of the scroll is added to the level, and the sum is held to
/// the range from zero to one.
pub open spec fn spec_zoom_target(target_zoom: i32, scrolled: int) -> int {
    clamp_unit(target_zoom + div_toward_zero(scrolled, 2))
}

/// The zoom level after a frame that scrolled by `scrolled` millionths of a
/// line.
pub fn zoom_target(target_zoom: i32, scrolled: i128) -> (level: i32)
    ensures
        level == spec_zoom_target(target_zoom, scrolled as int),
        0 <= level <= UNIT,
{
    let moved: i128 = (target_zoom as i128) + div_round_zero(scrolled, 2);
    if moved < 0 {
        0
    } else if moved > UNIT as i128 {
        UNIT
    } else {
        moved as i32
    }
}

/// What the zoom updater makes of one camera in one frame. A disabled camera
/// stays as it is, out of range or not. An enabled one gets the level that
/// `spec_zoom_target` gives for the frame's scroll.
pub open spec fn spec_zoom(
    cam: RtsCamera,
    controls: RtsCameraControls,
    events: Seq<ScrollEvent>,
) -> RtsCamera {
    if controls.enabled {
        RtsCamera {
            target_zoom: spec_zoom_target(cam.target_zoom, scroll_total(events)) as i32,
        }
    } else {
        cam
    }
}

/// The zoom updater for one camera: adds half of the frame's scroll to the
/// target zoom level and holds the result to the range from zero to one. A
/// disabled camera is left as it is.
pub fn zoom(cam: &mut RtsCamera, controls: &RtsCameraControls, events: &[ScrollEvent])
    ensures
        *final(cam) == spec_zoom(*old(cam), *controls, events@),
        !controls.enabled ==> *final(cam) == *old(cam),
        controls.enabled ==> final(cam).target_zoom == spec_zoom_target(
            old(cam).target_zoom,
            scroll_total(events@),
        ),
        controls.enabled ==> final(cam).zoom_in_range(),
{
    if controls.enabled {
        let scrolled = scroll_sum(events);
        cam.target_zoom = zoom_target(cam.target_zoom, scrolled);
    }
}

/// The scroll of two runs of events, one after the other, is the sum of
/// their scrolls.
pub proof fn lemma_scroll_total_concat(first: Seq<ScrollEvent>, second: Seq<ScrollEvent>)
    ensures
        scroll_total(first + second) == scroll_total(first) + scroll_total(second),
    decreases second.len(),
{
    if second.len() == 0 {
        assert(first + second =~= first);
    } else {
        assert((first + second).drop_last() =~= first + second.drop_last());
        assert((first + second).last() == second.last());
        lemma_scroll_total_concat(first, second.drop_last());
    }
}

/// A frame with a single event scrolls by what that event adds.
pub proof fn lemma_scroll_total_single(event: ScrollEvent)
    ensures
        scroll_total(seq![event]) == event.spec_contribution(),
{
    assert(seq![event].len() == 1);
    assert(seq![event].drop_last() =~= Seq::<ScrollEvent>::empty());
    assert(seq![event].last() == event);
    assert(scroll_total(Seq::<ScrollEvent>::empty()) == 0);
}

/// Whatever was scrolled, and whatever the level was before, the level after
/// lies between zero and one.
pub proof fn lemma_zoom_stays_in_range(target_zoom: i32, events: Seq<ScrollEvent>)
    ensures
        0 <= spec_zoom_target(target_zoom, scroll_total(events)) <= UNIT,
{
}

/// A frame without events leaves a level that is in range where it is.
pub proof fn lemma_no_scroll_no_change(target_zoom: i32)
    requires
        0 <= target_zoom <= UNIT,
    ensures
        spec_zoom_target(target_zoom, scroll_total(Seq::<ScrollEvent>::empty())) == target_zoom,
{
}

/// A thousand pixels scroll as far as one line: in any frame, an event of
/// `1000 * amount` pixels can take the place of one of `amount` lines, and the
/// zoom level comes out the same.
pub proof fn lemma_thousand_pixels_are_a_line(
    target_zoom: i32,
    before: Seq<ScrollEvent>,
    after: Seq<ScrollEvent>,
    amount: i32,
)
    requires
        i32::MIN <= 1000 * amount <= i32::MAX,
    ensures
        ({
            let line = ScrollEvent { unit: MouseScrollUnit::Line, amount };
            let pixels = ScrollEvent {
                unit: MouseScrollUnit::Pixel,
                amount: (1000 * amount) as i32,
            };
            &&& pixels.spec_contribution() == line.spec_contribution()
            &&& scroll_total(before + seq![pixels] + after) == scroll_total(
                before + seq![line] + after,
            )
            &&& spec_zoom_target(target_zoom, scroll_total(before + seq![pixels] + after))
                == spec_zoom_target(target_zoom, scroll_total(before + seq![line] + after))
        }),
{
    let line = ScrollEvent { unit: MouseScrollUnit::Line, amount };
    let pixels = ScrollEvent { unit: MouseScrollUnit::Pixel, amount: (1000 * amount) as i32 };
    lemma_scroll_total_single(line);
    lemma_scroll_total_single(pixels);
    lemma_scroll_total_concat(before, seq![pixels]);
    lemma_scroll_total_concat(before, seq![line]);
    lemma_scroll_total_concat(before + seq![pixels], after);
    lemma_scroll_total_concat(before + seq![line], after);
}

/// Scrolling far enough reaches the end of the range and stops there.
pub proof fn lemma_zoom_saturates(target_zoom: i32, scrolled: int)
    ensures
        scrolled >= 2 * (UNIT - target_zoom) ==> spec_zoom_target(target_zoom, scrolled) == UNIT,
        scrolled <= -2 * target_zoom ==> spec_zoom_target(target_zoom, scrolled) == 0,
{
}

} // verus!
