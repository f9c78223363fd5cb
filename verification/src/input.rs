//! The three input gestures. Each handler works out the signed delta that the gesture
//! asks for and hands it to the scroll position controller; none changes the scroll
//! offset in any other way.

use vstd::prelude::*;
use crate::axis::ScrollAxis;
use crate::config::{DragSpeed, ScrollableLineHeight, ScrollableScrollScale};
use crate::controller::{ScrollController, ScrollState};
use crate::fixed::{
    lemma_scaled_bound, lemma_scaled_odd, lemma_trunc_div_bounds, lemma_trunc_div_odd,
    positive_part, scale_wide, scaled, Fixed,
};
use crate::registry::Role;

verus! {

/// The unit of a wheel delta.
#[derive(Clone, Copy, Debug, PartialEq, Eq, Structural)]
pub enum ScrollUnit {
    Line,
    Pixel,
}

/// A turn of the wheel over a region.
#[derive(Clone, Copy, Debug, PartialEq, Eq, Structural)]
pub struct WheelEvent {
    /// The unit of `delta`.
    pub unit: ScrollUnit,
    /// The raw wheel delta: a number of lines, or of logical pixels.
    pub delta: Fixed,
}

/// A movement of the pointer while it drags the thumb, in logical pixels.
#[derive(Clone, Copy, Debug, PartialEq, Eq, Structural)]
pub struct DragEvent {
    pub delta_x: Fixed,
    pub delta_y: Fixed,
}

/// The node that a click hit.
#[derive(Clone, Copy, Debug, PartialEq, Eq, Structural)]
pub enum ClickTarget {
    /// The thumb itself.
    Thumb,
    /// The track, which the pointer can only hit where the thumb does not cover it.
    Track,
}

/// Where a click hit the track, as fractions of the track's width and height measured
/// from its left and top edges.
#[derive(Clone, Copy, Debug, PartialEq, Eq, Structural)]
pub struct HitPosition {
    pub x: Fixed,
    pub y: Fixed,
}

/// A click on a scrollbar.
#[derive(Clone, Copy, Debug, PartialEq, Eq, Structural)]
pub struct ClickEvent {
    pub target: ClickTarget,
    /// The hit position, where the event carries one.
    pub hit: Option<HitPosition>,
}

/// What a click on a scrollbar led to.
#[derive(Clone, Copy, Debug, PartialEq, Eq, Structural)]
pub enum ClickResponse {
    /// The event carried no hit position: nothing was done.
    Ignored,
    /// The thumb was hit: nothing scrolls, and the event must not travel on to the
    /// track.
    StopPropagation,
    /// The trough after the thumb was hit: the content moved one page forward.
    PageForward,
    /// The trough before the thumb was hit: the content moved one page backward.
    PageBackward,
}

impl DragEvent {
    /// The movement along `axis`.
    pub open spec fn spec_along(self, axis: ScrollAxis) -> Fixed {
        match axis {
            ScrollAxis::Vertical => self.delta_y,
            ScrollAxis::Horizontal => self.delta_x,
        }
    }

    /// The movement along `axis`.
    pub fn along(&self, axis: ScrollAxis) -> (r: Fixed)
        ensures
            r == self.spec_along(axis),
    {
        match axis {
            ScrollAxis::Vertical => self.delta_y,
            ScrollAxis::Horizontal => self.delta_x,
        }
    }
}

impl HitPosition {
    /// The fraction along `axis`.
    pub open spec fn spec_along(self, axis: ScrollAxis) -> Fixed {
        match axis {
            ScrollAxis::Vertical => self.y,
            ScrollAxis::Horizontal => self.x,
        }
    }

    /// The fraction along `axis`.
    pub fn along(&self, axis: ScrollAxis) -> (r: Fixed)
        ensures
            r == self.spec_along(axis),
    {
        match axis {
            ScrollAxis::Vertical => self.y,
            ScrollAxis::Horizontal => self.x,
        }
    }
}

impl ClickTarget {
    /// What a click on an entity that plays `role` in a pair has hit: the thumb, the
    /// track, or, for a region, no part of a scrollbar.
    pub open spec fn spec_of_role(role: Role) -> Option<ClickTarget> {
        match role {
            Role::Thumb => Some(ClickTarget::Thumb),
            Role::Scrollbar => Some(ClickTarget::Track),
            Role::Scrollable => None,
        }
    }

    /// What a click on an entity that plays `role` in a pair has hit.
    pub fn of_role(role: Role) -> (r: Option<ClickTarget>)
        ensures
            r == Self::spec_of_role(role),
    {
        match role {
            Role::Thumb => Some(ClickTarget::Thumb),
            Role::Scrollbar => Some(ClickTarget::Track),
            Role::Scrollable => None,
        }
    }
}

impl ClickResponse {
    /// Whether the click made the content jump by a page.
    pub open spec fn is_page_jump(self) -> bool {
        self is PageForward || self is PageBackward
    }
}

/// The wheel delta in logical pixels: a delta in lines is multiplied by the height of
/// a line where the region has line metrics, and any other delta is taken as it is.
pub open spec fn wheel_pixels(event: WheelEvent, metrics: Option<ScrollableLineHeight>) -> int {
    match (event.unit, metrics) {
        (ScrollUnit::Line, Some(m)) => scaled(m.spec_px(), event.delta),
        _ => event.delta.raw as int,
    }
}

/// The signed delta that a turn of the wheel asks for: the wheel delta in pixels,
/// multiplied by the region's wheel scale.
pub open spec fn spec_wheel_delta(
    event: WheelEvent,
    scale: ScrollableScrollScale,
    metrics: Option<ScrollableLineHeight>,
) -> int {
    scaled(wheel_pixels(event, metrics), scale.0)
}

/// The signed delta that a drag of the thumb asks for: the pointer's movement along
/// the scrolled axis, multiplied by the drag speed, with the sign turned, so that
/// dragging the thumb toward the end of the track increases the offset.
pub open spec fn spec_drag_delta(movement: Fixed, speed: DragSpeed) -> int {
    -scaled(movement.raw as int, speed.0)
}

/// Distance of the thumb's leading edge from the leading edge of the track, in
/// logical pixels.
pub open spec fn thumb_start(s: ScrollState) -> int {
    s.geometry.track.spec_to_logical(s.geometry.track.border.spec_leading(s.axis)) + s.position
}

/// Distance of the thumb's trailing edge from the leading edge of the track.
pub open spec fn thumb_end(s: ScrollState) -> int {
    thumb_start(s) + positive_part(
        s.geometry.track.spec_to_logical(s.geometry.thumb_size.spec_along(s.axis)),
    )
}

/// Length of the track along the scrolled axis, in logical pixels.
pub open spec fn track_length(s: ScrollState) -> int {
    s.geometry.track.spec_to_logical(s.geometry.track.size.spec_along(s.axis))
}

/// Whether a click at the fraction `hit` of the track lies after the thumb's leading
/// edge: the click's fraction of the track exceeds the thumb's.
pub open spec fn click_is_after_thumb(s: ScrollState, hit: Fixed) -> bool {
    hit.raw * track_length(s) > thumb_start(s) * 65536
}

/// What a click leads to. Without a hit position nothing is done. A click on the
/// thumb only stops the event. A click on the trough turns one page: forward if it
/// lies after the thumb, else backward.
pub open spec fn spec_click_response(s: ScrollState, event: ClickEvent) -> ClickResponse {
    match event.hit {
        None => ClickResponse::Ignored,
        Some(hit) => match event.target {
            ClickTarget::Thumb => ClickResponse::StopPropagation,
            ClickTarget::Track => if click_is_after_thumb(s, hit.spec_along(s.axis)) {
                ClickResponse::PageForward
            } else {
                ClickResponse::PageBackward
            },
        },
    }
}

/// The state that a click leaves behind.
pub open spec fn state_after_click(s: ScrollState, event: ClickEvent) -> ScrollState {
    match spec_click_response(s, event) {
        ClickResponse::PageForward => s.after_page(true),
        ClickResponse::PageBackward => s.after_page(false),
        _ => s,
    }
}

/// The signed delta that a turn of the wheel asks for.
pub fn wheel_delta(
    event: WheelEvent,
    scale: ScrollableScrollScale,
    metrics: Option<ScrollableLineHeight>,
) -> (r: i128)
    ensures
        r == spec_wheel_delta(event, scale, metrics),
        -0x1000_0000_0000_0000_0000 <= r <= 0x1000_0000_0000_0000_0000,
{
    let pixels: i128 = match (event.unit, metrics) {
        (ScrollUnit::Line, Some(m)) => {
            let line: i64 = m.px();
            proof {
                lemma_scaled_bound(line as int, event.delta, 0x4000_0000_0000);
            }
            scale_wide(line as i128, event.delta)
        },
        _ => event.delta.raw as i128,
    };
    proof {
        lemma_scaled_bound(pixels as int, scale.0, 0x2000_0000_0000_0000);
    }
    scale_wide(pixels, scale.0)
}

/// The signed delta that a drag of the thumb asks for.
pub fn drag_delta(movement: Fixed, speed: DragSpeed) -> (r: i128)
    ensures
        r == spec_drag_delta(movement, speed),
        -0x4000_0000_0000 <= r <= 0x4000_0000_0000,
{
    proof {
        lemma_scaled_bound(movement.raw as int, speed.0, 0x8000_0000);
    }
    let forward: i128 = scale_wide(movement.raw as i128, speed.0);
    -forward
}

impl ScrollController {
    /// Handles a turn of the wheel over the region.
    pub fn on_wheel(
        &mut self,
        event: WheelEvent,
        scale: ScrollableScrollScale,
        metrics: Option<ScrollableLineHeight>,
    )
        ensures
            final(self)@ == old(self)@.after_delta(spec_wheel_delta(event, scale, metrics)),
            final(self)@.wf(),
    {
        let delta: i128 = wheel_delta(event, scale, metrics);
        self.apply_wide_delta(delta);
    }

    /// Handles a drag of the thumb.
    pub fn on_drag(&mut self, event: DragEvent, speed: DragSpeed)
        ensures
            final(self)@ == old(self)@.after_delta(
                spec_drag_delta(event.spec_along(old(self)@.axis), speed),
            ),
            final(self)@.wf(),
    {
        let delta: i128 = drag_delta(event.along(self.axis()), speed);
        self.apply_wide_delta(delta);
    }

    /// Whether a click at the fraction `hit` of the track lies after the thumb.
    pub fn click_is_after_thumb(&self, hit: Fixed) -> (r: bool)
        ensures
            r == click_is_after_thumb(self@, hit),
    {
        let axis = self.axis();
        let geometry = self.geometry();
        let track: i64 = geometry.track.to_logical(geometry.track.size.along(axis));
        let leading: i64 = geometry.track.to_logical(geometry.track.border.leading(axis));
        let position: i64 = self.thumb().track_offset;
        let h: i128 = hit.raw as i128;
        let t: i128 = track as i128;
        assert(-0x4000_0000_0000_0000_0000_0000 <= h * t <= 0x4000_0000_0000_0000_0000_0000)
            by (nonlinear_arith)
            requires
                -0x8000_0000 <= h <= 0x8000_0000,
                -0x8000_0000_0000_0000 <= t <= 0x8000_0000_0000_0000,
        ;
        let start: i128 = leading as i128 + position as i128;
        h * t > start * 65536
    }

    /// Handles a click on the scrollbar.
    pub fn on_click(&mut self, event: ClickEvent) -> (response: ClickResponse)
        ensures
            response == spec_click_response(old(self)@, event),
            final(self)@ == state_after_click(old(self)@, event),
            final(self)@.wf(),
            !response.is_page_jump() ==> final(self)@ == old(self)@,
    {
        let axis = self.axis();
        match event.hit {
            None => ClickResponse::Ignored,
            Some(hit) => match event.target {
                ClickTarget::Thumb => ClickResponse::StopPropagation,
                ClickTarget::Track => {
                    if self.click_is_after_thumb(hit.along(axis)) {
                        self.page(true);
                        ClickResponse::PageForward
                    } else {
                        self.page(false);
                        ClickResponse::PageBackward
                    }
                },
            },
        }
    }
}

/// Turning the wheel back by as much as it was turned asks for the opposite delta.
pub proof fn lemma_wheel_delta_is_odd(
    event: WheelEvent,
    back: WheelEvent,
    scale: ScrollableScrollScale,
    metrics: Option<ScrollableLineHeight>,
)
    requires
        back.unit == event.unit,
        back.delta.raw == -event.delta.raw,
    ensures
        spec_wheel_delta(back, scale, metrics) == -spec_wheel_delta(event, scale, metrics),
{
    match (event.unit, metrics) {
        (ScrollUnit::Line, Some(m)) => {
            let line = m.spec_px();
            assert(line * back.delta.raw == -(line * event.delta.raw)) by (nonlinear_arith)
                requires
                    back.delta.raw == -event.delta.raw,
            ;
            lemma_trunc_div_odd(line * event.delta.raw, 65536);
        },
        _ => {},
    }
    lemma_scaled_odd(wheel_pixels(event, metrics), scale.0);
}

/// Drag and wheel agree on direction: a drag of the thumb asks for the opposite of
/// what a wheel delta of the same number of pixels asks for at the same scale. With
/// a speed that is not negative, dragging the thumb toward the end of the track never
/// decreases the offset, and dragging it toward the start never increases it.
pub proof fn lemma_drag_opposes_wheel(s: ScrollState, movement: Fixed, factor: Fixed)
    requires
        s.wf(),
        factor.raw >= 0,
    ensures
        spec_drag_delta(movement, DragSpeed(factor)) == -spec_wheel_delta(
            WheelEvent { unit: ScrollUnit::Pixel, delta: movement },
            ScrollableScrollScale(factor),
            None,
        ),
        movement.raw >= 0 ==> s.after_delta(spec_drag_delta(movement, DragSpeed(factor))).offset
            >= s.offset,
        movement.raw <= 0 ==> s.after_delta(spec_drag_delta(movement, DragSpeed(factor))).offset
            <= s.offset,
{
    let product = movement.raw * factor.raw;
    assert(movement.raw >= 0 ==> product >= 0) by (nonlinear_arith)
        requires
            product == movement.raw * factor.raw,
            factor.raw >= 0,
    ;
    assert(movement.raw <= 0 ==> product <= 0) by (nonlinear_arith)
        requires
            product == movement.raw * factor.raw,
            factor.raw >= 0,
    ;
    lemma_trunc_div_bounds(product, 65536);
}

/// A click on the thumb never turns a page and leaves the state as it is. A click on
/// the track that lies outside the thumb turns exactly one page, toward the click:
/// backward if it lies before the thumb, forward if it lies after it.
pub proof fn lemma_click_disambiguation(s: ScrollState, event: ClickEvent)
    ensures
        event.target is Thumb ==> !spec_click_response(s, event).is_page_jump()
            && state_after_click(s, event) == s,
        event.hit is None ==> !spec_click_response(s, event).is_page_jump()
            && state_after_click(s, event) == s,
        event.target is Track && event.hit is Some ==> {
            let hit = event.hit->0.spec_along(s.axis);
            &&& spec_click_response(s, event).is_page_jump()
            &&& hit.raw * track_length(s) < thumb_start(s) * 65536 ==> {
                &&& spec_click_response(s, event) is PageBackward
                &&& state_after_click(s, event) == s.after_delta(s.page())
            }
            &&& hit.raw * track_length(s) > thumb_end(s) * 65536 ==> {
                &&& spec_click_response(s, event) is PageForward
                &&& state_after_click(s, event) == s.after_delta(-s.page())
            }
        },
{
}

} // verus!
