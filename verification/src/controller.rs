//! The scroll position controller: the one place where the scroll offset of a region
//! changes, and where the thumb's place on the track is derived from it.
//!
//! [`ScrollState`] is the mathematical state of one scrollbar pair, and its functions
//! say what every operation does. [`ScrollController`] is the executable state; each
//! of its operations is proved to do to its view what the corresponding function of
//! [`ScrollState`] says.

use vstd::arithmetic::div_mod::{
    lemma_div_is_ordered, lemma_fundamental_div_mod, lemma_mod_pos_bound,
};
use vstd::prelude::*;
use crate::axis::ScrollAxis;
use crate::fixed::{clamp, trunc_div};
use crate::geometry::PairGeometry;

verus! {

/// A two-dimensional scroll offset into the content, in logical pixels with sixteen
/// fractional bits.
#[derive(Clone, Copy, Debug, PartialEq, Eq, Structural)]
pub struct ScrollOffset {
    pub x: i64,
    pub y: i64,
}

/// The thumb of a scrollbar, as derived from geometry and scroll offset.
#[derive(Clone, Copy, Debug, PartialEq, Eq, Structural)]
pub struct Thumb {
    /// The part of the track that the thumb covers: the viewport extent divided by the
    /// content extent, with sixteen fractional bits, rounded down. `None` while the
    /// content extent is zero.
    pub length_fraction: Option<u64>,
    /// Distance of the thumb from the start of the draggable part of the track, in
    /// logical pixels with sixteen fractional bits.
    pub track_offset: i64,
}

/// What an update after a layout pass changed, and so what the host has to write back.
#[derive(Clone, Copy, Debug, PartialEq, Eq, Structural)]
pub struct FrameUpdate {
    /// The offset that the region carried lay outside the scroll range and was
    /// brought into it.
    pub offset_clamped: bool,
    /// The thumb has another place than before.
    pub thumb_moved: bool,
    /// The thumb has another length than before.
    pub thumb_resized: bool,
}

impl ScrollOffset {
    /// The component along `axis`.
    pub open spec fn spec_along(self, axis: ScrollAxis) -> int {
        match axis {
            ScrollAxis::Vertical => self.y as int,
            ScrollAxis::Horizontal => self.x as int,
        }
    }

    /// The component across `axis`.
    pub open spec fn spec_across(self, axis: ScrollAxis) -> int {
        match axis {
            ScrollAxis::Vertical => self.x as int,
            ScrollAxis::Horizontal => self.y as int,
        }
    }

    /// The component along `axis`.
    pub fn along(&self, axis: ScrollAxis) -> (r: i64)
        ensures
            r == self.spec_along(axis),
    {
        match axis {
            ScrollAxis::Vertical => self.y,
            ScrollAxis::Horizontal => self.x,
        }
    }

    /// The component across `axis`.
    pub fn across(&self, axis: ScrollAxis) -> (r: i64)
        ensures
            r == self.spec_across(axis),
    {
        match axis {
            ScrollAxis::Vertical => self.x,
            ScrollAxis::Horizontal => self.y,
        }
    }

    /// The offset with `along` as its component along `axis` and `across` as the other.
    pub fn from_axis(axis: ScrollAxis, along: i64, across: i64) -> (r: ScrollOffset)
        ensures
            r.spec_along(axis) == along,
            r.spec_across(axis) == across,
    {
        match axis {
            ScrollAxis::Vertical => ScrollOffset { x: across, y: along },
            ScrollAxis::Horizontal => ScrollOffset { x: along, y: across },
        }
    }
}

/// The thumb's length as a fraction of the track, with sixteen fractional bits:
/// `viewport / content`, rounded down. It is not limited to one. There is no
/// fraction while the content extent is zero.
pub open spec fn length_fraction(viewport: int, content: int) -> Option<int> {
    if content <= 0 {
        None
    } else {
        Some((viewport * 65536) / content)
    }
}

/// The thumb's distance from the start of the draggable track for a scroll offset
/// within `range`: the same share of `draggable` as `offset` is of `range`, rounded
/// down, and zero where there is nothing to scroll.
pub open spec fn thumb_position(offset: int, range: int, draggable: int) -> int {
    if range > 0 {
        (draggable * offset) / range
    } else {
        0
    }
}

/// The mathematical state of one scrollbar pair.
pub struct ScrollState {
    /// The scrolled axis.
    pub axis: ScrollAxis,
    /// The geometry that was observed last.
    pub geometry: PairGeometry,
    /// Scroll offset along the scrolled axis.
    pub offset: int,
    /// Scroll offset across the scrolled axis, which the controller leaves alone.
    pub cross_offset: int,
    /// The thumb's distance from the start of the draggable track.
    pub position: int,
    /// The thumb's length as a fraction of the track.
    pub fraction: Option<int>,
}

impl ScrollState {
    /// The largest scroll offset: content extent less viewport extent, or zero.
    pub open spec fn range(self) -> int {
        self.geometry.spec_scroll_range(self.axis)
    }

    /// The length of the track in which the thumb can move.
    pub open spec fn draggable(self) -> int {
        self.geometry.spec_draggable_length(self.axis)
    }

    /// The distance of one page: the viewport extent.
    pub open spec fn page(self) -> int {
        self.geometry.spec_page_extent(self.axis)
    }

    /// The offset lies within the scroll range, and the thumb's place and length are
    /// those that belong to the offset and to the geometry.
    pub open spec fn wf(self) -> bool {
        &&& 0 <= self.offset <= self.range()
        &&& self.position == thumb_position(self.offset, self.range(), self.draggable())
        &&& self.fraction == length_fraction(
            self.geometry.spec_viewport_extent(self.axis),
            self.geometry.spec_content_extent(self.axis),
        )
    }

    /// The state in which the offset along the scrolled axis is `requested`, brought
    /// into the scroll range, and the thumb stands where that offset puts it.
    pub open spec fn moved_to(self, requested: int) -> ScrollState {
        let offset = clamp(requested, 0, self.range());
        ScrollState {
            offset,
            position: thumb_position(offset, self.range(), self.draggable()),
            ..self
        }
    }

    /// The state after a signed delta is applied: a positive delta moves the content
    /// toward its start, so the offset decreases by the delta.
    pub open spec fn after_delta(self, signed_delta: int) -> ScrollState {
        self.moved_to(self.offset - signed_delta)
    }

    /// The state after a jump of one page, forward or backward.
    pub open spec fn after_page(self, forward: bool) -> ScrollState {
        if forward {
            self.after_delta(-self.page())
        } else {
            self.after_delta(self.page())
        }
    }

    /// The state after the host has written `along` and `across` as the offset.
    pub open spec fn with_offset(self, along: int, across: int) -> ScrollState {
        ScrollState { cross_offset: across, ..self }.moved_to(along)
    }

    /// The state after new geometry is observed: the thumb's length is that of the new
    /// geometry, and the offset is brought into the new scroll range.
    pub open spec fn with_geometry(self, geometry: PairGeometry) -> ScrollState {
        ScrollState {
            geometry,
            fraction: length_fraction(
                geometry.spec_viewport_extent(self.axis),
                geometry.spec_content_extent(self.axis),
            ),
            ..self
        }.moved_to(self.offset)
    }
}

/// The executable state of one scrollbar pair. At all times its offset lies within the
/// scroll range, and its thumb has the place and the length that belong to the offset
/// and to the geometry observed last.
pub struct ScrollController {
    axis: ScrollAxis,
    geometry: PairGeometry,
    scroll_offset: ScrollOffset,
    thumb: Thumb,
}

impl View for ScrollController {
    type V = ScrollState;

    closed spec fn view(&self) -> ScrollState {
        ScrollState {
            axis: self.axis,
            geometry: self.geometry,
            offset: self.scroll_offset.spec_along(self.axis),
            cross_offset: self.scroll_offset.spec_across(self.axis),
            position: self.thumb.track_offset as int,
            fraction: match self.thumb.length_fraction {
                Some(f) => Some(f as int),
                None => None,
            },
        }
    }
}

impl ScrollController {
    #[verifier::type_invariant]
    spec fn inv(self) -> bool {
        self@.wf()
    }

    /// The controller of a pair that scrolls along `axis`, of which no geometry has
    /// been observed: offset zero, thumb at the start of the track.
    pub fn new(axis: ScrollAxis) -> (r: ScrollController)
        ensures
            r@.wf(),
            r@.axis == axis,
            r@.geometry == PairGeometry::spec_unobserved(),
            r@.offset == 0,
            r@.cross_offset == 0,
            r@.position == 0,
            r@.fraction is None,
            r@.range() == 0,
            r@.draggable() == 0,
            r@.page() == 0,
    {
        ScrollController {
            axis,
            geometry: PairGeometry::unobserved(),
            scroll_offset: ScrollOffset { x: 0, y: 0 },
            thumb: Thumb { length_fraction: None, track_offset: 0 },
        }
    }

    /// The scrolled axis.
    pub fn axis(&self) -> (r: ScrollAxis)
        ensures
            r == self@.axis,
            self@.wf(),
    {
        proof {
            use_type_invariant(self);
        }
        self.axis
    }

    /// The geometry that was observed last.
    pub fn geometry(&self) -> (r: PairGeometry)
        ensures
            r == self@.geometry,
            self@.wf(),
    {
        proof {
            use_type_invariant(self);
        }
        self.geometry
    }

    /// The scroll offset of the region.
    pub fn scroll_offset(&self) -> (r: ScrollOffset)
        ensures
            self@.wf(),
            r.spec_along(self@.axis) == self@.offset,
            r.spec_across(self@.axis) == self@.cross_offset,
            0 <= r.spec_along(self@.axis) <= self@.range(),
    {
        proof {
            use_type_invariant(self);
        }
        self.scroll_offset
    }

    /// The thumb.
    pub fn thumb(&self) -> (r: Thumb)
        ensures
            self@.wf(),
            r.track_offset == self@.position,
            0 <= r.track_offset <= self@.draggable(),
            match r.length_fraction {
                Some(f) => self@.fraction == Some(f as int),
                None => self@.fraction is None,
            },
    {
        proof {
            use_type_invariant(self);
            lemma_thumb_within_track(self@.offset, self@.range(), self@.draggable());
        }
        self.thumb
    }

    /// The largest scroll offset along the scrolled axis.
    pub fn scroll_range(&self) -> (r: i64)
        ensures
            r == self@.range(),
            r >= 0,
    {
        self.geometry.scroll_range(self.axis)
    }

    /// The controller with the given axis, geometry and cross offset, whose offset
    /// along the axis is `requested`, brought into the scroll range.
    fn settled(axis: ScrollAxis, geometry: PairGeometry, requested: i128, across: i64) -> (r:
        ScrollController)
        ensures
            r@.wf(),
            r@.axis == axis,
            r@.geometry == geometry,
            r@.cross_offset == across,
            r@.offset == clamp(requested as int, 0, r@.range()),
    {
        let range: i64 = geometry.scroll_range(axis);
        let draggable: i64 = geometry.draggable_length(axis);
        let offset: i64 = if requested < 0 {
            0
        } else if requested > range as i128 {
            range
        } else {
            requested as i64
        };
        let position: i64 = if range > 0 {
            proof {
                lemma_thumb_within_track(offset as int, range as int, draggable as int);
            }
            assert(0 <= (draggable as int) * (offset as int) <= 0x7fff_ffff_ffff_ffff
                * 0x7fff_ffff_ffff_ffff) by (nonlinear_arith)
                requires
                    0 <= draggable <= 0x7fff_ffff_ffff_ffff,
                    0 <= offset <= 0x7fff_ffff_ffff_ffff,
            ;
            let share: i128 = (draggable as i128 * offset as i128) / (range as i128);
            share as i64
        } else {
            0
        };
        let viewport: u64 = geometry.region.size.along(axis) as u64;
        let content: u64 = geometry.region.content_size.along(axis) as u64;
        let fraction: Option<u64> = if content == 0 {
            None
        } else {
            Some((viewport * 65536) / content)
        };
        ScrollController {
            axis,
            geometry,
            scroll_offset: ScrollOffset::from_axis(axis, offset, across),
            thumb: Thumb { length_fraction: fraction, track_offset: position },
        }
    }

    /// Applies a signed delta to the scroll offset: the offset decreases by the delta
    /// and is brought into the scroll range, and the thumb follows it.
    pub fn apply_delta(&mut self, signed_delta: i64)
        ensures
            final(self)@ == old(self)@.after_delta(signed_delta as int),
            final(self)@.wf(),
    {
        self.apply_wide_delta(signed_delta as i128);
    }

    /// Applies a signed delta of any size that the input handlers can produce.
    pub(crate) fn apply_wide_delta(&mut self, signed_delta: i128)
        requires
            -0x1000_0000_0000_0000_0000_0000 <= signed_delta <= 0x1000_0000_0000_0000_0000_0000,
        ensures
            final(self)@ == old(self)@.after_delta(signed_delta as int),
            final(self)@.wf(),
    {
        proof {
            use_type_invariant(&*self);
        }
        let current: i128 = self.scroll_offset.along(self.axis) as i128;
        let across: i64 = self.scroll_offset.across(self.axis);
        *self = Self::settled(self.axis, self.geometry, current - signed_delta, across);
    }

    /// Jumps by one page: forward increases the offset by the viewport extent,
    /// backward decreases it.
    pub fn page(&mut self, forward: bool)
        ensures
            final(self)@ == old(self)@.after_page(forward),
            final(self)@.wf(),
    {
        let page: i128 = self.geometry.page_extent(self.axis) as i128;
        if forward {
            self.apply_wide_delta(-page);
        } else {
            self.apply_wide_delta(page);
        }
    }

    /// Takes over an offset that the host wrote: the component along the scrolled axis
    /// is brought into the scroll range, the other is kept as it is, and the thumb
    /// follows.
    pub fn set_scroll_offset(&mut self, offset: ScrollOffset)
        ensures
            final(self)@ == old(self)@.with_offset(
                offset.spec_along(old(self)@.axis),
                offset.spec_across(old(self)@.axis),
            ),
            final(self)@.wf(),
    {
        proof {
            use_type_invariant(&*self);
        }
        let along: i64 = offset.along(self.axis);
        let across: i64 = offset.across(self.axis);
        *self = Self::settled(self.axis, self.geometry, along as i128, across);
    }

    /// The update that runs after every layout pass: observes the geometry of the pass
    /// and takes over the offset that the region carries, which the host may have
    /// written. It reports what the host has to write back.
    pub fn refresh(&mut self, geometry: PairGeometry, offset: ScrollOffset) -> (update: FrameUpdate)
        ensures
            final(self)@ == old(self)@.with_geometry(geometry).with_offset(
                offset.spec_along(old(self)@.axis),
                offset.spec_across(old(self)@.axis),
            ),
            final(self)@.wf(),
            update.offset_clamped == (final(self)@.offset != offset.spec_along(old(self)@.axis)),
            update.thumb_moved == (final(self)@.position != old(self)@.position),
            update.thumb_resized == (final(self)@.fraction != old(self)@.fraction),
    {
        let before: Thumb = self.thumb;
        let along: i64 = offset.along(self.axis);
        let across: i64 = offset.across(self.axis);
        *self = Self::settled(self.axis, geometry, along as i128, across);
        let resized: bool = match (before.length_fraction, self.thumb.length_fraction) {
            (Some(a), Some(b)) => a != b,
            (None, None) => false,
            _ => true,
        };
        FrameUpdate {
            offset_clamped: self.scroll_offset.along(self.axis) != along,
            thumb_moved: self.thumb.track_offset != before.track_offset,
            thumb_resized: resized,
        }
    }

    /// Observes the geometry of a new layout pass: recomputes the thumb's length,
    /// brings the offset into the new scroll range, and puts the thumb where the
    /// offset belongs on the new track.
    pub fn observe_geometry(&mut self, geometry: PairGeometry)
        ensures
            final(self)@ == old(self)@.with_geometry(geometry),
            final(self)@.wf(),
    {
        let current: i64 = self.scroll_offset.along(self.axis);
        let across: i64 = self.scroll_offset.across(self.axis);
        *self = Self::settled(self.axis, geometry, current as i128, across);
    }
}

/// For an offset within the scroll range the thumb lies within the draggable track.
pub proof fn lemma_thumb_within_track(offset: int, range: int, draggable: int)
    requires
        0 <= offset <= range,
        0 <= draggable,
    ensures
        0 <= thumb_position(offset, range, draggable) <= draggable,
        offset == 0 ==> thumb_position(offset, range, draggable) == 0,
        offset == range && range > 0 ==> thumb_position(offset, range, draggable) == draggable,
{
    if range > 0 {
        assert(0 <= (draggable * offset) / range <= draggable) by (nonlinear_arith)
            requires
                0 <= offset <= range,
                0 <= draggable,
                range > 0,
        ;
        if offset == 0 {
            assert(draggable * offset == 0) by (nonlinear_arith)
                requires
                    offset == 0,
            ;
        }
        if offset == range {
            assert((draggable * offset) / range == draggable) by (nonlinear_arith)
                requires
                    offset == range,
                    range > 0,
            ;
        }
    }
}

/// Whatever was requested, the offset ends within the scroll range and the thumb
/// within the draggable track; a state whose thumb length was right stays right.
pub proof fn lemma_moved_to_is_settled(s: ScrollState, requested: int)
    ensures
        0 <= s.moved_to(requested).offset <= s.range(),
        0 <= s.moved_to(requested).position <= s.draggable(),
        s.range() == 0 ==> s.moved_to(requested).offset == 0,
        s.moved_to(requested).range() == s.range(),
        s.moved_to(requested).draggable() == s.draggable(),
        s.fraction == length_fraction(
            s.geometry.spec_viewport_extent(s.axis),
            s.geometry.spec_content_extent(s.axis),
        ) ==> s.moved_to(requested).wf(),
{
    lemma_thumb_within_track(s.moved_to(requested).offset, s.range(), s.draggable());
}

/// Whatever the offset and the delta, the offset ends within the scroll range, and at
/// zero where the content is no larger than the viewport.
pub proof fn lemma_offset_is_clamped(s: ScrollState, signed_delta: int)
    ensures
        0 <= s.after_delta(signed_delta).offset <= s.range(),
        s.geometry.spec_content_extent(s.axis) <= s.geometry.spec_viewport_extent(s.axis)
            ==> s.range() == 0 && s.after_delta(signed_delta).offset == 0,
        s.after_delta(signed_delta).geometry == s.geometry,
        s.after_delta(signed_delta).axis == s.axis,
        s.after_delta(signed_delta).cross_offset == s.cross_offset,
        s.after_delta(signed_delta).fraction == s.fraction,
{
    if s.geometry.spec_content_extent(s.axis) <= s.geometry.spec_viewport_extent(s.axis) {
        assert(s.geometry.spec_overflow_device(s.axis) == 0);
    }
}

/// Where the content is no larger than the viewport, no delta changes anything: the
/// offset stays zero and the thumb stays at the start of the track.
pub proof fn lemma_nothing_to_scroll(s: ScrollState, signed_delta: int)
    requires
        s.wf(),
        s.geometry.spec_content_extent(s.axis) <= s.geometry.spec_viewport_extent(s.axis),
    ensures
        s.after_delta(signed_delta) == s,
        s.offset == 0,
        s.position == 0,
{
    lemma_offset_is_clamped(s, signed_delta);
}

/// A delta and then its negation, where the first leaves the offset within the scroll
/// range unclamped, restore the offset and the thumb's place.
pub proof fn lemma_round_trip(s: ScrollState, signed_delta: int)
    requires
        s.wf(),
        0 <= s.offset - signed_delta <= s.range(),
    ensures
        s.after_delta(signed_delta).after_delta(-signed_delta) == s,
{
}

/// Once the offset is zero, a delta toward the start leaves the offset at zero and
/// the thumb at the start of the track.
pub proof fn lemma_idle_at_start(s: ScrollState, signed_delta: int)
    requires
        s.wf(),
        s.offset == 0,
        signed_delta >= 0,
    ensures
        s.after_delta(signed_delta) == s,
        s.after_delta(signed_delta).offset == 0,
        s.after_delta(signed_delta).position == 0,
{
    lemma_thumb_within_track(0, s.range(), s.draggable());
}

/// Once the offset is the whole scroll range, a delta toward the end leaves the
/// offset there and the thumb at the end of the draggable track.
pub proof fn lemma_idle_at_end(s: ScrollState, signed_delta: int)
    requires
        s.wf(),
        s.offset == s.range(),
        signed_delta <= 0,
    ensures
        s.after_delta(signed_delta) == s,
        s.range() > 0 ==> s.after_delta(signed_delta).position == s.draggable(),
{
    if s.range() > 0 {
        assert(s.geometry.spec_draggable_length(s.axis) >= 0);
        lemma_thumb_within_track(s.range(), s.range(), s.draggable());
    }
}

/// A larger offset never puts the thumb nearer to the start of the track.
pub proof fn lemma_thumb_is_monotonic(a: int, b: int, range: int, draggable: int)
    requires
        0 <= a <= b,
        0 <= draggable,
    ensures
        thumb_position(a, range, draggable) <= thumb_position(b, range, draggable),
{
    if range > 0 {
        assert(draggable * a <= draggable * b) by (nonlinear_arith)
            requires
                0 <= a <= b,
                0 <= draggable,
        ;
        lemma_div_is_ordered(draggable * a, draggable * b, range);
    }
}

/// The thumb's length fraction is the viewport extent divided by the content extent,
/// short of it by less than one part in 65536.
pub proof fn lemma_length_fraction_is_proportional(viewport: int, content: int)
    requires
        viewport >= 0,
        content > 0,
    ensures
        length_fraction(viewport, content) matches Some(f) && f * content <= viewport * 65536 < (f
            + 1) * content,
        viewport <= content ==> length_fraction(viewport, content)->0 <= 65536,
{
    let n = viewport * 65536;
    let f = n / content;
    lemma_fundamental_div_mod(n, content);
    lemma_mod_pos_bound(n, content);
    assert(f * content == content * f) by (nonlinear_arith);
    assert((f + 1) * content == content * f + content) by (nonlinear_arith);
    if viewport <= content {
        assert(f <= 65536) by (nonlinear_arith)
            requires
                f * content <= viewport * 65536,
                viewport <= content,
                content > 0,
        ;
    }
}

/// The floor of a difference of quotients: `(a - b) / r` differs by at most one from
/// `a / r` less the quotient of `b` by `r` rounded toward zero.
proof fn lemma_quotient_of_difference(a: int, b: int, r: int)
    requires
        r > 0,
        a >= 0,
        a - b >= 0,
    ensures
        a / r - trunc_div(b, r) - 1 <= (a - b) / r <= a / r - trunc_div(b, r) + 1,
{
    let p = a / r;
    let q = (a - b) / r;
    let t = trunc_div(b, r);
    lemma_fundamental_div_mod(a, r);
    lemma_mod_pos_bound(a, r);
    lemma_fundamental_div_mod(a - b, r);
    lemma_mod_pos_bound(a - b, r);
    if b >= 0 {
        lemma_fundamental_div_mod(b, r);
        lemma_mod_pos_bound(b, r);
        assert(-2 < q - p + t < 2) by (nonlinear_arith)
            requires
                r > 0,
                a == r * p + a % r,
                0 <= a % r < r,
                a - b == r * q + (a - b) % r,
                0 <= (a - b) % r < r,
                b == r * t + b % r,
                0 <= b % r < r,
        ;
    } else {
        let m = (-b) / r;
        lemma_fundamental_div_mod(-b, r);
        lemma_mod_pos_bound(-b, r);
        assert(t == -m);
        assert(-2 < q - p - m < 2) by (nonlinear_arith)
            requires
                r > 0,
                a == r * p + a % r,
                0 <= a % r < r,
                a - b == r * q + (a - b) % r,
                0 <= (a - b) % r < r,
                -b == r * m + (-b) % r,
                0 <= (-b) % r < r,
        ;
    }
}

/// The thumb follows the delta: after a delta it stands, up to one unit of rounding,
/// where it stood before, moved against the delta by the delta's share of the
/// draggable track (`draggable / range` times the delta) and kept within the track.
pub proof fn lemma_thumb_follows_delta(s: ScrollState, signed_delta: int)
    requires
        s.wf(),
        s.range() > 0,
    ensures
        ({
            let step = trunc_div(s.draggable() * signed_delta, s.range());
            let moved = clamp(s.position - step, 0, s.draggable());
            moved - 1 <= s.after_delta(signed_delta).position <= moved + 1
        }),
{
    let range = s.range();
    let draggable = s.draggable();
    let d = signed_delta;
    let o = s.offset;
    let a = draggable * o;
    let b = draggable * d;
    let step = trunc_div(b, range);
    let after = s.after_delta(d);
    assert(draggable >= 0);
    assert(a >= 0) by (nonlinear_arith)
        requires
            a == draggable * o,
            draggable >= 0,
            o >= 0,
    ;
    lemma_thumb_within_track(after.offset, range, draggable);
    if o - d < 0 {
        assert(b >= a) by (nonlinear_arith)
            requires
                a == draggable * o,
                b == draggable * d,
                draggable >= 0,
                d > o,
        ;
        lemma_div_is_ordered(a, b, range);
    } else if o - d > range {
        let m = (-b) / range;
        assert(-b >= draggable * range - a) by (nonlinear_arith)
            requires
                a == draggable * o,
                b == draggable * d,
                draggable >= 0,
                -d >= range - o,
        ;
        assert(b <= 0) by (nonlinear_arith)
            requires
                b == draggable * d,
                draggable >= 0,
                d < 0,
        ;
        lemma_fundamental_div_mod(a, range);
        lemma_mod_pos_bound(a, range);
        lemma_fundamental_div_mod(-b, range);
        lemma_mod_pos_bound(-b, range);
        assert(m >= draggable - s.position - 1) by (nonlinear_arith)
            requires
                range > 0,
                -b >= draggable * range - a,
                a == range * (a / range) + a % range,
                0 <= a % range < range,
                s.position == a / range,
                -b == range * m + (-b) % range,
                0 <= (-b) % range < range,
        ;
        if b == 0 {
            assert(0int / range == 0) by (nonlinear_arith)
                requires
                    range > 0,
            ;
        }
        assert(step == -m);
    } else {
        assert(a - b == draggable * (o - d)) by (nonlinear_arith)
            requires
                a == draggable * o,
                b == draggable * d,
        ;
        assert(a - b >= 0) by (nonlinear_arith)
            requires
                a - b == draggable * (o - d),
                draggable >= 0,
                o - d >= 0,
        ;
        lemma_quotient_of_difference(a, b, range);
    }
}

} // verus!
