//! What attaching a scrollbar to a region decides: the scrolled axis, what becomes of
//! the region's configuration, and the shape in which the thumb is spawned.

use vstd::prelude::*;
use crate::axis::{
    overflow_after_attach, resolve_axis, resolved_axis, Overflow, OverflowAxis, ScrollAxis,
};
use crate::controller::ScrollController;
use crate::geometry::PairGeometry;

verus! {

/// What the region is configured with when the scrollbar is attached.
#[derive(Clone, Copy, Debug, PartialEq, Eq, Structural)]
pub struct RegionSetup {
    /// The region's overflow configuration.
    pub overflow: Overflow,
    /// Whether the region has line metrics of its own.
    pub has_line_height: bool,
}

/// An extent of the thumb's node as it is spawned.
#[derive(Clone, Copy, Debug, PartialEq, Eq, Structural)]
pub enum ThumbExtent {
    /// No extent: the thumb's length before any geometry is observed.
    Zero,
    /// The full extent of the track.
    Full,
}

/// The node of a thumb as it is spawned.
#[derive(Clone, Copy, Debug, PartialEq, Eq, Structural)]
pub struct ThumbNode {
    pub width: ThumbExtent,
    pub height: ThumbExtent,
}

/// What is to be done when a scrollbar is attached.
#[derive(Clone, Copy, Debug, PartialEq, Eq, Structural)]
pub struct SetupPlan {
    /// The scrolled axis of the pair.
    pub axis: ScrollAxis,
    /// The overflow configuration that the region is to have.
    pub overflow: Overflow,
    /// Whether the region is to be given the default line metrics.
    pub install_line_height: bool,
    /// The node of the thumb.
    pub thumb: ThumbNode,
}

/// The node of a thumb on a track that scrolls along `axis`: it fills the track
/// across the axis and has no length along it.
pub open spec fn spec_thumb_node(axis: ScrollAxis) -> ThumbNode {
    match axis {
        ScrollAxis::Vertical => ThumbNode { width: ThumbExtent::Full, height: ThumbExtent::Zero },
        ScrollAxis::Horizontal => ThumbNode {
            width: ThumbExtent::Zero,
            height: ThumbExtent::Full,
        },
    }
}

/// The plan for a region: the axis is resolved from its overflow configuration, the
/// region is made to scroll vertically if it scrolled along no axis, and a region
/// that scrolls vertically and has no line metrics is given the default ones.
pub open spec fn spec_plan_setup(region: RegionSetup) -> SetupPlan {
    let axis = resolved_axis(region.overflow);
    SetupPlan {
        axis,
        overflow: overflow_after_attach(region.overflow),
        install_line_height: axis == ScrollAxis::Vertical && !region.has_line_height,
        thumb: spec_thumb_node(axis),
    }
}

/// The node of a thumb on a track that scrolls along `axis`.
pub fn thumb_node(axis: ScrollAxis) -> (r: ThumbNode)
    ensures
        r == spec_thumb_node(axis),
{
    match axis {
        ScrollAxis::Vertical => ThumbNode { width: ThumbExtent::Full, height: ThumbExtent::Zero },
        ScrollAxis::Horizontal => ThumbNode {
            width: ThumbExtent::Zero,
            height: ThumbExtent::Full,
        },
    }
}

/// Plans the attachment of a scrollbar to a region.
pub fn plan_setup(region: RegionSetup) -> (plan: SetupPlan)
    ensures
        plan == spec_plan_setup(region),
        plan.overflow.scrolls(plan.axis),
{
    let mut overflow = region.overflow;
    let axis = resolve_axis(&mut overflow);
    let install_line_height = match axis {
        ScrollAxis::Vertical => !region.has_line_height,
        ScrollAxis::Horizontal => false,
    };
    SetupPlan { axis, overflow, install_line_height, thumb: thumb_node(axis) }
}

impl SetupPlan {
    /// The controller with which the pair starts.
    pub fn controller(&self) -> (r: ScrollController)
        ensures
            r@.wf(),
            r@.axis == self.axis,
            r@.geometry == PairGeometry::spec_unobserved(),
            r@.offset == 0,
            r@.cross_offset == 0,
            r@.position == 0,
            r@.fraction is None,
    {
        ScrollController::new(self.axis)
    }
}

/// A region that scrolls along no axis scrolls vertically once a scrollbar is
/// attached. One that scrolls horizontally only keeps its configuration and gets a
/// horizontal scrollbar; one that scrolls vertically gets a vertical one, whatever
/// its horizontal configuration.
pub proof fn lemma_axis_resolution(region: RegionSetup)
    ensures
        region.overflow.x != OverflowAxis::Scroll && region.overflow.y != OverflowAxis::Scroll ==> {
            &&& spec_plan_setup(region).axis == ScrollAxis::Vertical
            &&& spec_plan_setup(region).overflow.y == OverflowAxis::Scroll
        },
        region.overflow.y == OverflowAxis::Scroll ==> {
            &&& spec_plan_setup(region).axis == ScrollAxis::Vertical
            &&& spec_plan_setup(region).overflow == region.overflow
        },
        region.overflow.x == OverflowAxis::Scroll && region.overflow.y != OverflowAxis::Scroll ==> {
            &&& spec_plan_setup(region).axis == ScrollAxis::Horizontal
            &&& spec_plan_setup(region).overflow == region.overflow
            &&& !spec_plan_setup(region).install_line_height
        },
{
}

} // verus!
