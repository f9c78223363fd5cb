//! The scrolled axis of a region, and how it is chosen when a scrollbar is attached.

use vstd::prelude::*;

verus! {

/// The axis along which a region scrolls. It is chosen once and never changes.
#[derive(Clone, Copy, Debug, PartialEq, Eq, Structural)]
pub enum ScrollAxis {
    Vertical,
    Horizontal,
}

/// What a region does with content that does not fit along one axis.
#[derive(Clone, Copy, Debug, PartialEq, Eq, Structural)]
pub enum OverflowAxis {
    Visible,
    Clip,
    Hidden,
    Scroll,
}

/// The overflow configuration of a region.
#[derive(Clone, Copy, Debug, PartialEq, Eq, Structural)]
pub struct Overflow {
    pub x: OverflowAxis,
    pub y: OverflowAxis,
}

/// The axis that a scrollbar attached to a region with this configuration scrolls:
/// vertical if the region scrolls vertically, else horizontal if it scrolls
/// horizontally, else vertical. Vertical wins when both are configured.
pub open spec fn resolved_axis(overflow: Overflow) -> ScrollAxis {
    if overflow.y == OverflowAxis::Scroll {
        ScrollAxis::Vertical
    } else if overflow.x == OverflowAxis::Scroll {
        ScrollAxis::Horizontal
    } else {
        ScrollAxis::Vertical
    }
}

/// The configuration that a region has once a scrollbar is attached: unchanged if it
/// scrolled along some axis already, else scrolling vertically and visible
/// horizontally.
pub open spec fn overflow_after_attach(overflow: Overflow) -> Overflow {
    if overflow.y == OverflowAxis::Scroll || overflow.x == OverflowAxis::Scroll {
        overflow
    } else {
        Overflow { x: OverflowAxis::Visible, y: OverflowAxis::Scroll }
    }
}

impl Overflow {
    /// The configuration that scrolls vertically and shows horizontal overflow.
    pub fn scroll_y() -> (r: Overflow)
        ensures
            r == (Overflow { x: OverflowAxis::Visible, y: OverflowAxis::Scroll }),
    {
        Overflow { x: OverflowAxis::Visible, y: OverflowAxis::Scroll }
    }

    /// Whether the region scrolls along `axis`.
    pub open spec fn scrolls(self, axis: ScrollAxis) -> bool {
        match axis {
            ScrollAxis::Vertical => self.y == OverflowAxis::Scroll,
            ScrollAxis::Horizontal => self.x == OverflowAxis::Scroll,
        }
    }
}

/// Chooses the scrolled axis of a region to which a scrollbar is being attached, and
/// makes the region scroll vertically if it scrolled along no axis yet.
pub fn resolve_axis(overflow: &mut Overflow) -> (axis: ScrollAxis)
    ensures
        axis == resolved_axis(*old(overflow)),
        *final(overflow) == overflow_after_attach(*old(overflow)),
        final(overflow).scrolls(axis),
{
    if overflow.y == OverflowAxis::Scroll {
        ScrollAxis::Vertical
    } else if overflow.x == OverflowAxis::Scroll {
        ScrollAxis::Horizontal
    } else {
        *overflow = Overflow::scroll_y();
        ScrollAxis::Vertical
    }
}

/// Attaching a scrollbar to a region that has one already changes nothing: the axis
/// that was chosen is chosen again, and the configuration stays as it is.
pub proof fn lemma_resolution_is_stable(overflow: Overflow)
    ensures
        resolved_axis(overflow_after_attach(overflow)) == resolved_axis(overflow),
        overflow_after_attach(overflow_after_attach(overflow)) == overflow_after_attach(overflow),
{
}

} // verus!
