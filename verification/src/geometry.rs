//! The geometry that the layout pass produces for the nodes of a scrollbar pair, and
//! the lengths that the controller derives from it.
//!
//! Sizes and insets are whole device pixels. Derived lengths are in logical pixels,
//! as fixed-point numbers with sixteen fractional bits: a device length times the
//! raw inverse scale factor.

use vstd::prelude::*;
use crate::axis::ScrollAxis;
use crate::fixed::{positive_part, Fixed};

verus! {

/// A width and a height, in device pixels.
#[derive(Clone, Copy, Debug, PartialEq, Eq, Structural)]
pub struct Extent {
    pub x: u32,
    pub y: u32,
}

/// The border widths of a node, in device pixels.
#[derive(Clone, Copy, Debug, PartialEq, Eq, Structural)]
pub struct BorderInsets {
    pub left: u32,
    pub right: u32,
    pub top: u32,
    pub bottom: u32,
}

/// What the layout pass computed for one node.
#[derive(Clone, Copy, Debug, PartialEq, Eq, Structural)]
pub struct NodeGeometry {
    /// Size of the node.
    pub size: Extent,
    /// Size of the node's content, the part that is scrolled out of view included.
    pub content_size: Extent,
    /// Border insets of the node.
    pub border: BorderInsets,
    /// The factor that turns device pixels into logical pixels.
    pub inverse_scale_factor: Fixed,
}

/// The geometry of a scrollbar pair: the scrolled region, the track and the thumb.
#[derive(Clone, Copy, Debug, PartialEq, Eq, Structural)]
pub struct PairGeometry {
    pub region: NodeGeometry,
    pub track: NodeGeometry,
    pub thumb_size: Extent,
}

impl Extent {
    /// The extent along `axis`.
    pub open spec fn spec_along(self, axis: ScrollAxis) -> int {
        match axis {
            ScrollAxis::Vertical => self.y as int,
            ScrollAxis::Horizontal => self.x as int,
        }
    }

    /// The extent along `axis`.
    pub fn along(&self, axis: ScrollAxis) -> (r: u32)
        ensures
            r == self.spec_along(axis),
    {
        match axis {
            ScrollAxis::Vertical => self.y,
            ScrollAxis::Horizontal => self.x,
        }
    }
}

impl BorderInsets {
    /// The inset at the start of `axis`: the top one, or the left one.
    pub open spec fn spec_leading(self, axis: ScrollAxis) -> int {
        match axis {
            ScrollAxis::Vertical => self.top as int,
            ScrollAxis::Horizontal => self.left as int,
        }
    }

    /// The inset at the end of `axis`: the bottom one, or the right one.
    pub open spec fn spec_trailing(self, axis: ScrollAxis) -> int {
        match axis {
            ScrollAxis::Vertical => self.bottom as int,
            ScrollAxis::Horizontal => self.right as int,
        }
    }

    /// The inset at the start of `axis`: the top one, or the left one.
    pub fn leading(&self, axis: ScrollAxis) -> (r: u32)
        ensures
            r == self.spec_leading(axis),
    {
        match axis {
            ScrollAxis::Vertical => self.top,
            ScrollAxis::Horizontal => self.left,
        }
    }

    /// The inset at the end of `axis`: the bottom one, or the right one.
    pub fn trailing(&self, axis: ScrollAxis) -> (r: u32)
        ensures
            r == self.spec_trailing(axis),
    {
        match axis {
            ScrollAxis::Vertical => self.bottom,
            ScrollAxis::Horizontal => self.right,
        }
    }
}

impl NodeGeometry {
    /// The geometry of a node that has not been laid out: all sizes and insets zero,
    /// and a scale factor of one.
    pub open spec fn spec_unobserved() -> NodeGeometry {
        NodeGeometry {
            size: Extent { x: 0, y: 0 },
            content_size: Extent { x: 0, y: 0 },
            border: BorderInsets { left: 0, right: 0, top: 0, bottom: 0 },
            inverse_scale_factor: Fixed { raw: 65536 },
        }
    }

    /// The geometry of a node that has not been laid out: all sizes and insets zero,
    /// and a scale factor of one.
    pub fn unobserved() -> (r: NodeGeometry)
        ensures
            r == Self::spec_unobserved(),
    {
        NodeGeometry {
            size: Extent { x: 0, y: 0 },
            content_size: Extent { x: 0, y: 0 },
            border: BorderInsets { left: 0, right: 0, top: 0, bottom: 0 },
            inverse_scale_factor: Fixed::one(),
        }
    }

    /// A length of `device` pixels of this node, in logical pixels.
    pub open spec fn spec_to_logical(self, device: int) -> int {
        device * self.inverse_scale_factor.raw
    }

    /// A length of `device` pixels of this node, in logical pixels.
    pub fn to_logical(&self, device: u32) -> (r: i64)
        ensures
            r == self.spec_to_logical(device as int),
    {
        let d: i64 = device as i64;
        let f: i64 = self.inverse_scale_factor.raw as i64;
        assert(-0x7fff_ffff_ffff_ffff <= d * f <= 0x7fff_ffff_ffff_ffff) by (nonlinear_arith)
            requires
                0 <= d <= 0xffff_ffff,
                -0x8000_0000 <= f <= 0x7fff_ffff,
        ;
        d * f
    }
}

impl PairGeometry {
    /// The geometry of a pair of which nothing has been laid out: region and track
    /// are nodes that have not been laid out, and the thumb has no size.
    pub open spec fn spec_unobserved() -> PairGeometry {
        PairGeometry {
            region: NodeGeometry::spec_unobserved(),
            track: NodeGeometry::spec_unobserved(),
            thumb_size: Extent { x: 0, y: 0 },
        }
    }

    /// The geometry of a pair of which nothing has been laid out. With it there is
    /// nothing to scroll, nothing to drag, and a page has no extent.
    pub fn unobserved() -> (r: PairGeometry)
        ensures
            r == Self::spec_unobserved(),
            forall|axis: ScrollAxis| #[trigger] r.spec_scroll_range(axis) == 0,
            forall|axis: ScrollAxis| #[trigger] r.spec_draggable_length(axis) == 0,
            forall|axis: ScrollAxis| #[trigger] r.spec_page_extent(axis) == 0,
    {
        let r = PairGeometry {
            region: NodeGeometry::unobserved(),
            track: NodeGeometry::unobserved(),
            thumb_size: Extent { x: 0, y: 0 },
        };
        assert forall|axis: ScrollAxis| #[trigger] r.spec_draggable_length(axis) == 0 by {
            assert(r.spec_draggable_device(axis) == 0);
        }
        assert forall|axis: ScrollAxis| #[trigger] r.spec_scroll_range(axis) == 0 by {
            assert(r.spec_overflow_device(axis) == 0);
        }
        r
    }

    /// Extent of the region's viewport along `axis`, in device pixels.
    pub open spec fn spec_viewport_extent(self, axis: ScrollAxis) -> int {
        self.region.size.spec_along(axis)
    }

    /// Extent of the region's content along `axis`, in device pixels.
    pub open spec fn spec_content_extent(self, axis: ScrollAxis) -> int {
        self.region.content_size.spec_along(axis)
    }

    /// The part of the content that does not fit the viewport along `axis`, in device
    /// pixels: the content extent less the viewport extent, and zero where the
    /// content fits.
    pub open spec fn spec_overflow_device(self, axis: ScrollAxis) -> int {
        positive_part(self.spec_content_extent(axis) - self.spec_viewport_extent(axis))
    }

    /// The range of scroll offsets along `axis`: the content extent less the
    /// viewport extent, in logical pixels, and zero where the content fits.
    pub open spec fn spec_scroll_range(self, axis: ScrollAxis) -> int {
        positive_part(self.region.spec_to_logical(self.spec_overflow_device(axis)))
    }

    /// The viewport extent along `axis` in logical pixels: the distance of one page.
    pub open spec fn spec_page_extent(self, axis: ScrollAxis) -> int {
        positive_part(self.region.spec_to_logical(self.spec_viewport_extent(axis)))
    }

    /// The part of the track in which the thumb can move, in device pixels: the
    /// track's length less its two borders and the thumb's length, and zero where
    /// the thumb does not fit.
    pub open spec fn spec_draggable_device(self, axis: ScrollAxis) -> int {
        positive_part(
            self.track.size.spec_along(axis) - self.track.border.spec_leading(axis)
                - self.track.border.spec_trailing(axis) - self.thumb_size.spec_along(axis),
        )
    }

    /// The draggable track length along `axis`, in logical pixels.
    pub open spec fn spec_draggable_length(self, axis: ScrollAxis) -> int {
        positive_part(self.track.spec_to_logical(self.spec_draggable_device(axis)))
    }

    /// The range of scroll offsets along `axis`, in logical pixels.
    pub fn scroll_range(&self, axis: ScrollAxis) -> (r: i64)
        ensures
            r == self.spec_scroll_range(axis),
            r >= 0,
    {
        let content: u32 = self.region.content_size.along(axis);
        let viewport: u32 = self.region.size.along(axis);
        let device: u32 = if content > viewport {
            content - viewport
        } else {
            0
        };
        let logical: i64 = self.region.to_logical(device);
        if logical > 0 {
            logical
        } else {
            0
        }
    }

    /// The distance of one page along `axis`, in logical pixels.
    pub fn page_extent(&self, axis: ScrollAxis) -> (r: i64)
        ensures
            r == self.spec_page_extent(axis),
            r >= 0,
    {
        let logical: i64 = self.region.to_logical(self.region.size.along(axis));
        if logical > 0 {
            logical
        } else {
            0
        }
    }

    /// The draggable track length along `axis`, in logical pixels.
    pub fn draggable_length(&self, axis: ScrollAxis) -> (r: i64)
        ensures
            r == self.spec_draggable_length(axis),
            r >= 0,
    {
        let track: i64 = self.track.size.along(axis) as i64;
        let leading: i64 = self.track.border.leading(axis) as i64;
        let trailing: i64 = self.track.border.trailing(axis) as i64;
        let thumb: i64 = self.thumb_size.along(axis) as i64;
        let free: i64 = track - leading - trailing - thumb;
        let device: u32 = if free > 0 {
            free as u32
        } else {
            0
        };
        let logical: i64 = self.track.to_logical(device);
        if logical > 0 {
            logical
        } else {
            0
        }
    }
}

} // verus!
