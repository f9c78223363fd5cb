//! What the host configures on a region and on its scrollbar.

use vstd::prelude::*;
use crate::fixed::{lemma_scaled_bound, scale_wide, scaled, Fixed};

verus! {

/// How fast the content of a region scrolls under the wheel: the factor by which a
/// wheel delta is multiplied.
#[derive(Clone, Copy, Debug, PartialEq, Eq, Structural)]
pub struct ScrollableScrollScale(pub Fixed);

/// How fast the content scrolls while the thumb is dragged: the factor by which a
/// drag delta is multiplied.
#[derive(Clone, Copy, Debug, PartialEq, Eq, Structural)]
pub struct DragSpeed(pub Fixed);

/// The height of a line of text.
#[derive(Clone, Copy, Debug, PartialEq, Eq, Structural)]
pub enum LineHeight {
    /// A height in logical pixels.
    Px(Fixed),
    /// A multiple of the font size.
    RelativeToFont(Fixed),
}

/// The line metrics of a region, by which a wheel delta in lines becomes one in
/// pixels.
#[derive(Clone, Copy, Debug, PartialEq, Eq, Structural)]
pub struct ScrollableLineHeight {
    /// Font size, in logical pixels.
    pub font_size: Fixed,
    /// Line height.
    pub line_height: LineHeight,
}

impl ScrollableScrollScale {
    /// Raw value of the default scale, which is one.
    pub const DEFAULT: i32 = 65536;
}

impl Default for ScrollableScrollScale {
    fn default() -> (r: Self)
        ensures
            r.0.raw == 65536,
    {
        ScrollableScrollScale(Fixed { raw: 65536 })
    }
}

impl DragSpeed {
    /// Raw value of the default speed, which is four.
    pub const DEFAULT: i32 = 262144;
}

impl Default for DragSpeed {
    fn default() -> (r: Self)
        ensures
            r.0.raw == 262144,
    {
        DragSpeed(Fixed { raw: 262144 })
    }
}

impl ScrollableLineHeight {
    /// The height of one line in logical pixels, with sixteen fractional bits: the
    /// height itself where it is given in pixels, else the font size multiplied by
    /// the given factor, rounded toward zero.
    pub open spec fn spec_px(self) -> int {
        match self.line_height {
            LineHeight::Px(px) => px.raw as int,
            LineHeight::RelativeToFont(scale) => scaled(self.font_size.raw as int, scale),
        }
    }

    /// The height of one line in logical pixels, with sixteen fractional bits.
    pub fn px(&self) -> (r: i64)
        ensures
            r == self.spec_px(),
            -0x4000_0000_0000 <= r <= 0x4000_0000_0000,
    {
        match self.line_height {
            LineHeight::Px(px) => px.raw as i64,
            LineHeight::RelativeToFont(scale) => {
                proof {
                    lemma_scaled_bound(self.font_size.raw as int, scale, 0x8000_0000);
                }
                let wide: i128 = scale_wide(self.font_size.raw as i128, scale);
                wide as i64
            },
        }
    }
}

} // verus!
