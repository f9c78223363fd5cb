//! Synchronisation engine for a scrollable region and its scrollbar.
//!
//! The engine keeps the scroll offset of a region and the thumb of its scrollbar
//! consistent with each other and with the geometry that the layout pass last
//! produced. It holds no floating-point state: sizes are whole device pixels, and
//! every offset, position and factor is a fixed-point number with sixteen
//! fractional bits.
//!
//! - [`fixed`]: the fixed-point numbers and their rounding.
//! - [`axis`]: the scrolled axis and how it is chosen.
//! - [`geometry`]: what the layout pass produces, and the lengths derived from it.
//! - [`config`]: what the host configures on a region and on a scrollbar.
//! - [`registry`]: which scrollbar belongs to which region.
//! - [`setup`]: what attaching a scrollbar decides.
//! - [`controller`]: the scroll offset and the thumb, and every change to them.
//! - [`input`]: wheel, drag and click, each turned into one change of the offset.

pub mod axis;
pub mod config;
pub mod controller;
pub mod fixed;
pub mod geometry;
pub mod input;
pub mod registry;
pub mod setup;
