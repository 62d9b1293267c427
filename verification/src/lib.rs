//! A differential renderer for a small clock-face display.
//!
//! The crate covers the logic of a line-oriented display pipeline:
//! a rendering bridge that turns rasterizer scanlines into single
//! rectangular transport writes, a differential clock renderer that
//! emits drawing commands only for the hands and text fields whose
//! underlying value changed, and a periodic scheduler that funnels
//! external events into panel transitions and drives the clock
//! renderer at a bounded cadence. Bus transfer, wall-clock reading
//! and the widget toolkit are collaborators behind these interfaces.

use vstd::prelude::*;

pub mod bridge;
pub mod button;
pub mod clock;
pub mod color;
pub mod config;
pub mod geometry;
pub mod ntp;
pub mod scheduler;
pub mod state;
pub mod textfmt;

verus! {

/// Width of the physical display in pixels.
pub const DISPLAY_WIDTH: u32 = 128;

/// Height of the physical display in pixels.
pub const DISPLAY_HEIGHT: u32 = 128;

} // verus!
