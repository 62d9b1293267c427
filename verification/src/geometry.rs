//! Plain integer geometry for the clock face.
//!
//! Screen coordinates are signed so that a point may lie off the
//! visible surface (a hand endpoint near an edge, for instance).

use vstd::prelude::*;

verus! {

/// A screen position in pixels.
#[derive(Clone, Copy, PartialEq, Eq, Structural, Debug)]
pub struct Point {
    pub x: i32,
    pub y: i32,
}

/// A circle given by its center and its diameter in pixels.
#[derive(Clone, Copy, PartialEq, Eq, Structural, Debug)]
pub struct Circle {
    pub center: Point,
    pub diameter: u32,
}

} // verus!
