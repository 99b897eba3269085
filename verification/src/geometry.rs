//! Plain fixed-point vectors for positions and velocities.

use vstd::prelude::*;

verus! {

/// A planar vector in milli steps.
#[derive(Clone, Copy, PartialEq, Eq, Structural, Debug)]
pub struct Vec2i {
    pub x: i64,
    pub y: i64,
}

/// A spatial vector in milli steps; `z` only orders sprites and never
/// enters the gameplay rules.
#[derive(Clone, Copy, PartialEq, Eq, Structural, Debug)]
pub struct Vec3i {
    pub x: i64,
    pub y: i64,
    pub z: i64,
}

} // verus!
