//! Two-dimensional vector quantities.
//!
//! All four types have the same shape — a pair of IEEE-754 binary64 bit
//! patterns — but are kept distinct so that a force cannot be confused with a
//! velocity, a position or a unit direction.

use vstd::prelude::*;

verus! {

/// A position in the plane, as two binary64 bit patterns.
#[derive(Clone, Copy, Debug, PartialEq, Eq, Structural)]
pub struct Position {
    pub x: u64,
    pub y: u64,
}

/// A velocity in the plane, as two binary64 bit patterns.
#[derive(Clone, Copy, Debug, PartialEq, Eq, Structural)]
pub struct Speed {
    pub x: u64,
    pub y: u64,
}

/// A force in the plane, as two binary64 bit patterns.
#[derive(Clone, Copy, Debug, PartialEq, Eq, Structural)]
pub struct Force {
    pub x: u64,
    pub y: u64,
}

/// A unit direction in the plane, as two binary64 bit patterns.
#[derive(Clone, Copy, Debug, PartialEq, Eq, Structural)]
pub struct UnitVector {
    pub x: u64,
    pub y: u64,
}

} // verus!
