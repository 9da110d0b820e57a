//! A small two-dimensional Newtonian gravity simulation.
//!
//! A [`planet::Planet`] is a point/sphere mass with a name, a position, a
//! velocity, an accumulated force, a mass and a radius. A
//! [`universe::Universe`] owns an ordered collection of planets and advances
//! them in fixed time increments: per-step pairwise force accumulation,
//! semi-implicit Euler integration, inelastic collision merging, and escape
//! pruning.
//!
//! Every scalar is an IEEE-754 binary64 number carried as its `u64` bit
//! pattern; see [`fbits`] for how the arithmetic is modelled.

pub mod fbits;
pub mod physics;
pub mod planet;
pub mod universe;
