//! A light-cycle arena: vehicles move on a bounded plane, leave trails that
//! become permanent obstacles, and die on contact with a wall or a trail.
//!
//! Every quantity is an integer. Positions are measured in half-pixels, so the
//! arena is `ARENA_WIDTH` by `ARENA_HEIGHT` units; boost energy is measured in
//! twelfths of a point, so that one fixed tick (a sixtieth of a second) drains
//! and recharges a whole number of units.
use vstd::prelude::*;

pub mod geometry;
pub mod cycle;
pub mod ai;
pub mod game;
pub mod laws;

verus! {

} // verus!
