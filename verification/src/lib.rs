//! Core of a small agent-based ant simulation: agents wander a bounded
//! field, pick up food, and steer each other through a shared pheromone
//! grid. Coordinates are fixed-point integers, measured in thousandths of
//! a grid cell, and headings are whole degrees, so every rule of the
//! simulation is stated and checked over plain integer arithmetic.

use vstd::prelude::*;

pub mod ant;
pub mod food;
pub mod ground;
pub mod pheromones;
pub mod trig;

verus! {

/// Positions are fixed-point: this many position units span one grid
/// cell, so a cell index is a position divided by this constant.
pub const MILLIS_PER_CELL: i64 = 1000;

/// Errors that can arise when a simulation is set up. Running ticks never
/// fails; only construction does.
#[derive(Clone, Copy, Debug, PartialEq, Eq, Structural)]
pub enum SetupError {
    /// The pheromone grid was requested with a zero width or height.
    ZeroGridDimension,
    /// The population was requested with no agents in it.
    EmptyPopulation,
}

} // verus!
