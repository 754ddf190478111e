//! Mathematical objects used by the simulation.

pub mod vector;
