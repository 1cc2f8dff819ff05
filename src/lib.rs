//! Decision logic of a Lennard-Jones point-particle simulator: reading the
//! text records that give positions and velocities, choosing which particles
//! act on which, and ordering the steps of a run.

pub mod text;
pub mod number;
pub mod records;
pub mod pairs;
pub mod schedule;
