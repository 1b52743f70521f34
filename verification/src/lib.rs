//! Core of a divergence-free SPH (DFSPH) pressure solver.
//!
//! The solver advances a particle fluid discretization while enforcing two
//! constraints: per-particle densities stay near a per-fluid rest density,
//! and the SPH velocity divergence stays near zero.  All arithmetic is
//! carried out in saturating fixed-point (scale 10^6), so every formula in
//! the contracts is stated exactly over mathematical integers.

pub mod fixed;
pub mod laws;
pub mod model;
pub mod solver;
pub mod vect;
