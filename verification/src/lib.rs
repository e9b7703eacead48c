//! A verified two-dimensional N-body gravity simulation.
//!
//! The simulation state is held in fixed-point integer coordinates: every
//! position and velocity component is an `i64` number of simulation units,
//! every mass an `i64` number of mass units, and the timestep a positive
//! rational `dt_num / dt_den`.  All arithmetic is carried out exactly in
//! `i128` and rounded with truncating division, so every step of the
//! integrators is a pure, fully specified function of the previous state.
//! A caller that works in physical units chooses the scale of a unit and
//! converts at the boundary.
use vstd::prelude::*;

pub mod domain;
pub mod force;
pub mod laws;
pub mod num;
pub mod sim2d;
pub mod star;
pub mod state;
pub mod threebody;
pub mod vec2;

verus! {

/// Largest magnitude a position or velocity component may have.
pub const LIMIT: i64 = 1_000_000_000;

/// Largest mass of a single body.
pub const MASS_MAX: i64 = 100_000_000;

/// Largest gravitational constant.
pub const G_MAX: i64 = 100_000_000;

/// Largest numerator and denominator of the timestep rational.
pub const DT_MAX: i64 = 1_000_000;

/// Minimum-separation floor: a squared distance below this value is raised
/// to it before the force law divides, so a close pair yields a large but
/// bounded force instead of a division by (nearly) zero.
pub const R2_FLOOR: i64 = 1_000_000;

/// Largest number of bodies a simulation may hold.
pub const BODY_MAX: usize = 4096;

/// Errors reported by constructors and stepping operations.
#[derive(Clone, Copy, Debug, PartialEq, Eq, Structural)]
pub enum SimError {
    /// A configuration parameter (domain extent, gravitational constant,
    /// timestep, body count) lies outside its documented range.
    InvalidConfig,
    /// A body mass is not strictly positive or exceeds `MASS_MAX`.
    InvalidMass,
    /// A computed state component left the representable range
    /// `[-LIMIT, LIMIT]`; the state is left unchanged.
    OutOfRange,
}

} // verus!
