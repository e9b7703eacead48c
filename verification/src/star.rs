//! The celestial-object record and its construction from sampled initial
//! conditions.
use crate::domain::SimulationDomain2D;
use crate::num::{clamp64, s_clamp};
use crate::vec2::Vec2;
use crate::{SimError, LIMIT, MASS_MAX};
use vstd::prelude::*;

verus! {

/// A celestial object: a point mass with position and velocity, plus
/// display attributes that the physics never reads.
#[derive(Clone, Copy, Debug, PartialEq, Eq, Structural)]
pub struct Star2D {
    /// Stable identity, assigned once at creation.  Pairwise iteration
    /// skips the self-pair by comparing ids, never positions, since two
    /// distinct bodies may legitimately share a position.
    pub id: u64,
    /// Position, in simulation units.
    pub position: Vec2,
    /// Velocity, in simulation units per time unit.
    pub velocity: Vec2,
    /// Mass, in mass units; strictly positive.
    pub mass: i64,
    /// Brightness relative to the sun; `0` marks a non-luminous body.
    pub luminosity: u64,
    /// Surface temperature in kelvin; unused when luminosity is `0`.
    pub temperature: u32,
}

/// Raw sampled initial conditions for one star, in simulation units.
/// The caller draws these from whatever distribution it wants (the
/// front end uses a normal distribution centered on the domain); the
/// constructor clamps positions to the domain and validates the mass.
#[derive(Clone, Copy, Debug, PartialEq, Eq, Structural)]
pub struct StarSample {
    pub x: i64,
    pub y: i64,
    pub vx: i64,
    pub vy: i64,
    pub mass: i64,
}

impl Star2D {
    /// The mass is positive and bounded and both vectors are representable.
    pub open spec fn wf(self) -> bool {
        &&& 0 < self.mass <= MASS_MAX
        &&& self.position.in_lim()
        &&& self.velocity.in_lim()
    }

    /// Builds a star from sampled initial conditions: the position is
    /// clamped to the domain extents, the velocity to the representable
    /// range, and a mass outside `(0, MASS_MAX]` is rejected.
    pub fn new_random_star_2d(sim_domain: &SimulationDomain2D, id: u64, sample: StarSample) -> (r:
        Result<Star2D, SimError>)
        requires
            sim_domain.wf(),
        ensures
            r is Ok <==> 0 < sample.mass <= MASS_MAX,
            r matches Ok(s) ==> {
                &&& s.id == id
                &&& s.position.x == s_clamp(
                    sample.x as int,
                    -(sim_domain.width as int / 2),
                    sim_domain.width as int / 2,
                )
                &&& s.position.y == s_clamp(
                    sample.y as int,
                    -(sim_domain.height as int / 2),
                    sim_domain.height as int / 2,
                )
                &&& s.velocity.x == s_clamp(sample.vx as int, -LIMIT as int, LIMIT as int)
                &&& s.velocity.y == s_clamp(sample.vy as int, -LIMIT as int, LIMIT as int)
                &&& s.mass == sample.mass
                &&& s.luminosity == 1
                &&& s.temperature == 5000
                &&& s.wf()
            },
            r is Err ==> r == Err::<Star2D, SimError>(SimError::InvalidMass),
    {
        if sample.mass < 1 || sample.mass > MASS_MAX {
            return Err(SimError::InvalidMass);
        }
        let half_w = sim_domain.width / 2;
        let half_h = sim_domain.height / 2;
        let x = clamp64(sample.x, -half_w, half_w);
        let y = clamp64(sample.y, -half_h, half_h);
        let vx = clamp64(sample.vx, -LIMIT, LIMIT);
        let vy = clamp64(sample.vy, -LIMIT, LIMIT);
        Ok(
            Star2D {
                id,
                position: Vec2::new(x, y),
                velocity: Vec2::new(vx, vy),
                mass: sample.mass,
                luminosity: 1,
                temperature: 5000,
            },
        )
    }
}

} // verus!
