//! The simulation domain and the mapping from simulation space to
//! normalized screen coordinates.
use crate::num::{
    lemma_mul_abs_bound, lemma_mul_ge_one, lemma_tdiv_bound, mul128, s_abs, s_tdiv, tdiv128,
};
use crate::vec2::Vec2;
use crate::{SimError, LIMIT};
use vstd::prelude::*;

verus! {

/// Scale of a returned screen coordinate: the normalized range
/// `[-1, 1]` is reported as `[-DISPLAY_SCALE, DISPLAY_SCALE]`.
pub const DISPLAY_SCALE: i64 = 1_000_000;

/// The rectangular extent of the simulation in simulation units.
///
/// The position `(0, 0)` is the center of the domain and of the screen; the
/// domain extends over `[-width / 2, width / 2]` and
/// `[-height / 2, height / 2]`.  The target screen dimensions (pixels) serve
/// only the aspect-correct coordinate mapping.  Immutable after construction.
#[derive(Clone, Copy, Debug, PartialEq, Eq, Structural)]
pub struct SimulationDomain2D {
    pub width: i64,
    pub height: i64,
    pub target_screen_width: u32,
    pub target_screen_height: u32,
}

impl SimulationDomain2D {
    /// Extents are positive and small enough that every clamped position
    /// stays representable; target screen dimensions are nonzero.
    pub open spec fn wf(self) -> bool {
        &&& 1 <= self.width <= 2 * (LIMIT as int)
        &&& 1 <= self.height <= 2 * (LIMIT as int)
        &&& self.target_screen_width >= 1
        &&& self.target_screen_height >= 1
    }

    /// Validating constructor: rejects empty or oversized extents and a
    /// zero target screen dimension.
    pub fn new(width: i64, height: i64, target_screen_width: u32, target_screen_height: u32) -> (r:
        Result<SimulationDomain2D, SimError>)
        ensures
            r is Ok <==> (SimulationDomain2D {
                width,
                height,
                target_screen_width,
                target_screen_height,
            }).wf(),
            r matches Ok(d) ==> d == (SimulationDomain2D {
                width,
                height,
                target_screen_width,
                target_screen_height,
            }),
            r is Err ==> r == Err::<SimulationDomain2D, SimError>(SimError::InvalidConfig),
    {
        if width < 1 || width > 2 * LIMIT || height < 1 || height > 2 * LIMIT
            || target_screen_width < 1 || target_screen_height < 1 {
            Err(SimError::InvalidConfig)
        } else {
            Ok(SimulationDomain2D { width, height, target_screen_width, target_screen_height })
        }
    }
}

/// Converts a position in simulation space to normalized screen
/// coordinates, or `None` when the position falls outside the frame.
///
/// A coordinate `c` is in frame when `2 * c * target / (extent * actual)`
/// lies in `[-1, 1]`; the comparison is exact (no rounding).  An in-frame
/// coordinate is reported scaled by `DISPLAY_SCALE` and rounded toward
/// zero, so the domain center maps to `(0, 0)` exactly.
pub fn point2d_to_screen_coords(
    pos: Vec2,
    screen_size: (u32, u32),
    sim_domain: &SimulationDomain2D,
) -> (r: Option<(i64, i64)>)
    requires
        sim_domain.wf(),
        screen_size.0 >= 1,
        screen_size.1 >= 1,
    ensures
        ({
            let nx = 2 * pos.x * sim_domain.target_screen_width;
            let ny = 2 * pos.y * sim_domain.target_screen_height;
            let dx = sim_domain.width * screen_size.0;
            let dy = sim_domain.height * screen_size.1;
            &&& (r is Some <==> s_abs(nx) <= dx && s_abs(ny) <= dy)
            &&& (r matches Some(p) ==> p.0 == s_tdiv(nx * DISPLAY_SCALE, dx) && p.1 == s_tdiv(
                ny * DISPLAY_SCALE,
                dy,
            ) && -DISPLAY_SCALE <= p.0 <= DISPLAY_SCALE && -DISPLAY_SCALE <= p.1 <= DISPLAY_SCALE)
        }),
{
    let ghost i64b: int = 0x8000_0000_0000_0000;
    let ghost u32b: int = 0x1_0000_0000;
    let nx = mul128(2 * (pos.x as i128), sim_domain.target_screen_width as i128, Ghost(2 * i64b), Ghost(u32b));
    let ny = mul128(2 * (pos.y as i128), sim_domain.target_screen_height as i128, Ghost(2 * i64b), Ghost(u32b));
    let dx = mul128(sim_domain.width as i128, screen_size.0 as i128, Ghost(i64b), Ghost(u32b));
    let dy = mul128(sim_domain.height as i128, screen_size.1 as i128, Ghost(i64b), Ghost(u32b));
    proof {
        lemma_mul_ge_one(sim_domain.width as int, screen_size.0 as int);
        lemma_mul_ge_one(sim_domain.height as int, screen_size.1 as int);
    }
    if nx > dx || nx < -dx || ny > dy || ny < -dy {
        return None;
    }
    let sxn = mul128(nx, DISPLAY_SCALE as i128, Ghost(2 * i64b * u32b), Ghost(DISPLAY_SCALE as int));
    let syn = mul128(ny, DISPLAY_SCALE as i128, Ghost(2 * i64b * u32b), Ghost(DISPLAY_SCALE as int));
    let sx = tdiv128(sxn, dx);
    let sy = tdiv128(syn, dy);
    proof {
        lemma_mul_abs_bound(nx as int, DISPLAY_SCALE as int, dx as int, DISPLAY_SCALE as int);
        lemma_mul_abs_bound(ny as int, DISPLAY_SCALE as int, dy as int, DISPLAY_SCALE as int);
        lemma_tdiv_bound(sxn as int, dx as int, dx as int, DISPLAY_SCALE as int);
        lemma_tdiv_bound(syn as int, dy as int, dy as int, DISPLAY_SCALE as int);
    }
    Some((sx as i64, sy as i64))
}

} // verus!
