//! The 2-D galaxy simulation: the state container and the per-body
//! integration schemes (Euler-average, velocity-Verlet, Runge-Kutta).
use crate::domain::SimulationDomain2D;
use crate::force::{all_wf, s_accel_x, s_accel_y, total_gravitational_acceleration};
use crate::num::{lemma_mul_ge_one, lemma_tdiv_abs_le, mul128, s_clamp, s_tdiv, tdiv128};
use crate::star::{Star2D, StarSample};
use crate::vec2::Vec2;
use crate::{SimError, BODY_MAX, DT_MAX, G_MAX, LIMIT, MASS_MAX};
use vstd::prelude::*;

verus! {

/// A value fits the representable component range.
pub open spec fn lim_ok(v: int) -> bool {
    -(LIMIT as int) <= v <= LIMIT as int
}

/// Acceleration of body `b` under the whole set `all` (both components).
pub open spec fn s_accel(g: int, b: Star2D, all: Seq<Star2D>) -> (int, int) {
    (
        s_accel_x(g, b.mass as int, b.position.x as int, b.position.y as int, b.id as int, all),
        s_accel_y(g, b.mass as int, b.position.x as int, b.position.y as int, b.id as int, all),
    )
}

/// Velocity increment of one step: `a * dt`, rounded toward zero.
pub open spec fn s_dv(g: int, b: Star2D, all: Seq<Star2D>, dtn: int, dtd: int) -> (int, int) {
    (s_tdiv(s_accel(g, b, all).0 * dtn, dtd), s_tdiv(s_accel(g, b, all).1 * dtn, dtd))
}

/// Velocity-Verlet position update: `p + v*dt + a*dt^2/2`, each term
/// rounded toward zero, everything read from the pre-step state.
pub open spec fn s_verlet_pos(g: int, b: Star2D, all: Seq<Star2D>, dtn: int, dtd: int) -> (
    int,
    int,
) {
    (
        b.position.x + s_tdiv(b.velocity.x * dtn, dtd) + s_tdiv(
            s_accel(g, b, all).0 * dtn * dtn,
            2 * dtd * dtd,
        ),
        b.position.y + s_tdiv(b.velocity.y * dtn, dtd) + s_tdiv(
            s_accel(g, b, all).1 * dtn * dtn,
            2 * dtd * dtd,
        ),
    )
}

/// Velocity update shared by the Verlet and Euler-average schemes:
/// `v + a*dt`.
pub open spec fn s_next_vel(g: int, b: Star2D, all: Seq<Star2D>, dtn: int, dtd: int) -> (int, int) {
    (b.velocity.x + s_dv(g, b, all, dtn, dtd).0, b.velocity.y + s_dv(g, b, all, dtn, dtd).1)
}

/// Euler-average position update: `p + dt * (v + v') / 2` where
/// `v' = v + a*dt` is the already-rounded new velocity — the average of the
/// old and new velocity, read before the velocity field is replaced.
pub open spec fn s_euler_pos(g: int, b: Star2D, all: Seq<Star2D>, dtn: int, dtd: int) -> (
    int,
    int,
) {
    (
        b.position.x + s_tdiv((2 * b.velocity.x + s_dv(g, b, all, dtn, dtd).0) * dtn, 2 * dtd),
        b.position.y + s_tdiv((2 * b.velocity.y + s_dv(g, b, all, dtn, dtd).1) * dtn, 2 * dtd),
    )
}

/// The Verlet update of one body stays in range.
pub open spec fn s_verlet_star_ok(g: int, b: Star2D, all: Seq<Star2D>, dtn: int, dtd: int) -> bool {
    &&& lim_ok(s_verlet_pos(g, b, all, dtn, dtd).0)
    &&& lim_ok(s_verlet_pos(g, b, all, dtn, dtd).1)
    &&& lim_ok(s_next_vel(g, b, all, dtn, dtd).0)
    &&& lim_ok(s_next_vel(g, b, all, dtn, dtd).1)
}

/// The Verlet update of the whole state stays in range.
pub open spec fn s_verlet_ok(g: int, stars: Seq<Star2D>, dtn: int, dtd: int) -> bool {
    forall|i: int|
        0 <= i < stars.len() ==> s_verlet_star_ok(g, #[trigger] stars[i], stars, dtn, dtd)
}

/// The Euler-average update of one body stays in range.
pub open spec fn s_euler_star_ok(g: int, b: Star2D, all: Seq<Star2D>, dtn: int, dtd: int) -> bool {
    &&& lim_ok(s_euler_pos(g, b, all, dtn, dtd).0)
    &&& lim_ok(s_euler_pos(g, b, all, dtn, dtd).1)
    &&& lim_ok(s_next_vel(g, b, all, dtn, dtd).0)
    &&& lim_ok(s_next_vel(g, b, all, dtn, dtd).1)
}

/// The Euler-average update of the whole state stays in range.
pub open spec fn s_euler_ok(g: int, stars: Seq<Star2D>, dtn: int, dtd: int) -> bool {
    forall|i: int| 0 <= i < stars.len() ==> s_euler_star_ok(g, #[trigger] stars[i], stars, dtn, dtd)
}

/// `nb` is the Verlet successor of `ob` within the pre-step state `all`.
pub open spec fn s_is_verlet_next(
    g: int,
    all: Seq<Star2D>,
    dtn: int,
    dtd: int,
    ob: Star2D,
    nb: Star2D,
) -> bool {
    &&& nb.position.x == s_verlet_pos(g, ob, all, dtn, dtd).0
    &&& nb.position.y == s_verlet_pos(g, ob, all, dtn, dtd).1
    &&& nb.velocity.x == s_next_vel(g, ob, all, dtn, dtd).0
    &&& nb.velocity.y == s_next_vel(g, ob, all, dtn, dtd).1
    &&& nb.id == ob.id
    &&& nb.mass == ob.mass
    &&& nb.luminosity == ob.luminosity
    &&& nb.temperature == ob.temperature
}

/// `nb` is the Euler-average successor of `ob` within `all`.
pub open spec fn s_is_euler_next(
    g: int,
    all: Seq<Star2D>,
    dtn: int,
    dtd: int,
    ob: Star2D,
    nb: Star2D,
) -> bool {
    &&& nb.position.x == s_euler_pos(g, ob, all, dtn, dtd).0
    &&& nb.position.y == s_euler_pos(g, ob, all, dtn, dtd).1
    &&& nb.velocity.x == s_next_vel(g, ob, all, dtn, dtd).0
    &&& nb.velocity.y == s_next_vel(g, ob, all, dtn, dtd).1
    &&& nb.id == ob.id
    &&& nb.mass == ob.mass
    &&& nb.luminosity == ob.luminosity
    &&& nb.temperature == ob.temperature
}

/// Position of the second Runge-Kutta evaluation point:
/// `p + k1_v * dt/2` where `k1_v` is the pre-step velocity.
pub open spec fn s_rk4_p2(b: Star2D, dtn: int, dtd: int) -> (int, int) {
    (
        b.position.x + s_tdiv(b.velocity.x * dtn, 2 * dtd),
        b.position.y + s_tdiv(b.velocity.y * dtn, 2 * dtd),
    )
}

/// Velocity of the second evaluation point: `v + k1_a * dt/2` where `k1_a`
/// is the acceleration at the pre-step state.
pub open spec fn s_rk4_v2(g: int, b: Star2D, all: Seq<Star2D>, dtn: int, dtd: int) -> (int, int) {
    (
        b.velocity.x + s_tdiv(s_accel(g, b, all).0 * dtn, 2 * dtd),
        b.velocity.y + s_tdiv(s_accel(g, b, all).1 * dtn, 2 * dtd),
    )
}

/// Acceleration `k2_a`: evaluated at the second evaluation point, against
/// the unchanged pre-step set of other bodies.
pub open spec fn s_rk4_a2(g: int, b: Star2D, all: Seq<Star2D>, dtn: int, dtd: int) -> (int, int) {
    (
        s_accel_x(
            g,
            b.mass as int,
            s_rk4_p2(b, dtn, dtd).0,
            s_rk4_p2(b, dtn, dtd).1,
            b.id as int,
            all,
        ),
        s_accel_y(
            g,
            b.mass as int,
            s_rk4_p2(b, dtn, dtd).0,
            s_rk4_p2(b, dtn, dtd).1,
            b.id as int,
            all,
        ),
    )
}

/// Position of the third evaluation point: `p + k2_v * dt/2`.
pub open spec fn s_rk4_p3(g: int, b: Star2D, all: Seq<Star2D>, dtn: int, dtd: int) -> (int, int) {
    (
        b.position.x + s_tdiv(s_rk4_v2(g, b, all, dtn, dtd).0 * dtn, 2 * dtd),
        b.position.y + s_tdiv(s_rk4_v2(g, b, all, dtn, dtd).1 * dtn, 2 * dtd),
    )
}

/// Velocity of the third evaluation point: `v + k2_a * dt/2`.
pub open spec fn s_rk4_v3(g: int, b: Star2D, all: Seq<Star2D>, dtn: int, dtd: int) -> (int, int) {
    (
        b.velocity.x + s_tdiv(s_rk4_a2(g, b, all, dtn, dtd).0 * dtn, 2 * dtd),
        b.velocity.y + s_tdiv(s_rk4_a2(g, b, all, dtn, dtd).1 * dtn, 2 * dtd),
    )
}

/// Acceleration `k3_a`, at the third evaluation point.
pub open spec fn s_rk4_a3(g: int, b: Star2D, all: Seq<Star2D>, dtn: int, dtd: int) -> (int, int) {
    (
        s_accel_x(
            g,
            b.mass as int,
            s_rk4_p3(g, b, all, dtn, dtd).0,
            s_rk4_p3(g, b, all, dtn, dtd).1,
            b.id as int,
            all,
        ),
        s_accel_y(
            g,
            b.mass as int,
            s_rk4_p3(g, b, all, dtn, dtd).0,
            s_rk4_p3(g, b, all, dtn, dtd).1,
            b.id as int,
            all,
        ),
    )
}

/// Position of the fourth evaluation point: `p + k3_v * dt`.
pub open spec fn s_rk4_p4(g: int, b: Star2D, all: Seq<Star2D>, dtn: int, dtd: int) -> (int, int) {
    (
        b.position.x + s_tdiv(s_rk4_v3(g, b, all, dtn, dtd).0 * dtn, dtd),
        b.position.y + s_tdiv(s_rk4_v3(g, b, all, dtn, dtd).1 * dtn, dtd),
    )
}

/// Velocity of the fourth evaluation point: `v + k3_a * dt`.
pub open spec fn s_rk4_v4(g: int, b: Star2D, all: Seq<Star2D>, dtn: int, dtd: int) -> (int, int) {
    (
        b.velocity.x + s_tdiv(s_rk4_a3(g, b, all, dtn, dtd).0 * dtn, dtd),
        b.velocity.y + s_tdiv(s_rk4_a3(g, b, all, dtn, dtd).1 * dtn, dtd),
    )
}

/// Acceleration `k4_a`, at the fourth evaluation point.
pub open spec fn s_rk4_a4(g: int, b: Star2D, all: Seq<Star2D>, dtn: int, dtd: int) -> (int, int) {
    (
        s_accel_x(
            g,
            b.mass as int,
            s_rk4_p4(g, b, all, dtn, dtd).0,
            s_rk4_p4(g, b, all, dtn, dtd).1,
            b.id as int,
            all,
        ),
        s_accel_y(
            g,
            b.mass as int,
            s_rk4_p4(g, b, all, dtn, dtd).0,
            s_rk4_p4(g, b, all, dtn, dtd).1,
            b.id as int,
            all,
        ),
    )
}

/// Runge-Kutta position update:
/// `p + (k1_v + 2*k2_v + 2*k3_v + k4_v) * dt/6`.
pub open spec fn s_rk4_pos(g: int, b: Star2D, all: Seq<Star2D>, dtn: int, dtd: int) -> (int, int) {
    (
        b.position.x + s_tdiv(
            (b.velocity.x + 2 * s_rk4_v2(g, b, all, dtn, dtd).0 + 2 * s_rk4_v3(
                g,
                b,
                all,
                dtn,
                dtd,
            ).0 + s_rk4_v4(g, b, all, dtn, dtd).0) * dtn,
            6 * dtd,
        ),
        b.position.y + s_tdiv(
            (b.velocity.y + 2 * s_rk4_v2(g, b, all, dtn, dtd).1 + 2 * s_rk4_v3(
                g,
                b,
                all,
                dtn,
                dtd,
            ).1 + s_rk4_v4(g, b, all, dtn, dtd).1) * dtn,
            6 * dtd,
        ),
    )
}

/// Runge-Kutta velocity update:
/// `v + (k1_a + 2*k2_a + 2*k3_a + k4_a) * dt/6`.
pub open spec fn s_rk4_vel(g: int, b: Star2D, all: Seq<Star2D>, dtn: int, dtd: int) -> (int, int) {
    (
        b.velocity.x + s_tdiv(
            (s_accel(g, b, all).0 + 2 * s_rk4_a2(g, b, all, dtn, dtd).0 + 2 * s_rk4_a3(
                g,
                b,
                all,
                dtn,
                dtd,
            ).0 + s_rk4_a4(g, b, all, dtn, dtd).0) * dtn,
            6 * dtd,
        ),
        b.velocity.y + s_tdiv(
            (s_accel(g, b, all).1 + 2 * s_rk4_a2(g, b, all, dtn, dtd).1 + 2 * s_rk4_a3(
                g,
                b,
                all,
                dtn,
                dtd,
            ).1 + s_rk4_a4(g, b, all, dtn, dtd).1) * dtn,
            6 * dtd,
        ),
    )
}

/// All three synthetic evaluation points and the final update of one body
/// stay in range.
pub open spec fn s_rk4_star_ok(g: int, b: Star2D, all: Seq<Star2D>, dtn: int, dtd: int) -> bool {
    &&& lim_ok(s_rk4_p2(b, dtn, dtd).0)
    &&& lim_ok(s_rk4_p2(b, dtn, dtd).1)
    &&& lim_ok(s_rk4_v2(g, b, all, dtn, dtd).0)
    &&& lim_ok(s_rk4_v2(g, b, all, dtn, dtd).1)
    &&& lim_ok(s_rk4_p3(g, b, all, dtn, dtd).0)
    &&& lim_ok(s_rk4_p3(g, b, all, dtn, dtd).1)
    &&& lim_ok(s_rk4_v3(g, b, all, dtn, dtd).0)
    &&& lim_ok(s_rk4_v3(g, b, all, dtn, dtd).1)
    &&& lim_ok(s_rk4_p4(g, b, all, dtn, dtd).0)
    &&& lim_ok(s_rk4_p4(g, b, all, dtn, dtd).1)
    &&& lim_ok(s_rk4_v4(g, b, all, dtn, dtd).0)
    &&& lim_ok(s_rk4_v4(g, b, all, dtn, dtd).1)
    &&& lim_ok(s_rk4_pos(g, b, all, dtn, dtd).0)
    &&& lim_ok(s_rk4_pos(g, b, all, dtn, dtd).1)
    &&& lim_ok(s_rk4_vel(g, b, all, dtn, dtd).0)
    &&& lim_ok(s_rk4_vel(g, b, all, dtn, dtd).1)
}

/// The Runge-Kutta update of the whole state stays in range.
pub open spec fn s_rk4_ok(g: int, stars: Seq<Star2D>, dtn: int, dtd: int) -> bool {
    forall|i: int| 0 <= i < stars.len() ==> s_rk4_star_ok(g, #[trigger] stars[i], stars, dtn, dtd)
}

/// `nb` is the Runge-Kutta successor of `ob` within `all`.
pub open spec fn s_is_rk4_next(
    g: int,
    all: Seq<Star2D>,
    dtn: int,
    dtd: int,
    ob: Star2D,
    nb: Star2D,
) -> bool {
    &&& nb.position.x == s_rk4_pos(g, ob, all, dtn, dtd).0
    &&& nb.position.y == s_rk4_pos(g, ob, all, dtn, dtd).1
    &&& nb.velocity.x == s_rk4_vel(g, ob, all, dtn, dtd).0
    &&& nb.velocity.y == s_rk4_vel(g, ob, all, dtn, dtd).1
    &&& nb.id == ob.id
    &&& nb.mass == ob.mass
    &&& nb.luminosity == ob.luminosity
    &&& nb.temperature == ob.temperature
}

/// `s` is the star generated from sample `sm` with id `idx`: position
/// clamped to the domain, velocity clamped to the representable range, the
/// sampled mass validated.
pub open spec fn s_is_gen_star(
    sim_domain: SimulationDomain2D,
    idx: int,
    sm: StarSample,
    s: Star2D,
) -> bool {
    &&& s.id == idx
    &&& s.position.x == s_clamp(
        sm.x as int,
        -(sim_domain.width as int / 2),
        sim_domain.width as int / 2,
    )
    &&& s.position.y == s_clamp(
        sm.y as int,
        -(sim_domain.height as int / 2),
        sim_domain.height as int / 2,
    )
    &&& s.velocity.x == s_clamp(sm.vx as int, -(LIMIT as int), LIMIT as int)
    &&& s.velocity.y == s_clamp(sm.vy as int, -(LIMIT as int), LIMIT as int)
    &&& s.mass == sm.mass
    &&& s.luminosity == 1
    &&& s.temperature == 5000
    &&& 0 < sm.mass <= MASS_MAX
}

/// Advances one body by the velocity-Verlet scheme against the pre-step
/// state, or reports that a component left the representable range.
fn verlet_advance_star(g: i64, star: &Star2D, old_stars: &Vec<Star2D>, dtn: i64, dtd: i64) -> (r:
    Result<Star2D, SimError>)
    requires
        1 <= g <= G_MAX,
        star.wf(),
        all_wf(old_stars@),
        old_stars@.len() <= BODY_MAX,
        1 <= dtn <= DT_MAX,
        1 <= dtd <= DT_MAX,
    ensures
        r is Ok <==> s_verlet_star_ok(g as int, *star, old_stars@, dtn as int, dtd as int),
        r matches Ok(s) ==> s_is_verlet_next(g as int, old_stars@, dtn as int, dtd as int, *star, s)
            && s.wf(),
        r is Err ==> r == Err::<Star2D, SimError>(SimError::OutOfRange),
{
    let a = total_gravitational_acceleration(g, star, old_stars);
    let dtn1 = dtn as i128;
    let dtd1 = dtd as i128;
    let ghost accb: int = 2 * (G_MAX as int) * (MASS_MAX as int) * (BODY_MAX as int);
    let adtx = mul128(a.0, dtn1, Ghost(accb), Ghost(DT_MAX as int));
    let adty = mul128(a.1, dtn1, Ghost(accb), Ghost(DT_MAX as int));
    let dvx = tdiv128(adtx, dtd1);
    let dvy = tdiv128(adty, dtd1);
    let adt2x = mul128(adtx, dtn1, Ghost(accb * (DT_MAX as int)), Ghost(DT_MAX as int));
    let adt2y = mul128(adty, dtn1, Ghost(accb * (DT_MAX as int)), Ghost(DT_MAX as int));
    let den2 = 2 * mul128(dtd1, dtd1, Ghost(DT_MAX as int), Ghost(DT_MAX as int));
    proof {
        lemma_mul_ge_one(dtd as int, dtd as int);
        assert(den2 as int == 2 * (dtd as int) * (dtd as int)) by (nonlinear_arith)
            requires
                den2 as int == 2 * ((dtd as int) * (dtd as int)),
        ;
        lemma_tdiv_abs_le(adtx as int, dtd as int);
        lemma_tdiv_abs_le(adty as int, dtd as int);
        lemma_tdiv_abs_le(adt2x as int, den2 as int);
        lemma_tdiv_abs_le(adt2y as int, den2 as int);
    }
    let vdtx = mul128(star.velocity.x as i128, dtn1, Ghost(LIMIT as int), Ghost(DT_MAX as int));
    let vdty = mul128(star.velocity.y as i128, dtn1, Ghost(LIMIT as int), Ghost(DT_MAX as int));
    proof {
        lemma_tdiv_abs_le(vdtx as int, dtd as int);
        lemma_tdiv_abs_le(vdty as int, dtd as int);
    }
    let px = (star.position.x as i128) + tdiv128(vdtx, dtd1) + tdiv128(adt2x, den2);
    let py = (star.position.y as i128) + tdiv128(vdty, dtd1) + tdiv128(adt2y, den2);
    let vx = (star.velocity.x as i128) + dvx;
    let vy = (star.velocity.y as i128) + dvy;
    let lim = LIMIT as i128;
    if px < -lim || px > lim || py < -lim || py > lim || vx < -lim || vx > lim || vy < -lim || vy
        > lim {
        return Err(SimError::OutOfRange);
    }
    Ok(
        Star2D {
            position: Vec2::new(px as i64, py as i64),
            velocity: Vec2::new(vx as i64, vy as i64),
            ..*star
        },
    )
}

/// Advances one body by the Euler-average scheme: the new velocity is
/// computed first, but the position update reads the average of the old
/// and new velocity, so the order of reads matches the scheme exactly.
fn euler_advance_star(g: i64, star: &Star2D, old_stars: &Vec<Star2D>, dtn: i64, dtd: i64) -> (r:
    Result<Star2D, SimError>)
    requires
        1 <= g <= G_MAX,
        star.wf(),
        all_wf(old_stars@),
        old_stars@.len() <= BODY_MAX,
        1 <= dtn <= DT_MAX,
        1 <= dtd <= DT_MAX,
    ensures
        r is Ok <==> s_euler_star_ok(g as int, *star, old_stars@, dtn as int, dtd as int),
        r matches Ok(s) ==> s_is_euler_next(g as int, old_stars@, dtn as int, dtd as int, *star, s)
            && s.wf(),
        r is Err ==> r == Err::<Star2D, SimError>(SimError::OutOfRange),
{
    let a = total_gravitational_acceleration(g, star, old_stars);
    let dtn1 = dtn as i128;
    let dtd1 = dtd as i128;
    let ghost accb: int = 2 * (G_MAX as int) * (MASS_MAX as int) * (BODY_MAX as int);
    let adtx = mul128(a.0, dtn1, Ghost(accb), Ghost(DT_MAX as int));
    let adty = mul128(a.1, dtn1, Ghost(accb), Ghost(DT_MAX as int));
    let dvx = tdiv128(adtx, dtd1);
    let dvy = tdiv128(adty, dtd1);
    proof {
        lemma_tdiv_abs_le(adtx as int, dtd as int);
        lemma_tdiv_abs_le(adty as int, dtd as int);
    }
    let avgx = mul128(
        2 * (star.velocity.x as i128) + dvx,
        dtn1,
        Ghost(accb * (DT_MAX as int) + 2 * (LIMIT as int)),
        Ghost(DT_MAX as int),
    );
    let avgy = mul128(
        2 * (star.velocity.y as i128) + dvy,
        dtn1,
        Ghost(accb * (DT_MAX as int) + 2 * (LIMIT as int)),
        Ghost(DT_MAX as int),
    );
    proof {
        lemma_tdiv_abs_le(avgx as int, 2 * (dtd as int));
        lemma_tdiv_abs_le(avgy as int, 2 * (dtd as int));
    }
    let px = (star.position.x as i128) + tdiv128(avgx, 2 * dtd1);
    let py = (star.position.y as i128) + tdiv128(avgy, 2 * dtd1);
    let vx = (star.velocity.x as i128) + dvx;
    let vy = (star.velocity.y as i128) + dvy;
    let lim = LIMIT as i128;
    if px < -lim || px > lim || py < -lim || py > lim || vx < -lim || vx > lim || vy < -lim || vy
        > lim {
        return Err(SimError::OutOfRange);
    }
    Ok(
        Star2D {
            position: Vec2::new(px as i64, py as i64),
            velocity: Vec2::new(vx as i64, vy as i64),
            ..*star
        },
    )
}

/// Advances one body by the 4th-order Runge-Kutta scheme.  The four
/// derivative evaluations each perform a full force sweep against the
/// pre-step set (four times the cost of the one-sweep schemes, for the
/// higher order), with the moving body placed at a synthetic evaluation
/// point built as an immutable copy of the pre-step body with position and
/// velocity overridden.  An evaluation point or final update that leaves
/// the representable range is reported as `OutOfRange`.
fn rk4_advance_star(g: i64, star: &Star2D, old_stars: &Vec<Star2D>, dtn: i64, dtd: i64) -> (r:
    Result<Star2D, SimError>)
    requires
        1 <= g <= G_MAX,
        star.wf(),
        all_wf(old_stars@),
        old_stars@.len() <= BODY_MAX,
        1 <= dtn <= DT_MAX,
        1 <= dtd <= DT_MAX,
    ensures
        r is Ok <==> s_rk4_star_ok(g as int, *star, old_stars@, dtn as int, dtd as int),
        r matches Ok(s) ==> s_is_rk4_next(g as int, old_stars@, dtn as int, dtd as int, *star, s)
            && s.wf(),
        r is Err ==> r == Err::<Star2D, SimError>(SimError::OutOfRange),
{
    let dtn1 = dtn as i128;
    let dtd1 = dtd as i128;
    let den2 = 2 * dtd1;
    let den6 = 6 * dtd1;
    let lim = LIMIT as i128;
    let ghost accb: int = 2 * (G_MAX as int) * (MASS_MAX as int) * (BODY_MAX as int);
    let a1 = total_gravitational_acceleration(g, star, old_stars);
    let p2x = (star.position.x as i128) + tdiv128(
        mul128(star.velocity.x as i128, dtn1, Ghost(LIMIT as int), Ghost(DT_MAX as int)),
        den2,
    );
    let p2y = (star.position.y as i128) + tdiv128(
        mul128(star.velocity.y as i128, dtn1, Ghost(LIMIT as int), Ghost(DT_MAX as int)),
        den2,
    );
    let v2x = (star.velocity.x as i128) + tdiv128(
        mul128(a1.0, dtn1, Ghost(accb), Ghost(DT_MAX as int)),
        den2,
    );
    let v2y = (star.velocity.y as i128) + tdiv128(
        mul128(a1.1, dtn1, Ghost(accb), Ghost(DT_MAX as int)),
        den2,
    );
    if p2x < -lim || p2x > lim || p2y < -lim || p2y > lim || v2x < -lim || v2x > lim || v2y < -lim
        || v2y > lim {
        return Err(SimError::OutOfRange);
    }
    let star_k2 = Star2D {
        position: Vec2::new(p2x as i64, p2y as i64),
        velocity: Vec2::new(v2x as i64, v2y as i64),
        ..*star
    };
    let a2 = total_gravitational_acceleration(g, &star_k2, old_stars);
    let p3x = (star.position.x as i128) + tdiv128(
        mul128(v2x, dtn1, Ghost(LIMIT as int), Ghost(DT_MAX as int)),
        den2,
    );
    let p3y = (star.position.y as i128) + tdiv128(
        mul128(v2y, dtn1, Ghost(LIMIT as int), Ghost(DT_MAX as int)),
        den2,
    );
    let v3x = (star.velocity.x as i128) + tdiv128(
        mul128(a2.0, dtn1, Ghost(accb), Ghost(DT_MAX as int)),
        den2,
    );
    let v3y = (star.velocity.y as i128) + tdiv128(
        mul128(a2.1, dtn1, Ghost(accb), Ghost(DT_MAX as int)),
        den2,
    );
    if p3x < -lim || p3x > lim || p3y < -lim || p3y > lim || v3x < -lim || v3x > lim || v3y < -lim
        || v3y > lim {
        return Err(SimError::OutOfRange);
    }
    let star_k3 = Star2D {
        position: Vec2::new(p3x as i64, p3y as i64),
        velocity: Vec2::new(v3x as i64, v3y as i64),
        ..*star
    };
    let a3 = total_gravitational_acceleration(g, &star_k3, old_stars);
    let p4x = (star.position.x as i128) + tdiv128(
        mul128(v3x, dtn1, Ghost(LIMIT as int), Ghost(DT_MAX as int)),
        dtd1,
    );
    let p4y = (star.position.y as i128) + tdiv128(
        mul128(v3y, dtn1, Ghost(LIMIT as int), Ghost(DT_MAX as int)),
        dtd1,
    );
    let v4x = (star.velocity.x as i128) + tdiv128(
        mul128(a3.0, dtn1, Ghost(accb), Ghost(DT_MAX as int)),
        dtd1,
    );
    let v4y = (star.velocity.y as i128) + tdiv128(
        mul128(a3.1, dtn1, Ghost(accb), Ghost(DT_MAX as int)),
        dtd1,
    );
    if p4x < -lim || p4x > lim || p4y < -lim || p4y > lim || v4x < -lim || v4x > lim || v4y < -lim
        || v4y > lim {
        return Err(SimError::OutOfRange);
    }
    let star_k4 = Star2D {
        position: Vec2::new(p4x as i64, p4y as i64),
        velocity: Vec2::new(v4x as i64, v4y as i64),
        ..*star
    };
    let a4 = total_gravitational_acceleration(g, &star_k4, old_stars);
    let sum_vx = (star.velocity.x as i128) + 2 * v2x + 2 * v3x + v4x;
    let sum_vy = (star.velocity.y as i128) + 2 * v2y + 2 * v3y + v4y;
    let sum_ax = a1.0 + 2 * a2.0 + 2 * a3.0 + a4.0;
    let sum_ay = a1.1 + 2 * a2.1 + 2 * a3.1 + a4.1;
    let npx = (star.position.x as i128) + tdiv128(
        mul128(sum_vx, dtn1, Ghost(6 * (LIMIT as int)), Ghost(DT_MAX as int)),
        den6,
    );
    let npy = (star.position.y as i128) + tdiv128(
        mul128(sum_vy, dtn1, Ghost(6 * (LIMIT as int)), Ghost(DT_MAX as int)),
        den6,
    );
    let nvx = (star.velocity.x as i128) + tdiv128(
        mul128(sum_ax, dtn1, Ghost(6 * accb), Ghost(DT_MAX as int)),
        den6,
    );
    let nvy = (star.velocity.y as i128) + tdiv128(
        mul128(sum_ay, dtn1, Ghost(6 * accb), Ghost(DT_MAX as int)),
        den6,
    );
    if npx < -lim || npx > lim || npy < -lim || npy > lim || nvx < -lim || nvx > lim || nvy < -lim
        || nvy > lim {
        return Err(SimError::OutOfRange);
    }
    Ok(
        Star2D {
            position: Vec2::new(npx as i64, npy as i64),
            velocity: Vec2::new(nvx as i64, nvy as i64),
            ..*star
        },
    )
}

/// A two-dimensional simulation: the domain, the owned set of bodies, and
/// the explicit configuration (gravitational constant and timestep),
/// accepted as parameters rather than embedded as global constants.
pub struct Simulation2D {
    pub sim_domain: SimulationDomain2D,
    /// The bodies, in creation order; read through `get_stars`.
    pub stars: Vec<Star2D>,
    /// Completed steps, maintained by the driver; the elapsed simulated
    /// time is this count times the timestep.
    pub time: u64,
    /// Gravitational constant in simulation units, in `[1, G_MAX]`.
    pub g: i64,
    /// Timestep numerator, in `[1, DT_MAX]`.
    pub dt_num: i64,
    /// Timestep denominator, in `[1, DT_MAX]`.
    pub dt_den: i64,
}

impl Simulation2D {
    /// Configuration is in range and every body is well formed.
    pub open spec fn wf(self) -> bool {
        &&& self.sim_domain.wf()
        &&& 1 <= self.g <= G_MAX
        &&& 1 <= self.dt_num <= DT_MAX
        &&& 1 <= self.dt_den <= DT_MAX
        &&& 1 <= self.stars@.len() <= BODY_MAX
        &&& all_wf(self.stars@)
    }

    /// Validating constructor over an explicit body list: rejects an
    /// out-of-range configuration, an empty or oversized body list, and
    /// any body that is not well formed.
    pub fn new(
        sim_domain: SimulationDomain2D,
        g: i64,
        dt_num: i64,
        dt_den: i64,
        stars: Vec<Star2D>,
    ) -> (r: Result<Simulation2D, SimError>)
        ensures
            r is Ok <==> (sim_domain.wf() && 1 <= g <= G_MAX && 1 <= dt_num <= DT_MAX && 1 <= dt_den
                <= DT_MAX && 1 <= stars@.len() <= BODY_MAX && all_wf(stars@)),
            r matches Ok(sim) ==> sim == (Simulation2D {
                sim_domain,
                stars,
                time: 0u64,
                g,
                dt_num,
                dt_den,
            }) && sim.wf(),
            r is Err ==> r == Err::<Simulation2D, SimError>(SimError::InvalidConfig),
    {
        let domain_ok = sim_domain.width >= 1 && sim_domain.width <= 2 * LIMIT
            && sim_domain.height >= 1 && sim_domain.height <= 2 * LIMIT
            && sim_domain.target_screen_width >= 1 && sim_domain.target_screen_height >= 1;
        if !domain_ok || g < 1 || g > G_MAX || dt_num < 1 || dt_num > DT_MAX || dt_den < 1 || dt_den
            > DT_MAX || stars.len() < 1 || stars.len() > BODY_MAX {
            return Err(SimError::InvalidConfig);
        }
        let n = stars.len();
        let mut i: usize = 0;
        while i < n
            invariant
                i <= n,
                n == stars@.len(),
                forall|k: int| 0 <= k < i ==> (#[trigger] stars@[k]).wf(),
            decreases n - i,
        {
            let s = &stars[i];
            if s.mass < 1 || s.mass > MASS_MAX || s.position.x < -LIMIT || s.position.x > LIMIT
                || s.position.y < -LIMIT || s.position.y > LIMIT || s.velocity.x < -LIMIT
                || s.velocity.x > LIMIT || s.velocity.y < -LIMIT || s.velocity.y > LIMIT {
                return Err(SimError::InvalidConfig);
            }
            i = i + 1;
        }
        Ok(Simulation2D { sim_domain, stars, time: 0, g, dt_num, dt_den })
    }

    /// Builds a simulation from sampled initial conditions: one fixed,
    /// non-luminous anchor of mass `anchor_mass` at the origin with id 0,
    /// plus one star per sample with ids counted from 1, positions clamped
    /// to the domain.
    pub fn gen_simulation_2d(
        sim_domain: SimulationDomain2D,
        g: i64,
        dt_num: i64,
        dt_den: i64,
        anchor_mass: i64,
        samples: Vec<StarSample>,
    ) -> (r: Result<Simulation2D, SimError>)
        ensures
            r is Ok <==> (sim_domain.wf() && 1 <= g <= G_MAX && 1 <= dt_num <= DT_MAX && 1 <= dt_den
                <= DT_MAX && 0 < anchor_mass <= MASS_MAX && samples@.len() + 1 <= BODY_MAX && (
            forall|i: int| 0 <= i < samples@.len() ==> 0 < (#[trigger] samples@[i]).mass
                <= MASS_MAX)),
            r matches Ok(sim) ==> {
                &&& sim.wf()
                &&& sim.sim_domain == sim_domain
                &&& sim.g == g
                &&& sim.dt_num == dt_num
                &&& sim.dt_den == dt_den
                &&& sim.time == 0
                &&& sim.stars@.len() == samples@.len() + 1
                &&& sim.stars@[0] == (Star2D {
                    id: 0u64,
                    position: Vec2 { x: 0i64, y: 0i64 },
                    velocity: Vec2 { x: 0i64, y: 0i64 },
                    mass: anchor_mass,
                    luminosity: 0u64,
                    temperature: 0u32,
                })
                &&& forall|i: int|
                    0 <= i < samples@.len() ==> s_is_gen_star(
                        sim_domain,
                        i + 1,
                        #[trigger] samples@[i],
                        sim.stars@[i + 1],
                    )
            },
            r is Err ==> (r == Err::<Simulation2D, SimError>(SimError::InvalidConfig) || r == Err::<
                Simulation2D,
                SimError,
            >(SimError::InvalidMass)),
    {
        let domain_ok = sim_domain.width >= 1 && sim_domain.width <= 2 * LIMIT
            && sim_domain.height >= 1 && sim_domain.height <= 2 * LIMIT
            && sim_domain.target_screen_width >= 1 && sim_domain.target_screen_height >= 1;
        if !domain_ok || g < 1 || g > G_MAX || dt_num < 1 || dt_num > DT_MAX || dt_den < 1 || dt_den
            > DT_MAX || anchor_mass < 1 || anchor_mass > MASS_MAX || samples.len() > BODY_MAX - 1 {
            return Err(SimError::InvalidConfig);
        }
        let anchor = Star2D {
            id: 0,
            position: Vec2::new(0, 0),
            velocity: Vec2::new(0, 0),
            mass: anchor_mass,
            luminosity: 0,
            temperature: 0,
        };
        let mut stars: Vec<Star2D> = Vec::new();
        stars.push(anchor);
        let n = samples.len();
        let mut i: usize = 0;
        while i < n
            invariant
                i <= n,
                n == samples@.len(),
                n + 1 <= BODY_MAX,
                sim_domain.wf(),
                stars@.len() == i + 1,
                stars@[0] == anchor,
                anchor.wf(),
                0 < anchor_mass <= MASS_MAX,
                all_wf(stars@),
                forall|k: int|
                    0 <= k < i ==> s_is_gen_star(
                        sim_domain,
                        k + 1,
                        #[trigger] samples@[k],
                        stars@[k + 1],
                    ),
            decreases n - i,
        {
            let sample = stars_sample_at(&samples, i);
            match Star2D::new_random_star_2d(&sim_domain, (i + 1) as u64, sample) {
                Ok(s) => {
                    let ghost prev = stars@;
                    stars.push(s);
                    proof {
                        assert(stars@ == prev.push(s));
                        assert(s_is_gen_star(sim_domain, i + 1, samples@[i as int], s));
                        assert forall|k: int| 0 <= k < i + 1 implies s_is_gen_star(
                            sim_domain,
                            k + 1,
                            #[trigger] samples@[k],
                            stars@[k + 1],
                        ) by {
                            if k < i {
                                assert(stars@[k + 1] == prev[k + 1]);
                            } else {
                                assert(stars@[k + 1] == s);
                            }
                        }
                    }
                },
                Err(e) => {
                    return Err(e);
                },
            }
            i = i + 1;
        }
        Ok(Simulation2D { sim_domain, stars, time: 0, g, dt_num, dt_den })
    }

    /// Read-only snapshot accessor for the rendering collaborator: the
    /// current, fully consistent body list.
    pub fn get_stars(&self) -> (r: &Vec<Star2D>)
        ensures
            r@ == self.stars@,
    {
        &self.stars
    }

    /// Advances the whole state by one velocity-Verlet step, building the
    /// next buffer from the pre-step buffer so no body ever reads a
    /// partially updated neighbour.  On any out-of-range component the
    /// state is left unchanged and `OutOfRange` is reported.
    #[verifier::loop_isolation(false)]
    pub fn step(&mut self) -> (r: Result<(), SimError>)
        requires
            old(self).wf(),
        ensures
            final(self).wf(),
            final(self).sim_domain == old(self).sim_domain,
            final(self).g == old(self).g,
            final(self).dt_num == old(self).dt_num,
            final(self).dt_den == old(self).dt_den,
            final(self).time == old(self).time,
            r is Ok <==> s_verlet_ok(
                old(self).g as int,
                old(self).stars@,
                old(self).dt_num as int,
                old(self).dt_den as int,
            ),
            r is Ok ==> final(self).stars@.len() == old(self).stars@.len() && (forall|i: int|
                0 <= i < old(self).stars@.len() ==> s_is_verlet_next(
                    old(self).g as int,
                    old(self).stars@,
                    old(self).dt_num as int,
                    old(self).dt_den as int,
                    #[trigger] old(self).stars@[i],
                    final(self).stars@[i],
                )),
            r is Err ==> *final(self) == *old(self) && r == Err::<(), SimError>(SimError::OutOfRange),
    {
        let n = self.stars.len();
        let mut new_stars: Vec<Star2D> = Vec::new();
        let mut i: usize = 0;
        while i < n
            invariant
                i <= n,
                new_stars@.len() == i,
                all_wf(new_stars@),
                forall|k: int|
                    0 <= k < i ==> s_is_verlet_next(
                        self.g as int,
                        self.stars@,
                        self.dt_num as int,
                        self.dt_den as int,
                        #[trigger] self.stars@[k],
                        new_stars@[k],
                    ) && s_verlet_star_ok(
                        self.g as int,
                        self.stars@[k],
                        self.stars@,
                        self.dt_num as int,
                        self.dt_den as int,
                    ),
            decreases n - i,
        {
            match verlet_advance_star(self.g, &self.stars[i], &self.stars, self.dt_num, self.dt_den) {
                Ok(ns) => {
                    new_stars.push(ns);
                },
                Err(e) => {
                    proof {
                        assert(!s_verlet_star_ok(
                            self.g as int,
                            self.stars@[i as int],
                            self.stars@,
                            self.dt_num as int,
                            self.dt_den as int,
                        ));
                    }
                    return Err(e);
                },
            }
            i = i + 1;
        }
        self.stars = new_stars;
        Ok(())
    }

    /// Advances the whole state by one Euler-average step: acceleration
    /// from the pre-step set, position from the average of the old and new
    /// velocity, then the velocity replaced.
    #[verifier::loop_isolation(false)]
    pub fn step_euler_average(&mut self) -> (r: Result<(), SimError>)
        requires
            old(self).wf(),
        ensures
            final(self).wf(),
            final(self).sim_domain == old(self).sim_domain,
            final(self).g == old(self).g,
            final(self).dt_num == old(self).dt_num,
            final(self).dt_den == old(self).dt_den,
            final(self).time == old(self).time,
            r is Ok <==> s_euler_ok(
                old(self).g as int,
                old(self).stars@,
                old(self).dt_num as int,
                old(self).dt_den as int,
            ),
            r is Ok ==> final(self).stars@.len() == old(self).stars@.len() && (forall|i: int|
                0 <= i < old(self).stars@.len() ==> s_is_euler_next(
                    old(self).g as int,
                    old(self).stars@,
                    old(self).dt_num as int,
                    old(self).dt_den as int,
                    #[trigger] old(self).stars@[i],
                    final(self).stars@[i],
                )),
            r is Err ==> *final(self) == *old(self) && r == Err::<(), SimError>(SimError::OutOfRange),
    {
        let n = self.stars.len();
        let mut new_stars: Vec<Star2D> = Vec::new();
        let mut i: usize = 0;
        while i < n
            invariant
                i <= n,
                new_stars@.len() == i,
                all_wf(new_stars@),
                forall|k: int|
                    0 <= k < i ==> s_is_euler_next(
                        self.g as int,
                        self.stars@,
                        self.dt_num as int,
                        self.dt_den as int,
                        #[trigger] self.stars@[k],
                        new_stars@[k],
                    ) && s_euler_star_ok(
                        self.g as int,
                        self.stars@[k],
                        self.stars@,
                        self.dt_num as int,
                        self.dt_den as int,
                    ),
            decreases n - i,
        {
            match euler_advance_star(self.g, &self.stars[i], &self.stars, self.dt_num, self.dt_den) {
                Ok(ns) => {
                    new_stars.push(ns);
                },
                Err(e) => {
                    proof {
                        assert(!s_euler_star_ok(
                            self.g as int,
                            self.stars@[i as int],
                            self.stars@,
                            self.dt_num as int,
                            self.dt_den as int,
                        ));
                    }
                    return Err(e);
                },
            }
            i = i + 1;
        }
        self.stars = new_stars;
        Ok(())
    }

    /// Advances the whole state by one 4th-order Runge-Kutta step: four
    /// derivative evaluations per body, each a full force sweep against
    /// the pre-step buffer, blended `(k1 + 2*k2 + 2*k3 + k4) / 6`.  On any
    /// out-of-range evaluation point or update the state is left unchanged
    /// and `OutOfRange` is reported.
    #[verifier::loop_isolation(false)]
    pub fn step_rk4(&mut self) -> (r: Result<(), SimError>)
        requires
            old(self).wf(),
        ensures
            final(self).wf(),
            final(self).sim_domain == old(self).sim_domain,
            final(self).g == old(self).g,
            final(self).dt_num == old(self).dt_num,
            final(self).dt_den == old(self).dt_den,
            final(self).time == old(self).time,
            r is Ok <==> s_rk4_ok(
                old(self).g as int,
                old(self).stars@,
                old(self).dt_num as int,
                old(self).dt_den as int,
            ),
            r is Ok ==> final(self).stars@.len() == old(self).stars@.len() && (forall|i: int|
                0 <= i < old(self).stars@.len() ==> s_is_rk4_next(
                    old(self).g as int,
                    old(self).stars@,
                    old(self).dt_num as int,
                    old(self).dt_den as int,
                    #[trigger] old(self).stars@[i],
                    final(self).stars@[i],
                )),
            r is Err ==> *final(self) == *old(self) && r == Err::<(), SimError>(
                SimError::OutOfRange,
            ),
    {
        let n = self.stars.len();
        let mut new_stars: Vec<Star2D> = Vec::new();
        let mut i: usize = 0;
        while i < n
            invariant
                i <= n,
                new_stars@.len() == i,
                all_wf(new_stars@),
                forall|k: int|
                    0 <= k < i ==> s_is_rk4_next(
                        self.g as int,
                        self.stars@,
                        self.dt_num as int,
                        self.dt_den as int,
                        #[trigger] self.stars@[k],
                        new_stars@[k],
                    ) && s_rk4_star_ok(
                        self.g as int,
                        self.stars@[k],
                        self.stars@,
                        self.dt_num as int,
                        self.dt_den as int,
                    ),
            decreases n - i,
        {
            match rk4_advance_star(self.g, &self.stars[i], &self.stars, self.dt_num, self.dt_den) {
                Ok(ns) => {
                    new_stars.push(ns);
                },
                Err(e) => {
                    proof {
                        assert(!s_rk4_star_ok(
                            self.g as int,
                            self.stars@[i as int],
                            self.stars@,
                            self.dt_num as int,
                            self.dt_den as int,
                        ));
                    }
                    return Err(e);
                },
            }
            i = i + 1;
        }
        self.stars = new_stars;
        Ok(())
    }
}

/// Reads one sample out of the vector (kept separate so the borrow of the
/// samples does not overlap the star construction).
fn stars_sample_at(samples: &Vec<StarSample>, i: usize) -> (r: StarSample)
    requires
        i < samples@.len(),
    ensures
        r == samples@[i as int],
{
    samples[i]
}

} // verus!
