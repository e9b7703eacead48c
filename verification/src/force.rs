//! The pairwise gravitational force law and the summed acceleration of one
//! body under all others.
use crate::num::{
    isqrt128, lemma_isqrt_lower, lemma_mul_abs_bound, lemma_tdiv_basics, lemma_tdiv_bound, mul128,
    s_abs, s_isqrt, s_max, s_tdiv, tdiv128,
};
use crate::star::Star2D;
use crate::vec2::Vec2;
use crate::{BODY_MAX, G_MAX, LIMIT, MASS_MAX, R2_FLOOR};
use vstd::prelude::*;

verus! {

/// Every star of the sequence is well formed.
pub open spec fn all_wf(stars: Seq<Star2D>) -> bool {
    forall|i: int| 0 <= i < stars.len() ==> (#[trigger] stars[i]).wf()
}

/// Squared distance between two points.
pub open spec fn s_r2(p1x: int, p1y: int, p2x: int, p2y: int) -> int {
    (p2x - p1x) * (p2x - p1x) + (p2y - p1y) * (p2y - p1y)
}

/// The denominator of the force law: the squared distance, raised to the
/// minimum-separation floor `R2_FLOOR`, times its own square root — so the
/// quotient is the inverse-square magnitude projected on one axis.
pub open spec fn s_force_den(r2: int) -> int {
    s_max(r2, R2_FLOOR as int) * s_isqrt(s_max(r2, R2_FLOOR as int))
}

/// The x component of the gravitational force exerted on a body of mass
/// `m1` at `(p1x, p1y)` by a body of mass `m2` at `(p2x, p2y)`:
/// `g * m1 * m2 * (p2x - p1x) / (r2 * r)`, rounded toward zero.
pub open spec fn s_force_x(g: int, m1: int, m2: int, p1x: int, p1y: int, p2x: int, p2y: int) -> int {
    s_tdiv(g * m1 * m2 * (p2x - p1x), s_force_den(s_r2(p1x, p1y, p2x, p2y)))
}

/// The y component of the same force.
pub open spec fn s_force_y(g: int, m1: int, m2: int, p1x: int, p1y: int, p2x: int, p2y: int) -> int {
    s_tdiv(g * m1 * m2 * (p2y - p1y), s_force_den(s_r2(p1x, p1y, p2x, p2y)))
}

/// Total force on a body of mass `m` at `(px, py)` with identity `id`,
/// summed over a sequence of sources; a source whose id equals `id` is
/// skipped (a body exerts no force on itself).
pub open spec fn s_total_force_x(
    g: int,
    m: int,
    px: int,
    py: int,
    id: int,
    others: Seq<Star2D>,
) -> int
    decreases others.len(),
{
    if others.len() == 0 {
        0
    } else {
        s_total_force_x(g, m, px, py, id, others.drop_last()) + {
            let o = others.last();
            if o.id == id {
                0
            } else {
                s_force_x(g, m, o.mass as int, px, py, o.position.x as int, o.position.y as int)
            }
        }
    }
}

/// The y component of the total force.
pub open spec fn s_total_force_y(
    g: int,
    m: int,
    px: int,
    py: int,
    id: int,
    others: Seq<Star2D>,
) -> int
    decreases others.len(),
{
    if others.len() == 0 {
        0
    } else {
        s_total_force_y(g, m, px, py, id, others.drop_last()) + {
            let o = others.last();
            if o.id == id {
                0
            } else {
                s_force_y(g, m, o.mass as int, px, py, o.position.x as int, o.position.y as int)
            }
        }
    }
}

/// Acceleration: the summed force divided (truncating) by the body's own
/// mass.
pub open spec fn s_accel_x(g: int, m: int, px: int, py: int, id: int, others: Seq<Star2D>) -> int {
    s_tdiv(s_total_force_x(g, m, px, py, id, others), m)
}

/// The y component of the acceleration.
pub open spec fn s_accel_y(g: int, m: int, px: int, py: int, id: int, others: Seq<Star2D>) -> int {
    s_tdiv(s_total_force_y(g, m, px, py, id, others), m)
}

/// The force-law denominator is at least `R2_FLOOR * isqrt(R2_FLOOR)`.
pub proof fn lemma_force_den_lower(r2: int)
    requires
        r2 >= 0,
    ensures
        s_force_den(r2) >= 1_000_000_000,
{
    let rf = s_max(r2, R2_FLOOR as int);
    lemma_isqrt_lower(rf, 1000);
    assert(rf * s_isqrt(rf) >= 1_000_000_000) by (nonlinear_arith)
        requires
            rf >= 1_000_000,
            s_isqrt(rf) >= 1000,
    ;
}

/// One pair contributes at most `2 * g * m1 * m2` to either force
/// component.
pub proof fn lemma_force_bound(g: int, m1: int, m2: int, p1x: int, p1y: int, p2x: int, p2y: int)
    requires
        1 <= g,
        1 <= m1,
        1 <= m2,
        s_abs(p1x) <= LIMIT,
        s_abs(p1y) <= LIMIT,
        s_abs(p2x) <= LIMIT,
        s_abs(p2y) <= LIMIT,
    ensures
        s_abs(s_force_x(g, m1, m2, p1x, p1y, p2x, p2y)) <= 2 * g * m1 * m2,
        s_abs(s_force_y(g, m1, m2, p1x, p1y, p2x, p2y)) <= 2 * g * m1 * m2,
{
    let r2 = s_r2(p1x, p1y, p2x, p2y);
    let ddx = p2x - p1x;
    let ddy = p2y - p1y;
    assert(ddx * ddx + ddy * ddy >= 0) by (nonlinear_arith);
    lemma_force_den_lower(r2);
    let den = s_force_den(r2);
    assert(s_abs(g * m1 * m2 * (p2x - p1x)) <= (2 * g * m1 * m2) * 1_000_000_000)
        by (nonlinear_arith)
        requires
            1 <= g,
            1 <= m1,
            1 <= m2,
            s_abs(p1x) <= LIMIT,
            s_abs(p2x) <= LIMIT,
            LIMIT == 1_000_000_000,
    ;
    assert(s_abs(g * m1 * m2 * (p2y - p1y)) <= (2 * g * m1 * m2) * 1_000_000_000)
        by (nonlinear_arith)
        requires
            1 <= g,
            1 <= m1,
            1 <= m2,
            s_abs(p1y) <= LIMIT,
            s_abs(p2y) <= LIMIT,
            LIMIT == 1_000_000_000,
    ;
    assert(2 * g * m1 * m2 >= 0) by (nonlinear_arith)
        requires
            1 <= g && 1 <= m1 && 1 <= m2,
    ;
    lemma_tdiv_bound(g * m1 * m2 * (p2x - p1x), den, 1_000_000_000, 2 * g * m1 * m2);
    lemma_tdiv_bound(g * m1 * m2 * (p2y - p1y), den, 1_000_000_000, 2 * g * m1 * m2);
}

/// The total force over a sequence of sources is bounded by
/// `2 * g * m * MASS_MAX * len`.
pub proof fn lemma_total_force_bound(
    g: int,
    m: int,
    px: int,
    py: int,
    id: int,
    others: Seq<Star2D>,
)
    requires
        1 <= g,
        1 <= m,
        s_abs(px) <= LIMIT,
        s_abs(py) <= LIMIT,
        all_wf(others),
    ensures
        s_abs(s_total_force_x(g, m, px, py, id, others)) <= 2 * g * m * (MASS_MAX as int)
            * others.len(),
        s_abs(s_total_force_y(g, m, px, py, id, others)) <= 2 * g * m * (MASS_MAX as int)
            * others.len(),
    decreases others.len(),
{
    if others.len() == 0 {
    } else {
        let rest = others.drop_last();
        assert(all_wf(rest));
        lemma_total_force_bound(g, m, px, py, id, rest);
        let o = others.last();
        assert(o.wf());
        let fx = if o.id == id {
            0
        } else {
            s_force_x(g, m, o.mass as int, px, py, o.position.x as int, o.position.y as int)
        };
        let fy = if o.id == id {
            0
        } else {
            s_force_y(g, m, o.mass as int, px, py, o.position.x as int, o.position.y as int)
        };
        if o.id != id {
            lemma_force_bound(
                g,
                m,
                o.mass as int,
                px,
                py,
                o.position.x as int,
                o.position.y as int,
            );
        }
        assert(s_abs(fx) <= 2 * g * m * (MASS_MAX as int) && s_abs(fy) <= 2 * g * m * (
        MASS_MAX as int)) by (nonlinear_arith)
            requires
                1 <= g,
                1 <= m,
                0 < o.mass <= MASS_MAX,
                s_abs(fx) <= 2 * g * m * o.mass || fx == 0,
                s_abs(fy) <= 2 * g * m * o.mass || fy == 0,
        ;
        assert(s_abs(s_total_force_x(g, m, px, py, id, rest) + fx) <= 2 * g * m * (MASS_MAX as int)
            * others.len() && s_abs(s_total_force_y(g, m, px, py, id, rest) + fy) <= 2 * g * m * (
        MASS_MAX as int) * others.len()) by (nonlinear_arith)
            requires
                1 <= g,
                1 <= m,
                others.len() == rest.len() + 1,
                s_abs(s_total_force_x(g, m, px, py, id, rest)) <= 2 * g * m * (MASS_MAX as int)
                    * rest.len(),
                s_abs(s_total_force_y(g, m, px, py, id, rest)) <= 2 * g * m * (MASS_MAX as int)
                    * rest.len(),
                s_abs(fx) <= 2 * g * m * (MASS_MAX as int),
                s_abs(fy) <= 2 * g * m * (MASS_MAX as int),
        ;
    }
}

/// Computes the gravitational force exerted on a body of mass `m1` at
/// `pos1` by a body of mass `m2` at `pos2`, with magnitude
/// `g * m1 * m2 / r2` directed along the displacement `pos2 - pos1`.
/// Coincident positions yield the zero vector (the displacement is zero),
/// and the minimum-separation floor bounds the magnitude for near-coincident
/// pairs, so no degenerate value can arise.
pub fn gravitational_force_components(g: i64, m1: i64, m2: i64, pos1: Vec2, pos2: Vec2) -> (f: (
    i128,
    i128,
))
    requires
        1 <= g <= G_MAX,
        1 <= m1 <= MASS_MAX,
        1 <= m2 <= MASS_MAX,
        pos1.in_lim(),
        pos2.in_lim(),
    ensures
        f.0 == s_force_x(
            g as int,
            m1 as int,
            m2 as int,
            pos1.x as int,
            pos1.y as int,
            pos2.x as int,
            pos2.y as int,
        ),
        f.1 == s_force_y(
            g as int,
            m1 as int,
            m2 as int,
            pos1.x as int,
            pos1.y as int,
            pos2.x as int,
            pos2.y as int,
        ),
        s_abs(f.0 as int) <= 2 * g * m1 * m2,
        s_abs(f.1 as int) <= 2 * g * m1 * m2,
{
    let dx = (pos2.x as i128) - (pos1.x as i128);
    let dy = (pos2.y as i128) - (pos1.y as i128);
    let r2 = mul128(dx, dx, Ghost(2_000_000_000), Ghost(2_000_000_000)) + mul128(
        dy,
        dy,
        Ghost(2_000_000_000),
        Ghost(2_000_000_000),
    );
    let r2f = if r2 < R2_FLOOR as i128 {
        R2_FLOOR as i128
    } else {
        r2
    };
    let r = isqrt128(r2f as u128);
    proof {
        assert(r2 >= 0) by (nonlinear_arith)
            requires
                r2 == dx * dx + dy * dy,
        ;
        assert(r * r <= r2f);
        assert(r <= 3_000_000_000u128) by (nonlinear_arith)
            requires
                r * r <= 8_000_000_000_000_000_000u128,
        ;
        lemma_isqrt_lower(r2f as int, 1000);
        lemma_force_den_lower(r2 as int);
    }
    let rr = r as i128;
    let den = mul128(r2f, rr, Ghost(8_000_000_000_000_000_000), Ghost(3_000_000_000));
    let gm = mul128(g as i128, m1 as i128, Ghost(G_MAX as int), Ghost(MASS_MAX as int));
    let gmm = mul128(
        gm,
        m2 as i128,
        Ghost(10_000_000_000_000_000),
        Ghost(MASS_MAX as int),
    );
    let nx = mul128(gmm, dx, Ghost(1_000_000_000_000_000_000_000_000), Ghost(2_000_000_000));
    let ny = mul128(gmm, dy, Ghost(1_000_000_000_000_000_000_000_000), Ghost(2_000_000_000));
    proof {
        assert(den >= 1_000_000_000);
    }
    let fx = tdiv128(nx, den);
    let fy = tdiv128(ny, den);
    proof {
        lemma_force_bound(
            g as int,
            m1 as int,
            m2 as int,
            pos1.x as int,
            pos1.y as int,
            pos2.x as int,
            pos2.y as int,
        );
    }
    (fx, fy)
}

/// Sums the force exerted on `star` by every entry of `old_stars` other
/// than itself (skipped by id, never by position), then divides by the
/// body's own mass to yield its acceleration.  The dominant `O(N)` cost of
/// a sweep; a full step is `O(N^2)`.
#[verifier::loop_isolation(false)]
pub fn total_gravitational_acceleration(g: i64, star: &Star2D, old_stars: &Vec<Star2D>) -> (a: (
    i128,
    i128,
))
    requires
        1 <= g <= G_MAX,
        star.wf(),
        all_wf(old_stars@),
        old_stars@.len() <= BODY_MAX,
    ensures
        a.0 == s_accel_x(
            g as int,
            star.mass as int,
            star.position.x as int,
            star.position.y as int,
            star.id as int,
            old_stars@,
        ),
        a.1 == s_accel_y(
            g as int,
            star.mass as int,
            star.position.x as int,
            star.position.y as int,
            star.id as int,
            old_stars@,
        ),
        s_abs(a.0 as int) <= 2 * (G_MAX as int) * (MASS_MAX as int) * (BODY_MAX as int),
        s_abs(a.1 as int) <= 2 * (G_MAX as int) * (MASS_MAX as int) * (BODY_MAX as int),
{
    let ghost m = star.mass as int;
    let ghost px = star.position.x as int;
    let ghost py = star.position.y as int;
    let ghost sid = star.id as int;
    let mut fx: i128 = 0;
    let mut fy: i128 = 0;
    let n = old_stars.len();
    let mut j: usize = 0;
    while j < n
        invariant
            j <= n,
            fx == s_total_force_x(g as int, m, px, py, sid, old_stars@.take(j as int)),
            fy == s_total_force_y(g as int, m, px, py, sid, old_stars@.take(j as int)),
            s_abs(fx as int) <= 2 * g * m * (MASS_MAX as int) * j,
            s_abs(fy as int) <= 2 * g * m * (MASS_MAX as int) * j,
        decreases n - j,
    {
        proof {
            assert(s_abs(fx as int) <= 8_192_000_000_000_000_000_000_000_000 && s_abs(fy as int)
                <= 8_192_000_000_000_000_000_000_000_000) by (nonlinear_arith)
                requires
                    s_abs(fx as int) <= 2 * g * m * (MASS_MAX as int) * j,
                    s_abs(fy as int) <= 2 * g * m * (MASS_MAX as int) * j,
                    1 <= g <= G_MAX,
                    1 <= m <= MASS_MAX,
                    j <= BODY_MAX,
                    G_MAX == 100_000_000,
                    MASS_MAX == 100_000_000,
                    BODY_MAX == 4096,
            ;
        }
        let o = &old_stars[j];
        if o.id != star.id {
            let f = gravitational_force_components(g, star.mass, o.mass, star.position, o.position);
            proof {
                assert(s_abs(f.0 as int) <= 2 * g * m * (MASS_MAX as int) && s_abs(f.1 as int) <= 2
                    * g * m * (MASS_MAX as int) && s_abs(f.0 as int)
                    <= 2_000_000_000_000_000_000_000_000 && s_abs(f.1 as int)
                    <= 2_000_000_000_000_000_000_000_000) by (nonlinear_arith)
                    requires
                        s_abs(f.0 as int) <= 2 * g * m * o.mass,
                        s_abs(f.1 as int) <= 2 * g * m * o.mass,
                        1 <= g <= G_MAX,
                        1 <= m <= MASS_MAX,
                        0 < o.mass <= MASS_MAX,
                        G_MAX == 100_000_000,
                        MASS_MAX == 100_000_000,
                ;
            }
            fx = fx + f.0;
            fy = fy + f.1;
        }
        proof {
            assert(old_stars@.take(j + 1 as int).drop_last() =~= old_stars@.take(j as int));
            assert(old_stars@.take(j + 1 as int).last() == old_stars@[j as int]);
            assert(s_abs(fx as int) <= 2 * g * m * (MASS_MAX as int) * (j + 1) && s_abs(fy as int)
                <= 2 * g * m * (MASS_MAX as int) * (j + 1)) by (nonlinear_arith)
                requires
                    s_abs(fx as int) <= 2 * g * m * (MASS_MAX as int) * j + 2 * g * m * (
                    MASS_MAX as int),
                    s_abs(fy as int) <= 2 * g * m * (MASS_MAX as int) * j + 2 * g * m * (
                    MASS_MAX as int),
            ;
        }
        j = j + 1;
    }
    proof {
        assert(old_stars@.take(n as int) =~= old_stars@);
        assert(s_abs(fx as int) <= (2 * (G_MAX as int) * (MASS_MAX as int) * (BODY_MAX as int)) * m
            && s_abs(fy as int) <= (2 * (G_MAX as int) * (MASS_MAX as int) * (BODY_MAX as int))
            * m && s_abs(fx as int) <= 8_192_000_000_000_000_000_000_000_000 && s_abs(fy as int)
            <= 8_192_000_000_000_000_000_000_000_000) by (nonlinear_arith)
            requires
                s_abs(fx as int) <= 2 * g * m * (MASS_MAX as int) * n,
                s_abs(fy as int) <= 2 * g * m * (MASS_MAX as int) * n,
                1 <= g <= G_MAX,
                1 <= m <= MASS_MAX,
                n <= BODY_MAX,
                G_MAX == 100_000_000,
                MASS_MAX == 100_000_000,
                BODY_MAX == 4096,
        ;
    }
    let ax = tdiv128(fx, star.mass as i128);
    let ay = tdiv128(fy, star.mass as i128);
    proof {
        lemma_tdiv_bound(fx as int, m, m, 2 * (G_MAX as int) * (MASS_MAX as int) * (BODY_MAX as int));
        lemma_tdiv_bound(fy as int, m, m, 2 * (G_MAX as int) * (MASS_MAX as int) * (BODY_MAX as int));
    }
    (ax, ay)
}

} // verus!
