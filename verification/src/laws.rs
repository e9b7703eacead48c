//! System-level laws of the dynamics, proved from the integrators'
//! specifications: absence of self-force, the direction of gravitational
//! attraction, preservation of point symmetry by every scheme, and the
//! cancellation of internal forces with its bound on momentum drift.
use crate::force::{
    lemma_force_den_lower, s_accel_x, s_accel_y, s_force_den, s_force_x, s_force_y, s_r2,
    s_total_force_x, s_total_force_y,
};
use crate::num::{lemma_mul_ge_one, lemma_tdiv_basics, lemma_tdiv_error, lemma_tdiv_neg, s_abs,
    s_tdiv};
use crate::sim2d::{s_accel, s_dv, s_euler_pos, s_next_vel, s_rk4_a2, s_rk4_a3, s_rk4_a4, s_rk4_p2,
    s_rk4_p3, s_rk4_p4, s_rk4_pos, s_rk4_v2, s_rk4_v3, s_rk4_v4, s_rk4_vel, s_verlet_pos};
use crate::star::Star2D;
use crate::threebody::{s_acc3_x, s_acc3_y, s_acc_x_upto, s_acc_y_upto, s_pair_acc_x, s_pair_acc_y};
use vstd::prelude::*;

verus! {

/// Negation moves out of a product.
proof fn lemma_neg_mul(a: int, b: int)
    by (nonlinear_arith)
    ensures
        (-a) * b == -(a * b),
{
}

/// Truncating division of a negated product: the sign moves out.
proof fn lemma_tdiv_neg_num(a: int, b: int, d: int)
    requires
        d > 0,
    ensures
        s_tdiv((-a) * b, d) == -s_tdiv(a * b, d),
{
    lemma_neg_mul(a, b);
    lemma_tdiv_neg(a * b, d);
}

/// The squared distance does not change under point reflection of both
/// ends, and is never negative.
proof fn lemma_r2_mirror(p1x: int, p1y: int, p2x: int, p2y: int)
    by (nonlinear_arith)
    ensures
        s_r2(-p1x, -p1y, -p2x, -p2y) == s_r2(p1x, p1y, p2x, p2y),
        s_r2(p1x, p1y, p2x, p2y) >= 0,
        s_r2(p2x, p2y, p1x, p1y) == s_r2(p1x, p1y, p2x, p2y),
{
}

/// Reflecting both bodies through the origin reflects the force: the
/// dynamics cannot distinguish a configuration from its mirror image.
pub proof fn lemma_force_mirror(g: int, m1: int, m2: int, p1x: int, p1y: int, p2x: int, p2y: int)
    ensures
        s_force_x(g, m1, m2, -p1x, -p1y, -p2x, -p2y) == -s_force_x(g, m1, m2, p1x, p1y, p2x, p2y),
        s_force_y(g, m1, m2, -p1x, -p1y, -p2x, -p2y) == -s_force_y(g, m1, m2, p1x, p1y, p2x, p2y),
{
    lemma_r2_mirror(p1x, p1y, p2x, p2y);
    let r2 = s_r2(p1x, p1y, p2x, p2y);
    lemma_force_den_lower(r2);
    let den = s_force_den(r2);
    assert((-p2x) - (-p1x) == -(p2x - p1x) && (-p2y) - (-p1y) == -(p2y - p1y));
    assert(g * m1 * m2 * (-(p2x - p1x)) == -(g * m1 * m2 * (p2x - p1x))) by (nonlinear_arith);
    assert(g * m1 * m2 * (-(p2y - p1y)) == -(g * m1 * m2 * (p2y - p1y))) by (nonlinear_arith);
    lemma_tdiv_neg(g * m1 * m2 * (p2x - p1x), den);
    lemma_tdiv_neg(g * m1 * m2 * (p2y - p1y), den);
}

/// Newton's third law at the level of one rounded pair force: the force on
/// the second body is exactly the negation of the force on the first.
pub proof fn lemma_force_antisym(g: int, m1: int, m2: int, p1x: int, p1y: int, p2x: int, p2y: int)
    ensures
        s_force_x(g, m2, m1, p2x, p2y, p1x, p1y) == -s_force_x(g, m1, m2, p1x, p1y, p2x, p2y),
        s_force_y(g, m2, m1, p2x, p2y, p1x, p1y) == -s_force_y(g, m1, m2, p1x, p1y, p2x, p2y),
{
    lemma_r2_mirror(p1x, p1y, p2x, p2y);
    let r2 = s_r2(p1x, p1y, p2x, p2y);
    lemma_force_den_lower(r2);
    let den = s_force_den(r2);
    assert(g * m2 * m1 * (p1x - p2x) == -(g * m1 * m2 * (p2x - p1x))) by (nonlinear_arith);
    assert(g * m2 * m1 * (p1y - p2y) == -(g * m1 * m2 * (p2y - p1y))) by (nonlinear_arith);
    lemma_tdiv_neg(g * m1 * m2 * (p2x - p1x), den);
    lemma_tdiv_neg(g * m1 * m2 * (p2y - p1y), den);
}

/// A body alone in the set (every entry carries its own id, as with a body
/// count of one) feels no force at all: the self-pair is skipped by id, so
/// the acceleration is the zero vector and no division by zero can arise.
pub proof fn lemma_single_body_zero_acceleration(
    g: int,
    m: int,
    px: int,
    py: int,
    id: int,
    others: Seq<Star2D>,
)
    requires
        m >= 1,
        forall|i: int| 0 <= i < others.len() ==> (#[trigger] others[i]).id == id,
    ensures
        s_accel_x(g, m, px, py, id, others) == 0,
        s_accel_y(g, m, px, py, id, others) == 0,
        s_total_force_x(g, m, px, py, id, others) == 0,
        s_total_force_y(g, m, px, py, id, others) == 0,
    decreases others.len(),
{
    if others.len() > 0 {
        let rest = others.drop_last();
        assert(forall|i: int| 0 <= i < rest.len() ==> (#[trigger] rest[i]).id == id);
        assert(others.last() == others[others.len() - 1]);
        lemma_single_body_zero_acceleration(g, m, px, py, id, rest);
    }
    lemma_tdiv_basics(0, m);
}

/// The acceleration of a body in a two-body system points toward the other
/// body on each axis (or vanishes by rounding): the sanity check on the
/// sign of the force law.
pub proof fn lemma_two_body_accel_sign(g: int, stars: Seq<Star2D>)
    requires
        stars.len() == 2,
        stars[0].id != stars[1].id,
        g >= 1,
        stars[0].mass >= 1,
        stars[1].mass >= 1,
    ensures
        stars[1].position.x >= stars[0].position.x ==> s_accel(g, stars[0], stars).0 >= 0,
        stars[1].position.x <= stars[0].position.x ==> s_accel(g, stars[0], stars).0 <= 0,
        stars[1].position.y >= stars[0].position.y ==> s_accel(g, stars[0], stars).1 >= 0,
        stars[1].position.y <= stars[0].position.y ==> s_accel(g, stars[0], stars).1 <= 0,
{
    let b = stars[0];
    let o = stars[1];
    let m = b.mass as int;
    let px = b.position.x as int;
    let py = b.position.y as int;
    let id = b.id as int;
    lemma_two_body_force_unfold(g, m, px, py, id, stars);
    let r2 = s_r2(px, py, o.position.x as int, o.position.y as int);
    lemma_r2_mirror(px, py, o.position.x as int, o.position.y as int);
    lemma_force_den_lower(r2);
    let den = s_force_den(r2);
    let numx = g * m * o.mass * (o.position.x - b.position.x);
    let numy = g * m * o.mass * (o.position.y - b.position.y);
    assert((o.position.x >= b.position.x ==> numx >= 0) && (o.position.x <= b.position.x ==> numx
        <= 0) && (o.position.y >= b.position.y ==> numy >= 0) && (o.position.y <= b.position.y
        ==> numy <= 0)) by (nonlinear_arith)
        requires
            g >= 1,
            m >= 1,
            o.mass >= 1,
            numx == g * m * o.mass * (o.position.x - b.position.x),
            numy == g * m * o.mass * (o.position.y - b.position.y),
    ;
    lemma_tdiv_basics(numx, den);
    lemma_tdiv_basics(numy, den);
    lemma_tdiv_basics(s_total_force_x(g, m, px, py, id, stars), m);
    lemma_tdiv_basics(s_total_force_y(g, m, px, py, id, stars), m);
}

/// In a two-body set, the total force on a probe with the first body's id
/// is exactly the pair force from the second body, and symmetrically.
proof fn lemma_two_body_force_unfold(g: int, m: int, px: int, py: int, id: int, stars: Seq<Star2D>)
    requires
        stars.len() == 2,
        stars[0].id != stars[1].id,
    ensures
        id == stars[0].id ==> s_total_force_x(g, m, px, py, id, stars) == s_force_x(
            g,
            m,
            stars[1].mass as int,
            px,
            py,
            stars[1].position.x as int,
            stars[1].position.y as int,
        ) && s_total_force_y(g, m, px, py, id, stars) == s_force_y(
            g,
            m,
            stars[1].mass as int,
            px,
            py,
            stars[1].position.x as int,
            stars[1].position.y as int,
        ),
        id == stars[1].id ==> s_total_force_x(g, m, px, py, id, stars) == s_force_x(
            g,
            m,
            stars[0].mass as int,
            px,
            py,
            stars[0].position.x as int,
            stars[0].position.y as int,
        ) && s_total_force_y(g, m, px, py, id, stars) == s_force_y(
            g,
            m,
            stars[0].mass as int,
            px,
            py,
            stars[0].position.x as int,
            stars[0].position.y as int,
        ),
{
    let rest = stars.drop_last();
    assert(stars.last() == stars[1]);
    assert(rest.len() == 1);
    assert(rest.last() == stars[0]);
    let rest2 = rest.drop_last();
    assert(rest2.len() == 0);
    assert(s_total_force_x(g, m, px, py, id, rest2) == 0);
    assert(s_total_force_y(g, m, px, py, id, rest2) == 0);
    assert(s_total_force_x(g, m, px, py, id, rest) == if stars[0].id == id {
        0int
    } else {
        s_force_x(
            g,
            m,
            stars[0].mass as int,
            px,
            py,
            stars[0].position.x as int,
            stars[0].position.y as int,
        )
    });
    assert(s_total_force_y(g, m, px, py, id, rest) == if stars[0].id == id {
        0int
    } else {
        s_force_y(
            g,
            m,
            stars[0].mass as int,
            px,
            py,
            stars[0].position.x as int,
            stars[0].position.y as int,
        )
    });
}

/// The two bodies of a point-symmetric pair: equal masses, distinct ids,
/// and position and velocity reflected through the origin.
pub open spec fn s_mirror_pair(stars: Seq<Star2D>) -> bool {
    &&& stars.len() == 2
    &&& stars[0].id != stars[1].id
    &&& stars[1].mass == stars[0].mass
    &&& stars[1].position.x == -(stars[0].position.x as int)
    &&& stars[1].position.y == -(stars[0].position.y as int)
    &&& stars[1].velocity.x == -(stars[0].velocity.x as int)
    &&& stars[1].velocity.y == -(stars[0].velocity.y as int)
}

/// In a point-symmetric pair, a probe reflected through the origin and
/// carrying the other body's id feels the reflected acceleration.
pub proof fn lemma_accel_mirror_pair(g: int, stars: Seq<Star2D>, m: int, px: int, py: int)
    requires
        s_mirror_pair(stars),
        m >= 1,
    ensures
        s_accel_x(g, m, -px, -py, stars[1].id as int, stars) == -s_accel_x(
            g,
            m,
            px,
            py,
            stars[0].id as int,
            stars,
        ),
        s_accel_y(g, m, -px, -py, stars[1].id as int, stars) == -s_accel_y(
            g,
            m,
            px,
            py,
            stars[0].id as int,
            stars,
        ),
{
    lemma_two_body_force_unfold(g, m, px, py, stars[0].id as int, stars);
    lemma_two_body_force_unfold(g, m, -px, -py, stars[1].id as int, stars);
    let q0x = stars[0].position.x as int;
    let q0y = stars[0].position.y as int;
    let mm = stars[0].mass as int;
    assert(stars[1].position.x as int == -q0x && stars[1].position.y as int == -q0y);
    lemma_force_mirror(g, m, mm, px, py, -q0x, -q0y);
    let fx = s_total_force_x(g, m, px, py, stars[0].id as int, stars);
    let fy = s_total_force_y(g, m, px, py, stars[0].id as int, stars);
    assert(s_total_force_x(g, m, -px, -py, stars[1].id as int, stars) == -fx);
    assert(s_total_force_y(g, m, -px, -py, stars[1].id as int, stars) == -fy);
    lemma_tdiv_neg(fx, m);
    lemma_tdiv_neg(fy, m);
}

/// Point symmetry is preserved by one step of the Euler-average and
/// velocity-Verlet schemes: if the two bodies of a pair mirror each other,
/// their updated positions and velocities mirror each other too, exactly.
pub proof fn lemma_symmetry_preserved(g: int, stars: Seq<Star2D>, dtn: int, dtd: int)
    requires
        s_mirror_pair(stars),
        stars[0].mass >= 1,
        dtn >= 1,
        dtd >= 1,
    ensures
        s_verlet_pos(g, stars[1], stars, dtn, dtd).0 == -s_verlet_pos(g, stars[0], stars, dtn, dtd).0,
        s_verlet_pos(g, stars[1], stars, dtn, dtd).1 == -s_verlet_pos(g, stars[0], stars, dtn, dtd).1,
        s_euler_pos(g, stars[1], stars, dtn, dtd).0 == -s_euler_pos(g, stars[0], stars, dtn, dtd).0,
        s_euler_pos(g, stars[1], stars, dtn, dtd).1 == -s_euler_pos(g, stars[0], stars, dtn, dtd).1,
        s_next_vel(g, stars[1], stars, dtn, dtd).0 == -s_next_vel(g, stars[0], stars, dtn, dtd).0,
        s_next_vel(g, stars[1], stars, dtn, dtd).1 == -s_next_vel(g, stars[0], stars, dtn, dtd).1,
{
    let b0 = stars[0];
    let b1 = stars[1];
    let m = b0.mass as int;
    lemma_accel_mirror_pair(g, stars, m, b0.position.x as int, b0.position.y as int);
    let ax = s_accel(g, b0, stars).0;
    let ay = s_accel(g, b0, stars).1;
    assert(s_accel(g, b1, stars).0 == -ax && s_accel(g, b1, stars).1 == -ay);
    lemma_mul_ge_one(dtd, dtd);
    // velocity increment mirrors
    lemma_tdiv_neg_num(ax, dtn, dtd);
    lemma_tdiv_neg_num(ay, dtn, dtd);
    let dvx = s_dv(g, b0, stars, dtn, dtd).0;
    let dvy = s_dv(g, b0, stars, dtn, dtd).1;
    assert(s_dv(g, b1, stars, dtn, dtd).0 == -dvx && s_dv(g, b1, stars, dtn, dtd).1 == -dvy);
    // Verlet position terms mirror
    lemma_tdiv_neg_num(b0.velocity.x as int, dtn, dtd);
    lemma_tdiv_neg_num(b0.velocity.y as int, dtn, dtd);
    lemma_neg_mul(ax, dtn);
    lemma_neg_mul(ay, dtn);
    assert(2 * dtd * dtd == 2 * (dtd * dtd)) by (nonlinear_arith);
    lemma_tdiv_neg_num(ax * dtn, dtn, 2 * dtd * dtd);
    lemma_tdiv_neg_num(ay * dtn, dtn, 2 * dtd * dtd);
    // Euler-average position terms mirror
    assert(2 * (b1.velocity.x as int) + s_dv(g, b1, stars, dtn, dtd).0 == -(2 * (
    b0.velocity.x as int) + dvx));
    assert(2 * (b1.velocity.y as int) + s_dv(g, b1, stars, dtn, dtd).1 == -(2 * (
    b0.velocity.y as int) + dvy));
    lemma_tdiv_neg_num(2 * (b0.velocity.x as int) + dvx, dtn, 2 * dtd);
    lemma_tdiv_neg_num(2 * (b0.velocity.y as int) + dvy, dtn, 2 * dtd);
}

/// The x pair force between two bodies of the set, zero when the ids
/// match (the self-pair, or bodies sharing one id, exert nothing).
pub open spec fn s_pf_x(g: int, stars: Seq<Star2D>, i: int, j: int) -> int {
    if stars[i].id == stars[j].id {
        0
    } else {
        s_force_x(
            g,
            stars[i].mass as int,
            stars[j].mass as int,
            stars[i].position.x as int,
            stars[i].position.y as int,
            stars[j].position.x as int,
            stars[j].position.y as int,
        )
    }
}

/// The y pair force between two bodies of the set.
pub open spec fn s_pf_y(g: int, stars: Seq<Star2D>, i: int, j: int) -> int {
    if stars[i].id == stars[j].id {
        0
    } else {
        s_force_y(
            g,
            stars[i].mass as int,
            stars[j].mass as int,
            stars[i].position.x as int,
            stars[i].position.y as int,
            stars[j].position.x as int,
            stars[j].position.y as int,
        )
    }
}

/// Total x force on body `i` from the partners `0..k`.
pub open spec fn s_tf_x(g: int, stars: Seq<Star2D>, i: int, k: int) -> int {
    s_total_force_x(
        g,
        stars[i].mass as int,
        stars[i].position.x as int,
        stars[i].position.y as int,
        stars[i].id as int,
        stars.take(k),
    )
}

/// Total y force on body `i` from the partners `0..k`.
pub open spec fn s_tf_y(g: int, stars: Seq<Star2D>, i: int, k: int) -> int {
    s_total_force_y(
        g,
        stars[i].mass as int,
        stars[i].position.x as int,
        stars[i].position.y as int,
        stars[i].id as int,
        stars.take(k),
    )
}

/// `sum_{i < j} s_tf_x(i, k)`.
pub open spec fn s_sum_tf_x(g: int, stars: Seq<Star2D>, k: int, j: nat) -> int
    decreases j,
{
    if j == 0 {
        0
    } else {
        s_sum_tf_x(g, stars, k, (j - 1) as nat) + s_tf_x(g, stars, j - 1, k)
    }
}

/// `sum_{i < j} s_tf_y(i, k)`.
pub open spec fn s_sum_tf_y(g: int, stars: Seq<Star2D>, k: int, j: nat) -> int
    decreases j,
{
    if j == 0 {
        0
    } else {
        s_sum_tf_y(g, stars, k, (j - 1) as nat) + s_tf_y(g, stars, j - 1, k)
    }
}

/// `sum_{i < j} s_pf_x(i, k)`: the force the prefix exerts on body `k`.
pub open spec fn s_cross_x(g: int, stars: Seq<Star2D>, k: int, j: nat) -> int
    decreases j,
{
    if j == 0 {
        0
    } else {
        s_cross_x(g, stars, k, (j - 1) as nat) + s_pf_x(g, stars, j - 1, k)
    }
}

/// `sum_{i < j} s_pf_y(i, k)`.
pub open spec fn s_cross_y(g: int, stars: Seq<Star2D>, k: int, j: nat) -> int
    decreases j,
{
    if j == 0 {
        0
    } else {
        s_cross_y(g, stars, k, (j - 1) as nat) + s_pf_y(g, stars, j - 1, k)
    }
}

/// Newton's third law between two indexed bodies.
proof fn lemma_pf_antisym(g: int, stars: Seq<Star2D>, i: int, j: int)
    requires
        0 <= i < stars.len(),
        0 <= j < stars.len(),
    ensures
        s_pf_x(g, stars, i, j) == -s_pf_x(g, stars, j, i),
        s_pf_y(g, stars, i, j) == -s_pf_y(g, stars, j, i),
{
    if stars[i].id != stars[j].id {
        lemma_force_antisym(
            g,
            stars[i].mass as int,
            stars[j].mass as int,
            stars[i].position.x as int,
            stars[i].position.y as int,
            stars[j].position.x as int,
            stars[j].position.y as int,
        );
    }
}

/// Extending the partner prefix of a total force by one body adds that
/// body's pair force.
proof fn lemma_tf_unfold(g: int, stars: Seq<Star2D>, i: int, k: int)
    requires
        0 <= i < stars.len(),
        0 <= k < stars.len(),
    ensures
        s_tf_x(g, stars, i, k + 1) == s_tf_x(g, stars, i, k) + s_pf_x(g, stars, i, k),
        s_tf_y(g, stars, i, k + 1) == s_tf_y(g, stars, i, k) + s_pf_y(g, stars, i, k),
{
    assert(stars.take(k + 1).drop_last() =~= stars.take(k));
    assert(stars.take(k + 1).last() == stars[k]);
}

/// The force the prefix exerts on body `k` cancels the force body `k`
/// exerts back on the prefix.
proof fn lemma_cross_tf_cancel(g: int, stars: Seq<Star2D>, k: int, j: nat)
    requires
        0 <= k < stars.len(),
        j <= stars.len(),
    ensures
        s_cross_x(g, stars, k, j) + s_tf_x(g, stars, k, j as int) == 0,
        s_cross_y(g, stars, k, j) + s_tf_y(g, stars, k, j as int) == 0,
    decreases j,
{
    if j == 0 {
        assert(stars.take(0).len() == 0);
    } else {
        lemma_cross_tf_cancel(g, stars, k, (j - 1) as nat);
        lemma_tf_unfold(g, stars, k, j - 1);
        lemma_pf_antisym(g, stars, j - 1, k);
    }
}

/// Extending the partner prefix of the summed forces adds the cross sum.
proof fn lemma_sum_tf_shift(g: int, stars: Seq<Star2D>, k: int, j: nat)
    requires
        0 <= k < stars.len(),
        j <= stars.len(),
    ensures
        s_sum_tf_x(g, stars, k + 1, j) == s_sum_tf_x(g, stars, k, j) + s_cross_x(g, stars, k, j),
        s_sum_tf_y(g, stars, k + 1, j) == s_sum_tf_y(g, stars, k, j) + s_cross_y(g, stars, k, j),
    decreases j,
{
    if j > 0 {
        lemma_sum_tf_shift(g, stars, k, (j - 1) as nat);
        lemma_tf_unfold(g, stars, j - 1, k);
    }
}

/// Internal forces cancel exactly: over any prefix, the sum of the total
/// forces that the prefix bodies feel from each other is zero on each axis
/// — Newton's third law survives the rounding because truncating division
/// is an odd function.
pub proof fn lemma_total_force_sum_zero(g: int, stars: Seq<Star2D>, k: nat)
    requires
        k <= stars.len(),
    ensures
        s_sum_tf_x(g, stars, k as int, k) == 0,
        s_sum_tf_y(g, stars, k as int, k) == 0,
    decreases k,
{
    if k > 0 {
        let k1 = (k - 1) as nat;
        lemma_total_force_sum_zero(g, stars, k1);
        lemma_sum_tf_shift(g, stars, k - 1, k1);
        lemma_cross_tf_cancel(g, stars, k - 1, k1);
        lemma_tf_unfold(g, stars, k - 1, k - 1);
    }
}

/// Total mass of the first `j` bodies.
pub open spec fn s_mass_total(stars: Seq<Star2D>, j: nat) -> int
    decreases j,
{
    if j == 0 {
        0
    } else {
        s_mass_total(stars, (j - 1) as nat) + stars[j - 1].mass
    }
}

/// x momentum of the first `j` bodies: `sum(mass_i * velocity_i.x)`.
pub open spec fn s_momentum_x(stars: Seq<Star2D>, j: nat) -> int
    decreases j,
{
    if j == 0 {
        0
    } else {
        s_momentum_x(stars, (j - 1) as nat) + stars[j - 1].mass * stars[j - 1].velocity.x
    }
}

/// y momentum of the first `j` bodies.
pub open spec fn s_momentum_y(stars: Seq<Star2D>, j: nat) -> int
    decreases j,
{
    if j == 0 {
        0
    } else {
        s_momentum_y(stars, (j - 1) as nat) + stars[j - 1].mass * stars[j - 1].velocity.y
    }
}

/// x momentum after the shared velocity update of the Euler-average and
/// velocity-Verlet schemes.
pub open spec fn s_momentum_next_x(g: int, stars: Seq<Star2D>, dtn: int, dtd: int, j: nat) -> int
    decreases j,
{
    if j == 0 {
        0
    } else {
        s_momentum_next_x(g, stars, dtn, dtd, (j - 1) as nat) + stars[j - 1].mass * s_next_vel(
            g,
            stars[j - 1],
            stars,
            dtn,
            dtd,
        ).0
    }
}

/// y momentum after the shared velocity update.
pub open spec fn s_momentum_next_y(g: int, stars: Seq<Star2D>, dtn: int, dtd: int, j: nat) -> int
    decreases j,
{
    if j == 0 {
        0
    } else {
        s_momentum_next_y(g, stars, dtn, dtd, (j - 1) as nat) + stars[j - 1].mass * s_next_vel(
            g,
            stars[j - 1],
            stars,
            dtn,
            dtd,
        ).1
    }
}

/// One body's rounded momentum change differs from its exact force impulse
/// by less than one rounding unit per division.
proof fn lemma_body_dv_err(g: int, stars: Seq<Star2D>, i: int, dtn: int, dtd: int)
    requires
        0 <= i < stars.len(),
        stars[i].mass >= 1,
        dtn >= 1,
        dtd >= 1,
    ensures
        s_abs(
            dtd * (stars[i].mass * s_dv(g, stars[i], stars, dtn, dtd).0) - dtn * s_tf_x(
                g,
                stars,
                i,
                stars.len() as int,
            ),
        ) <= (dtn + dtd) * stars[i].mass,
        s_abs(
            dtd * (stars[i].mass * s_dv(g, stars[i], stars, dtn, dtd).1) - dtn * s_tf_y(
                g,
                stars,
                i,
                stars.len() as int,
            ),
        ) <= (dtn + dtd) * stars[i].mass,
{
    assert(stars.take(stars.len() as int) =~= stars);
    let b = stars[i];
    let m = b.mass as int;
    let fx = s_tf_x(g, stars, i, stars.len() as int);
    let fy = s_tf_y(g, stars, i, stars.len() as int);
    let ax = s_accel(g, b, stars).0;
    let ay = s_accel(g, b, stars).1;
    let dvx = s_dv(g, b, stars, dtn, dtd).0;
    let dvy = s_dv(g, b, stars, dtn, dtd).1;
    lemma_tdiv_error(fx, m);
    lemma_tdiv_error(fy, m);
    lemma_tdiv_error(ax * dtn, dtd);
    lemma_tdiv_error(ay * dtn, dtd);
    assert(dtd * (m * dvx) - dtn * fx == m * (dtd * dvx - ax * dtn) + dtn * (m * ax - fx))
        by (nonlinear_arith);
    assert(dtd * (m * dvy) - dtn * fy == m * (dtd * dvy - ay * dtn) + dtn * (m * ay - fy))
        by (nonlinear_arith);
    assert(s_abs(m * (dtd * dvx - ax * dtn)) <= m * (dtd - 1) && s_abs(
        m * (dtd * dvy - ay * dtn),
    ) <= m * (dtd - 1)) by (nonlinear_arith)
        requires
            m >= 1,
            s_abs(dtd * dvx - ax * dtn) <= dtd - 1,
            s_abs(dtd * dvy - ay * dtn) <= dtd - 1,
    ;
    assert(s_abs(dtn * (m * ax - fx)) <= dtn * (m - 1) && s_abs(dtn * (m * ay - fy)) <= dtn * (m
        - 1)) by (nonlinear_arith)
        requires
            dtn >= 1,
            s_abs(m * ax - fx) <= m - 1,
            s_abs(m * ay - fy) <= m - 1,
    ;
    assert(m * (dtd - 1) + dtn * (m - 1) <= (dtn + dtd) * m) by (nonlinear_arith)
        requires
            m >= 1,
            dtn >= 1,
            dtd >= 1,
    ;
}

/// The summed rounded momentum change tracks the summed force impulse
/// within one rounding unit per body.
proof fn lemma_dv_sum_err(g: int, stars: Seq<Star2D>, dtn: int, dtd: int, j: nat)
    requires
        j <= stars.len(),
        dtn >= 1,
        dtd >= 1,
        forall|i: int| 0 <= i < stars.len() ==> (#[trigger] stars[i]).mass >= 1,
    ensures
        s_abs(
            dtd * (s_momentum_next_x(g, stars, dtn, dtd, j) - s_momentum_x(stars, j)) - dtn
                * s_sum_tf_x(g, stars, stars.len() as int, j),
        ) <= (dtn + dtd) * s_mass_total(stars, j),
        s_abs(
            dtd * (s_momentum_next_y(g, stars, dtn, dtd, j) - s_momentum_y(stars, j)) - dtn
                * s_sum_tf_y(g, stars, stars.len() as int, j),
        ) <= (dtn + dtd) * s_mass_total(stars, j),
        s_mass_total(stars, j) >= 0,
    decreases j,
{
    if j > 0 {
        let j1 = (j - 1) as nat;
        lemma_dv_sum_err(g, stars, dtn, dtd, j1);
        lemma_body_dv_err(g, stars, j - 1, dtn, dtd);
        let b = stars[j - 1];
        let m = b.mass as int;
        assert(m * s_next_vel(g, b, stars, dtn, dtd).0 - m * b.velocity.x == m * s_dv(
            g,
            b,
            stars,
            dtn,
            dtd,
        ).0 && m * s_next_vel(g, b, stars, dtn, dtd).1 - m * b.velocity.y == m * s_dv(
            g,
            b,
            stars,
            dtn,
            dtd,
        ).1) by (nonlinear_arith)
            requires
                s_next_vel(g, b, stars, dtn, dtd).0 == b.velocity.x + s_dv(g, b, stars, dtn, dtd).0,
                s_next_vel(g, b, stars, dtn, dtd).1 == b.velocity.y + s_dv(g, b, stars, dtn, dtd).1,
        ;
        assert((dtn + dtd) * s_mass_total(stars, j1) + (dtn + dtd) * m == (dtn + dtd)
            * s_mass_total(stars, j)) by (nonlinear_arith)
            requires
                s_mass_total(stars, j) == s_mass_total(stars, j1) + m,
        ;
        let n = stars.len() as int;
        let mnx1 = s_momentum_next_x(g, stars, dtn, dtd, j1);
        let mnx = s_momentum_next_x(g, stars, dtn, dtd, j);
        let mx1 = s_momentum_x(stars, j1);
        let mx = s_momentum_x(stars, j);
        let sx1 = s_sum_tf_x(g, stars, n, j1);
        let sx = s_sum_tf_x(g, stars, n, j);
        let tfx = s_tf_x(g, stars, j - 1, n);
        let nvx = s_next_vel(g, b, stars, dtn, dtd).0;
        let vx = b.velocity.x as int;
        let dvx = s_dv(g, b, stars, dtn, dtd).0;
        assert(mnx == mnx1 + m * nvx && mx == mx1 + m * vx && sx == sx1 + tfx);
        assert(dtd * (mnx - mx) - dtn * sx == (dtd * (mnx1 - mx1) - dtn * sx1) + (dtd * (m * dvx)
            - dtn * tfx)) by (nonlinear_arith)
            requires
                mnx == mnx1 + m * nvx,
                mx == mx1 + m * vx,
                sx == sx1 + tfx,
                m * nvx - m * vx == m * dvx,
        ;
        let mny1 = s_momentum_next_y(g, stars, dtn, dtd, j1);
        let mny = s_momentum_next_y(g, stars, dtn, dtd, j);
        let my1 = s_momentum_y(stars, j1);
        let my = s_momentum_y(stars, j);
        let sy1 = s_sum_tf_y(g, stars, n, j1);
        let sy = s_sum_tf_y(g, stars, n, j);
        let tfy = s_tf_y(g, stars, j - 1, n);
        let nvy = s_next_vel(g, b, stars, dtn, dtd).1;
        let vy = b.velocity.y as int;
        let dvy = s_dv(g, b, stars, dtn, dtd).1;
        assert(mny == mny1 + m * nvy && my == my1 + m * vy && sy == sy1 + tfy);
        assert(dtd * (mny - my) - dtn * sy == (dtd * (mny1 - my1) - dtn * sy1) + (dtd * (m * dvy)
            - dtn * tfy)) by (nonlinear_arith)
            requires
                mny == mny1 + m * nvy,
                my == my1 + m * vy,
                sy == sy1 + tfy,
                m * nvy - m * vy == m * dvy,
        ;
        let hx = dtd * (mnx1 - mx1) - dtn * sx1;
        let kx = dtd * (m * dvx) - dtn * tfx;
        let hy = dtd * (mny1 - my1) - dtn * sy1;
        let ky = dtd * (m * dvy) - dtn * tfy;
        assert(s_abs(hx) <= (dtn + dtd) * s_mass_total(stars, j1));
        assert(s_abs(kx) <= (dtn + dtd) * m);
        assert(s_abs(hx + kx) <= s_abs(hx) + s_abs(kx));
        assert(s_abs(hy + ky) <= s_abs(hy) + s_abs(ky));
        assert(s_abs(dtd * (mnx - mx) - dtn * sx) <= (dtn + dtd) * s_mass_total(stars, j));
        assert(s_abs(dtd * (mny - my) - dtn * sy) <= (dtn + dtd) * s_mass_total(stars, j));
    } else {
        let n = stars.len() as int;
        assert(s_momentum_next_x(g, stars, dtn, dtd, j) == 0);
        assert(s_momentum_x(stars, j) == 0);
        assert(s_sum_tf_x(g, stars, n, j) == 0);
        assert(s_momentum_next_y(g, stars, dtn, dtd, j) == 0);
        assert(s_momentum_y(stars, j) == 0);
        assert(s_sum_tf_y(g, stars, n, j) == 0);
        assert(s_mass_total(stars, j) == 0);
        assert((dtn + dtd) * s_mass_total(stars, j) == 0) by (nonlinear_arith)
            requires
                s_mass_total(stars, j) == 0,
        ;
    }
}

/// Momentum conservation up to rounding, for the velocity update shared by
/// the Euler-average and velocity-Verlet schemes: because the internal
/// forces cancel exactly, the total momentum change of one step — scaled by
/// the timestep denominator — is bounded by `(dt_num + dt_den)` times the
/// total mass, i.e. each body contributes at most about one unit of
/// division rounding and nothing more.
pub proof fn lemma_momentum_drift(g: int, stars: Seq<Star2D>, dtn: int, dtd: int)
    requires
        dtn >= 1,
        dtd >= 1,
        forall|i: int| 0 <= i < stars.len() ==> (#[trigger] stars[i]).mass >= 1,
    ensures
        s_abs(
            dtd * (s_momentum_next_x(g, stars, dtn, dtd, stars.len()) - s_momentum_x(
                stars,
                stars.len(),
            )),
        ) <= (dtn + dtd) * s_mass_total(stars, stars.len()),
        s_abs(
            dtd * (s_momentum_next_y(g, stars, dtn, dtd, stars.len()) - s_momentum_y(
                stars,
                stars.len(),
            )),
        ) <= (dtn + dtd) * s_mass_total(stars, stars.len()),
{
    let n = stars.len();
    lemma_dv_sum_err(g, stars, dtn, dtd, n);
    lemma_total_force_sum_zero(g, stars, n);
}

/// Point symmetry is preserved by one step of the Runge-Kutta scheme as
/// well: every synthetic evaluation point and the blended update mirror.
pub proof fn lemma_symmetry_preserved_rk4(g: int, stars: Seq<Star2D>, dtn: int, dtd: int)
    requires
        s_mirror_pair(stars),
        stars[0].mass >= 1,
        dtn >= 1,
        dtd >= 1,
    ensures
        s_rk4_pos(g, stars[1], stars, dtn, dtd).0 == -s_rk4_pos(g, stars[0], stars, dtn, dtd).0,
        s_rk4_pos(g, stars[1], stars, dtn, dtd).1 == -s_rk4_pos(g, stars[0], stars, dtn, dtd).1,
        s_rk4_vel(g, stars[1], stars, dtn, dtd).0 == -s_rk4_vel(g, stars[0], stars, dtn, dtd).0,
        s_rk4_vel(g, stars[1], stars, dtn, dtd).1 == -s_rk4_vel(g, stars[0], stars, dtn, dtd).1,
{
    let b0 = stars[0];
    let b1 = stars[1];
    let m = b0.mass as int;
    lemma_accel_mirror_pair(g, stars, m, b0.position.x as int, b0.position.y as int);
    let a1x = s_accel(g, b0, stars).0;
    let a1y = s_accel(g, b0, stars).1;
    // stage 2 point mirrors
    lemma_tdiv_neg_num(b0.velocity.x as int, dtn, 2 * dtd);
    lemma_tdiv_neg_num(b0.velocity.y as int, dtn, 2 * dtd);
    lemma_tdiv_neg_num(a1x, dtn, 2 * dtd);
    lemma_tdiv_neg_num(a1y, dtn, 2 * dtd);
    let p2x = s_rk4_p2(b0, dtn, dtd).0;
    let p2y = s_rk4_p2(b0, dtn, dtd).1;
    let v2x = s_rk4_v2(g, b0, stars, dtn, dtd).0;
    let v2y = s_rk4_v2(g, b0, stars, dtn, dtd).1;
    assert(s_rk4_p2(b1, dtn, dtd).0 == -p2x && s_rk4_p2(b1, dtn, dtd).1 == -p2y);
    assert(s_rk4_v2(g, b1, stars, dtn, dtd).0 == -v2x && s_rk4_v2(g, b1, stars, dtn, dtd).1
        == -v2y);
    lemma_accel_mirror_pair(g, stars, m, p2x, p2y);
    let a2x = s_rk4_a2(g, b0, stars, dtn, dtd).0;
    let a2y = s_rk4_a2(g, b0, stars, dtn, dtd).1;
    assert(s_rk4_a2(g, b1, stars, dtn, dtd).0 == -a2x && s_rk4_a2(g, b1, stars, dtn, dtd).1
        == -a2y);
    // stage 3 point mirrors
    lemma_tdiv_neg_num(v2x, dtn, 2 * dtd);
    lemma_tdiv_neg_num(v2y, dtn, 2 * dtd);
    lemma_tdiv_neg_num(a2x, dtn, 2 * dtd);
    lemma_tdiv_neg_num(a2y, dtn, 2 * dtd);
    let p3x = s_rk4_p3(g, b0, stars, dtn, dtd).0;
    let p3y = s_rk4_p3(g, b0, stars, dtn, dtd).1;
    let v3x = s_rk4_v3(g, b0, stars, dtn, dtd).0;
    let v3y = s_rk4_v3(g, b0, stars, dtn, dtd).1;
    assert(s_rk4_p3(g, b1, stars, dtn, dtd).0 == -p3x && s_rk4_p3(g, b1, stars, dtn, dtd).1
        == -p3y);
    assert(s_rk4_v3(g, b1, stars, dtn, dtd).0 == -v3x && s_rk4_v3(g, b1, stars, dtn, dtd).1
        == -v3y);
    lemma_accel_mirror_pair(g, stars, m, p3x, p3y);
    let a3x = s_rk4_a3(g, b0, stars, dtn, dtd).0;
    let a3y = s_rk4_a3(g, b0, stars, dtn, dtd).1;
    assert(s_rk4_a3(g, b1, stars, dtn, dtd).0 == -a3x && s_rk4_a3(g, b1, stars, dtn, dtd).1
        == -a3y);
    // stage 4 point mirrors
    lemma_tdiv_neg_num(v3x, dtn, dtd);
    lemma_tdiv_neg_num(v3y, dtn, dtd);
    lemma_tdiv_neg_num(a3x, dtn, dtd);
    lemma_tdiv_neg_num(a3y, dtn, dtd);
    let p4x = s_rk4_p4(g, b0, stars, dtn, dtd).0;
    let p4y = s_rk4_p4(g, b0, stars, dtn, dtd).1;
    let v4x = s_rk4_v4(g, b0, stars, dtn, dtd).0;
    let v4y = s_rk4_v4(g, b0, stars, dtn, dtd).1;
    assert(s_rk4_p4(g, b1, stars, dtn, dtd).0 == -p4x && s_rk4_p4(g, b1, stars, dtn, dtd).1
        == -p4y);
    assert(s_rk4_v4(g, b1, stars, dtn, dtd).0 == -v4x && s_rk4_v4(g, b1, stars, dtn, dtd).1
        == -v4y);
    lemma_accel_mirror_pair(g, stars, m, p4x, p4y);
    let a4x = s_rk4_a4(g, b0, stars, dtn, dtd).0;
    let a4y = s_rk4_a4(g, b0, stars, dtn, dtd).1;
    assert(s_rk4_a4(g, b1, stars, dtn, dtd).0 == -a4x && s_rk4_a4(g, b1, stars, dtn, dtd).1
        == -a4y);
    // blended sums mirror
    let vsx = b0.velocity.x as int + 2 * v2x + 2 * v3x + v4x;
    let vsy = b0.velocity.y as int + 2 * v2y + 2 * v3y + v4y;
    let asx = a1x + 2 * a2x + 2 * a3x + a4x;
    let asy = a1y + 2 * a2y + 2 * a3y + a4y;
    lemma_tdiv_neg_num(vsx, dtn, 6 * dtd);
    lemma_tdiv_neg_num(vsy, dtn, 6 * dtd);
    lemma_tdiv_neg_num(asx, dtn, 6 * dtd);
    lemma_tdiv_neg_num(asy, dtn, 6 * dtd);
}


/// Exact pair force between indexed bodies of a ghost position list (no
/// division by the receiving mass); zero on the diagonal.
pub open spec fn s_pf3_x(g: int, ms: Seq<i64>, ps: Seq<(int, int)>, i: int, j: int) -> int {
    if i == j {
        0
    } else {
        s_force_x(g, ms[i] as int, ms[j] as int, ps[i].0, ps[i].1, ps[j].0, ps[j].1)
    }
}

/// The y component of the exact pair force.
pub open spec fn s_pf3_y(g: int, ms: Seq<i64>, ps: Seq<(int, int)>, i: int, j: int) -> int {
    if i == j {
        0
    } else {
        s_force_y(g, ms[i] as int, ms[j] as int, ps[i].0, ps[i].1, ps[j].0, ps[j].1)
    }
}

/// Exact total x force on body `i` from partners `0..k`.
pub open spec fn s_f3_x(g: int, ms: Seq<i64>, ps: Seq<(int, int)>, i: int, k: nat) -> int
    decreases k,
{
    if k == 0 {
        0
    } else {
        s_f3_x(g, ms, ps, i, (k - 1) as nat) + s_pf3_x(g, ms, ps, i, k - 1)
    }
}

/// Exact total y force on body `i` from partners `0..k`.
pub open spec fn s_f3_y(g: int, ms: Seq<i64>, ps: Seq<(int, int)>, i: int, k: nat) -> int
    decreases k,
{
    if k == 0 {
        0
    } else {
        s_f3_y(g, ms, ps, i, (k - 1) as nat) + s_pf3_y(g, ms, ps, i, k - 1)
    }
}

/// `sum_{i < j} s_f3_x(i, k)`.
pub open spec fn s_sumf3_x(g: int, ms: Seq<i64>, ps: Seq<(int, int)>, k: nat, j: nat) -> int
    decreases j,
{
    if j == 0 {
        0
    } else {
        s_sumf3_x(g, ms, ps, k, (j - 1) as nat) + s_f3_x(g, ms, ps, j - 1, k)
    }
}

/// `sum_{i < j} s_f3_y(i, k)`.
pub open spec fn s_sumf3_y(g: int, ms: Seq<i64>, ps: Seq<(int, int)>, k: nat, j: nat) -> int
    decreases j,
{
    if j == 0 {
        0
    } else {
        s_sumf3_y(g, ms, ps, k, (j - 1) as nat) + s_f3_y(g, ms, ps, j - 1, k)
    }
}

/// `sum_{i < j} s_pf3(i, k)`: the exact force the prefix exerts on `k`.
pub open spec fn s_cross3_x(g: int, ms: Seq<i64>, ps: Seq<(int, int)>, k: int, j: nat) -> int
    decreases j,
{
    if j == 0 {
        0
    } else {
        s_cross3_x(g, ms, ps, k, (j - 1) as nat) + s_pf3_x(g, ms, ps, j - 1, k)
    }
}

/// The y component of the cross sum.
pub open spec fn s_cross3_y(g: int, ms: Seq<i64>, ps: Seq<(int, int)>, k: int, j: nat) -> int
    decreases j,
{
    if j == 0 {
        0
    } else {
        s_cross3_y(g, ms, ps, k, (j - 1) as nat) + s_pf3_y(g, ms, ps, j - 1, k)
    }
}

/// Newton's third law between two indexed bodies of a position list.
proof fn lemma_pf3_antisym(g: int, ms: Seq<i64>, ps: Seq<(int, int)>, i: int, j: int)
    ensures
        s_pf3_x(g, ms, ps, i, j) == -s_pf3_x(g, ms, ps, j, i),
        s_pf3_y(g, ms, ps, i, j) == -s_pf3_y(g, ms, ps, j, i),
{
    if i != j {
        lemma_force_antisym(g, ms[i] as int, ms[j] as int, ps[i].0, ps[i].1, ps[j].0, ps[j].1);
    }
}

/// The exact force the prefix exerts on body `k` cancels what body `k`
/// exerts back.
proof fn lemma_cross3_cancel(g: int, ms: Seq<i64>, ps: Seq<(int, int)>, k: int, j: nat)
    ensures
        s_cross3_x(g, ms, ps, k, j) + s_f3_x(g, ms, ps, k, j) == 0,
        s_cross3_y(g, ms, ps, k, j) + s_f3_y(g, ms, ps, k, j) == 0,
    decreases j,
{
    if j > 0 {
        lemma_cross3_cancel(g, ms, ps, k, (j - 1) as nat);
        lemma_pf3_antisym(g, ms, ps, j - 1, k);
    }
}

/// Extending the partner prefix of the summed exact forces adds the cross
/// sum.
proof fn lemma_sumf3_shift(g: int, ms: Seq<i64>, ps: Seq<(int, int)>, k: nat, j: nat)
    ensures
        s_sumf3_x(g, ms, ps, (k + 1) as nat, j) == s_sumf3_x(g, ms, ps, k, j) + s_cross3_x(
            g,
            ms,
            ps,
            k as int,
            j,
        ),
        s_sumf3_y(g, ms, ps, (k + 1) as nat, j) == s_sumf3_y(g, ms, ps, k, j) + s_cross3_y(
            g,
            ms,
            ps,
            k as int,
            j,
        ),
    decreases j,
{
    if j > 0 {
        lemma_sumf3_shift(g, ms, ps, k, (j - 1) as nat);
    }
}

/// The exact internal forces of the three-body derivative cancel: summed
/// over any prefix of bodies, the pairwise forces within the prefix add to
/// the zero vector.
pub proof fn lemma_f3_sum_zero(g: int, ms: Seq<i64>, ps: Seq<(int, int)>, k: nat)
    ensures
        s_sumf3_x(g, ms, ps, k, k) == 0,
        s_sumf3_y(g, ms, ps, k, k) == 0,
    decreases k,
{
    if k > 0 {
        let k1 = (k - 1) as nat;
        lemma_f3_sum_zero(g, ms, ps, k1);
        lemma_sumf3_shift(g, ms, ps, k1, k1);
        lemma_cross3_cancel(g, ms, ps, k - 1, k1);
    }
}

/// Total mass of the first `j` entries of a mass list.
pub open spec fn s_mass3(ms: Seq<i64>, j: nat) -> int
    decreases j,
{
    if j == 0 {
        0
    } else {
        s_mass3(ms, (j - 1) as nat) + ms[j - 1]
    }
}

/// Mass-weighted sum of the x accelerations of the first `j` bodies: the
/// rate of change of total x momentum under the three-body derivative.
pub open spec fn s_wacc_x(g: int, ms: Seq<i64>, ps: Seq<(int, int)>, j: nat) -> int
    decreases j,
{
    if j == 0 {
        0
    } else {
        s_wacc_x(g, ms, ps, (j - 1) as nat) + ms[j - 1] * s_acc3_x(g, ms, ps, j - 1)
    }
}

/// Mass-weighted sum of the y accelerations of the first `j` bodies.
pub open spec fn s_wacc_y(g: int, ms: Seq<i64>, ps: Seq<(int, int)>, j: nat) -> int
    decreases j,
{
    if j == 0 {
        0
    } else {
        s_wacc_y(g, ms, ps, (j - 1) as nat) + ms[j - 1] * s_acc3_y(g, ms, ps, j - 1)
    }
}

/// One body's mass-weighted rounded acceleration tracks its exact total
/// force within one rounding unit per partner.
proof fn lemma_acc3_err(g: int, ms: Seq<i64>, ps: Seq<(int, int)>, i: int, k: nat)
    requires
        0 <= i < ms.len(),
        ms[i] >= 1,
    ensures
        s_abs(ms[i] * s_acc_x_upto(g, ms, ps, i, k) - s_f3_x(g, ms, ps, i, k)) <= k * (ms[i] - 1),
        s_abs(ms[i] * s_acc_y_upto(g, ms, ps, i, k) - s_f3_y(g, ms, ps, i, k)) <= k * (ms[i] - 1),
    decreases k,
{
    let m = ms[i] as int;
    if k == 0 {
        assert(m * 0 == 0) by (nonlinear_arith);
    } else {
        let k1 = (k - 1) as nat;
        lemma_acc3_err(g, ms, ps, i, k1);
        assert(k * (m - 1) == k1 * (m - 1) + (m - 1) && k1 * (m - 1) <= k * (m - 1))
            by (nonlinear_arith)
            requires
                m >= 1,
                k == k1 + 1,
        ;
        let ax1 = s_acc_x_upto(g, ms, ps, i, k1);
        let ay1 = s_acc_y_upto(g, ms, ps, i, k1);
        let fx1 = s_f3_x(g, ms, ps, i, k1);
        let fy1 = s_f3_y(g, ms, ps, i, k1);
        if k - 1 == i {
            assert(m * ax1 == m * s_acc_x_upto(g, ms, ps, i, k) && m * ay1 == m * s_acc_y_upto(
                g,
                ms,
                ps,
                i,
                k,
            )) by (nonlinear_arith)
                requires
                    s_acc_x_upto(g, ms, ps, i, k) == ax1,
                    s_acc_y_upto(g, ms, ps, i, k) == ay1,
            ;
        } else {
            let fx = s_pf3_x(g, ms, ps, i, k - 1);
            let fy = s_pf3_y(g, ms, ps, i, k - 1);
            let pax = s_pair_acc_x(g, ms, ps, i, k - 1);
            let pay = s_pair_acc_y(g, ms, ps, i, k - 1);
            lemma_tdiv_error(fx, m);
            lemma_tdiv_error(fy, m);
            assert(m * s_acc_x_upto(g, ms, ps, i, k) - s_f3_x(g, ms, ps, i, k) == (m * ax1 - fx1)
                + (m * pax - fx) && m * s_acc_y_upto(g, ms, ps, i, k) - s_f3_y(g, ms, ps, i, k)
                == (m * ay1 - fy1) + (m * pay - fy)) by (nonlinear_arith)
                requires
                    s_acc_x_upto(g, ms, ps, i, k) == ax1 + pax,
                    s_f3_x(g, ms, ps, i, k) == fx1 + fx,
                    s_acc_y_upto(g, ms, ps, i, k) == ay1 + pay,
                    s_f3_y(g, ms, ps, i, k) == fy1 + fy,
            ;
        }
    }
}

/// Momentum conservation up to rounding for the three-body derivative: the
/// mass-weighted accelerations sum to at most `len` rounding units per
/// body on each axis, because the exact pair forces cancel and each
/// division by a mass loses less than one unit.
pub proof fn lemma_deriv_momentum_bound(g: int, ms: Seq<i64>, ps: Seq<(int, int)>, j: nat)
    requires
        j <= ms.len(),
        ps.len() == ms.len(),
        forall|i: int| 0 <= i < ms.len() ==> #[trigger] ms[i] >= 1,
    ensures
        s_abs(s_wacc_x(g, ms, ps, j) - s_sumf3_x(g, ms, ps, ps.len(), j)) <= ps.len() * s_mass3(
            ms,
            j,
        ),
        s_abs(s_wacc_y(g, ms, ps, j) - s_sumf3_y(g, ms, ps, ps.len(), j)) <= ps.len() * s_mass3(
            ms,
            j,
        ),
        s_mass3(ms, j) >= 0,
        j == ms.len() ==> s_abs(s_wacc_x(g, ms, ps, j)) <= ps.len() * s_mass3(ms, j) && s_abs(
            s_wacc_y(g, ms, ps, j),
        ) <= ps.len() * s_mass3(ms, j),
    decreases j,
{
    let n = ps.len();
    if j > 0 {
        let j1 = (j - 1) as nat;
        lemma_deriv_momentum_bound(g, ms, ps, j1);
        lemma_acc3_err(g, ms, ps, j - 1, n);
        let m = ms[j - 1] as int;
        assert(n * (m - 1) <= n * m && n * s_mass3(ms, j1) + n * m == n * s_mass3(ms, j))
            by (nonlinear_arith)
            requires
                m >= 1,
                s_mass3(ms, j) == s_mass3(ms, j1) + m,
        ;
    }
    if j == n {
        lemma_f3_sum_zero(g, ms, ps, n);
    }
}

} // verus!
