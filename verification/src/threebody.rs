//! The analytic three-body simulation: a known periodic configuration and
//! a full-state 4th-order Runge-Kutta integrator over `State`.
//!
//! The literal initial conditions are the periodic figure configuration
//! with equal masses of one third and a unit gravitational constant,
//! expressed in simulation units: one length unit is `1 / 300_000` of the
//! analytic configuration's length unit, masses are scaled so that
//! `g * m` matches, and the timestep rational counts the analytic time
//! unit.
use crate::force::{s_force_x, s_force_y};
use crate::num::{lemma_tdiv_bound, s_abs, s_tdiv, tdiv128};
use crate::state::{s_addseq, s_mulseq, seq_lim_ok, v2s, State, StateDerivative};
use crate::vec2::Vec2;
use crate::{SimError, BODY_MAX, DT_MAX, G_MAX, LIMIT, MASS_MAX};
use vstd::prelude::*;

verus! {

/// Every mass is positive and bounded.
pub open spec fn masses_wf(ms: Seq<i64>) -> bool {
    forall|i: int| 0 <= i < ms.len() ==> 0 < #[trigger] ms[i] <= MASS_MAX
}

/// The x acceleration contribution on body `i` from body `j`: the pair
/// force divided by the mass of `i`.
pub open spec fn s_pair_acc_x(g: int, ms: Seq<i64>, ps: Seq<(int, int)>, i: int, j: int) -> int {
    s_tdiv(
        s_force_x(g, ms[i] as int, ms[j] as int, ps[i].0, ps[i].1, ps[j].0, ps[j].1),
        ms[i] as int,
    )
}

/// The y acceleration contribution on body `i` from body `j`.
pub open spec fn s_pair_acc_y(g: int, ms: Seq<i64>, ps: Seq<(int, int)>, i: int, j: int) -> int {
    s_tdiv(
        s_force_y(g, ms[i] as int, ms[j] as int, ps[i].0, ps[i].1, ps[j].0, ps[j].1),
        ms[i] as int,
    )
}

/// Partial sum of the x acceleration of body `i` over partners `0..k`
/// (the self-pair contributes nothing).
pub open spec fn s_acc_x_upto(g: int, ms: Seq<i64>, ps: Seq<(int, int)>, i: int, k: nat) -> int
    decreases k,
{
    if k == 0 {
        0
    } else {
        s_acc_x_upto(g, ms, ps, i, (k - 1) as nat) + if k - 1 == i {
            0
        } else {
            s_pair_acc_x(g, ms, ps, i, k - 1)
        }
    }
}

/// Partial sum of the y acceleration of body `i` over partners `0..k`.
pub open spec fn s_acc_y_upto(g: int, ms: Seq<i64>, ps: Seq<(int, int)>, i: int, k: nat) -> int
    decreases k,
{
    if k == 0 {
        0
    } else {
        s_acc_y_upto(g, ms, ps, i, (k - 1) as nat) + if k - 1 == i {
            0
        } else {
            s_pair_acc_y(g, ms, ps, i, k - 1)
        }
    }
}

/// The x acceleration of body `i`: contributions from every other body.
pub open spec fn s_acc3_x(g: int, ms: Seq<i64>, ps: Seq<(int, int)>, i: int) -> int {
    s_acc_x_upto(g, ms, ps, i, ps.len())
}

/// The y acceleration of body `i`.
pub open spec fn s_acc3_y(g: int, ms: Seq<i64>, ps: Seq<(int, int)>, i: int) -> int {
    s_acc_y_upto(g, ms, ps, i, ps.len())
}

/// The acceleration of every body of a (ghost) position list.
pub open spec fn s_accseq(g: int, ms: Seq<i64>, ps: Seq<(int, int)>) -> Seq<(int, int)> {
    Seq::new(ps.len(), |i: int| (s_acc3_x(g, ms, ps, i), s_acc3_y(g, ms, ps, i)))
}

/// All accelerations at `ps` are representable.
pub open spec fn s_deriv_ok(g: int, ms: Seq<i64>, ps: Seq<(int, int)>) -> bool {
    seq_lim_ok(s_accseq(g, ms, ps))
}

/// The second Runge-Kutta evaluation state: `state + k1 * dt/2`.
pub open spec fn s_stage2(
    g: int,
    ms: Seq<i64>,
    ps: Seq<(int, int)>,
    vs: Seq<(int, int)>,
    dtn: int,
    dtd: int,
) -> (Seq<(int, int)>, Seq<(int, int)>) {
    (
        s_addseq(ps, s_mulseq(vs, dtn, 2 * dtd)),
        s_addseq(vs, s_mulseq(s_accseq(g, ms, ps), dtn, 2 * dtd)),
    )
}

/// The third evaluation state: `state + k2 * dt/2`.
pub open spec fn s_stage3(
    g: int,
    ms: Seq<i64>,
    ps: Seq<(int, int)>,
    vs: Seq<(int, int)>,
    dtn: int,
    dtd: int,
) -> (Seq<(int, int)>, Seq<(int, int)>) {
    (
        s_addseq(ps, s_mulseq(s_stage2(g, ms, ps, vs, dtn, dtd).1, dtn, 2 * dtd)),
        s_addseq(
            vs,
            s_mulseq(s_accseq(g, ms, s_stage2(g, ms, ps, vs, dtn, dtd).0), dtn, 2 * dtd),
        ),
    )
}

/// The fourth evaluation state: `state + k3 * dt`.
pub open spec fn s_stage4(
    g: int,
    ms: Seq<i64>,
    ps: Seq<(int, int)>,
    vs: Seq<(int, int)>,
    dtn: int,
    dtd: int,
) -> (Seq<(int, int)>, Seq<(int, int)>) {
    (
        s_addseq(ps, s_mulseq(s_stage3(g, ms, ps, vs, dtn, dtd).1, dtn, dtd)),
        s_addseq(vs, s_mulseq(s_accseq(g, ms, s_stage3(g, ms, ps, vs, dtn, dtd).0), dtn, dtd)),
    )
}

/// The blended Runge-Kutta result:
/// `state + ((k1 + 2*k2 + 2*k3 + k4) / 6) * dt`.
pub open spec fn s_rk4_next3(
    g: int,
    ms: Seq<i64>,
    ps: Seq<(int, int)>,
    vs: Seq<(int, int)>,
    dtn: int,
    dtd: int,
) -> (Seq<(int, int)>, Seq<(int, int)>) {
    let v2 = s_stage2(g, ms, ps, vs, dtn, dtd).1;
    let p2 = s_stage2(g, ms, ps, vs, dtn, dtd).0;
    let v3 = s_stage3(g, ms, ps, vs, dtn, dtd).1;
    let p3 = s_stage3(g, ms, ps, vs, dtn, dtd).0;
    let v4 = s_stage4(g, ms, ps, vs, dtn, dtd).1;
    let p4 = s_stage4(g, ms, ps, vs, dtn, dtd).0;
    let vsum = s_addseq(s_addseq(s_addseq(vs, s_mulseq(v2, 2, 1)), s_mulseq(v3, 2, 1)), v4);
    let asum = s_addseq(
        s_addseq(
            s_addseq(s_accseq(g, ms, ps), s_mulseq(s_accseq(g, ms, p2), 2, 1)),
            s_mulseq(s_accseq(g, ms, p3), 2, 1),
        ),
        s_accseq(g, ms, p4),
    );
    (
        s_addseq(ps, s_mulseq(s_mulseq(vsum, 1, 6), dtn, dtd)),
        s_addseq(vs, s_mulseq(s_mulseq(asum, 1, 6), dtn, dtd)),
    )
}

/// Every evaluation state and the final update stay representable.
pub open spec fn s_step3_ok(
    g: int,
    ms: Seq<i64>,
    ps: Seq<(int, int)>,
    vs: Seq<(int, int)>,
    dtn: int,
    dtd: int,
) -> bool {
    let p2 = s_stage2(g, ms, ps, vs, dtn, dtd).0;
    let v2 = s_stage2(g, ms, ps, vs, dtn, dtd).1;
    let p3 = s_stage3(g, ms, ps, vs, dtn, dtd).0;
    let v3 = s_stage3(g, ms, ps, vs, dtn, dtd).1;
    let p4 = s_stage4(g, ms, ps, vs, dtn, dtd).0;
    let v4 = s_stage4(g, ms, ps, vs, dtn, dtd).1;
    &&& s_deriv_ok(g, ms, ps)
    &&& seq_lim_ok(p2)
    &&& seq_lim_ok(v2)
    &&& s_deriv_ok(g, ms, p2)
    &&& seq_lim_ok(p3)
    &&& seq_lim_ok(v3)
    &&& s_deriv_ok(g, ms, p3)
    &&& seq_lim_ok(p4)
    &&& seq_lim_ok(v4)
    &&& s_deriv_ok(g, ms, p4)
    &&& seq_lim_ok(s_rk4_next3(g, ms, ps, vs, dtn, dtd).0)
    &&& seq_lim_ok(s_rk4_next3(g, ms, ps, vs, dtn, dtd).1)
}

/// Components within `[-LIMIT, LIMIT]` are small in magnitude.
proof fn lemma_lim_abs(v: Seq<Vec2>)
    requires
        seq_lim_ok(v2s(v)),
    ensures
        forall|i: int|
            0 <= i < v.len() ==> s_abs((#[trigger] v[i]).x as int) <= 1_000_000_000 && s_abs(
                v[i].y as int,
            ) <= 1_000_000_000,
{
    assert forall|i: int|
        0 <= i < v.len() implies s_abs((#[trigger] v[i]).x as int) <= 1_000_000_000 && s_abs(
        v[i].y as int,
    ) <= 1_000_000_000 by {
        assert(v2s(v)[i].0 == v[i].x as int && v2s(v)[i].1 == v[i].y as int);
    }
}

/// Exact copy of a vector list.
fn copy_vecs(v: &Vec<Vec2>) -> (r: Vec<Vec2>)
    ensures
        r@ == v@,
{
    let n = v.len();
    let mut out: Vec<Vec2> = Vec::new();
    let mut i: usize = 0;
    while i < n
        invariant
            i <= n,
            n == v@.len(),
            out@.len() == i,
            forall|k: int| 0 <= k < i ==> out@[k] == v@[k],
        decreases n - i,
    {
        let e = v[i];
        out.push(e);
        i = i + 1;
    }
    proof {
        assert(out@ =~= v@);
    }
    out
}

/// Evaluates the derivative of a state: the velocities unchanged, and for
/// each body the acceleration summed over every other body, each pair
/// contribution `g * m_i * m_j * d / r^3` divided by the body's own mass.
/// An acceleration outside the representable range is reported as
/// `OutOfRange`.
#[verifier::loop_isolation(false)]
pub fn get_state_derivative(state: &State, masses: &Vec<i64>, g: i64) -> (r: Result<
    StateDerivative,
    SimError,
>)
    requires
        state.wf(),
        masses@.len() == state.positions@.len(),
        masses_wf(masses@),
        1 <= g <= G_MAX,
    ensures
        r is Ok <==> s_deriv_ok(g as int, masses@, v2s(state.positions@)),
        r matches Ok(d) ==> {
            &&& d.velocities@ == state.velocities@
            &&& d.accelerations@.len() == state.positions@.len()
            &&& v2s(d.accelerations@) == s_accseq(g as int, masses@, v2s(state.positions@))
            &&& seq_lim_ok(v2s(d.accelerations@))
        },
        r is Err ==> r == Err::<StateDerivative, SimError>(SimError::OutOfRange),
{
    let ghost ps = v2s(state.positions@);
    let n = state.positions.len();
    let lim = LIMIT as i128;
    let mut acc: Vec<Vec2> = Vec::new();
    let mut i: usize = 0;
    proof {
        lemma_lim_abs(state.positions@);
    }
    while i < n
        invariant
            i <= n,
            acc@.len() == i,
            forall|k: int|
                0 <= k < i ==> (#[trigger] acc@[k]).x == s_acc3_x(g as int, masses@, ps, k)
                    && acc@[k].y == s_acc3_y(g as int, masses@, ps, k) && -(LIMIT as int)
                    <= acc@[k].x <= LIMIT as int && -(LIMIT as int) <= acc@[k].y <= LIMIT as int,
        decreases n - i,
    {
        let mi = masses_at(masses, i);
        let pi = positions_at(&state.positions, i);
        let mut fx: i128 = 0;
        let mut fy: i128 = 0;
        let mut j: usize = 0;
        while j < n
            invariant
                j <= n,
                i < n,
                fx == s_acc_x_upto(g as int, masses@, ps, i as int, j as nat),
                fy == s_acc_y_upto(g as int, masses@, ps, i as int, j as nat),
                s_abs(fx as int) <= 2 * g * (MASS_MAX as int) * j,
                s_abs(fy as int) <= 2 * g * (MASS_MAX as int) * j,
                mi == masses@[i as int],
                pi == state.positions@[i as int],
            decreases n - j,
        {
            proof {
                assert(s_abs(fx as int) <= 820_000_000_000_000_000_000 && s_abs(fy as int)
                    <= 820_000_000_000_000_000_000) by (nonlinear_arith)
                    requires
                        s_abs(fx as int) <= 2 * g * (MASS_MAX as int) * j,
                        s_abs(fy as int) <= 2 * g * (MASS_MAX as int) * j,
                        1 <= g <= G_MAX,
                        j <= BODY_MAX,
                        G_MAX == 100_000_000,
                        MASS_MAX == 100_000_000,
                        BODY_MAX == 4096,
                ;
            }
            if j != i {
                let mj = masses_at(masses, j);
                let pj = positions_at(&state.positions, j);
                let f = crate::force::gravitational_force_components(g, mi, mj, pi, pj);
                proof {
                    assert(s_abs(f.0 as int) <= (2 * g * mj) * mi && s_abs(f.1 as int) <= (2 * g
                        * mj) * mi && s_abs(f.0 as int) <= 2_000_000_000_000_000_000_000_000
                        && s_abs(f.1 as int) <= 2_000_000_000_000_000_000_000_000)
                        by (nonlinear_arith)
                        requires
                            s_abs(f.0 as int) <= 2 * g * mi * mj,
                            s_abs(f.1 as int) <= 2 * g * mi * mj,
                            1 <= g <= G_MAX,
                            0 < mi <= MASS_MAX,
                            0 < mj <= MASS_MAX,
                            G_MAX == 100_000_000,
                            MASS_MAX == 100_000_000,
                    ;
                }
                let pax = tdiv128(f.0, mi as i128);
                let pay = tdiv128(f.1, mi as i128);
                proof {
                    assert(2 * g * mj >= 0 && 2 * g * mj <= 2 * g * (MASS_MAX as int) && 2 * g * (
                    MASS_MAX as int) <= 20_000_000_000_000_000) by (nonlinear_arith)
                        requires
                            1 <= g <= G_MAX,
                            0 < mj <= MASS_MAX,
                            G_MAX == 100_000_000,
                            MASS_MAX == 100_000_000,
                    ;
                    lemma_tdiv_bound(f.0 as int, mi as int, mi as int, 2 * g * mj);
                    lemma_tdiv_bound(f.1 as int, mi as int, mi as int, 2 * g * mj);
                    assert(pax as int == s_pair_acc_x(g as int, masses@, ps, i as int, j as int)
                        && pay as int == s_pair_acc_y(g as int, masses@, ps, i as int, j as int));
                }
                fx = fx + pax;
                fy = fy + pay;
                proof {
                    assert(s_abs(fx as int) <= 2 * g * (MASS_MAX as int) * (j + 1) && s_abs(
                        fy as int,
                    ) <= 2 * g * (MASS_MAX as int) * (j + 1)) by (nonlinear_arith)
                        requires
                            s_abs(fx as int) <= 2 * g * (MASS_MAX as int) * j + 2 * g * (
                            MASS_MAX as int),
                            s_abs(fy as int) <= 2 * g * (MASS_MAX as int) * j + 2 * g * (
                            MASS_MAX as int),
                    ;
                }
            } else {
                proof {
                    assert(s_abs(fx as int) <= 2 * g * (MASS_MAX as int) * (j + 1) && s_abs(
                        fy as int,
                    ) <= 2 * g * (MASS_MAX as int) * (j + 1)) by (nonlinear_arith)
                        requires
                            s_abs(fx as int) <= 2 * g * (MASS_MAX as int) * j,
                            s_abs(fy as int) <= 2 * g * (MASS_MAX as int) * j,
                            g >= 1,
                    ;
                }
            }
            j = j + 1;
        }
        if fx < -lim || fx > lim || fy < -lim || fy > lim {
            proof {
                assert(s_accseq(g as int, masses@, ps)[i as int] == (
                    s_acc3_x(g as int, masses@, ps, i as int),
                    s_acc3_y(g as int, masses@, ps, i as int),
                ));
            }
            return Err(SimError::OutOfRange);
        }
        acc.push(Vec2::new(fx as i64, fy as i64));
        i = i + 1;
    }
    let d = StateDerivative { velocities: copy_vecs(&state.velocities), accelerations: acc };
    proof {
        assert(v2s(d.accelerations@) =~= s_accseq(g as int, masses@, ps));
    }
    Ok(d)
}

/// Advances a whole state by one 4th-order Runge-Kutta step: four
/// derivative evaluations (`k1` at the state itself, `k2` and `k3` at
/// half-step states, `k4` at a full-step state, each an `O(N^2)` force
/// sweep over the synthetic intermediate state), blended as
/// `state + dt/6 * (k1 + 2*k2 + 2*k3 + k4)`.  Each synthetic state is an
/// immutable copy; nothing is mutated in place.  An unrepresentable
/// intermediate or final component is reported as `OutOfRange`.
#[verifier::rlimit(100)]
pub fn rk4(state: &State, masses: &Vec<i64>, g: i64, dt_num: i64, dt_den: i64) -> (r: Result<
    State,
    SimError,
>)
    requires
        state.wf(),
        masses@.len() == state.positions@.len(),
        masses_wf(masses@),
        1 <= g <= G_MAX,
        1 <= dt_num <= DT_MAX,
        1 <= dt_den <= DT_MAX,
    ensures
        r is Ok <==> s_step3_ok(
            g as int,
            masses@,
            v2s(state.positions@),
            v2s(state.velocities@),
            dt_num as int,
            dt_den as int,
        ),
        r matches Ok(ns) ==> {
            &&& ns.wf()
            &&& ns.positions@.len() == state.positions@.len()
            &&& v2s(ns.positions@) == s_rk4_next3(
                g as int,
                masses@,
                v2s(state.positions@),
                v2s(state.velocities@),
                dt_num as int,
                dt_den as int,
            ).0
            &&& v2s(ns.velocities@) == s_rk4_next3(
                g as int,
                masses@,
                v2s(state.positions@),
                v2s(state.velocities@),
                dt_num as int,
                dt_den as int,
            ).1
        },
        r is Err ==> r == Err::<State, SimError>(SimError::OutOfRange),
{
    let den2 = 2 * dt_den;
    proof {
        lemma_lim_abs(state.positions@);
        lemma_lim_abs(state.velocities@);
    }
    let k1 = match get_state_derivative(state, masses, g) {
        Ok(k) => k,
        Err(e) => {
            return Err(e);
        },
    };
    proof {
        lemma_lim_abs(k1.accelerations@);
    }
    let s2 = state.add(&k1.mul(dt_num, den2).to_state());
    if !s2.in_lim() {
        return Err(SimError::OutOfRange);
    }
    proof {
        lemma_lim_abs(s2.positions@);
        lemma_lim_abs(s2.velocities@);
    }
    let k2 = match get_state_derivative(&s2, masses, g) {
        Ok(k) => k,
        Err(e) => {
            return Err(e);
        },
    };
    proof {
        lemma_lim_abs(k2.accelerations@);
    }
    let s3 = state.add(&k2.mul(dt_num, den2).to_state());
    if !s3.in_lim() {
        return Err(SimError::OutOfRange);
    }
    proof {
        lemma_lim_abs(s3.positions@);
        lemma_lim_abs(s3.velocities@);
    }
    let k3 = match get_state_derivative(&s3, masses, g) {
        Ok(k) => k,
        Err(e) => {
            return Err(e);
        },
    };
    proof {
        lemma_lim_abs(k3.accelerations@);
    }
    let s4 = state.add(&k3.mul(dt_num, dt_den).to_state());
    if !s4.in_lim() {
        return Err(SimError::OutOfRange);
    }
    proof {
        lemma_lim_abs(s4.positions@);
        lemma_lim_abs(s4.velocities@);
    }
    let k4 = match get_state_derivative(&s4, masses, g) {
        Ok(k) => k,
        Err(e) => {
            return Err(e);
        },
    };
    proof {
        lemma_lim_abs(k4.accelerations@);
    }
    let x_prime = k1.add(&k2.mul(2, 1)).add(&k3.mul(2, 1)).add(&k4).mul(1, 6);
    let next = state.add(&x_prime.mul(dt_num, dt_den).to_state());
    if !next.in_lim() {
        return Err(SimError::OutOfRange);
    }
    Ok(next)
}

/// One timestep of the three-body simulation: the Runge-Kutta advance of
/// the given state.
pub fn step(state: State, masses: &Vec<i64>, g: i64, dt_num: i64, dt_den: i64) -> (r: Result<
    State,
    SimError,
>)
    requires
        state.wf(),
        masses@.len() == state.positions@.len(),
        masses_wf(masses@),
        1 <= g <= G_MAX,
        1 <= dt_num <= DT_MAX,
        1 <= dt_den <= DT_MAX,
    ensures
        r is Ok <==> s_step3_ok(
            g as int,
            masses@,
            v2s(state.positions@),
            v2s(state.velocities@),
            dt_num as int,
            dt_den as int,
        ),
        r matches Ok(ns) ==> {
            &&& ns.wf()
            &&& ns.positions@.len() == state.positions@.len()
            &&& v2s(ns.positions@) == s_rk4_next3(
                g as int,
                masses@,
                v2s(state.positions@),
                v2s(state.velocities@),
                dt_num as int,
                dt_den as int,
            ).0
            &&& v2s(ns.velocities@) == s_rk4_next3(
                g as int,
                masses@,
                v2s(state.positions@),
                v2s(state.velocities@),
                dt_num as int,
                dt_den as int,
            ).1
        },
        r is Err ==> r == Err::<State, SimError>(SimError::OutOfRange),
{
    rk4(&state, masses, g, dt_num, dt_den)
}

/// The analytic three-body simulation: equal masses, a unit gravitational
/// constant, and a known periodic initial configuration.
pub struct Simulation {
    pub masses: Vec<i64>,
    pub initial_state: State,
    /// Completed steps, maintained by the driver.
    pub time: u64,
    pub g: i64,
    pub dt_num: i64,
    pub dt_den: i64,
}

impl Simulation {
    /// Builds the known periodic three-body configuration (equal masses of
    /// one third each and a unit gravitational constant, in analytic
    /// units) at the documented simulation scale, with the given timestep.
    pub fn new_3body(dt_num: i64, dt_den: i64) -> (r: Result<Simulation, SimError>)
        ensures
            r is Ok <==> (1 <= dt_num <= DT_MAX && 1 <= dt_den <= DT_MAX),
            r matches Ok(sim) ==> {
                &&& sim.masses@.len() == 3
                &&& sim.masses@[0] == 90_000_000 && sim.masses@[1] == 90_000_000
                    && sim.masses@[2] == 90_000_000
                &&& sim.initial_state.positions@.len() == 3
                &&& sim.initial_state.velocities@.len() == 3
                &&& sim.initial_state.positions@[0] == (Vec2 { x: -92762i64, y: 0i64 })
                &&& sim.initial_state.positions@[1] == (Vec2 { x: 46381i64, y: -29627i64 })
                &&& sim.initial_state.positions@[2] == (Vec2 { x: 46381i64, y: 29627i64 })
                &&& sim.initial_state.velocities@[0] == (Vec2 { x: 0i64, y: -151309i64 })
                &&& sim.initial_state.velocities@[1] == (Vec2 { x: -355311i64, y: 75655i64 })
                &&& sim.initial_state.velocities@[2] == (Vec2 { x: 355311i64, y: 75655i64 })
                &&& sim.initial_state.wf()
                &&& masses_wf(sim.masses@)
                &&& sim.g == 100_000_000
                &&& sim.dt_num == dt_num
                &&& sim.dt_den == dt_den
                &&& sim.time == 0
            },
            r is Err ==> r == Err::<Simulation, SimError>(SimError::InvalidConfig),
    {
        if dt_num < 1 || dt_num > DT_MAX || dt_den < 1 || dt_den > DT_MAX {
            return Err(SimError::InvalidConfig);
        }
        let mut positions: Vec<Vec2> = Vec::new();
        positions.push(Vec2::new(-92762, 0));
        positions.push(Vec2::new(46381, -29627));
        positions.push(Vec2::new(46381, 29627));
        let mut velocities: Vec<Vec2> = Vec::new();
        velocities.push(Vec2::new(0, -151309));
        velocities.push(Vec2::new(-355311, 75655));
        velocities.push(Vec2::new(355311, 75655));
        let mut masses: Vec<i64> = Vec::new();
        masses.push(90_000_000);
        masses.push(90_000_000);
        masses.push(90_000_000);
        let initial_state = State { positions, velocities };
        proof {
            assert(seq_lim_ok(v2s(initial_state.positions@))) by {
                assert forall|i: int| 0 <= i < 3 implies -(LIMIT as int) <= (#[trigger] v2s(
                    initial_state.positions@,
                )[i]).0 <= LIMIT as int && -(LIMIT as int) <= v2s(initial_state.positions@)[i].1
                    <= LIMIT as int by {
                    assert(v2s(initial_state.positions@)[i].0
                        == initial_state.positions@[i].x as int);
                    assert(v2s(initial_state.positions@)[i].1
                        == initial_state.positions@[i].y as int);
                }
            }
            assert(seq_lim_ok(v2s(initial_state.velocities@))) by {
                assert forall|i: int| 0 <= i < 3 implies -(LIMIT as int) <= (#[trigger] v2s(
                    initial_state.velocities@,
                )[i]).0 <= LIMIT as int && -(LIMIT as int) <= v2s(initial_state.velocities@)[i].1
                    <= LIMIT as int by {
                    assert(v2s(initial_state.velocities@)[i].0
                        == initial_state.velocities@[i].x as int);
                    assert(v2s(initial_state.velocities@)[i].1
                        == initial_state.velocities@[i].y as int);
                }
            }
        }
        Ok(Simulation { masses, initial_state, time: 0, g: 100_000_000, dt_num, dt_den })
    }
}

/// Reads one mass (kept separate so the borrows stay simple).
fn masses_at(masses: &Vec<i64>, i: usize) -> (r: i64)
    requires
        i < masses@.len(),
    ensures
        r == masses@[i as int],
{
    masses[i]
}

/// Reads one position vector.
fn positions_at(v: &Vec<Vec2>, i: usize) -> (r: Vec2)
    requires
        i < v@.len(),
    ensures
        r == v@[i as int],
{
    v[i]
}

} // verus!
