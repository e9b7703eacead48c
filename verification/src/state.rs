//! Whole-state vectors for the Runge-Kutta integrator of the analytic
//! three-body simulation: positions/velocities and their derivative, with
//! the elementwise linear-combination operations that stage blending needs.
use crate::num::{lemma_mul_abs_bound, lemma_tdiv_abs_le, mul128, s_abs, s_tdiv, tdiv128};
use crate::vec2::Vec2;
use crate::{BODY_MAX, LIMIT};
use vstd::prelude::*;

verus! {

/// The ghost image of a vector list: a sequence of exact integer pairs.
pub open spec fn v2s(v: Seq<Vec2>) -> Seq<(int, int)> {
    Seq::new(v.len(), |i: int| (v[i].x as int, v[i].y as int))
}

/// Elementwise sum of two equally long sequences of pairs.
pub open spec fn s_addseq(a: Seq<(int, int)>, b: Seq<(int, int)>) -> Seq<(int, int)> {
    Seq::new(a.len(), |i: int| (a[i].0 + b[i].0, a[i].1 + b[i].1))
}

/// Elementwise scaling by the rational `num / den`, rounded toward zero.
pub open spec fn s_mulseq(a: Seq<(int, int)>, num: int, den: int) -> Seq<(int, int)> {
    Seq::new(a.len(), |i: int| (s_tdiv(a[i].0 * num, den), s_tdiv(a[i].1 * num, den)))
}

/// Every component of the sequence lies in `[-LIMIT, LIMIT]`.
pub open spec fn seq_lim_ok(s: Seq<(int, int)>) -> bool {
    forall|i: int|
        0 <= i < s.len() ==> -(LIMIT as int) <= (#[trigger] s[i]).0 <= LIMIT as int && -(
        LIMIT as int) <= s[i].1 <= LIMIT as int
}

/// Positions and velocities of the whole system, paired by index.
#[derive(Clone, Debug)]
pub struct State {
    pub positions: Vec<Vec2>,
    pub velocities: Vec<Vec2>,
}

/// The derivative of a `State`: for each body, d(position)/dt (a velocity)
/// and d(velocity)/dt (an acceleration), supporting the same linear
/// combinations so Runge-Kutta blending is ordinary vector arithmetic.
#[derive(Clone, Debug)]
pub struct StateDerivative {
    pub velocities: Vec<Vec2>,
    pub accelerations: Vec<Vec2>,
}

/// Elementwise sum of two vector lists; exact, no rounding.
fn add_vecs(a: &Vec<Vec2>, b: &Vec<Vec2>) -> (r: Vec<Vec2>)
    requires
        a@.len() == b@.len(),
        forall|i: int|
            0 <= i < a@.len() ==> s_abs((#[trigger] a@[i]).x as int) <= 2_000_000_000_000_000_000
                && s_abs(a@[i].y as int) <= 2_000_000_000_000_000_000,
        forall|i: int|
            0 <= i < b@.len() ==> s_abs((#[trigger] b@[i]).x as int) <= 2_000_000_000_000_000_000
                && s_abs(b@[i].y as int) <= 2_000_000_000_000_000_000,
    ensures
        v2s(r@) == s_addseq(v2s(a@), v2s(b@)),
        r@.len() == a@.len(),
        forall|i: int|
            0 <= i < r@.len() ==> (#[trigger] r@[i]).x == a@[i].x + b@[i].x && r@[i].y == a@[i].y
                + b@[i].y,
{
    let n = a.len();
    let mut out: Vec<Vec2> = Vec::new();
    let mut i: usize = 0;
    while i < n
        invariant
            i <= n,
            n == a@.len() == b@.len(),
            out@.len() == i,
            forall|k: int|
                0 <= k < i ==> (#[trigger] out@[k]).x == a@[k].x + b@[k].x && out@[k].y == a@[k].y
                    + b@[k].y,
            forall|k: int|
                0 <= k < a@.len() ==> s_abs((#[trigger] a@[k]).x as int)
                    <= 2_000_000_000_000_000_000 && s_abs(a@[k].y as int)
                    <= 2_000_000_000_000_000_000,
            forall|k: int|
                0 <= k < b@.len() ==> s_abs((#[trigger] b@[k]).x as int)
                    <= 2_000_000_000_000_000_000 && s_abs(b@[k].y as int)
                    <= 2_000_000_000_000_000_000,
        decreases n - i,
    {
        let x = a[i].x + b[i].x;
        let y = a[i].y + b[i].y;
        out.push(Vec2::new(x, y));
        i = i + 1;
    }
    proof {
        assert(v2s(out@) =~= s_addseq(v2s(a@), v2s(b@)));
    }
    out
}

/// Elementwise scaling of a vector list by `num / den`, rounded toward
/// zero.
fn mul_vecs(a: &Vec<Vec2>, num: i64, den: i64) -> (r: Vec<Vec2>)
    requires
        0 <= num <= 2_000_000,
        1 <= den <= 6_000_000,
        forall|i: int|
            0 <= i < a@.len() ==> s_abs((#[trigger] a@[i]).x as int) <= 10_000_000_000 && s_abs(
                a@[i].y as int,
            ) <= 10_000_000_000,
    ensures
        v2s(r@) == s_mulseq(v2s(a@), num as int, den as int),
        r@.len() == a@.len(),
        forall|i: int|
            0 <= i < r@.len() ==> (#[trigger] r@[i]).x == s_tdiv(a@[i].x * num, den as int)
                && r@[i].y == s_tdiv(a@[i].y * num, den as int) && s_abs(r@[i].x as int) <= s_abs(
                a@[i].x as int,
            ) * num && s_abs(r@[i].y as int) <= s_abs(a@[i].y as int) * num && s_abs(
                r@[i].x as int,
            ) <= 20_000_000_000_000_000 && s_abs(r@[i].y as int) <= 20_000_000_000_000_000,
{
    let n = a.len();
    let mut out: Vec<Vec2> = Vec::new();
    let mut i: usize = 0;
    while i < n
        invariant
            i <= n,
            n == a@.len(),
            0 <= num <= 2_000_000,
            1 <= den <= 6_000_000,
            out@.len() == i,
            forall|k: int|
                0 <= k < a@.len() ==> s_abs((#[trigger] a@[k]).x as int) <= 10_000_000_000 && s_abs(
                    a@[k].y as int,
                ) <= 10_000_000_000,
            forall|k: int|
                0 <= k < i ==> (#[trigger] out@[k]).x == s_tdiv(a@[k].x * num, den as int)
                    && out@[k].y == s_tdiv(a@[k].y * num, den as int) && s_abs(out@[k].x as int)
                    <= s_abs(a@[k].x as int) * num && s_abs(out@[k].y as int) <= s_abs(
                    a@[k].y as int,
                ) * num && s_abs(out@[k].x as int) <= 20_000_000_000_000_000 && s_abs(
                    out@[k].y as int,
                ) <= 20_000_000_000_000_000,
        decreases n - i,
    {
        let v = &a[i];
        let xi = mul128(v.x as i128, num as i128, Ghost(10_000_000_000), Ghost(2_000_000));
        let yi = mul128(v.y as i128, num as i128, Ghost(10_000_000_000), Ghost(2_000_000));
        proof {
            lemma_mul_abs_bound(v.x as int, num as int, s_abs(v.x as int), num as int);
            lemma_mul_abs_bound(v.y as int, num as int, s_abs(v.y as int), num as int);
            lemma_tdiv_abs_le(xi as int, den as int);
            lemma_tdiv_abs_le(yi as int, den as int);
        }
        let x = tdiv128(xi, den as i128);
        let y = tdiv128(yi, den as i128);
        out.push(Vec2::new(x as i64, y as i64));
        i = i + 1;
    }
    proof {
        assert(v2s(out@) =~= s_mulseq(v2s(a@), num as int, den as int));
    }
    out
}

impl State {
    /// Lengths agree and every component is representable.
    pub open spec fn wf(self) -> bool {
        &&& self.positions@.len() == self.velocities@.len()
        &&& self.positions@.len() <= BODY_MAX
        &&& seq_lim_ok(v2s(self.positions@))
        &&& seq_lim_ok(v2s(self.velocities@))
    }

    /// Runtime check of the representable range of every component (the
    /// lengths are unchanged by every operation here).
    pub fn in_lim(&self) -> (r: bool)
        ensures
            r == (seq_lim_ok(v2s(self.positions@)) && seq_lim_ok(v2s(self.velocities@))),
    {
        let mut ok = check_vecs_lim(&self.positions);
        if ok {
            ok = check_vecs_lim(&self.velocities);
        }
        ok
    }

    /// Elementwise sum of two states (positions with positions,
    /// velocities with velocities); exact.
    pub fn add(&self, rhs: &State) -> (r: State)
        requires
            self.positions@.len() == rhs.positions@.len(),
            self.velocities@.len() == rhs.velocities@.len(),
            forall|i: int|
                0 <= i < self.positions@.len() ==> s_abs((#[trigger] self.positions@[i]).x as int)
                    <= 2_000_000_000_000_000_000 && s_abs(self.positions@[i].y as int)
                    <= 2_000_000_000_000_000_000,
            forall|i: int|
                0 <= i < self.velocities@.len() ==> s_abs(
                    (#[trigger] self.velocities@[i]).x as int,
                ) <= 2_000_000_000_000_000_000 && s_abs(self.velocities@[i].y as int)
                    <= 2_000_000_000_000_000_000,
            forall|i: int|
                0 <= i < rhs.positions@.len() ==> s_abs((#[trigger] rhs.positions@[i]).x as int)
                    <= 2_000_000_000_000_000_000 && s_abs(rhs.positions@[i].y as int)
                    <= 2_000_000_000_000_000_000,
            forall|i: int|
                0 <= i < rhs.velocities@.len() ==> s_abs((#[trigger] rhs.velocities@[i]).x as int)
                    <= 2_000_000_000_000_000_000 && s_abs(rhs.velocities@[i].y as int)
                    <= 2_000_000_000_000_000_000,
        ensures
            v2s(r.positions@) == s_addseq(v2s(self.positions@), v2s(rhs.positions@)),
            v2s(r.velocities@) == s_addseq(v2s(self.velocities@), v2s(rhs.velocities@)),
            r.positions@.len() == self.positions@.len(),
            r.velocities@.len() == self.velocities@.len(),
            forall|i: int|
                0 <= i < r.positions@.len() ==> (#[trigger] r.positions@[i]).x
                    == self.positions@[i].x + rhs.positions@[i].x && r.positions@[i].y
                    == self.positions@[i].y + rhs.positions@[i].y,
            forall|i: int|
                0 <= i < r.velocities@.len() ==> (#[trigger] r.velocities@[i]).x
                    == self.velocities@[i].x + rhs.velocities@[i].x && r.velocities@[i].y
                    == self.velocities@[i].y + rhs.velocities@[i].y,
    {
        State {
            positions: add_vecs(&self.positions, &rhs.positions),
            velocities: add_vecs(&self.velocities, &rhs.velocities),
        }
    }

    /// Elementwise scaling of a state by the rational `num / den`.
    pub fn mul(&self, num: i64, den: i64) -> (r: State)
        requires
            0 <= num <= 2_000_000,
            1 <= den <= 6_000_000,
            forall|i: int|
                0 <= i < self.positions@.len() ==> s_abs((#[trigger] self.positions@[i]).x as int)
                    <= 10_000_000_000 && s_abs(self.positions@[i].y as int) <= 10_000_000_000,
            forall|i: int|
                0 <= i < self.velocities@.len() ==> s_abs(
                    (#[trigger] self.velocities@[i]).x as int,
                ) <= 10_000_000_000 && s_abs(self.velocities@[i].y as int) <= 10_000_000_000,
        ensures
            v2s(r.positions@) == s_mulseq(v2s(self.positions@), num as int, den as int),
            v2s(r.velocities@) == s_mulseq(v2s(self.velocities@), num as int, den as int),
            r.positions@.len() == self.positions@.len(),
            r.velocities@.len() == self.velocities@.len(),
            forall|i: int|
                0 <= i < r.positions@.len() ==> s_abs((#[trigger] r.positions@[i]).x as int)
                    <= 20_000_000_000_000_000 && s_abs(r.positions@[i].y as int)
                    <= 20_000_000_000_000_000,
            forall|i: int|
                0 <= i < r.velocities@.len() ==> s_abs((#[trigger] r.velocities@[i]).x as int)
                    <= 20_000_000_000_000_000 && s_abs(r.velocities@[i].y as int)
                    <= 20_000_000_000_000_000,
    {
        State {
            positions: mul_vecs(&self.positions, num, den),
            velocities: mul_vecs(&self.velocities, num, den),
        }
    }
}

impl StateDerivative {
    /// Elementwise sum of two derivatives; exact.
    pub fn add(&self, rhs: &StateDerivative) -> (r: StateDerivative)
        requires
            self.velocities@.len() == rhs.velocities@.len(),
            self.accelerations@.len() == rhs.accelerations@.len(),
            forall|i: int|
                0 <= i < self.velocities@.len() ==> s_abs(
                    (#[trigger] self.velocities@[i]).x as int,
                ) <= 2_000_000_000_000_000_000 && s_abs(self.velocities@[i].y as int)
                    <= 2_000_000_000_000_000_000,
            forall|i: int|
                0 <= i < self.accelerations@.len() ==> s_abs(
                    (#[trigger] self.accelerations@[i]).x as int,
                ) <= 2_000_000_000_000_000_000 && s_abs(self.accelerations@[i].y as int)
                    <= 2_000_000_000_000_000_000,
            forall|i: int|
                0 <= i < rhs.velocities@.len() ==> s_abs((#[trigger] rhs.velocities@[i]).x as int)
                    <= 2_000_000_000_000_000_000 && s_abs(rhs.velocities@[i].y as int)
                    <= 2_000_000_000_000_000_000,
            forall|i: int|
                0 <= i < rhs.accelerations@.len() ==> s_abs(
                    (#[trigger] rhs.accelerations@[i]).x as int,
                ) <= 2_000_000_000_000_000_000 && s_abs(rhs.accelerations@[i].y as int)
                    <= 2_000_000_000_000_000_000,
        ensures
            v2s(r.velocities@) == s_addseq(v2s(self.velocities@), v2s(rhs.velocities@)),
            v2s(r.accelerations@) == s_addseq(v2s(self.accelerations@), v2s(rhs.accelerations@)),
            r.velocities@.len() == self.velocities@.len(),
            r.accelerations@.len() == self.accelerations@.len(),
            forall|i: int|
                0 <= i < r.velocities@.len() ==> (#[trigger] r.velocities@[i]).x
                    == self.velocities@[i].x + rhs.velocities@[i].x && r.velocities@[i].y
                    == self.velocities@[i].y + rhs.velocities@[i].y,
            forall|i: int|
                0 <= i < r.accelerations@.len() ==> (#[trigger] r.accelerations@[i]).x
                    == self.accelerations@[i].x + rhs.accelerations@[i].x
                    && r.accelerations@[i].y == self.accelerations@[i].y
                    + rhs.accelerations@[i].y,
    {
        StateDerivative {
            velocities: add_vecs(&self.velocities, &rhs.velocities),
            accelerations: add_vecs(&self.accelerations, &rhs.accelerations),
        }
    }

    /// Elementwise scaling of a derivative by the rational `num / den`.
    pub fn mul(&self, num: i64, den: i64) -> (r: StateDerivative)
        requires
            0 <= num <= 2_000_000,
            1 <= den <= 6_000_000,
            forall|i: int|
                0 <= i < self.velocities@.len() ==> s_abs(
                    (#[trigger] self.velocities@[i]).x as int,
                ) <= 10_000_000_000 && s_abs(self.velocities@[i].y as int) <= 10_000_000_000,
            forall|i: int|
                0 <= i < self.accelerations@.len() ==> s_abs(
                    (#[trigger] self.accelerations@[i]).x as int,
                ) <= 10_000_000_000 && s_abs(self.accelerations@[i].y as int) <= 10_000_000_000,
        ensures
            v2s(r.velocities@) == s_mulseq(v2s(self.velocities@), num as int, den as int),
            v2s(r.accelerations@) == s_mulseq(v2s(self.accelerations@), num as int, den as int),
            r.velocities@.len() == self.velocities@.len(),
            r.accelerations@.len() == self.accelerations@.len(),
            forall|i: int|
                0 <= i < r.velocities@.len() ==> s_abs((#[trigger] r.velocities@[i]).x as int)
                    <= s_abs(self.velocities@[i].x as int) * num && s_abs(r.velocities@[i].y as int)
                    <= s_abs(self.velocities@[i].y as int) * num,
            forall|i: int|
                0 <= i < r.accelerations@.len() ==> s_abs(
                    (#[trigger] r.accelerations@[i]).x as int,
                ) <= s_abs(self.accelerations@[i].x as int) * num && s_abs(
                    r.accelerations@[i].y as int,
                ) <= s_abs(self.accelerations@[i].y as int) * num,
            forall|i: int|
                0 <= i < r.velocities@.len() ==> s_abs((#[trigger] r.velocities@[i]).x as int)
                    <= 20_000_000_000_000_000 && s_abs(r.velocities@[i].y as int)
                    <= 20_000_000_000_000_000,
            forall|i: int|
                0 <= i < r.accelerations@.len() ==> s_abs(
                    (#[trigger] r.accelerations@[i]).x as int,
                ) <= 20_000_000_000_000_000 && s_abs(r.accelerations@[i].y as int)
                    <= 20_000_000_000_000_000,
    {
        StateDerivative {
            velocities: mul_vecs(&self.velocities, num, den),
            accelerations: mul_vecs(&self.accelerations, num, den),
        }
    }

    /// Reinterprets a scaled derivative as a state increment:
    /// the scaled velocities become position increments and the scaled
    /// accelerations become velocity increments.
    pub fn to_state(self) -> (r: State)
        ensures
            r.positions@ == self.velocities@,
            r.velocities@ == self.accelerations@,
    {
        State { positions: self.velocities, velocities: self.accelerations }
    }
}

/// Runtime check that every component of a vector list is representable.
fn check_vecs_lim(v: &Vec<Vec2>) -> (r: bool)
    ensures
        r == seq_lim_ok(v2s(v@)),
{
    let n = v.len();
    let mut i: usize = 0;
    while i < n
        invariant
            i <= n,
            n == v@.len(),
            forall|k: int|
                0 <= k < i ==> -(LIMIT as int) <= (#[trigger] v2s(v@)[k]).0 <= LIMIT as int && -(
                LIMIT as int) <= v2s(v@)[k].1 <= LIMIT as int,
        decreases n - i,
    {
        let e = &v[i];
        if e.x < -LIMIT || e.x > LIMIT || e.y < -LIMIT || e.y > LIMIT {
            proof {
                assert(v2s(v@)[i as int].0 == e.x as int && v2s(v@)[i as int].1 == e.y as int);
            }
            return false;
        }
        i = i + 1;
    }
    true
}

} // verus!
