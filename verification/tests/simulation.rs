use starsim::domain::{point2d_to_screen_coords, SimulationDomain2D, DISPLAY_SCALE};
use starsim::force::{gravitational_force_components, total_gravitational_acceleration};
use starsim::num::{clamp64, isqrt128, tdiv128};
use starsim::sim2d::Simulation2D;
use starsim::star::{Star2D, StarSample};
use starsim::state::State;
use starsim::threebody::{get_state_derivative, step, Simulation};
use starsim::vec2::Vec2;
use starsim::SimError;

fn domain_1000() -> SimulationDomain2D {
    SimulationDomain2D::new(1000, 1000, 100, 100).unwrap()
}

fn star(id: u64, px: i64, py: i64, vx: i64, vy: i64, mass: i64) -> Star2D {
    Star2D {
        id,
        position: Vec2::new(px, py),
        velocity: Vec2::new(vx, vy),
        mass,
        luminosity: 1,
        temperature: 5000,
    }
}

fn two_body_sim(dt_num: i64, dt_den: i64) -> Simulation2D {
    let stars = vec![
        star(1, -1000, 0, 0, 0, 1_000_000),
        star(2, 1000, 0, 0, 0, 1_000_000),
    ];
    Simulation2D::new(domain_1000(), 1_000_000, dt_num, dt_den, stars).unwrap()
}

#[test]
fn tdiv_rounds_toward_zero() {
    assert_eq!(tdiv128(7, 2), 3);
    assert_eq!(tdiv128(-7, 2), -3);
    assert_eq!(tdiv128(0, 5), 0);
    assert_eq!(tdiv128(-1, 1_000_000), 0);
}

#[test]
fn isqrt_exact_values() {
    assert_eq!(isqrt128(0), 0);
    assert_eq!(isqrt128(1), 1);
    assert_eq!(isqrt128(3), 1);
    assert_eq!(isqrt128(4), 2);
    assert_eq!(isqrt128(1_000_000), 1000);
    assert_eq!(isqrt128(999_999), 999);
    assert_eq!(isqrt128(u128::MAX), 0xFFFF_FFFF_FFFF_FFFF);
}

#[test]
fn clamp_exact_values() {
    assert_eq!(clamp64(5, -3, 3), 3);
    assert_eq!(clamp64(-5, -3, 3), -3);
    assert_eq!(clamp64(2, -3, 3), 2);
}

// The domain center maps to (0, 0) exactly when the target display size
// equals the actual display size.
#[test]
fn display_center_maps_to_origin() {
    let d = domain_1000();
    let r = point2d_to_screen_coords(Vec2::new(0, 0), (100, 100), &d);
    assert_eq!(r, Some((0, 0)));
}

// A position exactly at the domain half-width plus one unit is out of
// frame; the half-width itself is the last in-frame position.
#[test]
fn display_half_width_plus_one_is_out_of_frame() {
    let d = domain_1000();
    let edge = point2d_to_screen_coords(Vec2::new(500, 0), (100, 100), &d);
    assert_eq!(edge, Some((DISPLAY_SCALE, 0)));
    let outside = point2d_to_screen_coords(Vec2::new(501, 0), (100, 100), &d);
    assert_eq!(outside, None);
    let outside_y = point2d_to_screen_coords(Vec2::new(0, -501), (100, 100), &d);
    assert_eq!(outside_y, None);
}

// Aspect correction: an actual screen twice the target width halves the
// normalized x coordinate.
#[test]
fn display_aspect_correction() {
    let d = domain_1000();
    let r = point2d_to_screen_coords(Vec2::new(500, 0), (200, 100), &d);
    assert_eq!(r, Some((DISPLAY_SCALE / 2, 0)));
}

// Exact force value, computed by hand: g*m1*m2*dx = 10^6 * 10^6 * 10^6 *
// 2000 = 2*10^21; r2 = 4*10^6, r = 2000, denominator 8*10^9; the force is
// 2.5*10^11 on x and zero on y.
#[test]
fn force_exact_value() {
    let f = gravitational_force_components(
        1_000_000,
        1_000_000,
        1_000_000,
        Vec2::new(-1000, 0),
        Vec2::new(1000, 0),
    );
    assert_eq!(f, (250_000_000_000, 0));
}

// Coincident distinct bodies: zero displacement gives the zero force, not
// a degenerate value.
#[test]
fn force_coincident_positions_zero() {
    let f = gravitational_force_components(
        1_000_000,
        1_000_000,
        1_000_000,
        Vec2::new(7, 9),
        Vec2::new(7, 9),
    );
    assert_eq!(f, (0, 0));
}

// A body alone in the set feels no force: no self-force and no division by
// zero from the self-pair.
#[test]
fn single_body_zero_acceleration() {
    let b = star(1, 123, -456, 0, 0, 1_000_000);
    let all = vec![b];
    let a = total_gravitational_acceleration(1_000_000, &all[0], &all);
    assert_eq!(a, (0, 0));
}

// A single-body simulation with zero velocity stays exactly in place.
#[test]
fn single_body_simulation_is_static() {
    let stars = vec![star(1, 123, -456, 0, 0, 1_000_000)];
    let mut sim = Simulation2D::new(domain_1000(), 1_000_000, 1, 1, stars).unwrap();
    for _ in 0..10 {
        sim.step().unwrap();
    }
    assert_eq!(sim.get_stars()[0].position, Vec2::new(123, -456));
    assert_eq!(sim.get_stars()[0].velocity, Vec2::new(0, 0));
}

// Exact one-step Verlet update of the symmetric two-body configuration,
// computed by hand: acceleration 250000, dt = 1, so velocity becomes
// 250000 and the position gains 250000 / 2 = 125000.
#[test]
fn verlet_exact_one_step() {
    let mut sim = two_body_sim(1, 1);
    sim.step().unwrap();
    let s = sim.get_stars();
    assert_eq!(s[0].velocity, Vec2::new(250_000, 0));
    assert_eq!(s[0].position, Vec2::new(124_000, 0));
    assert_eq!(s[1].velocity, Vec2::new(-250_000, 0));
    assert_eq!(s[1].position, Vec2::new(-124_000, 0));
}

// A body with zero initial velocity accelerates monotonically toward the
// other body until it reaches it: the velocity toward the other body never
// decreases and the body never moves away, while it stays on the near side.
#[test]
fn two_body_attraction_is_monotone() {
    let stars = vec![
        star(1, -500_000, 0, 0, 0, 100_000_000),
        star(2, 500_000, 0, 0, 0, 100_000_000),
    ];
    let mut sim = Simulation2D::new(domain_1000(), 100_000_000, 1, 1000, stars).unwrap();
    let mut last_v = 0i64;
    let mut last_p = -500_000i64;
    for _ in 0..200 {
        sim.step().unwrap();
        let b = &sim.get_stars()[0];
        if b.position.x >= 0 {
            break;
        }
        assert!(b.velocity.x >= last_v, "velocity toward the other body decreased");
        assert!(b.position.x >= last_p, "the body moved away from the other body");
        last_v = b.velocity.x;
        last_p = b.position.x;
    }
    assert!(last_v > 0, "the body never accelerated toward the other body");
}

// Two bodies of equal mass placed symmetrically about the origin with zero
// initial velocity remain exactly symmetric under every scheme.
#[test]
fn symmetry_preserved_verlet() {
    let mut sim = two_body_sim(1, 3);
    for _ in 0..50 {
        sim.step().unwrap();
        let s = sim.get_stars();
        assert_eq!(s[1].position.x, -s[0].position.x);
        assert_eq!(s[1].position.y, -s[0].position.y);
        assert_eq!(s[1].velocity.x, -s[0].velocity.x);
        assert_eq!(s[1].velocity.y, -s[0].velocity.y);
    }
}

#[test]
fn symmetry_preserved_euler_average() {
    let mut sim = two_body_sim(1, 3);
    for _ in 0..50 {
        sim.step_euler_average().unwrap();
        let s = sim.get_stars();
        assert_eq!(s[1].position.x, -s[0].position.x);
        assert_eq!(s[1].position.y, -s[0].position.y);
        assert_eq!(s[1].velocity.x, -s[0].velocity.x);
        assert_eq!(s[1].velocity.y, -s[0].velocity.y);
    }
}

#[test]
fn symmetry_preserved_rk4() {
    let mut sim = two_body_sim(1, 3);
    for _ in 0..50 {
        sim.step_rk4().unwrap();
        let s = sim.get_stars();
        assert_eq!(s[1].position.x, -s[0].position.x);
        assert_eq!(s[1].position.y, -s[0].position.y);
        assert_eq!(s[1].velocity.x, -s[0].velocity.x);
        assert_eq!(s[1].velocity.y, -s[0].velocity.y);
    }
}

fn momentum(stars: &Vec<Star2D>) -> (i128, i128) {
    let mut px = 0i128;
    let mut py = 0i128;
    for s in stars {
        px += s.mass as i128 * s.velocity.x as i128;
        py += s.mass as i128 * s.velocity.y as i128;
    }
    (px, py)
}

// Total momentum is conserved within the proved rounding bound under the
// velocity-Verlet scheme: per step, the drift scaled by the timestep
// denominator is at most (dt_num + dt_den) times the total mass.
#[test]
fn momentum_drift_bounded_verlet() {
    let stars = vec![
        star(1, -200_000, 50_000, 1000, -2000, 40_000_000),
        star(2, 150_000, -100_000, -500, 1500, 90_000_000),
        star(3, 10_000, 170_000, 200, 700, 60_000_000),
    ];
    let mut sim = Simulation2D::new(domain_1000(), 50_000_000, 1, 1000, stars).unwrap();
    let total_mass: i128 = 40_000_000 + 90_000_000 + 60_000_000;
    let bound = (1 + 1000) * total_mass;
    for _ in 0..20 {
        let before = momentum(sim.get_stars());
        sim.step().unwrap();
        let after = momentum(sim.get_stars());
        assert!((1000 * (after.0 - before.0)).abs() <= bound);
        assert!((1000 * (after.1 - before.1)).abs() <= bound);
    }
}

// The same bound holds for the Euler-average scheme, which shares the
// velocity update.
#[test]
fn momentum_drift_bounded_euler_average() {
    let stars = vec![
        star(1, -200_000, 50_000, 1000, -2000, 40_000_000),
        star(2, 150_000, -100_000, -500, 1500, 90_000_000),
        star(3, 10_000, 170_000, 200, 700, 60_000_000),
    ];
    let mut sim = Simulation2D::new(domain_1000(), 50_000_000, 1, 1000, stars).unwrap();
    let total_mass: i128 = 40_000_000 + 90_000_000 + 60_000_000;
    let bound = (1 + 1000) * total_mass;
    for _ in 0..20 {
        let before = momentum(sim.get_stars());
        sim.step_euler_average().unwrap();
        let after = momentum(sim.get_stars());
        assert!((1000 * (after.0 - before.0)).abs() <= bound);
        assert!((1000 * (after.1 - before.1)).abs() <= bound);
    }
}

fn momentum3(st: &State, masses: &Vec<i64>) -> (i128, i128) {
    let mut px = 0i128;
    let mut py = 0i128;
    for (i, v) in st.velocities.iter().enumerate() {
        px += masses[i] as i128 * v.x as i128;
        py += masses[i] as i128 * v.y as i128;
    }
    (px, py)
}

// Momentum drift of the Runge-Kutta three-body step stays tiny relative to
// the momentum scale of the configuration (about 10^13): each of the four
// stages adds at most a few rounding units per body.
#[test]
fn momentum_drift_small_rk4_three_body() {
    let sim = Simulation::new_3body(1, 1000).unwrap();
    let mut st = sim.initial_state;
    for _ in 0..20 {
        let before = momentum3(&st, &sim.masses);
        st = step(st, &sim.masses, sim.g, sim.dt_num, sim.dt_den).unwrap();
        let after = momentum3(&st, &sim.masses);
        assert!((after.0 - before.0).abs() <= 4_000_000_000);
        assert!((after.1 - before.1).abs() <= 4_000_000_000);
    }
}

// Time reversal of the periodic three-body configuration: stepping
// forward, negating the velocities, stepping the same number of steps and
// negating again returns close to the initial state (exact reversal is
// impossible with rounding; the tolerance is small next to the position
// scale of about 10^5).
#[test]
fn three_body_time_reversal() {
    let sim = Simulation::new_3body(1, 1000).unwrap();
    let initial = sim.initial_state.clone();
    let n_steps = 50;
    let mut st = sim.initial_state.clone();
    for _ in 0..n_steps {
        st = step(st, &sim.masses, sim.g, sim.dt_num, sim.dt_den).unwrap();
    }
    let mut back = State {
        positions: st.positions.clone(),
        velocities: st.velocities.iter().map(|v| Vec2::new(-v.x, -v.y)).collect(),
    };
    for _ in 0..n_steps {
        back = step(back, &sim.masses, sim.g, sim.dt_num, sim.dt_den).unwrap();
    }
    for i in 0..3 {
        let dp_x = (back.positions[i].x - initial.positions[i].x).abs();
        let dp_y = (back.positions[i].y - initial.positions[i].y).abs();
        let dv_x = (-back.velocities[i].x - initial.velocities[i].x).abs();
        let dv_y = (-back.velocities[i].y - initial.velocities[i].y).abs();
        assert!(dp_x <= 5000 && dp_y <= 5000, "position did not return: {} {}", dp_x, dp_y);
        assert!(dv_x <= 5000 && dv_y <= 5000, "velocity did not return: {} {}", dv_x, dv_y);
    }
}

// The Euler-average and velocity-Verlet schemes genuinely differ: from an
// identical two-body configuration their trajectories separate after a
// fixed number of steps.
#[test]
fn schemes_diverge() {
    let mut a = two_body_sim(1, 2);
    let mut b = two_body_sim(1, 2);
    let mut diverged = false;
    for _ in 0..40 {
        a.step().unwrap();
        b.step_euler_average().unwrap();
        let sa = a.get_stars();
        let sb = b.get_stars();
        if sa[0].position != sb[0].position || sa[0].velocity != sb[0].velocity {
            diverged = true;
            break;
        }
    }
    assert!(diverged, "the two schemes never diverged");
}

// The generator: one non-luminous anchor at the origin plus one star per
// sample, positions clamped to the domain, ids counted from 1.
#[test]
fn gen_simulation_clamps_and_anchors() {
    let samples = vec![
        StarSample { x: 9999, y: -9999, vx: 0, vy: 0, mass: 5_000_000 },
        StarSample { x: -20, y: 30, vx: 1, vy: -1, mass: 6_000_000 },
    ];
    let sim = Simulation2D::gen_simulation_2d(domain_1000(), 1_000_000, 1, 10, 77_000_000, samples)
        .unwrap();
    let s = sim.get_stars();
    assert_eq!(s.len(), 3);
    assert_eq!(s[0].id, 0);
    assert_eq!(s[0].position, Vec2::new(0, 0));
    assert_eq!(s[0].mass, 77_000_000);
    assert_eq!(s[0].luminosity, 0);
    assert_eq!(s[1].id, 1);
    assert_eq!(s[1].position, Vec2::new(500, -500));
    assert_eq!(s[1].luminosity, 1);
    assert_eq!(s[1].temperature, 5000);
    assert_eq!(s[2].id, 2);
    assert_eq!(s[2].position, Vec2::new(-20, 30));
    assert_eq!(s[2].velocity, Vec2::new(1, -1));
}

#[test]
fn gen_simulation_rejects_bad_mass() {
    let samples = vec![StarSample { x: 0, y: 0, vx: 0, vy: 0, mass: 0 }];
    let r = Simulation2D::gen_simulation_2d(domain_1000(), 1_000_000, 1, 10, 77_000_000, samples);
    assert_eq!(r.err(), Some(SimError::InvalidMass));
}

#[test]
fn gen_simulation_rejects_bad_config() {
    let r = Simulation2D::gen_simulation_2d(domain_1000(), 0, 1, 10, 77_000_000, vec![]);
    assert_eq!(r.err(), Some(SimError::InvalidConfig));
    let r2 = SimulationDomain2D::new(0, 1000, 100, 100);
    assert_eq!(r2.err(), Some(SimError::InvalidConfig));
    let r3 = Simulation2D::new(domain_1000(), 1_000_000, 1, 1, vec![]);
    assert_eq!(r3.err(), Some(SimError::InvalidConfig));
}

#[test]
fn new_random_star_validates_and_clamps() {
    let d = domain_1000();
    let ok = Star2D::new_random_star_2d(
        &d,
        7,
        StarSample { x: -100_000, y: 100, vx: 3, vy: -4, mass: 42 },
    )
    .unwrap();
    assert_eq!(ok.id, 7);
    assert_eq!(ok.position, Vec2::new(-500, 100));
    assert_eq!(ok.velocity, Vec2::new(3, -4));
    assert_eq!(ok.mass, 42);
    let bad = Star2D::new_random_star_2d(
        &d,
        8,
        StarSample { x: 0, y: 0, vx: 0, vy: 0, mass: -5 },
    );
    assert_eq!(bad.err(), Some(SimError::InvalidMass));
}

// The three-body derivative: velocities pass through unchanged and the
// accelerations are finite and antisymmetric for a symmetric pair.
#[test]
fn derivative_velocities_pass_through() {
    let sim = Simulation::new_3body(1, 1000).unwrap();
    let d = get_state_derivative(&sim.initial_state, &sim.masses, sim.g).unwrap();
    assert_eq!(d.velocities.len(), 3);
    for i in 0..3 {
        assert_eq!(d.velocities[i], sim.initial_state.velocities[i]);
    }
    // bodies 1 and 2 mirror each other in y, so their x accelerations agree
    // and their y accelerations are opposite
    assert_eq!(d.accelerations[1].x, d.accelerations[2].x);
    assert_eq!(d.accelerations[1].y, -d.accelerations[2].y);
    // the first body sits on the symmetry axis: no y acceleration
    assert_eq!(d.accelerations[0].y, 0);
    assert!(d.accelerations[0].x != 0);
}

// Out-of-range states are rejected without change: with the largest g and
// masses at close range the velocity update leaves the representable
// range.
#[test]
fn step_reports_out_of_range() {
    let stars = vec![
        star(1, -1000, 0, 0, 0, 100_000_000),
        star(2, 1000, 0, 0, 0, 100_000_000),
    ];
    let mut sim =
        Simulation2D::new(domain_1000(), 100_000_000, 1_000_000, 1, stars.clone()).unwrap();
    let r = sim.step();
    assert_eq!(r, Err(SimError::OutOfRange));
    assert_eq!(sim.get_stars()[0].position, stars[0].position);
    assert_eq!(sim.get_stars()[0].velocity, stars[0].velocity);
}

#[test]
fn new_3body_exact_configuration() {
    let sim = Simulation::new_3body(1, 1000).unwrap();
    assert_eq!(sim.masses, vec![90_000_000, 90_000_000, 90_000_000]);
    assert_eq!(sim.g, 100_000_000);
    assert_eq!(sim.initial_state.positions[0], Vec2::new(-92762, 0));
    assert_eq!(sim.initial_state.positions[1], Vec2::new(46381, -29627));
    assert_eq!(sim.initial_state.positions[2], Vec2::new(46381, 29627));
    assert_eq!(sim.initial_state.velocities[0], Vec2::new(0, -151309));
    assert_eq!(sim.initial_state.velocities[1], Vec2::new(-355311, 75655));
    assert_eq!(sim.initial_state.velocities[2], Vec2::new(355311, 75655));
    assert_eq!(Simulation::new_3body(0, 1000).err(), Some(SimError::InvalidConfig));
}

// The proved bound on the rate of change of momentum under the three-body
// derivative: the mass-weighted accelerations sum to at most one rounding
// unit per body per partner.
#[test]
fn derivative_momentum_rate_bounded() {
    let sim = Simulation::new_3body(1, 1000).unwrap();
    let d = get_state_derivative(&sim.initial_state, &sim.masses, sim.g).unwrap();
    let mut sx = 0i128;
    let mut sy = 0i128;
    for i in 0..3 {
        sx += sim.masses[i] as i128 * d.accelerations[i].x as i128;
        sy += sim.masses[i] as i128 * d.accelerations[i].y as i128;
    }
    let bound: i128 = 3 * (3 * 90_000_000);
    assert!(sx.abs() <= bound);
    assert!(sy.abs() <= bound);
}
