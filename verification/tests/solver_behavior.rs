use dfsph::fixed::{fx_mul, SCALE};
use dfsph::model::{
    Boundary, Contact, ContactManager, Counters, Fluid, ParticlesContacts, SolverError,
    TimestepManager,
};
use dfsph::solver::{DFSPHSolver, UniformAcceleration};
use dfsph::vect::Vect;

fn fx(units: i64) -> i64 {
    units * SCALE
}

fn v(x: i64, y: i64) -> Vect {
    Vect { x, y }
}

fn contact(i_model: usize, i: usize, j_model: usize, j: usize, w: i64, gx: i64, gy: i64) -> Contact {
    Contact { i_model, i, j_model, j, weight: w, gradient: v(gx, gy) }
}

fn pc(per_particle: Vec<Vec<Contact>>) -> ParticlesContacts {
    ParticlesContacts { per_particle }
}

fn fluid(n: usize, mass: i64, density0: i64) -> Fluid {
    Fluid {
        positions: vec![v(0, 0); n],
        velocities: vec![v(0, 0); n],
        accelerations: vec![v(0, 0); n],
        masses: vec![mass; n],
        density0,
        deleted: vec![false; n],
    }
}

fn boundary(n: usize) -> Boundary {
    Boundary {
        positions: vec![v(0, 0); n],
        velocities: vec![v(0, 0); n],
        volumes: vec![0; n],
        forces: vec![v(0, 0); n],
    }
}

/// One fluid particle that only sees itself, plus one boundary particle
/// that only sees itself; no fluid-boundary coupling.
fn isolated_world() -> (DFSPHSolver, ContactManager, Vec<Fluid>, Vec<Boundary>) {
    let fluids = vec![fluid(1, fx(1), fx(1))];
    let boundaries = vec![boundary(1)];
    let cm = ContactManager {
        fluid_fluid_contacts: vec![pc(vec![vec![contact(0, 0, 0, 0, fx(1), 0, 0)]])],
        fluid_boundary_contacts: vec![pc(vec![vec![]])],
        boundary_boundary_contacts: vec![pc(vec![vec![contact(0, 0, 0, 0, fx(1), 0, 0)]])],
    };
    let mut solver = DFSPHSolver::new();
    solver.init_with_fluids(&fluids);
    (solver, cm, fluids, boundaries)
}

/// Two mirrored particles of one fluid: each sees itself (zero
/// gradient) and the other through an antisymmetric gradient.
fn mirrored_pair() -> (DFSPHSolver, ContactManager, Vec<Fluid>, Vec<Boundary>) {
    let mut f = fluid(2, fx(1), fx(1));
    f.positions = vec![v(fx(-45) / 100, 0), v(fx(45) / 100, 0)];
    let fluids = vec![f];
    let boundaries: Vec<Boundary> = Vec::new();
    let cm = ContactManager {
        fluid_fluid_contacts: vec![pc(vec![
            vec![
                contact(0, 0, 0, 0, fx(1), 0, 0),
                contact(0, 0, 0, 1, SCALE / 2, fx(1), 0),
            ],
            vec![
                contact(0, 1, 0, 1, fx(1), 0, 0),
                contact(0, 1, 0, 0, SCALE / 2, fx(-1), 0),
            ],
        ])],
        fluid_boundary_contacts: vec![pc(vec![vec![], vec![]])],
        boundary_boundary_contacts: vec![],
    };
    let mut solver = DFSPHSolver::new();
    solver.init_with_fluids(&fluids);
    (solver, cm, fluids, boundaries)
}

#[test]
fn new_solver_has_documented_defaults() {
    let s = DFSPHSolver::new();
    assert_eq!(s.min_pressure_iter, 1);
    assert_eq!(s.max_pressure_iter, 50);
    assert_eq!(s.max_density_error, 50_000);
    assert_eq!(s.min_divergence_iter, 1);
    assert_eq!(s.max_divergence_iter, 50);
    assert_eq!(s.max_divergence_error, 100_000);
    assert_eq!(s.min_neighbors_for_divergence_solve, 6);
}

#[test]
fn init_sizes_every_buffer_per_fluid() {
    let fluids = vec![fluid(3, fx(1), fx(1)), fluid(5, fx(1), fx(2))];
    let mut s = DFSPHSolver::new();
    s.init_with_fluids(&fluids);
    assert_eq!(s.alphas.len(), 2);
    assert_eq!(s.alphas[0].len(), 3);
    assert_eq!(s.alphas[1].len(), 5);
    assert_eq!(s.densities[1].len(), 5);
    assert_eq!(s.predicted_densities[0].len(), 3);
    assert_eq!(s.divergences[1].len(), 5);
    assert_eq!(s.velocity_changes[0].len(), 3);
}

#[test]
fn init_compacts_buffers_against_deletion_mask() {
    let mut f = fluid(4, fx(1), fx(1));
    let mut s = DFSPHSolver::new();
    s.init_with_fluids(&vec![fluid(4, fx(1), fx(1))]);
    // Mark per-particle state, delete particles 1 and 3, re-initialize.
    s.densities[0] = vec![10, 20, 30, 40];
    s.velocity_changes[0] = vec![v(1, 1), v(2, 2), v(3, 3), v(4, 4)];
    f.deleted = vec![false, true, false, true];
    s.init_with_fluids(&vec![f]);
    assert_eq!(s.densities[0], vec![10, 30]);
    assert_eq!(s.velocity_changes[0], vec![v(1, 1), v(3, 3)]);
    assert_eq!(s.alphas[0].len(), 2);
}

#[test]
fn boundary_volumes_are_reciprocal_kernel_sums() {
    let mut s = DFSPHSolver::new();
    let bb = vec![pc(vec![
        vec![contact(0, 0, 0, 0, fx(1), 0, 0)],
        vec![contact(0, 1, 0, 1, SCALE / 2, 0, 0)],
    ])];
    let mut bds = vec![boundary(2)];
    let r = s.compute_boundary_volumes(&bb, &mut bds);
    assert!(r.is_ok());
    assert_eq!(bds[0].volumes, vec![fx(1), fx(2)]);
}

#[test]
fn boundary_particle_without_neighbors_is_an_error() {
    let mut s = DFSPHSolver::new();
    let bb = vec![pc(vec![vec![]])];
    let mut bds = vec![boundary(1)];
    let r = s.compute_boundary_volumes(&bb, &mut bds);
    assert_eq!(r, Err(SolverError::ZeroBoundaryKernelSum));
}

#[test]
fn densities_sum_fluid_and_boundary_parts() {
    let fluids = vec![fluid(1, fx(1), fx(1))];
    let mut bds = vec![boundary(1)];
    let cm = ContactManager {
        fluid_fluid_contacts: vec![pc(vec![vec![contact(0, 0, 0, 0, fx(1), 0, 0)]])],
        fluid_boundary_contacts: vec![pc(vec![vec![contact(0, 0, 0, 0, SCALE / 2, 0, fx(-1))]])],
        boundary_boundary_contacts: vec![pc(vec![vec![contact(0, 0, 0, 0, fx(1), 0, 0)]])],
    };
    let mut s = DFSPHSolver::new();
    s.init_with_fluids(&fluids);
    let r = s.compute_densities(&cm, &fluids, &mut bds);
    assert!(r.is_ok());
    // m * 1.0 + volume * rho0 * 0.5 = 1.0 + 0.5
    assert_eq!(s.densities[0][0], fx(3) / 2);
}

#[test]
fn zero_density_is_an_error() {
    let fluids = vec![fluid(1, fx(1), fx(1))];
    let mut bds: Vec<Boundary> = Vec::new();
    let cm = ContactManager {
        fluid_fluid_contacts: vec![pc(vec![vec![]])],
        fluid_boundary_contacts: vec![pc(vec![vec![]])],
        boundary_boundary_contacts: vec![],
    };
    let mut s = DFSPHSolver::new();
    s.init_with_fluids(&fluids);
    let r = s.compute_densities(&cm, &fluids, &mut bds);
    assert_eq!(r, Err(SolverError::NonPositiveDensity));
}

#[test]
fn isolated_particle_gets_zero_alpha() {
    let (mut s, cm, fluids, bds) = isolated_world();
    s.compute_alphas(
        &cm.fluid_fluid_contacts,
        &cm.fluid_boundary_contacts,
        &fluids,
        &bds,
    );
    assert_eq!(s.alphas[0][0], 0);
}

#[test]
fn paired_particles_get_positive_alpha() {
    let (mut s, cm, fluids, bds) = mirrored_pair();
    s.compute_alphas(
        &cm.fluid_fluid_contacts,
        &cm.fluid_boundary_contacts,
        &fluids,
        &bds,
    );
    // Gradient (1, 0) times mass 1: squared sum 1, sum norm 1, so the
    // denominator is 2 and alpha is 0.5.
    assert_eq!(s.alphas[0][0], SCALE / 2);
    assert_eq!(s.alphas[0][1], SCALE / 2);
}

#[test]
fn nonpositive_predicted_density_is_an_error() {
    let (mut s, cm, mut fluids, bds) = mirrored_pair();
    let t = TimestepManager::new(SCALE / 1000);
    // A tiny base density and a strongly divergent relative velocity
    // drive the prediction negative.
    s.densities[0] = vec![1, 1];
    fluids[0].velocities = vec![v(0, 0), v(fx(10_000), 0)];
    let r = s.compute_predicted_densities(
        &t,
        &cm.fluid_fluid_contacts,
        &cm.fluid_boundary_contacts,
        &fluids,
        &bds,
    );
    assert_eq!(r, Err(SolverError::NonPositivePredictedDensity));
}

#[test]
fn predicted_density_matches_hand_computation() {
    let (mut s, cm, mut fluids, bds) = mirrored_pair();
    let t = TimestepManager::new(SCALE / 1000);
    s.densities[0] = vec![fx(3) / 2, fx(3) / 2];
    fluids[0].velocities = vec![v(fx(1), 0), v(fx(-1), 0)];
    let r = s.compute_predicted_densities(
        &t,
        &cm.fluid_fluid_contacts,
        &cm.fluid_boundary_contacts,
        &fluids,
        &bds,
    );
    // delta = m * (v0 - v1) . grad = 2.0; predicted = 1.5 + 0.001 * 2.
    let err = r.unwrap();
    assert_eq!(s.predicted_densities[0][0], fx(3) / 2 + 2_000);
    assert_eq!(s.predicted_densities[0][1], fx(3) / 2 + 2_000);
    // error = predicted / rho0 - 1 = 0.502, the mean over both particles.
    assert_eq!(err, 502_000);
}

#[test]
fn under_neighbored_particles_are_gated_out_of_divergence() {
    let (mut s, cm, mut fluids, bds) = mirrored_pair();
    fluids[0].velocities = vec![v(fx(1), 0), v(fx(-1), 0)];
    let err = s.compute_divergences(
        &cm.fluid_fluid_contacts,
        &cm.fluid_boundary_contacts,
        &fluids,
        &bds,
    );
    // Two contacts each is fewer than the six required: both divergences
    // are zero and so is the reported error.
    assert_eq!(s.divergences[0][0], 0);
    assert_eq!(s.divergences[0][1], 0);
    assert_eq!(err, 0);
}

#[test]
fn divergence_is_clamped_at_zero() {
    let (mut s, cm, mut fluids, bds) = mirrored_pair();
    s.min_neighbors_for_divergence_solve = 1;
    // Separating velocities: the raw divergence is negative, the
    // clamped value zero.
    fluids[0].velocities = vec![v(fx(-1), 0), v(fx(1), 0)];
    let err = s.compute_divergences(
        &cm.fluid_fluid_contacts,
        &cm.fluid_boundary_contacts,
        &fluids,
        &bds,
    );
    assert_eq!(s.divergences[0][0], 0);
    assert_eq!(err, 0);
    // Approaching velocities: divergence 2.0 for each particle.
    fluids[0].velocities = vec![v(fx(1), 0), v(fx(-1), 0)];
    let err2 = s.compute_divergences(
        &cm.fluid_fluid_contacts,
        &cm.fluid_boundary_contacts,
        &fluids,
        &bds,
    );
    assert_eq!(s.divergences[0][0], fx(2));
    assert_eq!(err2, fx(2));
}

#[test]
fn pressure_sweep_is_compression_only() {
    let (mut s, cm, fluids, _) = mirrored_pair();
    let mut bds: Vec<Boundary> = Vec::new();
    let t = TimestepManager::new(SCALE / 1000);
    // Densities at rest density and zero velocities: predictions stay
    // at rest density, nothing is compressed.
    s.densities[0] = vec![fx(1), fx(1)];
    s.compute_alphas(
        &cm.fluid_fluid_contacts,
        &cm.fluid_boundary_contacts,
        &fluids,
        &bds,
    );
    s.compute_predicted_densities(
        &t,
        &cm.fluid_fluid_contacts,
        &cm.fluid_boundary_contacts,
        &fluids,
        &bds,
    )
    .unwrap();
    s.compute_velocity_changes(
        &t,
        &cm.fluid_fluid_contacts,
        &cm.fluid_boundary_contacts,
        &fluids,
        &mut bds,
    );
    assert_eq!(s.velocity_changes[0], vec![v(0, 0), v(0, 0)]);
}

#[test]
fn pressure_error_is_nonincreasing_on_a_mirrored_pair() {
    let (mut s, cm, mut fluids, _) = mirrored_pair();
    let mut bds: Vec<Boundary> = Vec::new();
    let t = TimestepManager::new(SCALE / 1000);
    s.densities[0] = vec![fx(3) / 2, fx(3) / 2];
    fluids[0].velocities = vec![v(fx(1), 0), v(fx(-1), 0)];
    s.compute_alphas(
        &cm.fluid_fluid_contacts,
        &cm.fluid_boundary_contacts,
        &fluids,
        &bds,
    );
    let mut last = i64::MAX;
    for _ in 0..4 {
        let err = s
            .compute_predicted_densities(
                &t,
                &cm.fluid_fluid_contacts,
                &cm.fluid_boundary_contacts,
                &fluids,
                &bds,
            )
            .unwrap();
        assert!(err <= last);
        last = err;
        s.compute_velocity_changes(
            &t,
            &cm.fluid_fluid_contacts,
            &cm.fluid_boundary_contacts,
            &fluids,
            &mut bds,
        );
    }
}

#[test]
fn pressure_solve_honors_the_iteration_cap() {
    let (mut s, cm, fluids, _) = isolated_world();
    let mut bds: Vec<Boundary> = Vec::new();
    let cm = ContactManager {
        fluid_fluid_contacts: cm.fluid_fluid_contacts,
        fluid_boundary_contacts: cm.fluid_boundary_contacts,
        boundary_boundary_contacts: vec![],
    };
    let t = TimestepManager::new(SCALE / 1000);
    s.max_pressure_iter = 3;
    s.max_density_error = 0;
    // Density above rest with zero alpha: the error never drops, the
    // cap stops the loop.
    s.densities[0] = vec![fx(2)];
    let sweeps = s.pressure_solve(&t, &cm, &fluids, &mut bds).unwrap();
    assert_eq!(sweeps, 3);
}

#[test]
fn divergence_solve_honors_the_iteration_cap() {
    let (mut s, cm, mut fluids, _) = mirrored_pair();
    let mut bds: Vec<Boundary> = Vec::new();
    let cm = ContactManager {
        fluid_fluid_contacts: cm.fluid_fluid_contacts,
        fluid_boundary_contacts: cm.fluid_boundary_contacts,
        boundary_boundary_contacts: vec![],
    };
    let mut counters = Counters::new();
    let t = TimestepManager::new(SCALE / 1000);
    s.min_neighbors_for_divergence_solve = 1;
    s.max_divergence_iter = 5;
    s.max_divergence_error = 0;
    s.densities[0] = vec![fx(3) / 2, fx(3) / 2];
    fluids[0].velocities = vec![v(fx(1), 0), v(fx(-1), 0)];
    // Alphas stay zero (never computed): the corrections do nothing and
    // the divergence never drops, so the cap stops the loop.
    let sweeps = s.divergence_solve(&mut counters, &t, &cm, &fluids, &mut bds);
    assert_eq!(sweeps, 5);
}

#[test]
fn boundary_reaction_force_mirrors_the_velocity_change() {
    // One fluid particle pressed against one boundary particle.
    let fluids = vec![{
        let mut f = fluid(1, fx(1), fx(1));
        f.velocities = vec![v(0, fx(-1))];
        f
    }];
    let mut bds = vec![boundary(1)];
    let cm = ContactManager {
        fluid_fluid_contacts: vec![pc(vec![vec![contact(0, 0, 0, 0, fx(1), 0, 0)]])],
        fluid_boundary_contacts: vec![pc(vec![vec![contact(0, 0, 0, 0, SCALE / 2, 0, fx(-1))]])],
        boundary_boundary_contacts: vec![pc(vec![vec![contact(0, 0, 0, 0, fx(1), 0, 0)]])],
    };
    let mut s = DFSPHSolver::new();
    s.init_with_fluids(&fluids);
    let t = TimestepManager::new(SCALE / 1000);
    s.compute_densities(&cm, &fluids, &mut bds).unwrap();
    s.compute_alphas(
        &cm.fluid_fluid_contacts,
        &cm.fluid_boundary_contacts,
        &fluids,
        &bds,
    );
    s.compute_predicted_densities(
        &t,
        &cm.fluid_fluid_contacts,
        &cm.fluid_boundary_contacts,
        &fluids,
        &bds,
    )
    .unwrap();
    s.compute_velocity_changes(
        &t,
        &cm.fluid_fluid_contacts,
        &cm.fluid_boundary_contacts,
        &fluids,
        &mut bds,
    );
    let dv = s.velocity_changes[0][0];
    // The particle was compressed, so something happened...
    assert_ne!(dv, v(0, 0));
    // ...and the boundary received exactly the removed correction,
    // scaled by the particle's mass over the time step.
    let expected = dv.neg().scale(fx_mul(t.inv_dt(), fx(1)));
    assert_eq!(bds[0].forces[0], expected);
}

#[test]
fn rest_state_is_a_fixed_point_of_step() {
    let (mut s, cm, mut fluids, mut bds) = isolated_world();
    let mut counters = Counters::new();
    let mut t = TimestepManager::new(SCALE / 1000);
    let mut contributors: Vec<Vec<UniformAcceleration>> = vec![vec![]];
    s.compute_densities(&cm, &fluids, &mut bds).unwrap();
    assert_eq!(s.densities[0][0], fx(1));
    let p0 = fluids[0].positions[0];
    let r = s.step(
        &mut counters,
        &mut t,
        &v(0, 0),
        &cm,
        fx(1) / 10,
        &mut fluids,
        &mut bds,
        &mut contributors,
    );
    assert!(r.is_ok());
    assert_eq!(fluids[0].positions[0], p0);
    assert_eq!(fluids[0].velocities[0], v(0, 0));
}

#[test]
fn isolated_particle_falls_under_gravity() {
    let (mut s, cm, mut fluids, mut bds) = isolated_world();
    let mut counters = Counters::new();
    let mut t = TimestepManager::new(SCALE / 1000);
    let mut contributors: Vec<Vec<UniformAcceleration>> = vec![vec![]];
    s.compute_densities(&cm, &fluids, &mut bds).unwrap();
    let gravity = v(0, -9_810_000);
    let r = s.step(
        &mut counters,
        &mut t,
        &gravity,
        &cm,
        fx(1) / 10,
        &mut fluids,
        &mut bds,
        &mut contributors,
    );
    assert!(r.is_ok());
    // alpha is zero, so only gravity acts: dv = g * dt, and the
    // position advances by (v + dv) * dt while the committed velocity
    // stays unchanged until the next step folds dv in.
    assert_eq!(s.velocity_changes[0][0], v(0, -9_810));
    assert_eq!(fluids[0].velocities[0], v(0, 0));
    assert_eq!(fluids[0].positions[0], v(0, -9));
}

#[test]
fn mirrored_pair_stays_mirrored_through_a_step() {
    let (mut s, cm, mut fluids, mut bds) = mirrored_pair();
    let mut counters = Counters::new();
    let mut t = TimestepManager::new(SCALE / 1000);
    let mut contributors: Vec<Vec<UniformAcceleration>> = vec![vec![]];
    fluids[0].velocities = vec![v(fx(1), 0), v(fx(-1), 0)];
    let cm_full = ContactManager {
        fluid_fluid_contacts: cm.fluid_fluid_contacts,
        fluid_boundary_contacts: cm.fluid_boundary_contacts,
        boundary_boundary_contacts: vec![],
    };
    s.compute_densities(&cm_full, &fluids, &mut bds).unwrap();
    let r = s.step(
        &mut counters,
        &mut t,
        &v(0, 0),
        &cm_full,
        fx(1) / 10,
        &mut fluids,
        &mut bds,
        &mut contributors,
    );
    assert!(r.is_ok());
    // Exact antisymmetry: the pair's corrections mirror each other.
    assert_eq!(s.velocity_changes[0][0], s.velocity_changes[0][1].neg());
    assert_eq!(fluids[0].velocities[0], fluids[0].velocities[1].neg());
    assert_eq!(fluids[0].positions[0], fluids[0].positions[1].neg());
}

#[test]
fn uniform_acceleration_contributor_adds_to_accelerations() {
    let (mut s, cm, mut fluids, bds) = isolated_world();
    let t = TimestepManager::new(SCALE / 1000);
    let mut contributors = vec![vec![UniformAcceleration { acc: v(fx(2), fx(3)) }]];
    s.predict_advection(
        &t,
        fx(1) / 10,
        &cm,
        &v(0, fx(-10)),
        &mut fluids,
        &bds,
        &mut contributors,
    );
    // Gravity first, then the contributor.
    assert_eq!(fluids[0].accelerations[0], v(fx(2), fx(-7)));
}

struct SelfContactEvaluator;

impl dfsph::solver::KernelEvaluator for SelfContactEvaluator {
    fn evaluate(
        &mut self,
        _kernel_radius: i64,
        contact_manager: &mut ContactManager,
        fluids: &Vec<Fluid>,
        boundaries: &Vec<Boundary>,
    ) {
        contact_manager.fluid_fluid_contacts = fluids
            .iter()
            .enumerate()
            .map(|(a, f)| {
                pc((0..f.positions.len())
                    .map(|i| vec![contact(a, i, a, i, fx(1), 0, 0)])
                    .collect())
            })
            .collect();
        contact_manager.fluid_boundary_contacts = fluids
            .iter()
            .map(|f| pc(vec![vec![]; f.positions.len()]))
            .collect();
        contact_manager.boundary_boundary_contacts = boundaries
            .iter()
            .enumerate()
            .map(|(b, bd)| {
                pc((0..bd.positions.len())
                    .map(|j| vec![contact(b, j, b, j, fx(1), 0, 0)])
                    .collect())
            })
            .collect();
    }
}

#[test]
fn evaluate_kernels_delegates_to_the_collaborator() {
    let fluids = vec![fluid(2, fx(1), fx(1))];
    let mut bds = vec![boundary(1)];
    let mut cm = ContactManager {
        fluid_fluid_contacts: vec![],
        fluid_boundary_contacts: vec![],
        boundary_boundary_contacts: vec![],
    };
    let mut s = DFSPHSolver::new();
    s.init_with_fluids(&fluids);
    let mut eval = SelfContactEvaluator;
    s.evaluate_kernels(fx(1) / 10, &mut cm, &fluids, &bds, &mut eval);
    assert_eq!(cm.fluid_fluid_contacts[0].per_particle.len(), 2);
    assert_eq!(cm.fluid_fluid_contacts[0].per_particle[1][0].j, 1);
    let r = s.compute_densities(&cm, &fluids, &mut bds);
    assert!(r.is_ok());
    assert_eq!(s.densities[0][0], fx(1));
    assert_eq!(bds[0].volumes[0], fx(1));
}

#[test]
fn pressure_solve_stops_once_within_tolerance() {
    let (mut s, cm, mut fluids, _) = mirrored_pair();
    let mut bds: Vec<Boundary> = Vec::new();
    let t = TimestepManager::new(SCALE / 1000);
    s.densities[0] = vec![fx(3) / 2, fx(3) / 2];
    fluids[0].velocities = vec![v(fx(1), 0), v(fx(-1), 0)];
    s.compute_alphas(
        &cm.fluid_fluid_contacts,
        &cm.fluid_boundary_contacts,
        &fluids,
        &bds,
    );
    // The first sweep resolves the whole compression of this pair; the
    // second evaluation sees the error below tolerance and stops.
    let sweeps = s.pressure_solve(&t, &cm, &fluids, &mut bds).unwrap();
    assert_eq!(sweeps, 1);
}

#[test]
fn divergence_solve_stops_once_within_tolerance() {
    let (mut s, cm, mut fluids, _) = mirrored_pair();
    let mut bds: Vec<Boundary> = Vec::new();
    let mut counters = Counters::new();
    let t = TimestepManager::new(SCALE / 1000);
    s.min_neighbors_for_divergence_solve = 1;
    fluids[0].velocities = vec![v(fx(1), 0), v(fx(-1), 0)];
    s.compute_alphas(
        &cm.fluid_fluid_contacts,
        &cm.fluid_boundary_contacts,
        &fluids,
        &bds,
    );
    let sweeps = s.divergence_solve(&mut counters, &t, &cm, &fluids, &mut bds);
    assert_eq!(sweeps, 1);
    // The corrections cancel the approach velocity: the clamped
    // divergence of the corrected field is zero.
    let err = s.compute_divergences(
        &cm.fluid_fluid_contacts,
        &cm.fluid_boundary_contacts,
        &fluids,
        &bds,
    );
    assert_eq!(err, 0);
}
