//! The DFSPH pressure solver: scratch buffers plus the fixed pipeline of
//! per-step phases.
//!
//! Every per-particle formula is stated twice: once as executable code and
//! once as a spec-level fold over the particle's contact list, accumulated
//! in the same order with the same saturating fixed-point operations, so
//! the contracts pin the buffers down exactly.

use vstd::prelude::*;

use crate::fixed::{
    fx_add, fx_add_s, fx_div, fx_div_s, fx_max, fx_mul, fx_mul_s, fx_recip_up, fx_recip_up_s,
    fx_sub, fx_sub_s, lemma_tdiv_bounds, max_s, SCALE,
};
use crate::model::{
    bb_contact_ok, bb_wf, boundary_n, boundary_wf, count_true_upto, fb_contact_ok, fb_wf,
    ff_contact_ok, ff_wf, filter_mask, fluid_n, fluid_wf, lemma_filter_mask_len, resize_seq,
    resize_vec, filter_from_mask, Boundary, Contact, ContactManager, Counters, Fluid,
    ParticlesContacts, SolverError, TimestepManager,
};
use crate::vect::{
    v2_add, v2_dot, v2_norm_squared, v2_scale, v2_sub, v2_zero, V2, Vect,
};

verus! {

/// Isolation threshold for the alpha denominator, in fixed-point units:
/// the real quantity `1e-6`.
pub const ALPHA_EPS: i64 = 1;

/// Conversion from a percentage to a fraction, in fixed-point units: the
/// real quantity `0.01`.
pub const PERCENT: i64 = 10_000;

/// A DFSPH (divergence-free smoothed particle hydrodynamics) pressure
/// solver: configuration plus one scratch buffer row per fluid.
pub struct DFSPHSolver {
    /// Minimum number of iterations of the constant-density solve.
    pub min_pressure_iter: usize,
    /// Hard cap on iterations of the constant-density solve.
    pub max_pressure_iter: usize,
    /// Acceptable density error as a unitless fixed-point fraction.
    pub max_density_error: i64,
    /// Minimum number of iterations of the divergence solve.
    pub min_divergence_iter: usize,
    /// Hard cap on iterations of the divergence solve.
    pub max_divergence_iter: usize,
    /// Acceptable divergence error in percent, fixed point.
    pub max_divergence_error: i64,
    /// Particles with fewer neighbors are excluded from the divergence
    /// solve.
    pub min_neighbors_for_divergence_solve: usize,
    /// Stiffness buffer: alpha over rho, one entry per particle.
    pub alphas: Vec<Vec<i64>>,
    /// Kernel-sum density buffer.
    pub densities: Vec<Vec<i64>>,
    /// Predicted-density buffer, rewritten every pressure iteration.
    pub predicted_densities: Vec<Vec<i64>>,
    /// Clamped-divergence buffer.
    pub divergences: Vec<Vec<i64>>,
    /// Accumulated velocity-correction buffer.
    pub velocity_changes: Vec<Vec<Vect>>,
}

/// Entry of a scalar buffer.
pub open spec fn sbuf(s: Seq<Vec<i64>>, a: int, i: int) -> int {
    s[a]@[i] as int
}

/// Entry of a vector buffer.
pub open spec fn vbuf(s: Seq<Vec<Vect>>, a: int, i: int) -> V2 {
    s[a]@[i]@
}

/// Contact list of particle `i` of model `a`.
pub open spec fn plist(pcs: Seq<ParticlesContacts>, a: int, i: int) -> Seq<Contact> {
    pcs[a].per_particle@[i]@
}

impl DFSPHSolver {
    /// The per-fluid stiffness buffer, alpha over rho.
    pub open spec fn alphas_view(&self) -> Seq<Vec<i64>> {
        self.alphas@
    }

    /// The per-fluid kernel-sum density buffer.
    pub open spec fn densities_view(&self) -> Seq<Vec<i64>> {
        self.densities@
    }

    /// The per-fluid predicted-density buffer.
    pub open spec fn predicted_densities_view(&self) -> Seq<Vec<i64>> {
        self.predicted_densities@
    }

    /// The per-fluid clamped-divergence buffer.
    pub open spec fn divergences_view(&self) -> Seq<Vec<i64>> {
        self.divergences@
    }

    /// The per-fluid accumulated velocity-correction buffer.
    pub open spec fn velocity_changes_view(&self) -> Seq<Vec<Vect>> {
        self.velocity_changes@
    }

    /// The configuration fields of two solvers agree.
    pub open spec fn same_config(&self, other: &DFSPHSolver) -> bool {
        &&& self.min_pressure_iter == other.min_pressure_iter
        &&& self.max_pressure_iter == other.max_pressure_iter
        &&& self.max_density_error == other.max_density_error
        &&& self.min_divergence_iter == other.min_divergence_iter
        &&& self.max_divergence_iter == other.max_divergence_iter
        &&& self.max_divergence_error == other.max_divergence_error
        &&& self.min_neighbors_for_divergence_solve == other.min_neighbors_for_divergence_solve
    }

    /// Every solver buffer has one row per fluid and one entry per
    /// particle of that fluid.
    pub open spec fn buffers_match(&self, fluids: Seq<Fluid>) -> bool {
        &&& self.alphas_view().len() == fluids.len()
        &&& self.densities_view().len() == fluids.len()
        &&& self.predicted_densities_view().len() == fluids.len()
        &&& self.divergences_view().len() == fluids.len()
        &&& self.velocity_changes_view().len() == fluids.len()
        &&& forall|a: int|
            0 <= a < fluids.len() ==> (#[trigger] self.alphas_view()[a])@.len() == fluid_n(
                fluids[a],
            )
        &&& forall|a: int|
            0 <= a < fluids.len() ==> (#[trigger] self.densities_view()[a])@.len() == fluid_n(
                fluids[a],
            )
        &&& forall|a: int|
            0 <= a < fluids.len() ==> (#[trigger] self.predicted_densities_view()[a])@.len()
                == fluid_n(fluids[a])
        &&& forall|a: int|
            0 <= a < fluids.len() ==> (#[trigger] self.divergences_view()[a])@.len() == fluid_n(
                fluids[a],
            )
        &&& forall|a: int|
            0 <= a < fluids.len() ==> (#[trigger] self.velocity_changes_view()[a])@.len()
                == fluid_n(fluids[a])
    }

    /// A solver with the standard configuration and no buffers yet.
    pub fn new() -> (r: DFSPHSolver)
        ensures
            r.min_pressure_iter == 1,
            r.max_pressure_iter == 50,
            r.max_density_error as int == 50_000,
            r.min_divergence_iter == 1,
            r.max_divergence_iter == 50,
            r.max_divergence_error as int == 100_000,
            r.min_neighbors_for_divergence_solve == 6,
            r.alphas_view() =~= Seq::<Vec<i64>>::empty(),
            r.densities_view() =~= Seq::<Vec<i64>>::empty(),
            r.predicted_densities_view() =~= Seq::<Vec<i64>>::empty(),
            r.divergences_view() =~= Seq::<Vec<i64>>::empty(),
            r.velocity_changes_view() =~= Seq::<Vec<Vect>>::empty(),
            r.buffers_match(Seq::<Fluid>::empty()),
    {
        DFSPHSolver {
            min_pressure_iter: 1,
            max_pressure_iter: 50,
            max_density_error: 50_000,
            min_divergence_iter: 1,
            max_divergence_iter: 50,
            max_divergence_error: 100_000,
            min_neighbors_for_divergence_solve: 6,
            alphas: Vec::new(),
            densities: Vec::new(),
            predicted_densities: Vec::new(),
            divergences: Vec::new(),
            velocity_changes: Vec::new(),
        }
    }
}

/// Saturating sum of the kernel weights of the first `k` contacts.
pub open spec fn kernel_sum(cs: Seq<Contact>, k: int) -> int
    decreases k,
{
    if k <= 0 {
        0
    } else {
        fx_add_s(kernel_sum(cs, k - 1), cs[k - 1].weight as int)
    }
}

/// A sum of non-negative weights is non-negative.
pub proof fn lemma_kernel_sum_nonneg(cs: Seq<Contact>, k: int)
    requires
        forall|j: int| 0 <= j < k ==> (#[trigger] cs[j]).weight >= 0,
    ensures
        kernel_sum(cs, k) >= 0,
    decreases k,
{
    if k > 0 {
        lemma_kernel_sum_nonneg(cs, k - 1);
    }
}

/// The volume a boundary particle receives: the reciprocal of its
/// boundary-boundary kernel sum.
pub open spec fn bvol_spec(bb: Seq<ParticlesContacts>, b: int, j: int) -> int {
    fx_recip_up_s(kernel_sum(plist(bb, b, j), plist(bb, b, j).len() as int))
}

/// Volume entry `(b, j)` has been written and is consistent: a positive
/// kernel sum, its reciprocal stored, strictly positive.
pub open spec fn vol_done(bb: Seq<ParticlesContacts>, bds: Seq<Boundary>, b: int, j: int) -> bool {
    &&& kernel_sum(plist(bb, b, j), plist(bb, b, j).len() as int) > 0
    &&& bds[b].volumes@[j] as int == bvol_spec(bb, b, j)
    &&& bds[b].volumes@[j] > 0
}

/// Two boundaries agree on everything but the volume entries.
pub open spec fn same_but_volumes(x: Boundary, y: Boundary) -> bool {
    &&& y.positions == x.positions
    &&& y.velocities == x.velocities
    &&& y.forces == x.forces
    &&& y.volumes@.len() == x.volumes@.len()
}

impl DFSPHSolver {
    /// Write every boundary particle's kernel-sum volume (the reciprocal
    /// of its boundary-boundary kernel sum).  Fails when some boundary
    /// particle has a zero kernel sum: a boundary particle must at least
    /// see itself or a neighbor.
    pub fn compute_boundary_volumes(
        &mut self,
        boundary_boundary_contacts: &Vec<ParticlesContacts>,
        boundaries: &mut Vec<Boundary>,
    ) -> (res: Result<(), SolverError>)
        requires
            forall|b: int|
                0 <= b < old(boundaries)@.len() ==> boundary_wf(#[trigger] old(boundaries)@[b]),
            bb_wf(boundary_boundary_contacts@, old(boundaries)@),
        ensures
            *final(self) == *old(self),
            final(boundaries)@.len() == old(boundaries)@.len(),
            forall|b: int|
                0 <= b < old(boundaries)@.len() ==> same_but_volumes(
                    old(boundaries)@[b],
                    #[trigger] final(boundaries)@[b],
                ),
            res is Ok ==> forall|b: int, j: int|
                0 <= b < final(boundaries)@.len() && 0 <= j
                    < final(boundaries)@[b].volumes@.len() ==> #[trigger] vol_done(
                    boundary_boundary_contacts@,
                    final(boundaries)@,
                    b,
                    j,
                ),
            res is Err ==> {
                &&& res == Err::<(), SolverError>(SolverError::ZeroBoundaryKernelSum)
                &&& exists|b: int, j: int|
                    0 <= b < old(boundaries)@.len() && 0 <= j < boundary_n(old(boundaries)@[b])
                        && kernel_sum(
                        plist(boundary_boundary_contacts@, b, j),
                        #[trigger] plist(boundary_boundary_contacts@, b, j).len() as int,
                    ) == 0
            },
    {
        let nb = boundaries.len();
        let mut b: usize = 0;
        while b < nb
            invariant
                nb == old(boundaries)@.len(),
                boundaries@.len() == nb,
                0 <= b <= nb,
                forall|x: int|
                    0 <= x < nb ==> boundary_wf(#[trigger] old(boundaries)@[x]),
                bb_wf(boundary_boundary_contacts@, old(boundaries)@),
                forall|x: int|
                    0 <= x < nb ==> same_but_volumes(
                        old(boundaries)@[x],
                        #[trigger] boundaries@[x],
                    ),
                forall|x: int, j: int|
                    0 <= x < b as int && 0 <= j < boundaries@[x].volumes@.len()
                        ==> #[trigger] vol_done(boundary_boundary_contacts@, boundaries@, x, j),
            decreases nb - b,
        {
            let nj = boundaries[b].volumes.len();
            let mut j: usize = 0;
            while j < nj
                invariant
                    nb == old(boundaries)@.len(),
                    boundaries@.len() == nb,
                    0 <= b < nb,
                    0 <= j <= nj,
                    nj as int == boundary_n(old(boundaries)@[b as int]),
                    forall|x: int|
                        0 <= x < nb ==> boundary_wf(#[trigger] old(boundaries)@[x]),
                    bb_wf(boundary_boundary_contacts@, old(boundaries)@),
                    forall|x: int|
                        0 <= x < nb ==> same_but_volumes(
                            old(boundaries)@[x],
                            #[trigger] boundaries@[x],
                        ),
                    forall|x: int, y: int|
                        (0 <= x < b as int && 0 <= y < boundaries@[x].volumes@.len()) || (x == b
                            as int && 0 <= y < j as int) ==> #[trigger] vol_done(
                            boundary_boundary_contacts@,
                            boundaries@,
                            x,
                            y,
                        ),
                decreases nj - j,
            {
                let cs: &Vec<Contact> = &boundary_boundary_contacts[b].per_particle[j];
                let nc = cs.len();
                let mut denom: i64 = 0;
                let mut k: usize = 0;
                proof {
                    assert(cs@ == plist(boundary_boundary_contacts@, b as int, j as int));
                }
                while k < nc
                    invariant
                        nc == cs@.len(),
                        0 <= k <= nc,
                        denom as int == kernel_sum(cs@, k as int),
                    decreases nc - k,
                {
                    denom = fx_add(denom, cs[k].weight);
                    k += 1;
                }
                if denom == 0 {
                    proof {
                        assert(kernel_sum(
                            plist(boundary_boundary_contacts@, b as int, j as int),
                            plist(boundary_boundary_contacts@, b as int, j as int).len() as int,
                        ) == 0);
                    }
                    return Err(SolverError::ZeroBoundaryKernelSum);
                }
                proof {
                    assert(forall|y: int|
                        0 <= y < cs@.len() ==> (#[trigger] cs@[y]).weight >= 0) by {
                        assert(forall|y: int|
                            0 <= y < cs@.len() ==> bb_contact_ok(
                                #[trigger] plist(boundary_boundary_contacts@, b as int, j as int)[y],
                                b as int,
                                j as int,
                                old(boundaries)@,
                            ));
                    }
                    lemma_kernel_sum_nonneg(cs@, nc as int);
                }
                let vol = fx_recip_up(denom);
                let ghost prev = boundaries@;
                boundaries[b].volumes.set(j, vol);
                proof {
                    let bbv = boundary_boundary_contacts@;
                    assert(vol_done(bbv, boundaries@, b as int, j as int));
                    assert forall|x: int, y: int|
                        (0 <= x < b as int && 0 <= y < boundaries@[x].volumes@.len()) || (x == b
                            as int && 0 <= y < j as int + 1) implies #[trigger] vol_done(
                        bbv,
                        boundaries@,
                        x,
                        y,
                    ) by {
                        if !(x == b as int && y == j as int) {
                            assert(vol_done(bbv, prev, x, y));
                            assert(boundaries@[x].volumes@[y] == prev[x].volumes@[y]);
                        }
                    }
                }
                j += 1;
            }
            b += 1;
        }
        Ok(())
    }
}

} // verus!

use crate::model::models_wf;

verus! {

/// Row `a` of a buffer table, or the empty row where the table is too
/// short.
pub open spec fn row_or_empty<T>(s: Seq<Vec<T>>, a: int) -> Seq<T> {
    if 0 <= a < s.len() {
        s[a]@
    } else {
        Seq::empty()
    }
}

/// Number of particles of `f` that survive its deletion mask.
pub open spec fn live_n(f: Fluid) -> int {
    fluid_n(f) - count_true_upto(f.deleted@, f.deleted@.len() as int)
}

/// What one buffer row holds after initialization against fluid `f`:
/// resized to the particle count, then compacted against the deletion
/// mask if any particle was deleted.
pub open spec fn init_row<T>(prev: Seq<T>, f: Fluid, fill: T) -> Seq<T> {
    let r = resize_seq(prev, fluid_n(f), fill);
    if count_true_upto(f.deleted@, f.deleted@.len() as int) > 0 {
        filter_mask(r, f.deleted@)
    } else {
        r
    }
}

/// An initialized row has one entry per surviving particle.
pub proof fn lemma_init_row_len<T>(prev: Seq<T>, f: Fluid, fill: T)
    requires
        fluid_wf(f),
    ensures
        init_row(prev, f, fill).len() == live_n(f),
        live_n(f) <= fluid_n(f),
    decreases 0int,
{
    let n = fluid_n(f);
    let r = resize_seq(prev, n, fill);
    lemma_filter_mask_len(r, f.deleted@, n);
    if !(count_true_upto(f.deleted@, f.deleted@.len() as int) > 0) {
        assert(init_row(prev, f, fill).len() == n);
    }
}

fn resize_rows<T>(v: &mut Vec<Vec<T>>, n: usize)
    ensures
        final(v)@.len() == n,
        forall|i: int| 0 <= i < n && i < old(v)@.len() ==> final(v)@[i] == old(v)@[i],
        forall|i: int| old(v)@.len() <= i < n ==> (#[trigger] final(v)@[i])@ == Seq::<T>::empty(),
{
    if n <= v.len() {
        v.truncate(n);
    } else {
        while v.len() < n
            invariant
                old(v)@.len() <= v@.len() <= n,
                forall|i: int| 0 <= i < old(v)@.len() ==> v@[i] == old(v)@[i],
                forall|i: int|
                    old(v)@.len() <= i < v@.len() ==> (#[trigger] v@[i])@ == Seq::<T>::empty(),
            decreases n - v.len(),
        {
            v.push(Vec::new());
        }
    }
}

/// Bring one buffer table in line with the fluids: one row per fluid,
/// resized to the particle count and compacted against the deletion mask.
fn init_rows<T: Copy>(v: &mut Vec<Vec<T>>, fluids: &Vec<Fluid>, fill: T)
    requires
        forall|a: int| 0 <= a < fluids@.len() ==> fluid_wf(#[trigger] fluids@[a]),
    ensures
        final(v)@.len() == fluids@.len(),
        forall|a: int|
            0 <= a < fluids@.len() ==> (#[trigger] final(v)@[a])@ == init_row(
                row_or_empty(old(v)@, a),
                fluids@[a],
                fill,
            ),
        forall|a: int|
            0 <= a < fluids@.len() ==> (#[trigger] final(v)@[a])@.len() == live_n(fluids@[a]),
{
    let nf = fluids.len();
    resize_rows(v, nf);
    let ghost base = v@;
    let mut a: usize = 0;
    while a < nf
        invariant
            nf == fluids@.len(),
            0 <= a <= nf,
            forall|x: int| 0 <= x < nf ==> fluid_wf(#[trigger] fluids@[x]),
            v@.len() == nf,
            base.len() == nf,
            forall|x: int| a as int <= x < nf ==> #[trigger] v@[x] == base[x],
            forall|x: int|
                0 <= x < a as int ==> (#[trigger] v@[x])@ == init_row(base[x]@, fluids@[x], fill),
        decreases nf - a,
    {
        let n = fluids[a].num_particles();
        resize_vec(&mut v[a], n, fill);
        if fluids[a].num_deleted_particles() != 0 {
            filter_from_mask(&fluids[a].deleted, &mut v[a]);
        }
        a += 1;
    }
    proof {
        assert forall|x: int| 0 <= x < nf implies {
            &&& (#[trigger] v@[x])@ == init_row(row_or_empty(old(v)@, x), fluids@[x], fill)
            &&& v@[x]@.len() == live_n(fluids@[x])
        } by {
            assert(base[x]@ == row_or_empty(old(v)@, x));
            lemma_init_row_len(row_or_empty(old(v)@, x), fluids@[x], fill);
        }
    }
}

impl DFSPHSolver {
    /// Create, resize and compact every solver buffer against the given
    /// fluids.  Must be called when the fluid count changed, when particle
    /// counts changed, or after particles were deleted; each row is
    /// resized to the fluid's particle count and then, if the fluid marks
    /// deletions, compacted so that buffer indices align one to one with
    /// the surviving particles, in order.
    pub fn init_with_fluids(&mut self, fluids: &Vec<Fluid>)
        requires
            forall|a: int| 0 <= a < fluids@.len() ==> fluid_wf(#[trigger] fluids@[a]),
        ensures
            final(self).same_config(old(self)),
            final(self).alphas@.len() == fluids@.len(),
            final(self).densities@.len() == fluids@.len(),
            final(self).predicted_densities@.len() == fluids@.len(),
            final(self).divergences@.len() == fluids@.len(),
            final(self).velocity_changes@.len() == fluids@.len(),
            forall|a: int|
                0 <= a < fluids@.len() ==> {
                    &&& (#[trigger] final(self).alphas@[a])@ == init_row(
                        row_or_empty(old(self).alphas@, a),
                        fluids@[a],
                        0i64,
                    )
                    &&& final(self).densities@[a]@ == init_row(
                        row_or_empty(old(self).densities@, a),
                        fluids@[a],
                        0i64,
                    )
                    &&& final(self).predicted_densities@[a]@ == init_row(
                        row_or_empty(old(self).predicted_densities@, a),
                        fluids@[a],
                        0i64,
                    )
                    &&& final(self).divergences@[a]@ == init_row(
                        row_or_empty(old(self).divergences@, a),
                        fluids@[a],
                        0i64,
                    )
                    &&& final(self).velocity_changes@[a]@ == init_row(
                        row_or_empty(old(self).velocity_changes@, a),
                        fluids@[a],
                        Vect { x: 0, y: 0 },
                    )
                    &&& final(self).alphas@[a]@.len() == live_n(fluids@[a])
                    &&& final(self).densities@[a]@.len() == live_n(fluids@[a])
                    &&& final(self).predicted_densities@[a]@.len() == live_n(fluids@[a])
                    &&& final(self).divergences@[a]@.len() == live_n(fluids@[a])
                    &&& final(self).velocity_changes@[a]@.len() == live_n(fluids@[a])
                },
            (forall|a: int|
                0 <= a < fluids@.len() ==> live_n(#[trigger] fluids@[a]) == fluid_n(fluids@[a]))
                ==> final(self).buffers_match(fluids@),
    {
        init_rows(&mut self.alphas, fluids, 0i64);
        init_rows(&mut self.densities, fluids, 0i64);
        init_rows(&mut self.predicted_densities, fluids, 0i64);
        init_rows(&mut self.divergences, fluids, 0i64);
        init_rows(&mut self.velocity_changes, fluids, Vect { x: 0, y: 0 });
    }

    /// Reserved for symmetry with fluid initialization; boundary buffers
    /// need no setup.
    pub fn init_with_boundaries(&mut self, boundaries: &Vec<Boundary>)
        ensures
            *final(self) == *old(self),
    {
        let _ = boundaries;
    }
}

} // verus!

verus! {

/// Accumulate the fluid-fluid part of the alpha denominator over the
/// first `k` contacts: the running gradient sum and the running sum of
/// squared gradient norms, each gradient weighted by the neighbor's mass.
pub open spec fn grad_ff(acc: (V2, int), cs: Seq<Contact>, fluids: Seq<Fluid>, k: int) -> (V2, int)
    decreases k,
{
    if k <= 0 {
        acc
    } else {
        let p = grad_ff(acc, cs, fluids, k - 1);
        let c = cs[k - 1];
        let g = v2_scale(c.gradient@, fluids[c.j_model as int].masses@[c.j as int] as int);
        (v2_add(p.0, g), fx_add_s(p.1, v2_norm_squared(g)))
    }
}

/// Accumulate the fluid-boundary part of the alpha denominator: each
/// gradient weighted by the boundary particle's volume and the fluid's
/// rest density.
pub open spec fn grad_fb(
    acc: (V2, int),
    cs: Seq<Contact>,
    boundaries: Seq<Boundary>,
    rho0: int,
    k: int,
) -> (V2, int)
    decreases k,
{
    if k <= 0 {
        acc
    } else {
        let p = grad_fb(acc, cs, boundaries, rho0, k - 1);
        let c = cs[k - 1];
        let g = v2_scale(
            v2_scale(c.gradient@, boundaries[c.j_model as int].volumes@[c.j as int] as int),
            rho0,
        );
        (v2_add(p.0, g), fx_add_s(p.1, v2_norm_squared(g)))
    }
}

/// The Gram denominator of particle `(a, i)`: the sum of squared
/// weighted gradient norms plus the squared norm of the weighted
/// gradient sum.
pub open spec fn alpha_denom_spec(
    ff: Seq<ParticlesContacts>,
    fb: Seq<ParticlesContacts>,
    fluids: Seq<Fluid>,
    boundaries: Seq<Boundary>,
    a: int,
    i: int,
) -> int {
    let accf = grad_ff((v2_zero(), 0), plist(ff, a, i), fluids, plist(ff, a, i).len() as int);
    let acc = grad_fb(
        accf,
        plist(fb, a, i),
        boundaries,
        fluids[a].density0 as int,
        plist(fb, a, i).len() as int,
    );
    fx_add_s(acc.1, v2_norm_squared(acc.0))
}

/// The stiffness entry of particle `(a, i)`: zero for an isolated
/// particle, else the reciprocal of the Gram denominator.  The division
/// by the particle's density is fused in by every consumer's formula.
pub open spec fn alpha_spec(
    ff: Seq<ParticlesContacts>,
    fb: Seq<ParticlesContacts>,
    fluids: Seq<Fluid>,
    boundaries: Seq<Boundary>,
    a: int,
    i: int,
) -> int {
    let d = alpha_denom_spec(ff, fb, fluids, boundaries, a, i);
    if d <= ALPHA_EPS as int {
        0
    } else {
        fx_div_s(SCALE as int, d)
    }
}

/// Alpha entry `(a, i)` has been written: the spec value, never negative.
pub open spec fn alpha_done(
    s: Seq<Vec<i64>>,
    ff: Seq<ParticlesContacts>,
    fb: Seq<ParticlesContacts>,
    fluids: Seq<Fluid>,
    boundaries: Seq<Boundary>,
    a: int,
    i: int,
) -> bool {
    &&& sbuf(s, a, i) == alpha_spec(ff, fb, fluids, boundaries, a, i)
    &&& sbuf(s, a, i) >= 0
}

/// The stiffness entry is never negative.
pub proof fn lemma_alpha_nonneg(
    ff: Seq<ParticlesContacts>,
    fb: Seq<ParticlesContacts>,
    fluids: Seq<Fluid>,
    boundaries: Seq<Boundary>,
    a: int,
    i: int,
)
    ensures
        alpha_spec(ff, fb, fluids, boundaries, a, i) >= 0,
{
    let d = alpha_denom_spec(ff, fb, fluids, boundaries, a, i);
    if d > ALPHA_EPS as int {
        lemma_tdiv_bounds(SCALE as int * SCALE as int, d);
        assert(SCALE as int * SCALE as int >= 0) by (nonlinear_arith);
    }
}

impl DFSPHSolver {
    /// Precompute every particle's stiffness factor alpha over rho, the
    /// reciprocal of the local Gram denominator shared by both solves.
    /// Particles whose denominator is at most the isolation threshold
    /// get zero and contribute to neither solve.
    pub fn compute_alphas(
        &mut self,
        fluid_fluid_contacts: &Vec<ParticlesContacts>,
        fluid_boundary_contacts: &Vec<ParticlesContacts>,
        fluids: &Vec<Fluid>,
        boundaries: &Vec<Boundary>,
    )
        requires
            models_wf(fluids@, boundaries@),
            ff_wf(fluid_fluid_contacts@, fluids@),
            fb_wf(fluid_boundary_contacts@, fluids@, boundaries@),
            old(self).buffers_match(fluids@),
        ensures
            final(self).same_config(old(self)),
            final(self).densities == old(self).densities,
            final(self).predicted_densities == old(self).predicted_densities,
            final(self).divergences == old(self).divergences,
            final(self).velocity_changes == old(self).velocity_changes,
            final(self).buffers_match(fluids@),
            forall|a: int, i: int|
                0 <= a < fluids@.len() && 0 <= i < fluid_n(fluids@[a]) ==> #[trigger] alpha_done(
                    final(self).alphas@,
                    fluid_fluid_contacts@,
                    fluid_boundary_contacts@,
                    fluids@,
                    boundaries@,
                    a,
                    i,
                ),
    {
        let nf = fluids.len();
        let mut a: usize = 0;
        while a < nf
            invariant
                nf == fluids@.len(),
                0 <= a <= nf,
                models_wf(fluids@, boundaries@),
                ff_wf(fluid_fluid_contacts@, fluids@),
                fb_wf(fluid_boundary_contacts@, fluids@, boundaries@),
                self.buffers_match(fluids@),
                self.same_config(old(self)),
                self.densities == old(self).densities,
                self.predicted_densities == old(self).predicted_densities,
                self.divergences == old(self).divergences,
                self.velocity_changes == old(self).velocity_changes,
                forall|x: int, i: int|
                    0 <= x < a as int && 0 <= i < fluid_n(fluids@[x]) ==> #[trigger] alpha_done(
                        self.alphas@,
                        fluid_fluid_contacts@,
                        fluid_boundary_contacts@,
                        fluids@,
                        boundaries@,
                        x,
                        i,
                    ),
            decreases nf - a,
        {
            let n = fluids[a].num_particles();
            let mut i: usize = 0;
            while i < n
                invariant
                    nf == fluids@.len(),
                    0 <= a < nf,
                    0 <= i <= n,
                    n as int == fluid_n(fluids@[a as int]),
                    models_wf(fluids@, boundaries@),
                    ff_wf(fluid_fluid_contacts@, fluids@),
                    fb_wf(fluid_boundary_contacts@, fluids@, boundaries@),
                    self.buffers_match(fluids@),
                    self.same_config(old(self)),
                    self.densities == old(self).densities,
                    self.predicted_densities == old(self).predicted_densities,
                    self.divergences == old(self).divergences,
                    self.velocity_changes == old(self).velocity_changes,
                    forall|x: int, y: int|
                        (0 <= x < a as int && 0 <= y < fluid_n(fluids@[x])) || (x == a as int && 0
                            <= y < i as int) ==> #[trigger] alpha_done(
                            self.alphas@,
                            fluid_fluid_contacts@,
                            fluid_boundary_contacts@,
                            fluids@,
                            boundaries@,
                            x,
                            y,
                        ),
                decreases n - i,
            {
                let csf: &Vec<Contact> = &fluid_fluid_contacts[a].per_particle[i];
                let ncf = csf.len();
                let mut grad_sum = Vect::zero();
                let mut sq: i64 = 0;
                let mut k: usize = 0;
                proof {
                    assert(csf@ == plist(fluid_fluid_contacts@, a as int, i as int));
                }
                while k < ncf
                    invariant
                        ncf == csf@.len(),
                        0 <= k <= ncf,
                        nf == fluids@.len(),
                        0 <= a < nf,
                        0 <= i < fluid_n(fluids@[a as int]),
                        models_wf(fluids@, boundaries@),
                        csf@ == plist(fluid_fluid_contacts@, a as int, i as int),
                        ff_wf(fluid_fluid_contacts@, fluids@),
                        grad_sum@ == grad_ff((v2_zero(), 0), csf@, fluids@, k as int).0,
                        sq as int == grad_ff((v2_zero(), 0), csf@, fluids@, k as int).1,
                    decreases ncf - k,
                {
                    let c = csf[k];
                    proof {
                        assert(ff_contact_ok(csf@[k as int], a as int, i as int, fluids@));
                    }
                    let g = c.gradient.scale(fluids[c.j_model].masses[c.j]);
                    sq = fx_add(sq, g.norm_squared());
                    grad_sum = grad_sum.add(g);
                    k += 1;
                }
                let csb: &Vec<Contact> = &fluid_boundary_contacts[a].per_particle[i];
                let ncb = csb.len();
                let ghost accf = (grad_sum@, sq as int);
                let rho0 = fluids[a].density0;
                let mut k2: usize = 0;
                proof {
                    assert(csb@ == plist(fluid_boundary_contacts@, a as int, i as int));
                }
                while k2 < ncb
                    invariant
                        ncb == csb@.len(),
                        0 <= k2 <= ncb,
                        nf == fluids@.len(),
                        0 <= a < nf,
                        0 <= i < fluid_n(fluids@[a as int]),
                        models_wf(fluids@, boundaries@),
                        csb@ == plist(fluid_boundary_contacts@, a as int, i as int),
                        fb_wf(fluid_boundary_contacts@, fluids@, boundaries@),
                        rho0 == fluids@[a as int].density0,
                        grad_sum@ == grad_fb(accf, csb@, boundaries@, rho0 as int, k2 as int).0,
                        sq as int == grad_fb(accf, csb@, boundaries@, rho0 as int, k2 as int).1,
                    decreases ncb - k2,
                {
                    let c = csb[k2];
                    proof {
                        assert(fb_contact_ok(csb@[k2 as int], a as int, i as int, boundaries@));
                    }
                    let g = c.gradient.scale(boundaries[c.j_model].volumes[c.j]).scale(rho0);
                    sq = fx_add(sq, g.norm_squared());
                    grad_sum = grad_sum.add(g);
                    k2 += 1;
                }
                let denom = fx_add(sq, grad_sum.norm_squared());
                let alpha: i64 = if denom <= ALPHA_EPS {
                    0
                } else {
                    fx_div(SCALE, denom)
                };
                proof {
                    assert(denom as int == alpha_denom_spec(
                        fluid_fluid_contacts@,
                        fluid_boundary_contacts@,
                        fluids@,
                        boundaries@,
                        a as int,
                        i as int,
                    ));
                    lemma_alpha_nonneg(
                        fluid_fluid_contacts@,
                        fluid_boundary_contacts@,
                        fluids@,
                        boundaries@,
                        a as int,
                        i as int,
                    );
                }
                let ghost prev = self.alphas@;
                self.alphas[a].set(i, alpha);
                proof {
                    let ffv = fluid_fluid_contacts@;
                    let fbv = fluid_boundary_contacts@;
                    assert(alpha_done(
                        self.alphas@,
                        ffv,
                        fbv,
                        fluids@,
                        boundaries@,
                        a as int,
                        i as int,
                    ));
                    assert forall|x: int, y: int|
                        (0 <= x < a as int && 0 <= y < fluid_n(fluids@[x])) || (x == a as int && 0
                            <= y < i as int + 1) implies #[trigger] alpha_done(
                        self.alphas@,
                        ffv,
                        fbv,
                        fluids@,
                        boundaries@,
                        x,
                        y,
                    ) by {
                        if !(x == a as int && y == i as int) {
                            assert(alpha_done(prev, ffv, fbv, fluids@, boundaries@, x, y));
                            assert(sbuf(self.alphas@, x, y) == sbuf(prev, x, y));
                        }
                    }
                }
                i += 1;
            }
            a += 1;
        }
    }
}

} // verus!

verus! {

/// Fluid-fluid density contribution of the first `k` contacts: each
/// neighbor's mass times the kernel weight.
pub open spec fn dsum_ff(acc: int, cs: Seq<Contact>, fluids: Seq<Fluid>, k: int) -> int
    decreases k,
{
    if k <= 0 {
        acc
    } else {
        let c = cs[k - 1];
        fx_add_s(
            dsum_ff(acc, cs, fluids, k - 1),
            fx_mul_s(fluids[c.j_model as int].masses@[c.j as int] as int, c.weight as int),
        )
    }
}

/// Fluid-boundary density contribution: each boundary particle's volume
/// times the fluid's rest density times the kernel weight.
pub open spec fn dsum_fb(
    acc: int,
    cs: Seq<Contact>,
    boundaries: Seq<Boundary>,
    rho0: int,
    k: int,
) -> int
    decreases k,
{
    if k <= 0 {
        acc
    } else {
        let c = cs[k - 1];
        fx_add_s(
            dsum_fb(acc, cs, boundaries, rho0, k - 1),
            fx_mul_s(
                fx_mul_s(boundaries[c.j_model as int].volumes@[c.j as int] as int, rho0),
                c.weight as int,
            ),
        )
    }
}

/// The kernel-sum density of particle `(a, i)`.
pub open spec fn density_spec(
    ff: Seq<ParticlesContacts>,
    fb: Seq<ParticlesContacts>,
    fluids: Seq<Fluid>,
    boundaries: Seq<Boundary>,
    a: int,
    i: int,
) -> int {
    dsum_fb(
        dsum_ff(0, plist(ff, a, i), fluids, plist(ff, a, i).len() as int),
        plist(fb, a, i),
        boundaries,
        fluids[a].density0 as int,
        plist(fb, a, i).len() as int,
    )
}

/// Density entry `(a, i)` has been written: the spec value, strictly
/// positive.
pub open spec fn density_done(
    s: Seq<Vec<i64>>,
    ff: Seq<ParticlesContacts>,
    fb: Seq<ParticlesContacts>,
    fluids: Seq<Fluid>,
    boundaries: Seq<Boundary>,
    a: int,
    i: int,
) -> bool {
    &&& sbuf(s, a, i) == density_spec(ff, fb, fluids, boundaries, a, i)
    &&& sbuf(s, a, i) > 0
}

impl DFSPHSolver {
    /// Write every boundary particle's volume, then every fluid
    /// particle's kernel-sum density.  Fails when a boundary kernel sum
    /// is zero or a computed density is not strictly positive; both mark
    /// a broken upstream contact graph.
    pub fn compute_densities(
        &mut self,
        contact_manager: &ContactManager,
        fluids: &Vec<Fluid>,
        boundaries: &mut Vec<Boundary>,
    ) -> (res: Result<(), SolverError>)
        requires
            models_wf(fluids@, old(boundaries)@),
            crate::model::contacts_wf(*contact_manager, fluids@, old(boundaries)@),
            old(self).buffers_match(fluids@),
        ensures
            final(self).same_config(old(self)),
            final(self).alphas == old(self).alphas,
            final(self).predicted_densities == old(self).predicted_densities,
            final(self).divergences == old(self).divergences,
            final(self).velocity_changes == old(self).velocity_changes,
            final(self).buffers_match(fluids@),
            final(boundaries)@.len() == old(boundaries)@.len(),
            forall|b: int|
                0 <= b < old(boundaries)@.len() ==> same_but_volumes(
                    old(boundaries)@[b],
                    #[trigger] final(boundaries)@[b],
                ),
            res is Ok ==> {
                &&& forall|b: int, j: int|
                    0 <= b < final(boundaries)@.len() && 0 <= j
                        < final(boundaries)@[b].volumes@.len() ==> #[trigger] vol_done(
                        contact_manager.boundary_boundary_contacts@,
                        final(boundaries)@,
                        b,
                        j,
                    )
                &&& forall|a: int, i: int|
                    0 <= a < fluids@.len() && 0 <= i < fluid_n(fluids@[a])
                        ==> #[trigger] density_done(
                        final(self).densities@,
                        contact_manager.fluid_fluid_contacts@,
                        contact_manager.fluid_boundary_contacts@,
                        fluids@,
                        final(boundaries)@,
                        a,
                        i,
                    )
            },
            res is Err ==> {
                ||| {
                    &&& res == Err::<(), SolverError>(SolverError::ZeroBoundaryKernelSum)
                    &&& exists|b: int, j: int|
                        0 <= b < old(boundaries)@.len() && 0 <= j < boundary_n(old(boundaries)@[b])
                            && kernel_sum(
                            plist(contact_manager.boundary_boundary_contacts@, b, j),
                            #[trigger] plist(
                                contact_manager.boundary_boundary_contacts@,
                                b,
                                j,
                            ).len() as int,
                        ) == 0
                }
                ||| {
                    &&& res == Err::<(), SolverError>(SolverError::NonPositiveDensity)
                    &&& exists|a: int, i: int|
                        0 <= a < fluids@.len() && 0 <= i < fluid_n(fluids@[a]) && density_spec(
                            contact_manager.fluid_fluid_contacts@,
                            #[trigger] contact_manager.fluid_boundary_contacts@,
                            fluids@,
                            final(boundaries)@,
                            a,
                            i,
                        ) <= 0
                }
            },
    {
        match self.compute_boundary_volumes(
            &contact_manager.boundary_boundary_contacts,
            boundaries,
        ) {
            Err(e) => {
                return Err(e);
            },
            Ok(()) => {},
        }
        proof {
            assert(fb_wf(contact_manager.fluid_boundary_contacts@, fluids@, boundaries@)) by {
                assert forall|a: int, i: int, k: int|
                    0 <= a < fluids@.len() && 0 <= i < fluid_n(fluids@[a]) && 0 <= k
                        < contact_manager.fluid_boundary_contacts@[a].per_particle@[i]@.len()
                    implies fb_contact_ok(
                    #[trigger] contact_manager.fluid_boundary_contacts@[a].per_particle@[i]@[k],
                    a,
                    i,
                    boundaries@,
                ) by {
                    assert(fb_contact_ok(
                        contact_manager.fluid_boundary_contacts@[a].per_particle@[i]@[k],
                        a,
                        i,
                        old(boundaries)@,
                    ));
                }
            }
        }
        let ghost bds = boundaries@;
        let nf = fluids.len();
        let mut a: usize = 0;
        while a < nf
            invariant
                nf == fluids@.len(),
                0 <= a <= nf,
                models_wf(fluids@, old(boundaries)@),
                boundaries@ == bds,
                boundaries@.len() == old(boundaries)@.len(),
                forall|b: int|
                    0 <= b < old(boundaries)@.len() ==> same_but_volumes(
                        old(boundaries)@[b],
                        #[trigger] boundaries@[b],
                    ),
                forall|b: int, j: int|
                    0 <= b < boundaries@.len() && 0 <= j < boundaries@[b].volumes@.len()
                        ==> #[trigger] vol_done(
                        contact_manager.boundary_boundary_contacts@,
                        boundaries@,
                        b,
                        j,
                    ),
                ff_wf(contact_manager.fluid_fluid_contacts@, fluids@),
                fb_wf(contact_manager.fluid_boundary_contacts@, fluids@, boundaries@),
                self.buffers_match(fluids@),
                self.same_config(old(self)),
                self.alphas == old(self).alphas,
                self.predicted_densities == old(self).predicted_densities,
                self.divergences == old(self).divergences,
                self.velocity_changes == old(self).velocity_changes,
                forall|x: int, y: int|
                    0 <= x < a as int && 0 <= y < fluid_n(fluids@[x]) ==> #[trigger] density_done(
                        self.densities@,
                        contact_manager.fluid_fluid_contacts@,
                        contact_manager.fluid_boundary_contacts@,
                        fluids@,
                        boundaries@,
                        x,
                        y,
                    ),
            decreases nf - a,
        {
            let n = fluids[a].num_particles();
            let mut i: usize = 0;
            while i < n
                invariant
                    nf == fluids@.len(),
                    0 <= a < nf,
                    0 <= i <= n,
                    n as int == fluid_n(fluids@[a as int]),
                    models_wf(fluids@, old(boundaries)@),
                    boundaries@ == bds,
                    boundaries@.len() == old(boundaries)@.len(),
                    forall|b: int|
                        0 <= b < old(boundaries)@.len() ==> same_but_volumes(
                            old(boundaries)@[b],
                            #[trigger] boundaries@[b],
                        ),
                    forall|b: int, j: int|
                        0 <= b < boundaries@.len() && 0 <= j < boundaries@[b].volumes@.len()
                            ==> #[trigger] vol_done(
                            contact_manager.boundary_boundary_contacts@,
                            boundaries@,
                            b,
                            j,
                        ),
                    ff_wf(contact_manager.fluid_fluid_contacts@, fluids@),
                    fb_wf(contact_manager.fluid_boundary_contacts@, fluids@, boundaries@),
                    self.buffers_match(fluids@),
                    self.same_config(old(self)),
                    self.alphas == old(self).alphas,
                    self.predicted_densities == old(self).predicted_densities,
                    self.divergences == old(self).divergences,
                    self.velocity_changes == old(self).velocity_changes,
                    forall|x: int, y: int|
                        (0 <= x < a as int && 0 <= y < fluid_n(fluids@[x])) || (x == a as int && 0
                            <= y < i as int) ==> #[trigger] density_done(
                            self.densities@,
                            contact_manager.fluid_fluid_contacts@,
                            contact_manager.fluid_boundary_contacts@,
                            fluids@,
                            boundaries@,
                            x,
                            y,
                        ),
                decreases n - i,
            {
                let csf: &Vec<Contact> = &contact_manager.fluid_fluid_contacts[a].per_particle[i];
                let ncf = csf.len();
                let mut d: i64 = 0;
                let mut k: usize = 0;
                proof {
                    assert(csf@ == plist(contact_manager.fluid_fluid_contacts@, a as int, i as int));
                }
                while k < ncf
                    invariant
                        ncf == csf@.len(),
                        0 <= k <= ncf,
                        nf == fluids@.len(),
                        0 <= a < nf,
                        0 <= i < fluid_n(fluids@[a as int]),
                        models_wf(fluids@, old(boundaries)@),
                        csf@ == plist(contact_manager.fluid_fluid_contacts@, a as int, i as int),
                        ff_wf(contact_manager.fluid_fluid_contacts@, fluids@),
                        d as int == dsum_ff(0, csf@, fluids@, k as int),
                    decreases ncf - k,
                {
                    let c = csf[k];
                    proof {
                        assert(ff_contact_ok(csf@[k as int], a as int, i as int, fluids@));
                    }
                    d = fx_add(d, fx_mul(fluids[c.j_model].masses[c.j], c.weight));
                    k += 1;
                }
                let csb: &Vec<Contact> =
                    &contact_manager.fluid_boundary_contacts[a].per_particle[i];
                let ncb = csb.len();
                let ghost dff = d as int;
                let rho0 = fluids[a].density0;
                let mut k2: usize = 0;
                proof {
                    assert(csb@ == plist(
                        contact_manager.fluid_boundary_contacts@,
                        a as int,
                        i as int,
                    ));
                }
                while k2 < ncb
                    invariant
                        ncb == csb@.len(),
                        0 <= k2 <= ncb,
                        nf == fluids@.len(),
                        0 <= a < nf,
                        0 <= i < fluid_n(fluids@[a as int]),
                        models_wf(fluids@, old(boundaries)@),
                        boundaries@ == bds,
                        boundaries@.len() == old(boundaries)@.len(),
                        forall|b: int|
                            0 <= b < old(boundaries)@.len() ==> same_but_volumes(
                                old(boundaries)@[b],
                                #[trigger] boundaries@[b],
                            ),
                        csb@ == plist(
                            contact_manager.fluid_boundary_contacts@,
                            a as int,
                            i as int,
                        ),
                        fb_wf(contact_manager.fluid_boundary_contacts@, fluids@, boundaries@),
                        rho0 == fluids@[a as int].density0,
                        d as int == dsum_fb(dff, csb@, boundaries@, rho0 as int, k2 as int),
                    decreases ncb - k2,
                {
                    let c = csb[k2];
                    proof {
                        assert(fb_contact_ok(csb@[k2 as int], a as int, i as int, boundaries@));
                    }
                    d = fx_add(d, fx_mul(fx_mul(boundaries[c.j_model].volumes[c.j], rho0), c.weight));
                    k2 += 1;
                }
                proof {
                    assert(d as int == density_spec(
                        contact_manager.fluid_fluid_contacts@,
                        contact_manager.fluid_boundary_contacts@,
                        fluids@,
                        boundaries@,
                        a as int,
                        i as int,
                    ));
                }
                if d <= 0 {
                    return Err(SolverError::NonPositiveDensity);
                }
                let ghost prev = self.densities@;
                self.densities[a].set(i, d);
                proof {
                    let ffv = contact_manager.fluid_fluid_contacts@;
                    let fbv = contact_manager.fluid_boundary_contacts@;
                    assert(density_done(
                        self.densities@,
                        ffv,
                        fbv,
                        fluids@,
                        boundaries@,
                        a as int,
                        i as int,
                    ));
                    assert forall|x: int, y: int|
                        (0 <= x < a as int && 0 <= y < fluid_n(fluids@[x])) || (x == a as int && 0
                            <= y < i as int + 1) implies #[trigger] density_done(
                        self.densities@,
                        ffv,
                        fbv,
                        fluids@,
                        boundaries@,
                        x,
                        y,
                    ) by {
                        if !(x == a as int && y == i as int) {
                            assert(density_done(prev, ffv, fbv, fluids@, boundaries@, x, y));
                            assert(sbuf(self.densities@, x, y) == sbuf(prev, x, y));
                        }
                    }
                }
                i += 1;
            }
            a += 1;
        }
        Ok(())
    }
}

} // verus!

use crate::fixed::{fx_div_count, tdiv};

verus! {

/// Velocity of fluid particle `(a, i)` including its accumulated
/// correction.
pub open spec fn vel_plus_dv(fluids: Seq<Fluid>, dv: Seq<Vec<Vect>>, a: int, i: int) -> V2 {
    v2_add(fluids[a].velocities@[i]@, vbuf(dv, a, i))
}

/// Fluid-fluid part of the density rate of particle `(a, i)`: each
/// neighbor's mass times the relative corrected velocity dotted with the
/// kernel gradient, over the first `k` contacts.
pub open spec fn pdelta_ff(
    acc: int,
    cs: Seq<Contact>,
    fluids: Seq<Fluid>,
    dv: Seq<Vec<Vect>>,
    k: int,
) -> int
    decreases k,
{
    if k <= 0 {
        acc
    } else {
        let c = cs[k - 1];
        let vi = vel_plus_dv(fluids, dv, c.i_model as int, c.i as int);
        let vj = vel_plus_dv(fluids, dv, c.j_model as int, c.j as int);
        fx_add_s(
            pdelta_ff(acc, cs, fluids, dv, k - 1),
            fx_mul_s(
                fluids[c.j_model as int].masses@[c.j as int] as int,
                v2_dot(v2_sub(vi, vj), c.gradient@),
            ),
        )
    }
}

/// Fluid-boundary part of the density rate: boundary volume times rest
/// density times the relative velocity against the boundary particle.
pub open spec fn pdelta_fb(
    acc: int,
    cs: Seq<Contact>,
    fluids: Seq<Fluid>,
    boundaries: Seq<Boundary>,
    dv: Seq<Vec<Vect>>,
    rho0: int,
    k: int,
) -> int
    decreases k,
{
    if k <= 0 {
        acc
    } else {
        let c = cs[k - 1];
        let vi = vel_plus_dv(fluids, dv, c.i_model as int, c.i as int);
        let vj = boundaries[c.j_model as int].velocities@[c.j as int]@;
        fx_add_s(
            pdelta_fb(acc, cs, fluids, boundaries, dv, rho0, k - 1),
            fx_mul_s(
                fx_mul_s(boundaries[c.j_model as int].volumes@[c.j as int] as int, rho0),
                v2_dot(v2_sub(vi, vj), c.gradient@),
            ),
        )
    }
}

/// The predicted density of particle `(a, i)`: the kernel-sum density
/// plus the time step times the density rate.
pub open spec fn pred_spec(
    ff: Seq<ParticlesContacts>,
    fb: Seq<ParticlesContacts>,
    fluids: Seq<Fluid>,
    boundaries: Seq<Boundary>,
    dv: Seq<Vec<Vect>>,
    dens: Seq<Vec<i64>>,
    dt: int,
    a: int,
    i: int,
) -> int {
    let delta = pdelta_fb(
        pdelta_ff(0, plist(ff, a, i), fluids, dv, plist(ff, a, i).len() as int),
        plist(fb, a, i),
        fluids,
        boundaries,
        dv,
        fluids[a].density0 as int,
        plist(fb, a, i).len() as int,
    );
    fx_add_s(sbuf(dens, a, i), fx_mul_s(delta, dt))
}

/// Scaled compression error of particle `(a, i)`: zero when the
/// predicted density is below rest density, else the fractional excess.
pub open spec fn perr_term(
    ff: Seq<ParticlesContacts>,
    fb: Seq<ParticlesContacts>,
    fluids: Seq<Fluid>,
    boundaries: Seq<Boundary>,
    dv: Seq<Vec<Vect>>,
    dens: Seq<Vec<i64>>,
    dt: int,
    a: int,
    i: int,
) -> int {
    let pred = pred_spec(ff, fb, fluids, boundaries, dv, dens, dt, a, i);
    let rho0 = fluids[a].density0 as int;
    if pred < rho0 {
        0
    } else {
        fx_sub_s(fx_div_s(pred, rho0), SCALE as int)
    }
}

/// Sum of the compression errors of the first `i_up` particles of fluid
/// `a`.
pub open spec fn perr_sum(
    ff: Seq<ParticlesContacts>,
    fb: Seq<ParticlesContacts>,
    fluids: Seq<Fluid>,
    boundaries: Seq<Boundary>,
    dv: Seq<Vec<Vect>>,
    dens: Seq<Vec<i64>>,
    dt: int,
    a: int,
    i_up: int,
) -> int
    decreases i_up,
{
    if i_up <= 0 {
        0
    } else {
        fx_add_s(
            perr_sum(ff, fb, fluids, boundaries, dv, dens, dt, a, i_up - 1),
            perr_term(ff, fb, fluids, boundaries, dv, dens, dt, a, i_up - 1),
        )
    }
}

/// The reported density error over the first `a_up` fluids: the largest
/// per-fluid mean compression error; empty fluids are skipped.
pub open spec fn perr_max(
    ff: Seq<ParticlesContacts>,
    fb: Seq<ParticlesContacts>,
    fluids: Seq<Fluid>,
    boundaries: Seq<Boundary>,
    dv: Seq<Vec<Vect>>,
    dens: Seq<Vec<i64>>,
    dt: int,
    a_up: int,
) -> int
    decreases a_up,
{
    if a_up <= 0 {
        0
    } else {
        let prev = perr_max(ff, fb, fluids, boundaries, dv, dens, dt, a_up - 1);
        let n = fluid_n(fluids[a_up - 1]);
        if n == 0 {
            prev
        } else {
            max_s(
                prev,
                tdiv(perr_sum(ff, fb, fluids, boundaries, dv, dens, dt, a_up - 1, n), n),
            )
        }
    }
}

/// Predicted-density entry `(a, i)` has been written: the spec value,
/// strictly positive.
pub open spec fn pred_done(
    s: Seq<Vec<i64>>,
    ff: Seq<ParticlesContacts>,
    fb: Seq<ParticlesContacts>,
    fluids: Seq<Fluid>,
    boundaries: Seq<Boundary>,
    dv: Seq<Vec<Vect>>,
    dens: Seq<Vec<i64>>,
    dt: int,
    a: int,
    i: int,
) -> bool {
    &&& sbuf(s, a, i) == pred_spec(ff, fb, fluids, boundaries, dv, dens, dt, a, i)
    &&& sbuf(s, a, i) > 0
}

impl DFSPHSolver {
    /// Evaluate every particle's predicted density from the current
    /// velocities and accumulated corrections, and return the reported
    /// error: the largest per-fluid mean compression error, a unitless
    /// fixed-point fraction.  Fails when a predicted density is not
    /// strictly positive.
    pub fn compute_predicted_densities(
        &mut self,
        timestep: &TimestepManager,
        fluid_fluid_contacts: &Vec<ParticlesContacts>,
        fluid_boundary_contacts: &Vec<ParticlesContacts>,
        fluids: &Vec<Fluid>,
        boundaries: &Vec<Boundary>,
    ) -> (res: Result<i64, SolverError>)
        requires
            models_wf(fluids@, boundaries@),
            ff_wf(fluid_fluid_contacts@, fluids@),
            fb_wf(fluid_boundary_contacts@, fluids@, boundaries@),
            old(self).buffers_match(fluids@),
        ensures
            final(self).same_config(old(self)),
            final(self).alphas == old(self).alphas,
            final(self).densities == old(self).densities,
            final(self).divergences == old(self).divergences,
            final(self).velocity_changes == old(self).velocity_changes,
            final(self).buffers_match(fluids@),
            res matches Ok(err) ==> {
                &&& forall|a: int, i: int|
                    0 <= a < fluids@.len() && 0 <= i < fluid_n(fluids@[a]) ==> #[trigger] pred_done(
                        final(self).predicted_densities@,
                        fluid_fluid_contacts@,
                        fluid_boundary_contacts@,
                        fluids@,
                        boundaries@,
                        old(self).velocity_changes@,
                        old(self).densities@,
                        timestep.dt_spec(),
                        a,
                        i,
                    )
                &&& err as int == perr_max(
                    fluid_fluid_contacts@,
                    fluid_boundary_contacts@,
                    fluids@,
                    boundaries@,
                    old(self).velocity_changes@,
                    old(self).densities@,
                    timestep.dt_spec(),
                    fluids@.len() as int,
                )
            },
            res is Err ==> {
                &&& res == Err::<i64, SolverError>(SolverError::NonPositivePredictedDensity)
                &&& exists|a: int, i: int|
                    0 <= a < fluids@.len() && 0 <= i < fluid_n(fluids@[a]) && #[trigger] pred_spec(
                        fluid_fluid_contacts@,
                        fluid_boundary_contacts@,
                        fluids@,
                        boundaries@,
                        old(self).velocity_changes@,
                        old(self).densities@,
                        timestep.dt_spec(),
                        a,
                        i,
                    ) <= 0
            },
    {
        let ghost ffv = fluid_fluid_contacts@;
        let ghost fbv = fluid_boundary_contacts@;
        let ghost dvv = self.velocity_changes@;
        let ghost densv = self.densities@;
        let dt = timestep.dt();
        let ghost dts = timestep.dt_spec();
        let nf = fluids.len();
        let mut max_error: i64 = 0;
        let mut a: usize = 0;
        while a < nf
            invariant
                nf == fluids@.len(),
                0 <= a <= nf,
                models_wf(fluids@, boundaries@),
                ff_wf(ffv, fluids@),
                fb_wf(fbv, fluids@, boundaries@),
                ffv == fluid_fluid_contacts@,
                fbv == fluid_boundary_contacts@,
                dvv == self.velocity_changes@,
                densv == self.densities@,
                dts == dt as int,
                dts == timestep.dt_spec(),
                self.buffers_match(fluids@),
                self.same_config(old(self)),
                self.alphas == old(self).alphas,
                self.densities == old(self).densities,
                self.divergences == old(self).divergences,
                self.velocity_changes == old(self).velocity_changes,
                max_error as int == perr_max(
                    ffv,
                    fbv,
                    fluids@,
                    boundaries@,
                    dvv,
                    densv,
                    dts,
                    a as int,
                ),
                forall|x: int, y: int|
                    0 <= x < a as int && 0 <= y < fluid_n(fluids@[x]) ==> #[trigger] pred_done(
                        self.predicted_densities@,
                        ffv,
                        fbv,
                        fluids@,
                        boundaries@,
                        dvv,
                        densv,
                        dts,
                        x,
                        y,
                    ),
            decreases nf - a,
        {
            let n = fluids[a].num_particles();
            let mut err_sum: i64 = 0;
            let mut i: usize = 0;
            while i < n
                invariant
                    nf == fluids@.len(),
                    0 <= a < nf,
                    0 <= i <= n,
                    n as int == fluid_n(fluids@[a as int]),
                    models_wf(fluids@, boundaries@),
                    ff_wf(ffv, fluids@),
                    fb_wf(fbv, fluids@, boundaries@),
                    ffv == fluid_fluid_contacts@,
                    fbv == fluid_boundary_contacts@,
                    dvv == self.velocity_changes@,
                    densv == self.densities@,
                    dts == dt as int,
                    dts == timestep.dt_spec(),
                    self.buffers_match(fluids@),
                    self.same_config(old(self)),
                    self.alphas == old(self).alphas,
                    self.densities == old(self).densities,
                    self.divergences == old(self).divergences,
                    self.velocity_changes == old(self).velocity_changes,
                    err_sum as int == perr_sum(
                        ffv,
                        fbv,
                        fluids@,
                        boundaries@,
                        dvv,
                        densv,
                        dts,
                        a as int,
                        i as int,
                    ),
                    forall|x: int, y: int|
                        (0 <= x < a as int && 0 <= y < fluid_n(fluids@[x])) || (x == a as int && 0
                            <= y < i as int) ==> #[trigger] pred_done(
                            self.predicted_densities@,
                            ffv,
                            fbv,
                            fluids@,
                            boundaries@,
                            dvv,
                            densv,
                            dts,
                            x,
                            y,
                        ),
                decreases n - i,
            {
                let csf: &Vec<Contact> = &fluid_fluid_contacts[a].per_particle[i];
                let ncf = csf.len();
                let mut delta: i64 = 0;
                let mut k: usize = 0;
                proof {
                    assert(csf@ == plist(ffv, a as int, i as int));
                }
                while k < ncf
                    invariant
                        ncf == csf@.len(),
                        0 <= k <= ncf,
                        nf == fluids@.len(),
                        0 <= a < nf,
                        0 <= i < fluid_n(fluids@[a as int]),
                        models_wf(fluids@, boundaries@),
                        csf@ == plist(ffv, a as int, i as int),
                        ff_wf(ffv, fluids@),
                        dvv == self.velocity_changes@,
                        self.buffers_match(fluids@),
                        delta as int == pdelta_ff(0, csf@, fluids@, dvv, k as int),
                    decreases ncf - k,
                {
                    let c = csf[k];
                    proof {
                        assert(ff_contact_ok(csf@[k as int], a as int, i as int, fluids@));
                    }
                    let vi = fluids[c.i_model].velocities[c.i].add(
                        self.velocity_changes[c.i_model][c.i],
                    );
                    let vj = fluids[c.j_model].velocities[c.j].add(
                        self.velocity_changes[c.j_model][c.j],
                    );
                    delta = fx_add(
                        delta,
                        fx_mul(fluids[c.j_model].masses[c.j], (vi.sub(vj)).dot(c.gradient)),
                    );
                    k += 1;
                }
                let csb: &Vec<Contact> = &fluid_boundary_contacts[a].per_particle[i];
                let ncb = csb.len();
                let ghost dff = delta as int;
                let rho0 = fluids[a].density0;
                let mut k2: usize = 0;
                proof {
                    assert(csb@ == plist(fbv, a as int, i as int));
                }
                while k2 < ncb
                    invariant
                        ncb == csb@.len(),
                        0 <= k2 <= ncb,
                        nf == fluids@.len(),
                        0 <= a < nf,
                        0 <= i < fluid_n(fluids@[a as int]),
                        models_wf(fluids@, boundaries@),
                        csb@ == plist(fbv, a as int, i as int),
                        fb_wf(fbv, fluids@, boundaries@),
                        dvv == self.velocity_changes@,
                        self.buffers_match(fluids@),
                        rho0 == fluids@[a as int].density0,
                        delta as int == pdelta_fb(
                            dff,
                            csb@,
                            fluids@,
                            boundaries@,
                            dvv,
                            rho0 as int,
                            k2 as int,
                        ),
                    decreases ncb - k2,
                {
                    let c = csb[k2];
                    proof {
                        assert(fb_contact_ok(csb@[k2 as int], a as int, i as int, boundaries@));
                    }
                    let vi = fluids[c.i_model].velocities[c.i].add(
                        self.velocity_changes[c.i_model][c.i],
                    );
                    let vj = boundaries[c.j_model].velocities[c.j];
                    delta = fx_add(
                        delta,
                        fx_mul(
                            fx_mul(boundaries[c.j_model].volumes[c.j], rho0),
                            (vi.sub(vj)).dot(c.gradient),
                        ),
                    );
                    k2 += 1;
                }
                let pred = fx_add(self.densities[a][i], fx_mul(delta, dt));
                proof {
                    assert(pred as int == pred_spec(
                        ffv,
                        fbv,
                        fluids@,
                        boundaries@,
                        dvv,
                        densv,
                        dts,
                        a as int,
                        i as int,
                    ));
                }
                if pred <= 0 {
                    proof {
                        assert(dvv == old(self).velocity_changes@);
                        assert(densv == old(self).densities@);
                        assert(dts == timestep.dt_spec());
                        assert(ffv == fluid_fluid_contacts@);
                        assert(fbv == fluid_boundary_contacts@);
                        assert(pred_spec(
                            fluid_fluid_contacts@,
                            fluid_boundary_contacts@,
                            fluids@,
                            boundaries@,
                            old(self).velocity_changes@,
                            old(self).densities@,
                            timestep.dt_spec(),
                            a as int,
                            i as int,
                        ) <= 0);
                    }
                    return Err(SolverError::NonPositivePredictedDensity);
                }
                let ghost prev = self.predicted_densities@;
                self.predicted_densities[a].set(i, pred);
                let term: i64 = if pred < rho0 {
                    0
                } else {
                    fx_sub(fx_div(pred, rho0), SCALE)
                };
                err_sum = fx_add(err_sum, term);
                proof {
                    assert(pred_done(
                        self.predicted_densities@,
                        ffv,
                        fbv,
                        fluids@,
                        boundaries@,
                        dvv,
                        densv,
                        dts,
                        a as int,
                        i as int,
                    ));
                    assert forall|x: int, y: int|
                        (0 <= x < a as int && 0 <= y < fluid_n(fluids@[x])) || (x == a as int && 0
                            <= y < i as int + 1) implies #[trigger] pred_done(
                        self.predicted_densities@,
                        ffv,
                        fbv,
                        fluids@,
                        boundaries@,
                        dvv,
                        densv,
                        dts,
                        x,
                        y,
                    ) by {
                        if !(x == a as int && y == i as int) {
                            assert(pred_done(
                                prev,
                                ffv,
                                fbv,
                                fluids@,
                                boundaries@,
                                dvv,
                                densv,
                                dts,
                                x,
                                y,
                            ));
                            assert(sbuf(self.predicted_densities@, x, y) == sbuf(prev, x, y));
                        }
                    }
                }
                i += 1;
            }
            if n != 0 {
                let err = fx_div_count(err_sum, n);
                max_error = fx_max(max_error, err);
            }
            a += 1;
        }
        Ok(max_error)
    }
}

} // verus!

verus! {

/// Fluid-boundary part of the divergence of particle `(a, i)`: the
/// boundary velocity is deliberately treated as zero here, unlike in the
/// predicted-density formula.
pub open spec fn ddelta_fb(
    acc: int,
    cs: Seq<Contact>,
    fluids: Seq<Fluid>,
    boundaries: Seq<Boundary>,
    dv: Seq<Vec<Vect>>,
    rho0: int,
    k: int,
) -> int
    decreases k,
{
    if k <= 0 {
        acc
    } else {
        let c = cs[k - 1];
        let vi = vel_plus_dv(fluids, dv, c.i_model as int, c.i as int);
        fx_add_s(
            ddelta_fb(acc, cs, fluids, boundaries, dv, rho0, k - 1),
            fx_mul_s(
                fx_mul_s(
                    v2_dot(vi, c.gradient@),
                    boundaries[c.j_model as int].volumes@[c.j as int] as int,
                ),
                rho0,
            ),
        )
    }
}

/// The clamped divergence of particle `(a, i)`: zero for particles with
/// too few neighbors, else the positive part of the SPH velocity
/// divergence.
pub open spec fn div_spec(
    ff: Seq<ParticlesContacts>,
    fb: Seq<ParticlesContacts>,
    fluids: Seq<Fluid>,
    boundaries: Seq<Boundary>,
    dv: Seq<Vec<Vect>>,
    min_nb: int,
    a: int,
    i: int,
) -> int {
    if plist(ff, a, i).len() + plist(fb, a, i).len() < min_nb {
        0
    } else {
        let delta = ddelta_fb(
            pdelta_ff(0, plist(ff, a, i), fluids, dv, plist(ff, a, i).len() as int),
            plist(fb, a, i),
            fluids,
            boundaries,
            dv,
            fluids[a].density0 as int,
            plist(fb, a, i).len() as int,
        );
        max_s(delta, 0)
    }
}

/// Sum of the scaled divergence errors of the first `i_up` particles of
/// fluid `a`; gated-out particles contribute zero.
pub open spec fn derr_sum(
    ff: Seq<ParticlesContacts>,
    fb: Seq<ParticlesContacts>,
    fluids: Seq<Fluid>,
    boundaries: Seq<Boundary>,
    dv: Seq<Vec<Vect>>,
    min_nb: int,
    a: int,
    i_up: int,
) -> int
    decreases i_up,
{
    if i_up <= 0 {
        0
    } else {
        fx_add_s(
            derr_sum(ff, fb, fluids, boundaries, dv, min_nb, a, i_up - 1),
            fx_div_s(
                div_spec(ff, fb, fluids, boundaries, dv, min_nb, a, i_up - 1),
                fluids[a].density0 as int,
            ),
        )
    }
}

/// The reported divergence error over the first `a_up` fluids: the
/// largest per-fluid mean scaled divergence.
pub open spec fn derr_max(
    ff: Seq<ParticlesContacts>,
    fb: Seq<ParticlesContacts>,
    fluids: Seq<Fluid>,
    boundaries: Seq<Boundary>,
    dv: Seq<Vec<Vect>>,
    min_nb: int,
    a_up: int,
) -> int
    decreases a_up,
{
    if a_up <= 0 {
        0
    } else {
        let prev = derr_max(ff, fb, fluids, boundaries, dv, min_nb, a_up - 1);
        let n = fluid_n(fluids[a_up - 1]);
        if n == 0 {
            prev
        } else {
            max_s(prev, tdiv(derr_sum(ff, fb, fluids, boundaries, dv, min_nb, a_up - 1, n), n))
        }
    }
}

/// Divergence entry `(a, i)` has been written: the spec value, never
/// negative.
pub open spec fn div_done(
    s: Seq<Vec<i64>>,
    ff: Seq<ParticlesContacts>,
    fb: Seq<ParticlesContacts>,
    fluids: Seq<Fluid>,
    boundaries: Seq<Boundary>,
    dv: Seq<Vec<Vect>>,
    min_nb: int,
    a: int,
    i: int,
) -> bool {
    &&& sbuf(s, a, i) == div_spec(ff, fb, fluids, boundaries, dv, min_nb, a, i)
    &&& sbuf(s, a, i) >= 0
}

impl DFSPHSolver {
    /// Evaluate every particle's clamped velocity divergence and return
    /// the reported error: the largest per-fluid mean divergence scaled
    /// by rest density.  Under-neighbored particles get zero and are
    /// excluded from the correction while still counted in the mean.
    pub fn compute_divergences(
        &mut self,
        fluid_fluid_contacts: &Vec<ParticlesContacts>,
        fluid_boundary_contacts: &Vec<ParticlesContacts>,
        fluids: &Vec<Fluid>,
        boundaries: &Vec<Boundary>,
    ) -> (err: i64)
        requires
            models_wf(fluids@, boundaries@),
            ff_wf(fluid_fluid_contacts@, fluids@),
            fb_wf(fluid_boundary_contacts@, fluids@, boundaries@),
            old(self).buffers_match(fluids@),
        ensures
            final(self).same_config(old(self)),
            final(self).alphas == old(self).alphas,
            final(self).densities == old(self).densities,
            final(self).predicted_densities == old(self).predicted_densities,
            final(self).velocity_changes == old(self).velocity_changes,
            final(self).buffers_match(fluids@),
            forall|a: int, i: int|
                0 <= a < fluids@.len() && 0 <= i < fluid_n(fluids@[a]) ==> #[trigger] div_done(
                    final(self).divergences@,
                    fluid_fluid_contacts@,
                    fluid_boundary_contacts@,
                    fluids@,
                    boundaries@,
                    old(self).velocity_changes@,
                    old(self).min_neighbors_for_divergence_solve as int,
                    a,
                    i,
                ),
            err as int == derr_max(
                fluid_fluid_contacts@,
                fluid_boundary_contacts@,
                fluids@,
                boundaries@,
                old(self).velocity_changes@,
                old(self).min_neighbors_for_divergence_solve as int,
                fluids@.len() as int,
            ),
    {
        let ghost ffv = fluid_fluid_contacts@;
        let ghost fbv = fluid_boundary_contacts@;
        let ghost dvv = self.velocity_changes@;
        let min_nb = self.min_neighbors_for_divergence_solve;
        let nf = fluids.len();
        let mut max_error: i64 = 0;
        let mut a: usize = 0;
        while a < nf
            invariant
                nf == fluids@.len(),
                0 <= a <= nf,
                models_wf(fluids@, boundaries@),
                ff_wf(ffv, fluids@),
                fb_wf(fbv, fluids@, boundaries@),
                ffv == fluid_fluid_contacts@,
                fbv == fluid_boundary_contacts@,
                dvv == self.velocity_changes@,
                dvv == old(self).velocity_changes@,
                min_nb == old(self).min_neighbors_for_divergence_solve,
                self.buffers_match(fluids@),
                self.same_config(old(self)),
                self.alphas == old(self).alphas,
                self.densities == old(self).densities,
                self.predicted_densities == old(self).predicted_densities,
                self.velocity_changes == old(self).velocity_changes,
                max_error as int == derr_max(
                    ffv,
                    fbv,
                    fluids@,
                    boundaries@,
                    dvv,
                    min_nb as int,
                    a as int,
                ),
                forall|x: int, y: int|
                    0 <= x < a as int && 0 <= y < fluid_n(fluids@[x]) ==> #[trigger] div_done(
                        self.divergences@,
                        ffv,
                        fbv,
                        fluids@,
                        boundaries@,
                        dvv,
                        min_nb as int,
                        x,
                        y,
                    ),
            decreases nf - a,
        {
            let n = fluids[a].num_particles();
            let mut err_sum: i64 = 0;
            let mut i: usize = 0;
            while i < n
                invariant
                    nf == fluids@.len(),
                    0 <= a < nf,
                    0 <= i <= n,
                    n as int == fluid_n(fluids@[a as int]),
                    models_wf(fluids@, boundaries@),
                    ff_wf(ffv, fluids@),
                    fb_wf(fbv, fluids@, boundaries@),
                    ffv == fluid_fluid_contacts@,
                    fbv == fluid_boundary_contacts@,
                    dvv == self.velocity_changes@,
                    dvv == old(self).velocity_changes@,
                    min_nb == old(self).min_neighbors_for_divergence_solve,
                    self.buffers_match(fluids@),
                    self.same_config(old(self)),
                    self.alphas == old(self).alphas,
                    self.densities == old(self).densities,
                    self.predicted_densities == old(self).predicted_densities,
                    self.velocity_changes == old(self).velocity_changes,
                    err_sum as int == derr_sum(
                        ffv,
                        fbv,
                        fluids@,
                        boundaries@,
                        dvv,
                        min_nb as int,
                        a as int,
                        i as int,
                    ),
                    forall|x: int, y: int|
                        (0 <= x < a as int && 0 <= y < fluid_n(fluids@[x])) || (x == a as int && 0
                            <= y < i as int) ==> #[trigger] div_done(
                            self.divergences@,
                            ffv,
                            fbv,
                            fluids@,
                            boundaries@,
                            dvv,
                            min_nb as int,
                            x,
                            y,
                        ),
                decreases n - i,
            {
                let csf: &Vec<Contact> = &fluid_fluid_contacts[a].per_particle[i];
                let csb: &Vec<Contact> = &fluid_boundary_contacts[a].per_particle[i];
                let ncf = csf.len();
                let ncb = csb.len();
                proof {
                    assert(csf@ == plist(ffv, a as int, i as int));
                    assert(csb@ == plist(fbv, a as int, i as int));
                }
                let gated = ncf < min_nb && ncb < min_nb - ncf;
                let div: i64 = if gated {
                    0
                } else {
                    let mut delta: i64 = 0;
                    let mut k: usize = 0;
                    while k < ncf
                        invariant
                            ncf == csf@.len(),
                            0 <= k <= ncf,
                            nf == fluids@.len(),
                            0 <= a < nf,
                            0 <= i < fluid_n(fluids@[a as int]),
                            models_wf(fluids@, boundaries@),
                            csf@ == plist(ffv, a as int, i as int),
                            ff_wf(ffv, fluids@),
                            dvv == self.velocity_changes@,
                            self.buffers_match(fluids@),
                            delta as int == pdelta_ff(0, csf@, fluids@, dvv, k as int),
                        decreases ncf - k,
                    {
                        let c = csf[k];
                        proof {
                            assert(ff_contact_ok(csf@[k as int], a as int, i as int, fluids@));
                        }
                        let vi = fluids[c.i_model].velocities[c.i].add(
                            self.velocity_changes[c.i_model][c.i],
                        );
                        let vj = fluids[c.j_model].velocities[c.j].add(
                            self.velocity_changes[c.j_model][c.j],
                        );
                        delta = fx_add(
                            delta,
                            fx_mul(fluids[c.j_model].masses[c.j], (vi.sub(vj)).dot(c.gradient)),
                        );
                        k += 1;
                    }
                    let ghost dff = delta as int;
                    let rho0 = fluids[a].density0;
                    let mut k2: usize = 0;
                    while k2 < ncb
                        invariant
                            ncb == csb@.len(),
                            0 <= k2 <= ncb,
                            nf == fluids@.len(),
                            0 <= a < nf,
                            0 <= i < fluid_n(fluids@[a as int]),
                            models_wf(fluids@, boundaries@),
                            csb@ == plist(fbv, a as int, i as int),
                            fb_wf(fbv, fluids@, boundaries@),
                            dvv == self.velocity_changes@,
                            self.buffers_match(fluids@),
                            rho0 == fluids@[a as int].density0,
                            delta as int == ddelta_fb(
                                dff,
                                csb@,
                                fluids@,
                                boundaries@,
                                dvv,
                                rho0 as int,
                                k2 as int,
                            ),
                        decreases ncb - k2,
                    {
                        let c = csb[k2];
                        proof {
                            assert(fb_contact_ok(csb@[k2 as int], a as int, i as int, boundaries@));
                        }
                        let vi = fluids[c.i_model].velocities[c.i].add(
                            self.velocity_changes[c.i_model][c.i],
                        );
                        delta = fx_add(
                            delta,
                            fx_mul(
                                fx_mul(vi.dot(c.gradient), boundaries[c.j_model].volumes[c.j]),
                                rho0,
                            ),
                        );
                        k2 += 1;
                    }
                    fx_max(delta, 0)
                };
                proof {
                    assert(div as int == div_spec(
                        ffv,
                        fbv,
                        fluids@,
                        boundaries@,
                        dvv,
                        min_nb as int,
                        a as int,
                        i as int,
                    ));
                }
                let ghost prev = self.divergences@;
                self.divergences[a].set(i, div);
                let rho0a = fluids[a].density0;
                err_sum = fx_add(err_sum, fx_div(div, rho0a));
                proof {
                    assert(div_done(
                        self.divergences@,
                        ffv,
                        fbv,
                        fluids@,
                        boundaries@,
                        dvv,
                        min_nb as int,
                        a as int,
                        i as int,
                    ));
                    assert forall|x: int, y: int|
                        (0 <= x < a as int && 0 <= y < fluid_n(fluids@[x])) || (x == a as int && 0
                            <= y < i as int + 1) implies #[trigger] div_done(
                        self.divergences@,
                        ffv,
                        fbv,
                        fluids@,
                        boundaries@,
                        dvv,
                        min_nb as int,
                        x,
                        y,
                    ) by {
                        if !(x == a as int && y == i as int) {
                            assert(div_done(
                                prev,
                                ffv,
                                fbv,
                                fluids@,
                                boundaries@,
                                dvv,
                                min_nb as int,
                                x,
                                y,
                            ));
                            assert(sbuf(self.divergences@, x, y) == sbuf(prev, x, y));
                        }
                    }
                }
                i += 1;
            }
            if n != 0 {
                let err = fx_div_count(err_sum, n);
                max_error = fx_max(max_error, err);
            }
            a += 1;
        }
        max_error
    }
}

} // verus!

use crate::fixed::fx_neg;
use crate::fixed::fx_neg_s;
use crate::model::forces_view;
use crate::model::boundaries_except_forces;

verus! {

/// The pressure stiffness coefficient of particle `(a, i)`: the density
/// excess times the precomputed alpha over rho.
pub open spec fn ki_p(
    pred: Seq<Vec<i64>>,
    alph: Seq<Vec<i64>>,
    fluids: Seq<Fluid>,
    a: int,
    i: int,
) -> int {
    fx_mul_s(fx_sub_s(sbuf(pred, a, i), fluids[a].density0 as int), sbuf(alph, a, i))
}

/// The correction a pressure-coupled boundary contact applies: the
/// kernel gradient scaled by the stiffness, the boundary volume, the
/// rest density and the reciprocal time step.
pub open spec fn pb_delta(c: Contact, ki: int, vol: int, rho0: int, inv_dt: int) -> V2 {
    v2_scale(c.gradient@, fx_mul_s(fx_mul_s(fx_mul_s(ki, vol), rho0), inv_dt))
}

/// The reaction force such a contact deposits on the boundary: the same
/// correction scaled by the particle's mass over the time step.
pub open spec fn pb_force(c: Contact, ki: int, vol: int, rho0: int, inv_dt: int, mi: int) -> V2 {
    v2_scale(pb_delta(c, ki, vol, rho0, inv_dt), fx_mul_s(inv_dt, mi))
}

/// Velocity correction of particle `(a, i)` after its first `k`
/// fluid-fluid pressure couplings.
pub open spec fn dvp_ff(
    acc: V2,
    cs: Seq<Contact>,
    pred: Seq<Vec<i64>>,
    alph: Seq<Vec<i64>>,
    fluids: Seq<Fluid>,
    inv_dt: int,
    ki: int,
    k: int,
) -> V2
    decreases k,
{
    if k <= 0 {
        acc
    } else {
        let p = dvp_ff(acc, cs, pred, alph, fluids, inv_dt, ki, k - 1);
        let c = cs[k - 1];
        let kj = ki_p(pred, alph, fluids, c.j_model as int, c.j as int);
        let kij = fx_add_s(max_s(ki, 0), max_s(kj, 0));
        if kij > 0 {
            let coeff = fx_mul_s(kij, fluids[c.j_model as int].masses@[c.j as int] as int);
            v2_sub(p, v2_scale(c.gradient@, fx_mul_s(coeff, inv_dt)))
        } else {
            p
        }
    }
}

/// Velocity correction after the first `k` fluid-boundary pressure
/// couplings; entered only for compressed particles.
pub open spec fn dvp_fb(
    acc: V2,
    cs: Seq<Contact>,
    bds: Seq<Boundary>,
    rho0: int,
    inv_dt: int,
    ki: int,
    k: int,
) -> V2
    decreases k,
{
    if k <= 0 {
        acc
    } else {
        let p = dvp_fb(acc, cs, bds, rho0, inv_dt, ki, k - 1);
        let c = cs[k - 1];
        v2_sub(
            p,
            pb_delta(c, ki, bds[c.j_model as int].volumes@[c.j as int] as int, rho0, inv_dt),
        )
    }
}

/// The full pressure velocity correction of particle `(a, i)`.
pub open spec fn dvp_spec(
    dv0: Seq<Vec<Vect>>,
    ff: Seq<ParticlesContacts>,
    fb: Seq<ParticlesContacts>,
    pred: Seq<Vec<i64>>,
    alph: Seq<Vec<i64>>,
    fluids: Seq<Fluid>,
    bds: Seq<Boundary>,
    inv_dt: int,
    a: int,
    i: int,
) -> V2 {
    let ki = ki_p(pred, alph, fluids, a, i);
    let afterf = dvp_ff(
        vbuf(dv0, a, i),
        plist(ff, a, i),
        pred,
        alph,
        fluids,
        inv_dt,
        ki,
        plist(ff, a, i).len() as int,
    );
    if ki > 0 {
        dvp_fb(
            afterf,
            plist(fb, a, i),
            bds,
            fluids[a].density0 as int,
            inv_dt,
            ki,
            plist(fb, a, i).len() as int,
        )
    } else {
        afterf
    }
}

/// Deposit a force into one slot of the boundary force accumulators.
pub open spec fn dep(fv: Seq<Seq<V2>>, b: int, j: int, f: V2) -> Seq<Seq<V2>> {
    fv.update(b, fv[b].update(j, v2_add(fv[b][j], f)))
}

/// Forces after the first `k` boundary couplings of one compressed
/// particle.
pub open spec fn depp_cs(
    fv: Seq<Seq<V2>>,
    cs: Seq<Contact>,
    bds: Seq<Boundary>,
    rho0: int,
    inv_dt: int,
    ki: int,
    mi: int,
    k: int,
) -> Seq<Seq<V2>>
    decreases k,
{
    if k <= 0 {
        fv
    } else {
        let p = depp_cs(fv, cs, bds, rho0, inv_dt, ki, mi, k - 1);
        let c = cs[k - 1];
        dep(
            p,
            c.j_model as int,
            c.j as int,
            pb_force(c, ki, bds[c.j_model as int].volumes@[c.j as int] as int, rho0, inv_dt, mi),
        )
    }
}

/// Forces after particle `(a, i)` has run its pressure couplings.
pub open spec fn depp_particle(
    fv: Seq<Seq<V2>>,
    fb: Seq<ParticlesContacts>,
    pred: Seq<Vec<i64>>,
    alph: Seq<Vec<i64>>,
    fluids: Seq<Fluid>,
    bds: Seq<Boundary>,
    inv_dt: int,
    a: int,
    i: int,
) -> Seq<Seq<V2>> {
    let ki = ki_p(pred, alph, fluids, a, i);
    if ki > 0 {
        depp_cs(
            fv,
            plist(fb, a, i),
            bds,
            fluids[a].density0 as int,
            inv_dt,
            ki,
            fluids[a].masses@[i] as int,
            plist(fb, a, i).len() as int,
        )
    } else {
        fv
    }
}

/// Forces after the first `i_up` particles of fluid `a`.
pub open spec fn depp_fluid(
    fv: Seq<Seq<V2>>,
    fb: Seq<ParticlesContacts>,
    pred: Seq<Vec<i64>>,
    alph: Seq<Vec<i64>>,
    fluids: Seq<Fluid>,
    bds: Seq<Boundary>,
    inv_dt: int,
    a: int,
    i_up: int,
) -> Seq<Seq<V2>>
    decreases i_up,
{
    if i_up <= 0 {
        fv
    } else {
        depp_particle(
            depp_fluid(fv, fb, pred, alph, fluids, bds, inv_dt, a, i_up - 1),
            fb,
            pred,
            alph,
            fluids,
            bds,
            inv_dt,
            a,
            i_up - 1,
        )
    }
}

/// Forces after the first `a_up` fluids.
pub open spec fn depp_all(
    fv: Seq<Seq<V2>>,
    fb: Seq<ParticlesContacts>,
    pred: Seq<Vec<i64>>,
    alph: Seq<Vec<i64>>,
    fluids: Seq<Fluid>,
    bds: Seq<Boundary>,
    inv_dt: int,
    a_up: int,
) -> Seq<Seq<V2>>
    decreases a_up,
{
    if a_up <= 0 {
        fv
    } else {
        depp_fluid(
            depp_all(fv, fb, pred, alph, fluids, bds, inv_dt, a_up - 1),
            fb,
            pred,
            alph,
            fluids,
            bds,
            inv_dt,
            a_up - 1,
            fluid_n(fluids[a_up - 1]),
        )
    }
}

/// Depositing a force through `apply_force` matches `dep` on the views.
pub proof fn lemma_forces_view_dep(prev: Seq<Boundary>, cur: Seq<Boundary>, b: int, j: int, f: V2)
    requires
        prev.len() == cur.len(),
        0 <= b < prev.len(),
        0 <= j < prev[b].forces@.len(),
        forall|x: int| 0 <= x < cur.len() && x != b ==> #[trigger] cur[x].forces == prev[x].forces,
        cur[b].forces@.len() == prev[b].forces@.len(),
        cur[b].forces@[j]@ == v2_add(prev[b].forces@[j]@, f),
        forall|y: int|
            0 <= y < cur[b].forces@.len() && y != j ==> #[trigger] cur[b].forces@[y]
                == prev[b].forces@[y],
    ensures
        forces_view(cur) == dep(forces_view(prev), b, j, f),
{
    assert(forces_view(cur) =~~= dep(forces_view(prev), b, j, f));
}

/// Velocity-correction entry `(a, i)` has been written by the pressure
/// phase.
pub open spec fn dvp_done(
    s: Seq<Vec<Vect>>,
    dv0: Seq<Vec<Vect>>,
    ff: Seq<ParticlesContacts>,
    fb: Seq<ParticlesContacts>,
    pred: Seq<Vec<i64>>,
    alph: Seq<Vec<i64>>,
    fluids: Seq<Fluid>,
    bds: Seq<Boundary>,
    inv_dt: int,
    a: int,
    i: int,
) -> bool {
    vbuf(s, a, i) == dvp_spec(dv0, ff, fb, pred, alph, fluids, bds, inv_dt, a, i)
}

impl DFSPHSolver {
    /// One Jacobi sweep of the constant-density solve: apply the
    /// symmetric fluid-fluid and one-sided fluid-boundary pressure
    /// couplings to every particle's velocity correction, and deposit
    /// the reaction force of each boundary coupling on the boundary.
    /// Only compression acts: coefficients are clamped at zero.
    pub fn compute_velocity_changes(
        &mut self,
        timestep: &TimestepManager,
        fluid_fluid_contacts: &Vec<ParticlesContacts>,
        fluid_boundary_contacts: &Vec<ParticlesContacts>,
        fluids: &Vec<Fluid>,
        boundaries: &mut Vec<Boundary>,
    )
        requires
            timestep.wf(),
            models_wf(fluids@, old(boundaries)@),
            ff_wf(fluid_fluid_contacts@, fluids@),
            fb_wf(fluid_boundary_contacts@, fluids@, old(boundaries)@),
            old(self).buffers_match(fluids@),
        ensures
            final(self).same_config(old(self)),
            final(self).alphas == old(self).alphas,
            final(self).densities == old(self).densities,
            final(self).predicted_densities == old(self).predicted_densities,
            final(self).divergences == old(self).divergences,
            final(self).buffers_match(fluids@),
            boundaries_except_forces(old(boundaries)@, final(boundaries)@),
            forall|a: int, i: int|
                0 <= a < fluids@.len() && 0 <= i < fluid_n(fluids@[a]) ==> #[trigger] dvp_done(
                    final(self).velocity_changes@,
                    old(self).velocity_changes@,
                    fluid_fluid_contacts@,
                    fluid_boundary_contacts@,
                    old(self).predicted_densities@,
                    old(self).alphas@,
                    fluids@,
                    old(boundaries)@,
                    fx_div_s(SCALE as int, timestep.dt_spec()),
                    a,
                    i,
                ),
            forces_view(final(boundaries)@) == depp_all(
                forces_view(old(boundaries)@),
                fluid_boundary_contacts@,
                old(self).predicted_densities@,
                old(self).alphas@,
                fluids@,
                old(boundaries)@,
                fx_div_s(SCALE as int, timestep.dt_spec()),
                fluids@.len() as int,
            ),
    {
        let ghost ffv = fluid_fluid_contacts@;
        let ghost fbv = fluid_boundary_contacts@;
        let ghost dv0 = self.velocity_changes@;
        let ghost predv = self.predicted_densities@;
        let ghost alphv = self.alphas@;
        let ghost bds0 = old(boundaries)@;
        let ghost f0 = forces_view(old(boundaries)@);
        let inv_dt = timestep.inv_dt();
        let ghost idt = inv_dt as int;
        let nf = fluids.len();
        let mut a: usize = 0;
        while a < nf
            invariant
                nf == fluids@.len(),
                0 <= a <= nf,
                models_wf(fluids@, bds0),
                bds0 == old(boundaries)@,
                ff_wf(ffv, fluids@),
                fb_wf(fbv, fluids@, bds0),
                ffv == fluid_fluid_contacts@,
                fbv == fluid_boundary_contacts@,
                dv0 == old(self).velocity_changes@,
                predv == self.predicted_densities@,
                alphv == self.alphas@,
                idt == inv_dt as int,
                idt == fx_div_s(SCALE as int, timestep.dt_spec()),
                f0 == forces_view(bds0),
                self.buffers_match(fluids@),
                self.same_config(old(self)),
                self.alphas == old(self).alphas,
                self.densities == old(self).densities,
                self.predicted_densities == old(self).predicted_densities,
                self.divergences == old(self).divergences,
                boundaries_except_forces(bds0, boundaries@),
                forall|x: int|
                    0 <= x < boundaries@.len() ==> boundary_wf(#[trigger] boundaries@[x]),
                forces_view(boundaries@) == depp_all(
                    f0,
                    fbv,
                    predv,
                    alphv,
                    fluids@,
                    bds0,
                    idt,
                    a as int,
                ),
                forall|x: int, y: int|
                    0 <= x < a as int && 0 <= y < fluid_n(fluids@[x]) ==> #[trigger] dvp_done(
                        self.velocity_changes@,
                        dv0,
                        ffv,
                        fbv,
                        predv,
                        alphv,
                        fluids@,
                        bds0,
                        idt,
                        x,
                        y,
                    ),
                forall|x: int, y: int|
                    a as int <= x < nf && 0 <= y < fluid_n(fluids@[x])
                        ==> #[trigger] self.velocity_changes@[x]@[y] == dv0[x]@[y],
            decreases nf - a,
        {
            let n = fluids[a].num_particles();
            let mut i: usize = 0;
            while i < n
                invariant
                    nf == fluids@.len(),
                    0 <= a < nf,
                    0 <= i <= n,
                    n as int == fluid_n(fluids@[a as int]),
                    models_wf(fluids@, bds0),
                    bds0 == old(boundaries)@,
                    ff_wf(ffv, fluids@),
                    fb_wf(fbv, fluids@, bds0),
                    ffv == fluid_fluid_contacts@,
                    fbv == fluid_boundary_contacts@,
                    dv0 == old(self).velocity_changes@,
                    predv == self.predicted_densities@,
                    alphv == self.alphas@,
                    idt == inv_dt as int,
                    idt == fx_div_s(SCALE as int, timestep.dt_spec()),
                    f0 == forces_view(bds0),
                    self.buffers_match(fluids@),
                    self.same_config(old(self)),
                    self.alphas == old(self).alphas,
                    self.densities == old(self).densities,
                    self.predicted_densities == old(self).predicted_densities,
                    self.divergences == old(self).divergences,
                    boundaries_except_forces(bds0, boundaries@),
                    forall|x: int|
                        0 <= x < boundaries@.len() ==> boundary_wf(#[trigger] boundaries@[x]),
                    forces_view(boundaries@) == depp_fluid(
                        depp_all(f0, fbv, predv, alphv, fluids@, bds0, idt, a as int),
                        fbv,
                        predv,
                        alphv,
                        fluids@,
                        bds0,
                        idt,
                        a as int,
                        i as int,
                    ),
                    forall|x: int, y: int|
                        (0 <= x < a as int && 0 <= y < fluid_n(fluids@[x])) || (x == a as int && 0
                            <= y < i as int) ==> #[trigger] dvp_done(
                            self.velocity_changes@,
                            dv0,
                            ffv,
                            fbv,
                            predv,
                            alphv,
                            fluids@,
                            bds0,
                            idt,
                            x,
                            y,
                        ),
                    forall|x: int, y: int|
                        ((x == a as int && i as int <= y < fluid_n(fluids@[x])) || ((a as int) < x
                            && x < nf && 0 <= y < fluid_n(fluids@[x])))
                            ==> #[trigger] self.velocity_changes@[x]@[y] == dv0[x]@[y],
                decreases n - i,
            {
                let rho0 = fluids[a].density0;
                let ki = fx_mul(
                    fx_sub(self.predicted_densities[a][i], rho0),
                    self.alphas[a][i],
                );
                proof {
                    assert(ki as int == ki_p(predv, alphv, fluids@, a as int, i as int));
                }
                let csf: &Vec<Contact> = &fluid_fluid_contacts[a].per_particle[i];
                let ncf = csf.len();
                let mut dvi: Vect = self.velocity_changes[a][i];
                let mut k: usize = 0;
                proof {
                    assert(csf@ == plist(ffv, a as int, i as int));
                    assert(dvi@ == vbuf(dv0, a as int, i as int));
                }
                while k < ncf
                    invariant
                        ncf == csf@.len(),
                        0 <= k <= ncf,
                        nf == fluids@.len(),
                        0 <= a < nf,
                        0 <= i < fluid_n(fluids@[a as int]),
                        models_wf(fluids@, bds0),
                        csf@ == plist(ffv, a as int, i as int),
                        ff_wf(ffv, fluids@),
                        predv == self.predicted_densities@,
                        alphv == self.alphas@,
                        self.buffers_match(fluids@),
                        ki as int == ki_p(predv, alphv, fluids@, a as int, i as int),
                        idt == inv_dt as int,
                        dvi@ == dvp_ff(
                            vbuf(dv0, a as int, i as int),
                            csf@,
                            predv,
                            alphv,
                            fluids@,
                            idt,
                            ki as int,
                            k as int,
                        ),
                    decreases ncf - k,
                {
                    let c = csf[k];
                    proof {
                        assert(ff_contact_ok(csf@[k as int], a as int, i as int, fluids@));
                    }
                    let kj = fx_mul(
                        fx_sub(self.predicted_densities[c.j_model][c.j], fluids[c.j_model].density0),
                        self.alphas[c.j_model][c.j],
                    );
                    let kij = fx_add(fx_max(ki, 0), fx_max(kj, 0));
                    if kij > 0 {
                        let coeff = fx_mul(kij, fluids[c.j_model].masses[c.j]);
                        dvi = dvi.sub(c.gradient.scale(fx_mul(coeff, inv_dt)));
                    }
                    k += 1;
                }
                if ki > 0 {
                    let csb: &Vec<Contact> = &fluid_boundary_contacts[a].per_particle[i];
                    let ncb = csb.len();
                    let ghost dvf = dvi@;
                    let mi = fluids[a].masses[i];
                    let mut k2: usize = 0;
                    proof {
                        assert(csb@ == plist(fbv, a as int, i as int));
                        assert(mi as int == fluids@[a as int].masses@[i as int] as int);
                    }
                    while k2 < ncb
                        invariant
                            ncb == csb@.len(),
                            0 <= k2 <= ncb,
                            nf == fluids@.len(),
                            0 <= a < nf,
                            0 <= i < fluid_n(fluids@[a as int]),
                            ki > 0,
                            models_wf(fluids@, bds0),
                            bds0 == old(boundaries)@,
                            csb@ == plist(fbv, a as int, i as int),
                            fb_wf(fbv, fluids@, bds0),
                            rho0 == fluids@[a as int].density0,
                            mi == fluids@[a as int].masses@[i as int],
                            ki as int == ki_p(predv, alphv, fluids@, a as int, i as int),
                            idt == inv_dt as int,
                            boundaries_except_forces(bds0, boundaries@),
                            forall|x: int|
                                0 <= x < boundaries@.len() ==> boundary_wf(
                                    #[trigger] boundaries@[x],
                                ),
                            dvi@ == dvp_fb(
                                dvf,
                                csb@,
                                bds0,
                                rho0 as int,
                                idt,
                                ki as int,
                                k2 as int,
                            ),
                            forces_view(boundaries@) == depp_cs(
                                depp_fluid(
                                    depp_all(f0, fbv, predv, alphv, fluids@, bds0, idt, a as int),
                                    fbv,
                                    predv,
                                    alphv,
                                    fluids@,
                                    bds0,
                                    idt,
                                    a as int,
                                    i as int,
                                ),
                                csb@,
                                bds0,
                                rho0 as int,
                                idt,
                                ki as int,
                                mi as int,
                                k2 as int,
                            ),
                        decreases ncb - k2,
                    {
                        let c = csb[k2];
                        proof {
                            assert(fb_contact_ok(csb@[k2 as int], a as int, i as int, bds0));
                            assert(boundaries@[c.j_model as int].volumes
                                == bds0[c.j_model as int].volumes);
                        }
                        let vol = boundaries[c.j_model].volumes[c.j];
                        let coeff = fx_mul(fx_mul(ki, vol), rho0);
                        let delta = c.gradient.scale(fx_mul(coeff, inv_dt));
                        dvi = dvi.sub(delta);
                        let f = delta.scale(fx_mul(inv_dt, mi));
                        let ghost prevb = boundaries@;
                        boundaries[c.j_model].apply_force(c.j, f);
                        proof {
                            assert(delta@ == pb_delta(c, ki as int, vol as int, rho0 as int, idt));
                            assert(f@ == pb_force(
                                c,
                                ki as int,
                                vol as int,
                                rho0 as int,
                                idt,
                                mi as int,
                            ));
                            lemma_forces_view_dep(
                                prevb,
                                boundaries@,
                                c.j_model as int,
                                c.j as int,
                                f@,
                            );
                        }
                        k2 += 1;
                    }
                }
                let ghost prev = self.velocity_changes@;
                self.velocity_changes[a].set(i, dvi);
                proof {
                    assert(dvp_done(
                        self.velocity_changes@,
                        dv0,
                        ffv,
                        fbv,
                        predv,
                        alphv,
                        fluids@,
                        bds0,
                        idt,
                        a as int,
                        i as int,
                    ));
                    assert forall|x: int, y: int|
                        (0 <= x < a as int && 0 <= y < fluid_n(fluids@[x])) || (x == a as int && 0
                            <= y < i as int + 1) implies #[trigger] dvp_done(
                        self.velocity_changes@,
                        dv0,
                        ffv,
                        fbv,
                        predv,
                        alphv,
                        fluids@,
                        bds0,
                        idt,
                        x,
                        y,
                    ) by {
                        if !(x == a as int && y == i as int) {
                            assert(dvp_done(
                                prev,
                                dv0,
                                ffv,
                                fbv,
                                predv,
                                alphv,
                                fluids@,
                                bds0,
                                idt,
                                x,
                                y,
                            ));
                            assert(vbuf(self.velocity_changes@, x, y) == vbuf(prev, x, y));
                        }
                    }
                }
                i += 1;
            }
            a += 1;
        }
    }
}

} // verus!

verus! {

/// The divergence stiffness coefficient of particle `(a, i)`.
pub open spec fn ki_d(divs: Seq<Vec<i64>>, alph: Seq<Vec<i64>>, a: int, i: int) -> int {
    fx_mul_s(sbuf(divs, a, i), sbuf(alph, a, i))
}

/// The correction a divergence-coupled boundary contact applies; the
/// solve works directly in velocity units, so no time step appears.
pub open spec fn db_delta(c: Contact, ki: int, vol: int, rho0: int) -> V2 {
    v2_scale(c.gradient@, fx_mul_s(fx_mul_s(fx_neg_s(ki), vol), rho0))
}

/// The reaction force such a contact deposits on the boundary.
pub open spec fn db_force(c: Contact, ki: int, vol: int, rho0: int, inv_dt: int, mi: int) -> V2 {
    v2_scale(db_delta(c, ki, vol, rho0), fx_mul_s(fx_neg_s(inv_dt), mi))
}

/// Velocity correction of particle `(a, i)` after its first `k`
/// fluid-fluid divergence couplings.
pub open spec fn dvd_ff(
    acc: V2,
    cs: Seq<Contact>,
    divs: Seq<Vec<i64>>,
    alph: Seq<Vec<i64>>,
    fluids: Seq<Fluid>,
    ki: int,
    k: int,
) -> V2
    decreases k,
{
    if k <= 0 {
        acc
    } else {
        let p = dvd_ff(acc, cs, divs, alph, fluids, ki, k - 1);
        let c = cs[k - 1];
        let kj = ki_d(divs, alph, c.j_model as int, c.j as int);
        let coeff = fx_mul_s(
            fx_neg_s(fx_add_s(ki, kj)),
            fluids[c.j_model as int].masses@[c.j as int] as int,
        );
        v2_add(p, v2_scale(c.gradient@, coeff))
    }
}

/// Velocity correction after the first `k` fluid-boundary divergence
/// couplings.
pub open spec fn dvd_fb(
    acc: V2,
    cs: Seq<Contact>,
    bds: Seq<Boundary>,
    rho0: int,
    ki: int,
    k: int,
) -> V2
    decreases k,
{
    if k <= 0 {
        acc
    } else {
        let p = dvd_fb(acc, cs, bds, rho0, ki, k - 1);
        let c = cs[k - 1];
        v2_add(p, db_delta(c, ki, bds[c.j_model as int].volumes@[c.j as int] as int, rho0))
    }
}

/// The full divergence velocity correction of particle `(a, i)`.
pub open spec fn dvd_spec(
    dv0: Seq<Vec<Vect>>,
    ff: Seq<ParticlesContacts>,
    fb: Seq<ParticlesContacts>,
    divs: Seq<Vec<i64>>,
    alph: Seq<Vec<i64>>,
    fluids: Seq<Fluid>,
    bds: Seq<Boundary>,
    a: int,
    i: int,
) -> V2 {
    let ki = ki_d(divs, alph, a, i);
    dvd_fb(
        dvd_ff(vbuf(dv0, a, i), plist(ff, a, i), divs, alph, fluids, ki, plist(ff, a, i).len() as int),
        plist(fb, a, i),
        bds,
        fluids[a].density0 as int,
        ki,
        plist(fb, a, i).len() as int,
    )
}

/// Forces after the first `k` divergence boundary couplings of one
/// particle.
pub open spec fn depd_cs(
    fv: Seq<Seq<V2>>,
    cs: Seq<Contact>,
    bds: Seq<Boundary>,
    rho0: int,
    inv_dt: int,
    ki: int,
    mi: int,
    k: int,
) -> Seq<Seq<V2>>
    decreases k,
{
    if k <= 0 {
        fv
    } else {
        let p = depd_cs(fv, cs, bds, rho0, inv_dt, ki, mi, k - 1);
        let c = cs[k - 1];
        dep(
            p,
            c.j_model as int,
            c.j as int,
            db_force(c, ki, bds[c.j_model as int].volumes@[c.j as int] as int, rho0, inv_dt, mi),
        )
    }
}

/// Forces after the first `i_up` particles of fluid `a` have run their
/// divergence couplings.
pub open spec fn depd_fluid(
    fv: Seq<Seq<V2>>,
    fb: Seq<ParticlesContacts>,
    divs: Seq<Vec<i64>>,
    alph: Seq<Vec<i64>>,
    fluids: Seq<Fluid>,
    bds: Seq<Boundary>,
    inv_dt: int,
    a: int,
    i_up: int,
) -> Seq<Seq<V2>>
    decreases i_up,
{
    if i_up <= 0 {
        fv
    } else {
        depd_cs(
            depd_fluid(fv, fb, divs, alph, fluids, bds, inv_dt, a, i_up - 1),
            plist(fb, a, i_up - 1),
            bds,
            fluids[a].density0 as int,
            inv_dt,
            ki_d(divs, alph, a, i_up - 1),
            fluids[a].masses@[i_up - 1] as int,
            plist(fb, a, i_up - 1).len() as int,
        )
    }
}

/// Forces after the first `a_up` fluids have run their divergence
/// couplings.
pub open spec fn depd_all(
    fv: Seq<Seq<V2>>,
    fb: Seq<ParticlesContacts>,
    divs: Seq<Vec<i64>>,
    alph: Seq<Vec<i64>>,
    fluids: Seq<Fluid>,
    bds: Seq<Boundary>,
    inv_dt: int,
    a_up: int,
) -> Seq<Seq<V2>>
    decreases a_up,
{
    if a_up <= 0 {
        fv
    } else {
        depd_fluid(
            depd_all(fv, fb, divs, alph, fluids, bds, inv_dt, a_up - 1),
            fb,
            divs,
            alph,
            fluids,
            bds,
            inv_dt,
            a_up - 1,
            fluid_n(fluids[a_up - 1]),
        )
    }
}

/// Velocity-correction entry `(a, i)` has been written by the
/// divergence phase.
pub open spec fn dvd_done(
    s: Seq<Vec<Vect>>,
    dv0: Seq<Vec<Vect>>,
    ff: Seq<ParticlesContacts>,
    fb: Seq<ParticlesContacts>,
    divs: Seq<Vec<i64>>,
    alph: Seq<Vec<i64>>,
    fluids: Seq<Fluid>,
    bds: Seq<Boundary>,
    a: int,
    i: int,
) -> bool {
    vbuf(s, a, i) == dvd_spec(dv0, ff, fb, divs, alph, fluids, bds, a, i)
}

impl DFSPHSolver {
    /// One Jacobi sweep of the divergence-free solve: drive each
    /// particle's local divergence toward zero through the symmetric
    /// fluid-fluid and one-sided fluid-boundary couplings, depositing
    /// boundary reaction forces.  Unlike the pressure sweep this works
    /// directly in velocity units.
    pub fn compute_velocity_changes_for_divergence(
        &mut self,
        timestep: &TimestepManager,
        fluid_fluid_contacts: &Vec<ParticlesContacts>,
        fluid_boundary_contacts: &Vec<ParticlesContacts>,
        fluids: &Vec<Fluid>,
        boundaries: &mut Vec<Boundary>,
    )
        requires
            timestep.wf(),
            models_wf(fluids@, old(boundaries)@),
            ff_wf(fluid_fluid_contacts@, fluids@),
            fb_wf(fluid_boundary_contacts@, fluids@, old(boundaries)@),
            old(self).buffers_match(fluids@),
        ensures
            final(self).same_config(old(self)),
            final(self).alphas == old(self).alphas,
            final(self).densities == old(self).densities,
            final(self).predicted_densities == old(self).predicted_densities,
            final(self).divergences == old(self).divergences,
            final(self).buffers_match(fluids@),
            boundaries_except_forces(old(boundaries)@, final(boundaries)@),
            forall|a: int, i: int|
                0 <= a < fluids@.len() && 0 <= i < fluid_n(fluids@[a]) ==> #[trigger] dvd_done(
                    final(self).velocity_changes@,
                    old(self).velocity_changes@,
                    fluid_fluid_contacts@,
                    fluid_boundary_contacts@,
                    old(self).divergences@,
                    old(self).alphas@,
                    fluids@,
                    old(boundaries)@,
                    a,
                    i,
                ),
            forces_view(final(boundaries)@) == depd_all(
                forces_view(old(boundaries)@),
                fluid_boundary_contacts@,
                old(self).divergences@,
                old(self).alphas@,
                fluids@,
                old(boundaries)@,
                fx_div_s(SCALE as int, timestep.dt_spec()),
                fluids@.len() as int,
            ),
    {
        let ghost ffv = fluid_fluid_contacts@;
        let ghost fbv = fluid_boundary_contacts@;
        let ghost dv0 = self.velocity_changes@;
        let ghost divv = self.divergences@;
        let ghost alphv = self.alphas@;
        let ghost bds0 = old(boundaries)@;
        let ghost f0 = forces_view(old(boundaries)@);
        let inv_dt = timestep.inv_dt();
        let ghost idt = inv_dt as int;
        let nf = fluids.len();
        let mut a: usize = 0;
        while a < nf
            invariant
                nf == fluids@.len(),
                0 <= a <= nf,
                models_wf(fluids@, bds0),
                bds0 == old(boundaries)@,
                ff_wf(ffv, fluids@),
                fb_wf(fbv, fluids@, bds0),
                ffv == fluid_fluid_contacts@,
                fbv == fluid_boundary_contacts@,
                dv0 == old(self).velocity_changes@,
                divv == self.divergences@,
                alphv == self.alphas@,
                idt == inv_dt as int,
                idt == fx_div_s(SCALE as int, timestep.dt_spec()),
                f0 == forces_view(bds0),
                self.buffers_match(fluids@),
                self.same_config(old(self)),
                self.alphas == old(self).alphas,
                self.densities == old(self).densities,
                self.predicted_densities == old(self).predicted_densities,
                self.divergences == old(self).divergences,
                boundaries_except_forces(bds0, boundaries@),
                forall|x: int|
                    0 <= x < boundaries@.len() ==> boundary_wf(#[trigger] boundaries@[x]),
                forces_view(boundaries@) == depd_all(
                    f0,
                    fbv,
                    divv,
                    alphv,
                    fluids@,
                    bds0,
                    idt,
                    a as int,
                ),
                forall|x: int, y: int|
                    0 <= x < a as int && 0 <= y < fluid_n(fluids@[x]) ==> #[trigger] dvd_done(
                        self.velocity_changes@,
                        dv0,
                        ffv,
                        fbv,
                        divv,
                        alphv,
                        fluids@,
                        bds0,
                        x,
                        y,
                    ),
                forall|x: int, y: int|
                    a as int <= x < nf && 0 <= y < fluid_n(fluids@[x])
                        ==> #[trigger] self.velocity_changes@[x]@[y] == dv0[x]@[y],
            decreases nf - a,
        {
            let n = fluids[a].num_particles();
            let mut i: usize = 0;
            while i < n
                invariant
                    nf == fluids@.len(),
                    0 <= a < nf,
                    0 <= i <= n,
                    n as int == fluid_n(fluids@[a as int]),
                    models_wf(fluids@, bds0),
                    bds0 == old(boundaries)@,
                    ff_wf(ffv, fluids@),
                    fb_wf(fbv, fluids@, bds0),
                    ffv == fluid_fluid_contacts@,
                    fbv == fluid_boundary_contacts@,
                    dv0 == old(self).velocity_changes@,
                    divv == self.divergences@,
                    alphv == self.alphas@,
                    idt == inv_dt as int,
                    idt == fx_div_s(SCALE as int, timestep.dt_spec()),
                    f0 == forces_view(bds0),
                    self.buffers_match(fluids@),
                    self.same_config(old(self)),
                    self.alphas == old(self).alphas,
                    self.densities == old(self).densities,
                    self.predicted_densities == old(self).predicted_densities,
                    self.divergences == old(self).divergences,
                    boundaries_except_forces(bds0, boundaries@),
                    forall|x: int|
                        0 <= x < boundaries@.len() ==> boundary_wf(#[trigger] boundaries@[x]),
                    forces_view(boundaries@) == depd_fluid(
                        depd_all(f0, fbv, divv, alphv, fluids@, bds0, idt, a as int),
                        fbv,
                        divv,
                        alphv,
                        fluids@,
                        bds0,
                        idt,
                        a as int,
                        i as int,
                    ),
                    forall|x: int, y: int|
                        (0 <= x < a as int && 0 <= y < fluid_n(fluids@[x])) || (x == a as int && 0
                            <= y < i as int) ==> #[trigger] dvd_done(
                            self.velocity_changes@,
                            dv0,
                            ffv,
                            fbv,
                            divv,
                            alphv,
                            fluids@,
                            bds0,
                            x,
                            y,
                        ),
                    forall|x: int, y: int|
                        ((x == a as int && i as int <= y < fluid_n(fluids@[x])) || ((a as int) < x
                            && x < nf && 0 <= y < fluid_n(fluids@[x])))
                            ==> #[trigger] self.velocity_changes@[x]@[y] == dv0[x]@[y],
                decreases n - i,
            {
                let rho0 = fluids[a].density0;
                let ki = fx_mul(self.divergences[a][i], self.alphas[a][i]);
                proof {
                    assert(ki as int == ki_d(divv, alphv, a as int, i as int));
                }
                let csf: &Vec<Contact> = &fluid_fluid_contacts[a].per_particle[i];
                let ncf = csf.len();
                let mut dvi: Vect = self.velocity_changes[a][i];
                let mut k: usize = 0;
                proof {
                    assert(csf@ == plist(ffv, a as int, i as int));
                    assert(dvi@ == vbuf(dv0, a as int, i as int));
                }
                while k < ncf
                    invariant
                        ncf == csf@.len(),
                        0 <= k <= ncf,
                        nf == fluids@.len(),
                        0 <= a < nf,
                        0 <= i < fluid_n(fluids@[a as int]),
                        models_wf(fluids@, bds0),
                        csf@ == plist(ffv, a as int, i as int),
                        ff_wf(ffv, fluids@),
                        divv == self.divergences@,
                        alphv == self.alphas@,
                        self.buffers_match(fluids@),
                        ki as int == ki_d(divv, alphv, a as int, i as int),
                        dvi@ == dvd_ff(
                            vbuf(dv0, a as int, i as int),
                            csf@,
                            divv,
                            alphv,
                            fluids@,
                            ki as int,
                            k as int,
                        ),
                    decreases ncf - k,
                {
                    let c = csf[k];
                    proof {
                        assert(ff_contact_ok(csf@[k as int], a as int, i as int, fluids@));
                    }
                    let kj = fx_mul(self.divergences[c.j_model][c.j], self.alphas[c.j_model][c.j]);
                    let coeff = fx_mul(fx_neg(fx_add(ki, kj)), fluids[c.j_model].masses[c.j]);
                    dvi = dvi.add(c.gradient.scale(coeff));
                    k += 1;
                }
                let csb: &Vec<Contact> = &fluid_boundary_contacts[a].per_particle[i];
                let ncb = csb.len();
                let ghost dvf = dvi@;
                let mi = fluids[a].masses[i];
                let mut k2: usize = 0;
                proof {
                    assert(csb@ == plist(fbv, a as int, i as int));
                }
                while k2 < ncb
                    invariant
                        ncb == csb@.len(),
                        0 <= k2 <= ncb,
                        nf == fluids@.len(),
                        0 <= a < nf,
                        0 <= i < fluid_n(fluids@[a as int]),
                        models_wf(fluids@, bds0),
                        bds0 == old(boundaries)@,
                        csb@ == plist(fbv, a as int, i as int),
                        fb_wf(fbv, fluids@, bds0),
                        rho0 == fluids@[a as int].density0,
                        mi == fluids@[a as int].masses@[i as int],
                        ki as int == ki_d(divv, alphv, a as int, i as int),
                        idt == inv_dt as int,
                        boundaries_except_forces(bds0, boundaries@),
                        forall|x: int|
                            0 <= x < boundaries@.len() ==> boundary_wf(#[trigger] boundaries@[x]),
                        dvi@ == dvd_fb(dvf, csb@, bds0, rho0 as int, ki as int, k2 as int),
                        forces_view(boundaries@) == depd_cs(
                            depd_fluid(
                                depd_all(f0, fbv, divv, alphv, fluids@, bds0, idt, a as int),
                                fbv,
                                divv,
                                alphv,
                                fluids@,
                                bds0,
                                idt,
                                a as int,
                                i as int,
                            ),
                            csb@,
                            bds0,
                            rho0 as int,
                            idt,
                            ki as int,
                            mi as int,
                            k2 as int,
                        ),
                    decreases ncb - k2,
                {
                    let c = csb[k2];
                    proof {
                        assert(fb_contact_ok(csb@[k2 as int], a as int, i as int, bds0));
                        assert(boundaries@[c.j_model as int].volumes
                            == bds0[c.j_model as int].volumes);
                    }
                    let vol = boundaries[c.j_model].volumes[c.j];
                    let coeff = fx_mul(fx_mul(fx_neg(ki), vol), rho0);
                    let delta = c.gradient.scale(coeff);
                    dvi = dvi.add(delta);
                    let f = delta.scale(fx_mul(fx_neg(inv_dt), mi));
                    let ghost prevb = boundaries@;
                    boundaries[c.j_model].apply_force(c.j, f);
                    proof {
                        assert(delta@ == db_delta(c, ki as int, vol as int, rho0 as int));
                        assert(f@ == db_force(
                            c,
                            ki as int,
                            vol as int,
                            rho0 as int,
                            idt,
                            mi as int,
                        ));
                        lemma_forces_view_dep(
                            prevb,
                            boundaries@,
                            c.j_model as int,
                            c.j as int,
                            f@,
                        );
                    }
                    k2 += 1;
                }
                let ghost prev = self.velocity_changes@;
                self.velocity_changes[a].set(i, dvi);
                proof {
                    assert(dvd_done(
                        self.velocity_changes@,
                        dv0,
                        ffv,
                        fbv,
                        divv,
                        alphv,
                        fluids@,
                        bds0,
                        a as int,
                        i as int,
                    ));
                    assert forall|x: int, y: int|
                        (0 <= x < a as int && 0 <= y < fluid_n(fluids@[x])) || (x == a as int && 0
                            <= y < i as int + 1) implies #[trigger] dvd_done(
                        self.velocity_changes@,
                        dv0,
                        ffv,
                        fbv,
                        divv,
                        alphv,
                        fluids@,
                        bds0,
                        x,
                        y,
                    ) by {
                        if !(x == a as int && y == i as int) {
                            assert(dvd_done(
                                prev,
                                dv0,
                                ffv,
                                fbv,
                                divv,
                                alphv,
                                fluids@,
                                bds0,
                                x,
                                y,
                            ));
                            assert(vbuf(self.velocity_changes@, x, y) == vbuf(prev, x, y));
                        }
                    }
                }
                i += 1;
            }
            a += 1;
        }
    }
}

} // verus!

verus! {

/// Two fluids agree on everything except one per-particle array, whose
/// length is preserved.
pub open spec fn fluid_same_shape(x: Fluid, y: Fluid) -> bool {
    &&& fluid_n(y) == fluid_n(x)
    &&& y.velocities@.len() == x.velocities@.len()
    &&& y.accelerations@.len() == x.accelerations@.len()
    &&& y.masses == x.masses
    &&& y.density0 == x.density0
    &&& y.deleted == x.deleted
}

impl DFSPHSolver {
    /// Fold the accumulated corrections into the committed velocities:
    /// the divergence-corrected velocity becomes the new velocity.
    pub fn update_velocities(&self, fluids: &mut Vec<Fluid>)
        requires
            forall|a: int| 0 <= a < old(fluids)@.len() ==> fluid_wf(#[trigger] old(fluids)@[a]),
            self.buffers_match(old(fluids)@),
        ensures
            final(fluids)@.len() == old(fluids)@.len(),
            forall|a: int| 0 <= a < final(fluids)@.len() ==> fluid_wf(#[trigger] final(fluids)@[a]),
            forall|a: int|
                0 <= a < final(fluids)@.len() ==> {
                    &&& fluid_same_shape(old(fluids)@[a], #[trigger] final(fluids)@[a])
                    &&& final(fluids)@[a].positions == old(fluids)@[a].positions
                    &&& final(fluids)@[a].accelerations == old(fluids)@[a].accelerations
                },
            forall|a: int, i: int|
                0 <= a < final(fluids)@.len() && 0 <= i < fluid_n(final(fluids)@[a])
                    ==> (#[trigger] final(fluids)@[a].velocities@[i])@ == v2_add(
                    old(fluids)@[a].velocities@[i]@,
                    vbuf(self.velocity_changes@, a, i),
                ),
            self.buffers_match(final(fluids)@),
    {
        let nf = fluids.len();
        let mut a: usize = 0;
        while a < nf
            invariant
                nf == old(fluids)@.len(),
                fluids@.len() == nf,
                0 <= a <= nf,
                forall|x: int| 0 <= x < nf ==> fluid_wf(#[trigger] old(fluids)@[x]),
                forall|x: int| 0 <= x < nf ==> fluid_wf(#[trigger] fluids@[x]),
                self.buffers_match(old(fluids)@),
                forall|x: int|
                    0 <= x < nf ==> {
                        &&& fluid_same_shape(old(fluids)@[x], #[trigger] fluids@[x])
                        &&& fluids@[x].positions == old(fluids)@[x].positions
                        &&& fluids@[x].accelerations == old(fluids)@[x].accelerations
                    },
                forall|x: int, y: int|
                    0 <= x < a as int && 0 <= y < fluid_n(fluids@[x])
                        ==> (#[trigger] fluids@[x].velocities@[y])@ == v2_add(
                        old(fluids)@[x].velocities@[y]@,
                        vbuf(self.velocity_changes@, x, y),
                    ),
                forall|x: int, y: int|
                    a as int <= x < nf && 0 <= y < fluid_n(fluids@[x])
                        ==> #[trigger] fluids@[x].velocities@[y] == old(fluids)@[x].velocities@[y],
            decreases nf - a,
        {
            let n = fluids[a].positions.len();
            let mut i: usize = 0;
            while i < n
                invariant
                    nf == old(fluids)@.len(),
                    fluids@.len() == nf,
                    0 <= a < nf,
                    0 <= i <= n,
                    n as int == fluid_n(fluids@[a as int]),
                    n as int == fluid_n(old(fluids)@[a as int]),
                    forall|x: int| 0 <= x < nf ==> fluid_wf(#[trigger] old(fluids)@[x]),
                    forall|x: int| 0 <= x < nf ==> fluid_wf(#[trigger] fluids@[x]),
                    self.buffers_match(old(fluids)@),
                    forall|x: int|
                        0 <= x < nf ==> {
                            &&& fluid_same_shape(old(fluids)@[x], #[trigger] fluids@[x])
                            &&& fluids@[x].positions == old(fluids)@[x].positions
                            &&& fluids@[x].accelerations == old(fluids)@[x].accelerations
                        },
                    forall|x: int, y: int|
                        (0 <= x < a as int && 0 <= y < fluid_n(fluids@[x])) || (x == a as int && 0
                            <= y < i as int) ==> (#[trigger] fluids@[x].velocities@[y])@ == v2_add(
                            old(fluids)@[x].velocities@[y]@,
                            vbuf(self.velocity_changes@, x, y),
                        ),
                    forall|x: int, y: int|
                        ((x == a as int && i as int <= y < fluid_n(fluids@[x])) || ((a as int) < x
                            && x < nf && 0 <= y < fluid_n(fluids@[x])))
                            ==> #[trigger] fluids@[x].velocities@[y] == old(
                            fluids,
                        )@[x].velocities@[y],
                decreases n - i,
            {
                let v = fluids[a].velocities[i].add(self.velocity_changes[a][i]);
                let ghost prevf = fluids@;
                fluids[a].velocities.set(i, v);
                proof {
                    assert forall|x: int, y: int|
                        ((x == a as int && i as int + 1 <= y < fluid_n(fluids@[x])) || ((a as int)
                            < x && x < nf && 0 <= y < fluid_n(fluids@[x])))
                        implies #[trigger] fluids@[x].velocities@[y] == old(
                        fluids,
                    )@[x].velocities@[y] by {
                        assert(fluids@[x].velocities@[y] == prevf[x].velocities@[y]);
                    }
                }
                i += 1;
            }
            a += 1;
        }
    }

    /// Advance positions by the committed velocity plus the pending
    /// correction, times the step size; the pending correction itself is
    /// only folded into the velocity at the next step.
    pub fn update_positions(&self, timestep: &TimestepManager, fluids: &mut Vec<Fluid>)
        requires
            forall|a: int| 0 <= a < old(fluids)@.len() ==> fluid_wf(#[trigger] old(fluids)@[a]),
            self.buffers_match(old(fluids)@),
        ensures
            final(fluids)@.len() == old(fluids)@.len(),
            forall|a: int| 0 <= a < final(fluids)@.len() ==> fluid_wf(#[trigger] final(fluids)@[a]),
            forall|a: int|
                0 <= a < final(fluids)@.len() ==> {
                    &&& fluid_same_shape(old(fluids)@[a], #[trigger] final(fluids)@[a])
                    &&& final(fluids)@[a].velocities == old(fluids)@[a].velocities
                    &&& final(fluids)@[a].accelerations == old(fluids)@[a].accelerations
                },
            forall|a: int, i: int|
                0 <= a < final(fluids)@.len() && 0 <= i < fluid_n(final(fluids)@[a])
                    ==> (#[trigger] final(fluids)@[a].positions@[i])@ == v2_add(
                    old(fluids)@[a].positions@[i]@,
                    v2_scale(
                        v2_add(
                            old(fluids)@[a].velocities@[i]@,
                            vbuf(self.velocity_changes@, a, i),
                        ),
                        timestep.dt_spec(),
                    ),
                ),
            self.buffers_match(final(fluids)@),
    {
        let dt = timestep.dt();
        let nf = fluids.len();
        let mut a: usize = 0;
        while a < nf
            invariant
                nf == old(fluids)@.len(),
                fluids@.len() == nf,
                0 <= a <= nf,
                dt as int == timestep.dt_spec(),
                forall|x: int| 0 <= x < nf ==> fluid_wf(#[trigger] old(fluids)@[x]),
                forall|x: int| 0 <= x < nf ==> fluid_wf(#[trigger] fluids@[x]),
                self.buffers_match(old(fluids)@),
                forall|x: int|
                    0 <= x < nf ==> {
                        &&& fluid_same_shape(old(fluids)@[x], #[trigger] fluids@[x])
                        &&& fluids@[x].velocities == old(fluids)@[x].velocities
                        &&& fluids@[x].accelerations == old(fluids)@[x].accelerations
                    },
                forall|x: int, y: int|
                    0 <= x < a as int && 0 <= y < fluid_n(fluids@[x])
                        ==> (#[trigger] fluids@[x].positions@[y])@ == v2_add(
                        old(fluids)@[x].positions@[y]@,
                        v2_scale(
                            v2_add(
                                old(fluids)@[x].velocities@[y]@,
                                vbuf(self.velocity_changes@, x, y),
                            ),
                            dt as int,
                        ),
                    ),
                forall|x: int, y: int|
                    a as int <= x < nf && 0 <= y < fluid_n(fluids@[x])
                        ==> #[trigger] fluids@[x].positions@[y] == old(fluids)@[x].positions@[y],
            decreases nf - a,
        {
            let n = fluids[a].positions.len();
            let mut i: usize = 0;
            while i < n
                invariant
                    nf == old(fluids)@.len(),
                    fluids@.len() == nf,
                    0 <= a < nf,
                    0 <= i <= n,
                    n as int == fluid_n(fluids@[a as int]),
                    n as int == fluid_n(old(fluids)@[a as int]),
                    dt as int == timestep.dt_spec(),
                    forall|x: int| 0 <= x < nf ==> fluid_wf(#[trigger] old(fluids)@[x]),
                    forall|x: int| 0 <= x < nf ==> fluid_wf(#[trigger] fluids@[x]),
                    self.buffers_match(old(fluids)@),
                    forall|x: int|
                        0 <= x < nf ==> {
                            &&& fluid_same_shape(old(fluids)@[x], #[trigger] fluids@[x])
                            &&& fluids@[x].velocities == old(fluids)@[x].velocities
                            &&& fluids@[x].accelerations == old(fluids)@[x].accelerations
                        },
                    forall|x: int, y: int|
                        (0 <= x < a as int && 0 <= y < fluid_n(fluids@[x])) || (x == a as int && 0
                            <= y < i as int) ==> (#[trigger] fluids@[x].positions@[y])@ == v2_add(
                            old(fluids)@[x].positions@[y]@,
                            v2_scale(
                                v2_add(
                                    old(fluids)@[x].velocities@[y]@,
                                    vbuf(self.velocity_changes@, x, y),
                                ),
                                dt as int,
                            ),
                        ),
                    forall|x: int, y: int|
                        ((x == a as int && i as int <= y < fluid_n(fluids@[x])) || ((a as int) < x
                            && x < nf && 0 <= y < fluid_n(fluids@[x])))
                            ==> #[trigger] fluids@[x].positions@[y] == old(
                            fluids,
                        )@[x].positions@[y],
                decreases n - i,
            {
                let p = fluids[a].positions[i].add(
                    (fluids[a].velocities[i].add(self.velocity_changes[a][i])).scale(dt),
                );
                let ghost prevf = fluids@;
                fluids[a].positions.set(i, p);
                proof {
                    assert forall|x: int, y: int|
                        ((x == a as int && i as int + 1 <= y < fluid_n(fluids@[x])) || ((a as int)
                            < x && x < nf && 0 <= y < fluid_n(fluids@[x])))
                        implies #[trigger] fluids@[x].positions@[y] == old(
                        fluids,
                    )@[x].positions@[y] by {
                        assert(fluids@[x].positions@[y] == prevf[x].positions@[y]);
                    }
                }
                i += 1;
            }
            a += 1;
        }
    }

    /// Fold the accumulated accelerations into the pending corrections,
    /// scaled by the step size, and clear the accelerations.
    pub fn integrate_and_clear_accelerations(
        &mut self,
        timestep: &TimestepManager,
        fluids: &mut Vec<Fluid>,
    )
        requires
            forall|a: int| 0 <= a < old(fluids)@.len() ==> fluid_wf(#[trigger] old(fluids)@[a]),
            old(self).buffers_match(old(fluids)@),
        ensures
            final(self).same_config(old(self)),
            final(self).alphas == old(self).alphas,
            final(self).densities == old(self).densities,
            final(self).predicted_densities == old(self).predicted_densities,
            final(self).divergences == old(self).divergences,
            final(fluids)@.len() == old(fluids)@.len(),
            forall|a: int| 0 <= a < final(fluids)@.len() ==> fluid_wf(#[trigger] final(fluids)@[a]),
            forall|a: int|
                0 <= a < final(fluids)@.len() ==> {
                    &&& fluid_same_shape(old(fluids)@[a], #[trigger] final(fluids)@[a])
                    &&& final(fluids)@[a].positions == old(fluids)@[a].positions
                    &&& final(fluids)@[a].velocities == old(fluids)@[a].velocities
                },
            forall|a: int, i: int|
                0 <= a < final(fluids)@.len() && 0 <= i < fluid_n(final(fluids)@[a])
                    ==> (#[trigger] final(fluids)@[a].accelerations@[i])@ == v2_zero(),
            forall|a: int, i: int|
                0 <= a < final(fluids)@.len() && 0 <= i < fluid_n(final(fluids)@[a]) ==> vbuf(
                    #[trigger] final(self).velocity_changes@,
                    a,
                    i,
                ) == v2_add(
                    vbuf(old(self).velocity_changes@, a, i),
                    v2_scale(old(fluids)@[a].accelerations@[i]@, timestep.dt_spec()),
                ),
            final(self).buffers_match(final(fluids)@),
    {
        let dt = timestep.dt();
        let ghost dv0 = self.velocity_changes@;
        let nf = fluids.len();
        let mut a: usize = 0;
        while a < nf
            invariant
                nf == old(fluids)@.len(),
                fluids@.len() == nf,
                0 <= a <= nf,
                dt as int == timestep.dt_spec(),
                dv0 == old(self).velocity_changes@,
                forall|x: int| 0 <= x < nf ==> fluid_wf(#[trigger] old(fluids)@[x]),
                forall|x: int| 0 <= x < nf ==> fluid_wf(#[trigger] fluids@[x]),
                self.buffers_match(old(fluids)@),
                self.same_config(old(self)),
                self.alphas == old(self).alphas,
                self.densities == old(self).densities,
                self.predicted_densities == old(self).predicted_densities,
                self.divergences == old(self).divergences,
                forall|x: int|
                    0 <= x < nf ==> {
                        &&& fluid_same_shape(old(fluids)@[x], #[trigger] fluids@[x])
                        &&& fluids@[x].positions == old(fluids)@[x].positions
                        &&& fluids@[x].velocities == old(fluids)@[x].velocities
                    },
                forall|x: int, y: int|
                    0 <= x < a as int && 0 <= y < fluid_n(fluids@[x])
                        ==> (#[trigger] fluids@[x].accelerations@[y])@ == v2_zero(),
                forall|x: int, y: int|
                    a as int <= x < nf && 0 <= y < fluid_n(fluids@[x])
                        ==> #[trigger] fluids@[x].accelerations@[y] == old(
                        fluids,
                    )@[x].accelerations@[y],
                forall|x: int, y: int|
                    0 <= x < a as int && 0 <= y < fluid_n(fluids@[x]) ==> vbuf(
                        #[trigger] self.velocity_changes@,
                        x,
                        y,
                    ) == v2_add(
                        vbuf(dv0, x, y),
                        v2_scale(old(fluids)@[x].accelerations@[y]@, dt as int),
                    ),
                forall|x: int, y: int|
                    a as int <= x < nf && 0 <= y < fluid_n(fluids@[x])
                        ==> #[trigger] self.velocity_changes@[x]@[y] == dv0[x]@[y],
            decreases nf - a,
        {
            let n = fluids[a].positions.len();
            let mut i: usize = 0;
            while i < n
                invariant
                    nf == old(fluids)@.len(),
                    fluids@.len() == nf,
                    0 <= a < nf,
                    0 <= i <= n,
                    n as int == fluid_n(fluids@[a as int]),
                    n as int == fluid_n(old(fluids)@[a as int]),
                    dt as int == timestep.dt_spec(),
                    dv0 == old(self).velocity_changes@,
                    forall|x: int| 0 <= x < nf ==> fluid_wf(#[trigger] old(fluids)@[x]),
                    forall|x: int| 0 <= x < nf ==> fluid_wf(#[trigger] fluids@[x]),
                    self.buffers_match(old(fluids)@),
                    self.same_config(old(self)),
                    self.alphas == old(self).alphas,
                    self.densities == old(self).densities,
                    self.predicted_densities == old(self).predicted_densities,
                    self.divergences == old(self).divergences,
                    forall|x: int|
                        0 <= x < nf ==> {
                            &&& fluid_same_shape(old(fluids)@[x], #[trigger] fluids@[x])
                            &&& fluids@[x].positions == old(fluids)@[x].positions
                            &&& fluids@[x].velocities == old(fluids)@[x].velocities
                        },
                    forall|x: int, y: int|
                        (0 <= x < a as int && 0 <= y < fluid_n(fluids@[x])) || (x == a as int && 0
                            <= y < i as int) ==> (#[trigger] fluids@[x].accelerations@[y])@
                            == v2_zero(),
                    forall|x: int, y: int|
                        ((x == a as int && i as int <= y < fluid_n(fluids@[x])) || ((a as int) < x
                            && x < nf && 0 <= y < fluid_n(fluids@[x])))
                            ==> #[trigger] fluids@[x].accelerations@[y] == old(
                            fluids,
                        )@[x].accelerations@[y],
                    forall|x: int, y: int|
                        (0 <= x < a as int && 0 <= y < fluid_n(fluids@[x])) || (x == a as int && 0
                            <= y < i as int) ==> vbuf(#[trigger] self.velocity_changes@, x, y)
                            == v2_add(
                            vbuf(dv0, x, y),
                            v2_scale(old(fluids)@[x].accelerations@[y]@, dt as int),
                        ),
                    forall|x: int, y: int|
                        ((x == a as int && i as int <= y < fluid_n(fluids@[x])) || ((a as int) < x
                            && x < nf && 0 <= y < fluid_n(fluids@[x])))
                            ==> #[trigger] self.velocity_changes@[x]@[y] == dv0[x]@[y],
                decreases n - i,
            {
                let dvn = self.velocity_changes[a][i].add(fluids[a].accelerations[i].scale(dt));
                let ghost prevs = self.velocity_changes@;
                self.velocity_changes[a].set(i, dvn);
                let ghost prevf = fluids@;
                fluids[a].accelerations.set(i, Vect { x: 0, y: 0 });
                proof {
                    assert((fluids@[a as int].accelerations@[i as int])@ == v2_zero());
                    assert(vbuf(self.velocity_changes@, a as int, i as int) == v2_add(
                        vbuf(dv0, a as int, i as int),
                        v2_scale(old(fluids)@[a as int].accelerations@[i as int]@, dt as int),
                    ));
                    assert forall|x: int, y: int|
                        ((x == a as int && i as int + 1 <= y < fluid_n(fluids@[x])) || ((a as int)
                            < x && x < nf && 0 <= y < fluid_n(fluids@[x])))
                        implies #[trigger] fluids@[x].accelerations@[y] == old(
                        fluids,
                    )@[x].accelerations@[y] && self.velocity_changes@[x]@[y] == dv0[x]@[y] by {
                        assert(fluids@[x].accelerations@[y] == prevf[x].accelerations@[y]);
                        assert(self.velocity_changes@[x]@[y] == prevs[x]@[y]);
                    }
                    assert forall|x: int, y: int|
                        (0 <= x < a as int && 0 <= y < fluid_n(fluids@[x])) || (x == a as int && 0
                            <= y < i as int + 1) implies vbuf(
                        #[trigger] self.velocity_changes@,
                        x,
                        y,
                    ) == v2_add(
                        vbuf(dv0, x, y),
                        v2_scale(old(fluids)@[x].accelerations@[y]@, dt as int),
                    ) && (fluids@[x].accelerations@[y])@ == v2_zero() by {
                        if !(x == a as int && y == i as int) {
                            assert(self.velocity_changes@[x]@[y] == prevs[x]@[y]);
                            assert(fluids@[x].accelerations@[y] == prevf[x].accelerations@[y]);
                            assert(vbuf(prevs, x, y) == v2_add(
                                vbuf(dv0, x, y),
                                v2_scale(old(fluids)@[x].accelerations@[y]@, dt as int),
                            ));
                            assert((prevf[x].accelerations@[y])@ == v2_zero());
                        }
                    }
                }
                i += 1;
            }
            a += 1;
        }
    }

    /// Reset every pending velocity correction to zero.
    pub fn clear_velocity_changes(&mut self, fluids: &Vec<Fluid>)
        requires
            forall|a: int| 0 <= a < fluids@.len() ==> fluid_wf(#[trigger] fluids@[a]),
            old(self).buffers_match(fluids@),
        ensures
            final(self).same_config(old(self)),
            final(self).alphas == old(self).alphas,
            final(self).densities == old(self).densities,
            final(self).predicted_densities == old(self).predicted_densities,
            final(self).divergences == old(self).divergences,
            final(self).buffers_match(fluids@),
            forall|a: int, i: int|
                0 <= a < fluids@.len() && 0 <= i < fluid_n(fluids@[a]) ==> vbuf(
                    #[trigger] final(self).velocity_changes@,
                    a,
                    i,
                ) == v2_zero(),
    {
        let nf = fluids.len();
        let mut a: usize = 0;
        while a < nf
            invariant
                nf == fluids@.len(),
                0 <= a <= nf,
                forall|x: int| 0 <= x < nf ==> fluid_wf(#[trigger] fluids@[x]),
                self.buffers_match(fluids@),
                self.same_config(old(self)),
                self.alphas == old(self).alphas,
                self.densities == old(self).densities,
                self.predicted_densities == old(self).predicted_densities,
                self.divergences == old(self).divergences,
                forall|x: int, y: int|
                    0 <= x < a as int && 0 <= y < fluid_n(fluids@[x]) ==> vbuf(
                        #[trigger] self.velocity_changes@,
                        x,
                        y,
                    ) == v2_zero(),
            decreases nf - a,
        {
            let n = fluids[a].positions.len();
            let mut i: usize = 0;
            while i < n
                invariant
                    nf == fluids@.len(),
                    0 <= a < nf,
                    0 <= i <= n,
                    n as int == fluid_n(fluids@[a as int]),
                    forall|x: int| 0 <= x < nf ==> fluid_wf(#[trigger] fluids@[x]),
                    self.buffers_match(fluids@),
                    self.same_config(old(self)),
                    self.alphas == old(self).alphas,
                    self.densities == old(self).densities,
                    self.predicted_densities == old(self).predicted_densities,
                    self.divergences == old(self).divergences,
                    forall|x: int, y: int|
                        (0 <= x < a as int && 0 <= y < fluid_n(fluids@[x])) || (x == a as int && 0
                            <= y < i as int) ==> vbuf(#[trigger] self.velocity_changes@, x, y)
                            == v2_zero(),
                decreases n - i,
            {
                let ghost prev = self.velocity_changes@;
                self.velocity_changes[a].set(i, Vect { x: 0, y: 0 });
                proof {
                    assert forall|x: int, y: int|
                        (0 <= x < a as int && 0 <= y < fluid_n(fluids@[x])) || (x == a as int && 0
                            <= y < i as int + 1) implies vbuf(
                        #[trigger] self.velocity_changes@,
                        x,
                        y,
                    ) == v2_zero() by {
                        if !(x == a as int && y == i as int) {
                            assert(vbuf(prev, x, y) == v2_zero());
                            assert(self.velocity_changes@[x]@[y] == prev[x]@[y]);
                        }
                    }
                }
                i += 1;
            }
            a += 1;
        }
    }
}

} // verus!

use crate::fixed::{lemma_fx_mul_nonpos, lemma_fx_mul_zero};
use crate::vect::v2_ok;

verus! {

/// Scaling any vector by zero gives the zero vector, and adding the zero
/// vector to a representable vector changes nothing.
pub proof fn lemma_v2_scale_zero(g: V2)
    ensures
        v2_scale(g, 0) == v2_zero(),
        v2_dot(v2_zero(), g) == 0,
{
    lemma_fx_mul_zero(g.x);
    lemma_fx_mul_zero(g.y);
}

/// With every pressure coefficient non-positive, a fluid-fluid pressure
/// sweep leaves the correction untouched.
pub proof fn lemma_dvp_ff_noop(
    acc: V2,
    cs: Seq<Contact>,
    pred: Seq<Vec<i64>>,
    alph: Seq<Vec<i64>>,
    fluids: Seq<Fluid>,
    inv_dt: int,
    ki: int,
    k: int,
)
    requires
        ki <= 0,
        forall|j: int|
            0 <= j < k ==> ki_p(
                pred,
                alph,
                fluids,
                (#[trigger] cs[j]).j_model as int,
                cs[j].j as int,
            ) <= 0,
    ensures
        dvp_ff(acc, cs, pred, alph, fluids, inv_dt, ki, k) == acc,
    decreases k,
{
    if k > 0 {
        lemma_dvp_ff_noop(acc, cs, pred, alph, fluids, inv_dt, ki, k - 1);
    }
}

/// Compression-only pressure: when every predicted density is at or
/// below rest density (and the stiffness entries are non-negative), one
/// pressure sweep changes no velocity correction and deposits no
/// boundary force.
pub proof fn lemma_pressure_noop(
    dv0: Seq<Vec<Vect>>,
    f0: Seq<Seq<V2>>,
    ff: Seq<ParticlesContacts>,
    fb: Seq<ParticlesContacts>,
    pred: Seq<Vec<i64>>,
    alph: Seq<Vec<i64>>,
    fluids: Seq<Fluid>,
    bds: Seq<Boundary>,
    inv_dt: int,
)
    requires
        ff_wf(ff, fluids),
        forall|a: int, i: int|
            0 <= a < fluids.len() && 0 <= i < fluid_n(fluids[a]) ==> #[trigger] sbuf(pred, a, i)
                <= fluids[a].density0 as int,
        forall|a: int, i: int|
            0 <= a < fluids.len() && 0 <= i < fluid_n(fluids[a]) ==> #[trigger] sbuf(alph, a, i)
                >= 0,
    ensures
        forall|a: int, i: int|
            0 <= a < fluids.len() && 0 <= i < fluid_n(fluids[a]) ==> #[trigger] dvp_spec(
                dv0,
                ff,
                fb,
                pred,
                alph,
                fluids,
                bds,
                inv_dt,
                a,
                i,
            ) == vbuf(dv0, a, i),
        depp_all(f0, fb, pred, alph, fluids, bds, inv_dt, fluids.len() as int) == f0,
{
    assert forall|a: int, i: int|
        0 <= a < fluids.len() && 0 <= i < fluid_n(fluids[a]) implies #[trigger] ki_p(
        pred,
        alph,
        fluids,
        a,
        i,
    ) <= 0 by {
        lemma_fx_mul_nonpos(
            fx_sub_s(sbuf(pred, a, i), fluids[a].density0 as int),
            sbuf(alph, a, i),
        );
    }
    assert forall|a: int, i: int|
        0 <= a < fluids.len() && 0 <= i < fluid_n(fluids[a]) implies #[trigger] dvp_spec(
        dv0,
        ff,
        fb,
        pred,
        alph,
        fluids,
        bds,
        inv_dt,
        a,
        i,
    ) == vbuf(dv0, a, i) by {
        let cs = plist(ff, a, i);
        assert forall|j: int| 0 <= j < cs.len() implies ki_p(
            pred,
            alph,
            fluids,
            (#[trigger] cs[j]).j_model as int,
            cs[j].j as int,
        ) <= 0 by {
            assert(ff_contact_ok(cs[j], a, i, fluids));
        }
        lemma_dvp_ff_noop(
            vbuf(dv0, a, i),
            cs,
            pred,
            alph,
            fluids,
            inv_dt,
            ki_p(pred, alph, fluids, a, i),
            cs.len() as int,
        );
    }
    lemma_depp_all_noop(f0, fb, pred, alph, fluids, bds, inv_dt, fluids.len() as int);
}

proof fn lemma_depp_fluid_noop(
    fv: Seq<Seq<V2>>,
    fb: Seq<ParticlesContacts>,
    pred: Seq<Vec<i64>>,
    alph: Seq<Vec<i64>>,
    fluids: Seq<Fluid>,
    bds: Seq<Boundary>,
    inv_dt: int,
    a: int,
    i_up: int,
)
    requires
        0 <= a < fluids.len(),
        forall|x: int, y: int|
            0 <= x < fluids.len() && 0 <= y < fluid_n(fluids[x]) ==> #[trigger] ki_p(
                pred,
                alph,
                fluids,
                x,
                y,
            ) <= 0,
        i_up <= fluid_n(fluids[a]),
    ensures
        depp_fluid(fv, fb, pred, alph, fluids, bds, inv_dt, a, i_up) == fv,
    decreases i_up,
{
    if i_up > 0 {
        lemma_depp_fluid_noop(fv, fb, pred, alph, fluids, bds, inv_dt, a, i_up - 1);
    }
}

proof fn lemma_depp_all_noop(
    fv: Seq<Seq<V2>>,
    fb: Seq<ParticlesContacts>,
    pred: Seq<Vec<i64>>,
    alph: Seq<Vec<i64>>,
    fluids: Seq<Fluid>,
    bds: Seq<Boundary>,
    inv_dt: int,
    a_up: int,
)
    requires
        forall|x: int, y: int|
            0 <= x < fluids.len() && 0 <= y < fluid_n(fluids[x]) ==> #[trigger] ki_p(
                pred,
                alph,
                fluids,
                x,
                y,
            ) <= 0,
        a_up <= fluids.len(),
    ensures
        depp_all(fv, fb, pred, alph, fluids, bds, inv_dt, a_up) == fv,
    decreases a_up,
{
    if a_up > 0 {
        lemma_depp_all_noop(fv, fb, pred, alph, fluids, bds, inv_dt, a_up - 1);
        lemma_depp_fluid_noop(
            fv,
            fb,
            pred,
            alph,
            fluids,
            bds,
            inv_dt,
            a_up - 1,
            fluid_n(fluids[a_up - 1]),
        );
    }
}

/// With every divergence entry zero, a divergence sweep adds only zero
/// vectors: a representable correction is untouched.
pub proof fn lemma_dvd_ff_noop(
    acc: V2,
    cs: Seq<Contact>,
    divs: Seq<Vec<i64>>,
    alph: Seq<Vec<i64>>,
    fluids: Seq<Fluid>,
    k: int,
)
    requires
        v2_ok(acc),
        forall|j: int|
            0 <= j < k ==> ki_d(divs, alph, (#[trigger] cs[j]).j_model as int, cs[j].j as int)
                == 0,
    ensures
        dvd_ff(acc, cs, divs, alph, fluids, 0, k) == acc,
    decreases k,
{
    if k > 0 {
        lemma_dvd_ff_noop(acc, cs, divs, alph, fluids, k - 1);
        let c = cs[k - 1];
        let m = fluids[c.j_model as int].masses@[c.j as int] as int;
        lemma_fx_mul_zero(m);
        lemma_v2_scale_zero(c.gradient@);
    }
}

/// The boundary half of the same fact.
pub proof fn lemma_dvd_fb_noop(
    acc: V2,
    cs: Seq<Contact>,
    bds: Seq<Boundary>,
    rho0: int,
    k: int,
)
    requires
        v2_ok(acc),
    ensures
        dvd_fb(acc, cs, bds, rho0, 0, k) == acc,
    decreases k,
{
    if k > 0 {
        lemma_dvd_fb_noop(acc, cs, bds, rho0, k - 1);
        let c = cs[k - 1];
        let vol = bds[c.j_model as int].volumes@[c.j as int] as int;
        lemma_fx_mul_zero(vol);
        lemma_fx_mul_zero(rho0);
        lemma_v2_scale_zero(c.gradient@);
    }
}

/// A particle whose divergences are all zero keeps its correction.
pub proof fn lemma_divergence_noop(
    dv0: Seq<Vec<Vect>>,
    ff: Seq<ParticlesContacts>,
    fb: Seq<ParticlesContacts>,
    divs: Seq<Vec<i64>>,
    alph: Seq<Vec<i64>>,
    fluids: Seq<Fluid>,
    bds: Seq<Boundary>,
    a: int,
    i: int,
)
    requires
        ff_wf(ff, fluids),
        0 <= a < fluids.len(),
        0 <= i < fluid_n(fluids[a]),
        v2_ok(vbuf(dv0, a, i)),
        forall|x: int, y: int|
            0 <= x < fluids.len() && 0 <= y < fluid_n(fluids[x]) ==> #[trigger] sbuf(divs, x, y)
                == 0,
    ensures
        dvd_spec(dv0, ff, fb, divs, alph, fluids, bds, a, i) == vbuf(dv0, a, i),
{
    let ki = ki_d(divs, alph, a, i);
    lemma_fx_mul_zero(sbuf(alph, a, i));
    assert(ki == 0);
    let cs = plist(ff, a, i);
    assert forall|j: int| 0 <= j < cs.len() implies ki_d(
        divs,
        alph,
        (#[trigger] cs[j]).j_model as int,
        cs[j].j as int,
    ) == 0 by {
        assert(ff_contact_ok(cs[j], a, i, fluids));
        lemma_fx_mul_zero(sbuf(alph, cs[j].j_model as int, cs[j].j as int));
    }
    lemma_dvd_ff_noop(vbuf(dv0, a, i), cs, divs, alph, fluids, cs.len() as int);
    lemma_dvd_fb_noop(
        vbuf(dv0, a, i),
        plist(fb, a, i),
        bds,
        fluids[a].density0 as int,
        plist(fb, a, i).len() as int,
    );
}

/// At rest (zero velocities, zero corrections) every density-rate fold
/// vanishes.
pub proof fn lemma_pdelta_ff_rest(
    cs: Seq<Contact>,
    fluids: Seq<Fluid>,
    dv: Seq<Vec<Vect>>,
    k: int,
)
    requires
        forall|j: int|
            0 <= j < k ==> {
                &&& vel_plus_dv(fluids, dv, (#[trigger] cs[j]).i_model as int, cs[j].i as int)
                    == v2_zero()
                &&& vel_plus_dv(fluids, dv, cs[j].j_model as int, cs[j].j as int) == v2_zero()
            },
    ensures
        pdelta_ff(0, cs, fluids, dv, k) == 0,
    decreases k,
{
    if k > 0 {
        lemma_pdelta_ff_rest(cs, fluids, dv, k - 1);
        let c = cs[k - 1];
        lemma_v2_scale_zero(c.gradient@);
        assert(v2_sub(v2_zero(), v2_zero()) == v2_zero());
        lemma_fx_mul_zero(fluids[c.j_model as int].masses@[c.j as int] as int);
    }
}

/// The fluid-boundary half at rest, with boundary velocities zero too.
pub proof fn lemma_pdelta_fb_rest(
    cs: Seq<Contact>,
    fluids: Seq<Fluid>,
    bds: Seq<Boundary>,
    dv: Seq<Vec<Vect>>,
    rho0: int,
    k: int,
)
    requires
        forall|j: int|
            0 <= j < k ==> {
                &&& vel_plus_dv(fluids, dv, (#[trigger] cs[j]).i_model as int, cs[j].i as int)
                    == v2_zero()
                &&& bds[cs[j].j_model as int].velocities@[cs[j].j as int]@ == v2_zero()
            },
    ensures
        pdelta_fb(0, cs, fluids, bds, dv, rho0, k) == 0,
    decreases k,
{
    if k > 0 {
        lemma_pdelta_fb_rest(cs, fluids, bds, dv, rho0, k - 1);
        let c = cs[k - 1];
        lemma_v2_scale_zero(c.gradient@);
        assert(v2_sub(v2_zero(), v2_zero()) == v2_zero());
        lemma_fx_mul_zero(
            fx_mul_s(bds[c.j_model as int].volumes@[c.j as int] as int, rho0),
        );
    }
}

/// The divergence boundary fold at rest.
pub proof fn lemma_ddelta_fb_rest(
    cs: Seq<Contact>,
    fluids: Seq<Fluid>,
    bds: Seq<Boundary>,
    dv: Seq<Vec<Vect>>,
    rho0: int,
    k: int,
)
    requires
        forall|j: int|
            0 <= j < k ==> vel_plus_dv(
                fluids,
                dv,
                (#[trigger] cs[j]).i_model as int,
                cs[j].i as int,
            ) == v2_zero(),
    ensures
        ddelta_fb(0, cs, fluids, bds, dv, rho0, k) == 0,
    decreases k,
{
    if k > 0 {
        lemma_ddelta_fb_rest(cs, fluids, bds, dv, rho0, k - 1);
        let c = cs[k - 1];
        lemma_v2_scale_zero(c.gradient@);
        let vol = bds[c.j_model as int].volumes@[c.j as int] as int;
        lemma_fx_mul_zero(vol);
        lemma_fx_mul_zero(rho0);
    }
}

} // verus!

verus! {

/// Every particle is at rest: zero velocity and zero pending correction.
pub open spec fn rest_fluids(fluids: Seq<Fluid>, dv: Seq<Vec<Vect>>) -> bool {
    &&& forall|a: int, i: int|
        0 <= a < fluids.len() && 0 <= i < fluid_n(fluids[a])
            ==> (#[trigger] fluids[a].velocities@[i])@ == v2_zero()
    &&& forall|a: int, i: int|
        0 <= a < fluids.len() && 0 <= i < fluid_n(fluids[a]) ==> #[trigger] vbuf(dv, a, i)
            == v2_zero()
}

/// Every boundary particle is at rest.
pub open spec fn rest_boundaries(bds: Seq<Boundary>) -> bool {
    forall|b: int, j: int|
        0 <= b < bds.len() && 0 <= j < boundary_n(bds[b]) ==> (#[trigger] bds[b].velocities@[j])@
            == v2_zero()
}

/// Every density entry sits exactly at its fluid's rest density.
pub open spec fn dens_at_rest(dens: Seq<Vec<i64>>, fluids: Seq<Fluid>) -> bool {
    forall|a: int, i: int|
        0 <= a < fluids.len() && 0 <= i < fluid_n(fluids[a]) ==> #[trigger] sbuf(dens, a, i)
            == fluids[a].density0 as int
}

/// Every stiffness entry is non-negative.
pub open spec fn alph_nonneg(alph: Seq<Vec<i64>>, fluids: Seq<Fluid>) -> bool {
    forall|a: int, i: int|
        0 <= a < fluids.len() && 0 <= i < fluid_n(fluids[a]) ==> #[trigger] sbuf(alph, a, i) >= 0
}

proof fn lemma_perr_zero_sum(
    ff: Seq<ParticlesContacts>,
    fb: Seq<ParticlesContacts>,
    fluids: Seq<Fluid>,
    bds: Seq<Boundary>,
    dv: Seq<Vec<Vect>>,
    dens: Seq<Vec<i64>>,
    dt: int,
    a: int,
    i_up: int,
)
    requires
        0 <= a < fluids.len(),
        fluids[a].density0 > 0,
        forall|y: int|
            0 <= y < i_up ==> #[trigger] pred_spec(ff, fb, fluids, bds, dv, dens, dt, a, y)
                == fluids[a].density0 as int,
    ensures
        perr_sum(ff, fb, fluids, bds, dv, dens, dt, a, i_up) == 0,
    decreases i_up,
{
    if i_up > 0 {
        lemma_perr_zero_sum(ff, fb, fluids, bds, dv, dens, dt, a, i_up - 1);
        let rho0 = fluids[a].density0 as int;
        vstd::arithmetic::div_mod::lemma_div_multiples_vanish(SCALE as int, rho0);
        assert((rho0 * SCALE) == (rho0 * (SCALE as int))) by (nonlinear_arith);
        assert(tdiv(rho0 * SCALE, rho0) == SCALE as int);
    }
}

proof fn lemma_perr_zero_max(
    ff: Seq<ParticlesContacts>,
    fb: Seq<ParticlesContacts>,
    fluids: Seq<Fluid>,
    bds: Seq<Boundary>,
    dv: Seq<Vec<Vect>>,
    dens: Seq<Vec<i64>>,
    dt: int,
    a_up: int,
)
    requires
        a_up <= fluids.len(),
        forall|a: int| 0 <= a < fluids.len() ==> (#[trigger] fluids[a]).density0 > 0,
        forall|a: int, y: int|
            0 <= a < fluids.len() && 0 <= y < fluid_n(fluids[a]) ==> #[trigger] pred_spec(
                ff,
                fb,
                fluids,
                bds,
                dv,
                dens,
                dt,
                a,
                y,
            ) == fluids[a].density0 as int,
    ensures
        perr_max(ff, fb, fluids, bds, dv, dens, dt, a_up) == 0,
    decreases a_up,
{
    if a_up > 0 {
        lemma_perr_zero_max(ff, fb, fluids, bds, dv, dens, dt, a_up - 1);
        let n = fluid_n(fluids[a_up - 1]);
        if n != 0 {
            lemma_perr_zero_sum(ff, fb, fluids, bds, dv, dens, dt, a_up - 1, n);
            vstd::arithmetic::div_mod::lemma_div_of0(n);
            assert(tdiv(0, n) == 0);
        }
    }
}

proof fn lemma_derr_zero_sum(
    ff: Seq<ParticlesContacts>,
    fb: Seq<ParticlesContacts>,
    fluids: Seq<Fluid>,
    bds: Seq<Boundary>,
    dv: Seq<Vec<Vect>>,
    min_nb: int,
    a: int,
    i_up: int,
)
    requires
        0 <= a < fluids.len(),
        fluids[a].density0 > 0,
        forall|y: int|
            0 <= y < i_up ==> #[trigger] div_spec(ff, fb, fluids, bds, dv, min_nb, a, y) == 0,
    ensures
        derr_sum(ff, fb, fluids, bds, dv, min_nb, a, i_up) == 0,
    decreases i_up,
{
    if i_up > 0 {
        lemma_derr_zero_sum(ff, fb, fluids, bds, dv, min_nb, a, i_up - 1);
        let rho0 = fluids[a].density0 as int;
        vstd::arithmetic::div_mod::lemma_div_of0(rho0);
        assert(0 * SCALE == 0) by (nonlinear_arith);
        assert(tdiv(0 * SCALE, rho0) == 0);
    }
}

proof fn lemma_derr_zero_max(
    ff: Seq<ParticlesContacts>,
    fb: Seq<ParticlesContacts>,
    fluids: Seq<Fluid>,
    bds: Seq<Boundary>,
    dv: Seq<Vec<Vect>>,
    min_nb: int,
    a_up: int,
)
    requires
        a_up <= fluids.len(),
        forall|a: int| 0 <= a < fluids.len() ==> (#[trigger] fluids[a]).density0 > 0,
        forall|a: int, y: int|
            0 <= a < fluids.len() && 0 <= y < fluid_n(fluids[a]) ==> #[trigger] div_spec(
                ff,
                fb,
                fluids,
                bds,
                dv,
                min_nb,
                a,
                y,
            ) == 0,
    ensures
        derr_max(ff, fb, fluids, bds, dv, min_nb, a_up) == 0,
    decreases a_up,
{
    if a_up > 0 {
        lemma_derr_zero_max(ff, fb, fluids, bds, dv, min_nb, a_up - 1);
        let n = fluid_n(fluids[a_up - 1]);
        if n != 0 {
            lemma_derr_zero_sum(ff, fb, fluids, bds, dv, min_nb, a_up - 1, n);
            vstd::arithmetic::div_mod::lemma_div_of0(n);
            assert(tdiv(0, n) == 0);
        }
    }
}

/// At rest, every predicted density equals the rest density and every
/// divergence is zero, so both reported errors vanish.
pub proof fn lemma_rest_state(
    ff: Seq<ParticlesContacts>,
    fb: Seq<ParticlesContacts>,
    fluids: Seq<Fluid>,
    bds: Seq<Boundary>,
    dv: Seq<Vec<Vect>>,
    dens: Seq<Vec<i64>>,
    dt: int,
    min_nb: int,
)
    requires
        models_wf(fluids, bds),
        ff_wf(ff, fluids),
        fb_wf(fb, fluids, bds),
        rest_fluids(fluids, dv),
        rest_boundaries(bds),
        dens_at_rest(dens, fluids),
    ensures
        forall|a: int, i: int|
            0 <= a < fluids.len() && 0 <= i < fluid_n(fluids[a]) ==> #[trigger] pred_spec(
                ff,
                fb,
                fluids,
                bds,
                dv,
                dens,
                dt,
                a,
                i,
            ) == fluids[a].density0 as int,
        forall|a: int, i: int|
            0 <= a < fluids.len() && 0 <= i < fluid_n(fluids[a]) ==> #[trigger] div_spec(
                ff,
                fb,
                fluids,
                bds,
                dv,
                min_nb,
                a,
                i,
            ) == 0,
        perr_max(ff, fb, fluids, bds, dv, dens, dt, fluids.len() as int) == 0,
        derr_max(ff, fb, fluids, bds, dv, min_nb, fluids.len() as int) == 0,
{
    assert forall|a: int, i: int|
        0 <= a < fluids.len() && 0 <= i < fluid_n(fluids[a]) implies #[trigger] pred_spec(
        ff,
        fb,
        fluids,
        bds,
        dv,
        dens,
        dt,
        a,
        i,
    ) == fluids[a].density0 as int by {
        lemma_rest_particle(ff, fb, fluids, bds, dv, dens, dt, min_nb, a, i);
    }
    assert forall|a: int, i: int|
        0 <= a < fluids.len() && 0 <= i < fluid_n(fluids[a]) implies #[trigger] div_spec(
        ff,
        fb,
        fluids,
        bds,
        dv,
        min_nb,
        a,
        i,
    ) == 0 by {
        lemma_rest_particle(ff, fb, fluids, bds, dv, dens, dt, min_nb, a, i);
    }
    lemma_perr_zero_max(ff, fb, fluids, bds, dv, dens, dt, fluids.len() as int);
    lemma_derr_zero_max(ff, fb, fluids, bds, dv, min_nb, fluids.len() as int);
}

proof fn lemma_rest_particle(
    ff: Seq<ParticlesContacts>,
    fb: Seq<ParticlesContacts>,
    fluids: Seq<Fluid>,
    bds: Seq<Boundary>,
    dv: Seq<Vec<Vect>>,
    dens: Seq<Vec<i64>>,
    dt: int,
    min_nb: int,
    a: int,
    i: int,
)
    requires
        models_wf(fluids, bds),
        ff_wf(ff, fluids),
        fb_wf(fb, fluids, bds),
        rest_fluids(fluids, dv),
        rest_boundaries(bds),
        dens_at_rest(dens, fluids),
        0 <= a < fluids.len(),
        0 <= i < fluid_n(fluids[a]),
    ensures
        pred_spec(ff, fb, fluids, bds, dv, dens, dt, a, i) == fluids[a].density0 as int,
        div_spec(ff, fb, fluids, bds, dv, min_nb, a, i) == 0,
{
        let csf = plist(ff, a, i);
        let csb = plist(fb, a, i);
        assert forall|j: int| 0 <= j < csf.len() implies {
            &&& vel_plus_dv(fluids, dv, (#[trigger] csf[j]).i_model as int, csf[j].i as int)
                == v2_zero()
            &&& vel_plus_dv(fluids, dv, csf[j].j_model as int, csf[j].j as int) == v2_zero()
        } by {
            assert(ff_contact_ok(csf[j], a, i, fluids));
        }
        assert forall|j: int| 0 <= j < csb.len() implies {
            &&& vel_plus_dv(fluids, dv, (#[trigger] csb[j]).i_model as int, csb[j].i as int)
                == v2_zero()
            &&& bds[csb[j].j_model as int].velocities@[csb[j].j as int]@ == v2_zero()
        } by {
            assert(fb_contact_ok(csb[j], a, i, bds));
        }
        let rho0 = fluids[a].density0 as int;
        lemma_pdelta_ff_rest(csf, fluids, dv, csf.len() as int);
        lemma_pdelta_fb_rest(csb, fluids, bds, dv, rho0, csb.len() as int);
        lemma_ddelta_fb_rest(csb, fluids, bds, dv, rho0, csb.len() as int);
        lemma_fx_mul_zero(dt);
}

/// Contact well-formedness survives force deposits.
pub proof fn lemma_wf_after_forces(
    fbv: Seq<ParticlesContacts>,
    fluids: Seq<Fluid>,
    b_old: Seq<Boundary>,
    b_new: Seq<Boundary>,
)
    requires
        fb_wf(fbv, fluids, b_old),
        forall|b: int| 0 <= b < b_old.len() ==> boundary_wf(#[trigger] b_old[b]),
        boundaries_except_forces(b_old, b_new),
    ensures
        fb_wf(fbv, fluids, b_new),
        forall|b: int| 0 <= b < b_new.len() ==> boundary_wf(#[trigger] b_new[b]),
{
    assert forall|a: int, i: int, k: int|
        0 <= a < fluids.len() && 0 <= i < fluid_n(fluids[a]) && 0 <= k
            < fbv[a].per_particle@[i]@.len() implies fb_contact_ok(
        #[trigger] fbv[a].per_particle@[i]@[k],
        a,
        i,
        b_new,
    ) by {
        assert(fb_contact_ok(fbv[a].per_particle@[i]@[k], a, i, b_old));
    }
}

} // verus!

verus! {

impl DFSPHSolver {
    /// The constant-density solve: evaluate predicted densities, stop
    /// when the reported error is within `max_density_error` and the
    /// minimum iteration count is reached, else run one pressure sweep;
    /// never more than `max_pressure_iter` sweeps.  Returns the number
    /// of sweeps run, or the invariant violation that aborted the solve.
    pub fn pressure_solve(
        &mut self,
        timestep: &TimestepManager,
        contact_manager: &ContactManager,
        fluids: &Vec<Fluid>,
        boundaries: &mut Vec<Boundary>,
    ) -> (res: Result<usize, SolverError>)
        requires
            timestep.wf(),
            models_wf(fluids@, old(boundaries)@),
            crate::model::contacts_wf(*contact_manager, fluids@, old(boundaries)@),
            old(self).buffers_match(fluids@),
        ensures
            final(self).same_config(old(self)),
            final(self).alphas == old(self).alphas,
            final(self).densities == old(self).densities,
            final(self).divergences == old(self).divergences,
            final(self).buffers_match(fluids@),
            boundaries_except_forces(old(boundaries)@, final(boundaries)@),
            res matches Ok(sweeps) ==> sweeps <= old(self).max_pressure_iter,
            res matches Ok(sweeps) ==> sweeps == old(self).max_pressure_iter
                ==> exists|ts: Seq<DFSPHSolver>, tb: Seq<Seq<Boundary>>|
                {
                    &&& #[trigger] pressure_trace_ok(
                        ts,
                        tb,
                        contact_manager.fluid_fluid_contacts@,
                        contact_manager.fluid_boundary_contacts@,
                        fluids@,
                        timestep.dt_spec(),
                    )
                    &&& ts.len() == sweeps + 1
                    &&& ts[0] == *old(self)
                    &&& tb[0] == old(boundaries)@
                    &&& ts[sweeps as int] == *final(self)
                    &&& tb[sweeps as int] == final(boundaries)@
                },
            res matches Ok(sweeps) ==> sweeps < old(self).max_pressure_iter
                ==> exists|ts: Seq<DFSPHSolver>, tb: Seq<Seq<Boundary>>|
                {
                    &&& #[trigger] pressure_trace_ok(
                        ts,
                        tb,
                        contact_manager.fluid_fluid_contacts@,
                        contact_manager.fluid_boundary_contacts@,
                        fluids@,
                        timestep.dt_spec(),
                    )
                    &&& ts.len() == sweeps + 1
                    &&& ts[0] == *old(self)
                    &&& tb[0] == old(boundaries)@
                    &&& ts[sweeps as int].velocity_changes == final(self).velocity_changes
                    &&& tb[sweeps as int] == final(boundaries)@
                },
            res is Err ==> {
                &&& res == Err::<usize, SolverError>(SolverError::NonPositivePredictedDensity)
                &&& exists|ts: Seq<DFSPHSolver>, tb: Seq<Seq<Boundary>>|
                    {
                        &&& #[trigger] pressure_trace_ok(
                            ts,
                            tb,
                            contact_manager.fluid_fluid_contacts@,
                            contact_manager.fluid_boundary_contacts@,
                            fluids@,
                            timestep.dt_spec(),
                        )
                        &&& 1 <= ts.len() <= old(self).max_pressure_iter + 1
                        &&& ts[0] == *old(self)
                        &&& tb[0] == old(boundaries)@
                        &&& tb[ts.len() - 1] == final(boundaries)@
                        &&& exists|a: int, i: int|
                            0 <= a < fluids@.len() && 0 <= i < fluid_n(fluids@[a])
                                && #[trigger] pred_spec(
                                contact_manager.fluid_fluid_contacts@,
                                contact_manager.fluid_boundary_contacts@,
                                fluids@,
                                tb[ts.len() - 1],
                                ts[ts.len() - 1].velocity_changes@,
                                old(self).densities@,
                                timestep.dt_spec(),
                                a,
                                i,
                            ) <= 0
                    }
            },
            res matches Ok(sweeps) ==> sweeps < old(self).max_pressure_iter ==> {
                &&& sweeps >= old(self).min_pressure_iter
                &&& perr_max(
                    contact_manager.fluid_fluid_contacts@,
                    contact_manager.fluid_boundary_contacts@,
                    fluids@,
                    final(boundaries)@,
                    final(self).velocity_changes@,
                    old(self).densities@,
                    timestep.dt_spec(),
                    fluids@.len() as int,
                ) <= old(self).max_density_error as int
                &&& forall|a: int, i: int|
                    0 <= a < fluids@.len() && 0 <= i < fluid_n(fluids@[a]) ==> #[trigger] pred_done(
                        final(self).predicted_densities@,
                        contact_manager.fluid_fluid_contacts@,
                        contact_manager.fluid_boundary_contacts@,
                        fluids@,
                        final(boundaries)@,
                        final(self).velocity_changes@,
                        old(self).densities@,
                        timestep.dt_spec(),
                        a,
                        i,
                    )
            },
            ({
                let at_rest = {
                    &&& rest_fluids(fluids@, old(self).velocity_changes@)
                    &&& rest_boundaries(old(boundaries)@)
                    &&& dens_at_rest(old(self).densities@, fluids@)
                    &&& alph_nonneg(old(self).alphas@, fluids@)
                    &&& old(self).max_density_error >= 0
                };
                at_rest ==> res is Ok && forall|a: int, i: int|
                    0 <= a < fluids@.len() && 0 <= i < fluid_n(fluids@[a]) ==> vbuf(
                        #[trigger] final(self).velocity_changes@,
                        a,
                        i,
                    ) == v2_zero()
            }),
    {
        let ghost at_rest = {
            &&& rest_fluids(fluids@, old(self).velocity_changes@)
            &&& rest_boundaries(old(boundaries)@)
            &&& dens_at_rest(old(self).densities@, fluids@)
            &&& alph_nonneg(old(self).alphas@, fluids@)
            &&& old(self).max_density_error >= 0
        };
        let ghost ffv = contact_manager.fluid_fluid_contacts@;
        let ghost fbv = contact_manager.fluid_boundary_contacts@;
        let ghost dt0 = timestep.dt_spec();
        let max_iter = self.max_pressure_iter;
        let min_iter = self.min_pressure_iter;
        let mut k: usize = 0;
        let ghost mut ts: Seq<DFSPHSolver> = seq![*self];
        let ghost mut tb: Seq<Seq<Boundary>> = seq![boundaries@];
        while k < max_iter
            invariant
                max_iter == old(self).max_pressure_iter,
                min_iter == old(self).min_pressure_iter,
                0 <= k <= max_iter,
                dt0 == timestep.dt_spec(),
                ts.len() == k + 1,
                tb.len() == k + 1,
                ts[0] == *old(self),
                tb[0] == old(boundaries)@,
                ts[k as int] == *self,
                tb[k as int] == boundaries@,
                pressure_trace_ok(ts, tb, ffv, fbv, fluids@, dt0),
                timestep.wf(),
                models_wf(fluids@, old(boundaries)@),
                ffv == contact_manager.fluid_fluid_contacts@,
                fbv == contact_manager.fluid_boundary_contacts@,
                ff_wf(ffv, fluids@),
                fb_wf(fbv, fluids@, boundaries@),
                forall|b: int|
                    0 <= b < boundaries@.len() ==> boundary_wf(#[trigger] boundaries@[b]),
                self.buffers_match(fluids@),
                self.same_config(old(self)),
                self.alphas == old(self).alphas,
                self.densities == old(self).densities,
                self.divergences == old(self).divergences,
                boundaries_except_forces(old(boundaries)@, boundaries@),
                at_rest == ({
                    &&& rest_fluids(fluids@, old(self).velocity_changes@)
                    &&& rest_boundaries(old(boundaries)@)
                    &&& dens_at_rest(old(self).densities@, fluids@)
                    &&& alph_nonneg(old(self).alphas@, fluids@)
                    &&& old(self).max_density_error >= 0
                }),
                at_rest ==> forall|a: int, i: int|
                    0 <= a < fluids@.len() && 0 <= i < fluid_n(fluids@[a]) ==> vbuf(
                        #[trigger] self.velocity_changes@,
                        a,
                        i,
                    ) == v2_zero(),
            decreases max_iter - k,
        {
            let ghost dv_pre = self.velocity_changes@;
            let ghost s_pre = *self;
            let ghost b_pre = boundaries@;
            let err = match self.compute_predicted_densities(
                timestep,
                &contact_manager.fluid_fluid_contacts,
                &contact_manager.fluid_boundary_contacts,
                fluids,
                boundaries,
            ) {
                Ok(e) => e,
                Err(e) => {
                    proof {
                        if at_rest {
                            lemma_rest_state(
                                ffv,
                                fbv,
                                fluids@,
                                boundaries@,
                                dv_pre,
                                old(self).densities@,
                                timestep.dt_spec(),
                                0,
                            );
                        }
                        let (a0, i0) = choose|a: int, i: int|
                            0 <= a < fluids@.len() && 0 <= i < fluid_n(fluids@[a])
                                && #[trigger] pred_spec(
                                ffv,
                                fbv,
                                fluids@,
                                b_pre,
                                s_pre.velocity_changes@,
                                s_pre.densities@,
                                timestep.dt_spec(),
                                a,
                                i,
                            ) <= 0;
                        assert(s_pre.densities@ == old(self).densities@);
                        assert(ts[ts.len() - 1] == s_pre);
                        assert(tb[ts.len() - 1] == b_pre);
                        assert(boundaries@ == b_pre);
                        assert(pred_spec(
                            ffv,
                            fbv,
                            fluids@,
                            tb[ts.len() - 1],
                            ts[ts.len() - 1].velocity_changes@,
                            old(self).densities@,
                            timestep.dt_spec(),
                            a0,
                            i0,
                        ) <= 0);
                        assert(pressure_trace_ok(ts, tb, ffv, fbv, fluids@, dt0));
                    }
                    return Err(e);
                },
            };
            proof {
                if at_rest {
                    lemma_rest_state(
                        ffv,
                        fbv,
                        fluids@,
                        boundaries@,
                        dv_pre,
                        old(self).densities@,
                        timestep.dt_spec(),
                        0,
                    );
                    assert(err as int == 0);
                }
            }
            if err <= self.max_density_error && k >= min_iter {
                proof {
                    assert(pressure_trace_ok(ts, tb, ffv, fbv, fluids@, dt0));
                    assert(ts[k as int] == s_pre);
                    assert(ts[k as int].velocity_changes == self.velocity_changes);
                    assert(tb[k as int] == boundaries@);
                }
                return Ok(k);
            }
            let ghost pred_now = self.predicted_densities@;
            let ghost bds_pre = boundaries@;
            self.compute_velocity_changes(
                timestep,
                &contact_manager.fluid_fluid_contacts,
                &contact_manager.fluid_boundary_contacts,
                fluids,
                boundaries,
            );
            proof {
                lemma_wf_after_forces(fbv, fluids@, bds_pre, boundaries@);
                if at_rest {
                    lemma_rest_state(
                        ffv,
                        fbv,
                        fluids@,
                        bds_pre,
                        dv_pre,
                        old(self).densities@,
                        timestep.dt_spec(),
                        0,
                    );
                    assert forall|a: int, i: int|
                        0 <= a < fluids@.len() && 0 <= i < fluid_n(fluids@[a]) implies #[trigger] sbuf(
                        pred_now,
                        a,
                        i,
                    ) <= fluids@[a].density0 as int by {
                        assert(pred_done(
                            pred_now,
                            ffv,
                            fbv,
                            fluids@,
                            bds_pre,
                            dv_pre,
                            old(self).densities@,
                            timestep.dt_spec(),
                            a,
                            i,
                        ));
                    }
                    lemma_pressure_noop(
                        dv_pre,
                        forces_view(bds_pre),
                        ffv,
                        fbv,
                        pred_now,
                        old(self).alphas@,
                        fluids@,
                        bds_pre,
                        fx_div_s(SCALE as int, timestep.dt_spec()),
                    );
                    assert forall|a: int, i: int|
                        0 <= a < fluids@.len() && 0 <= i < fluid_n(fluids@[a]) implies vbuf(
                        #[trigger] self.velocity_changes@,
                        a,
                        i,
                    ) == v2_zero() by {
                        assert(dvp_done(
                            self.velocity_changes@,
                            dv_pre,
                            ffv,
                            fbv,
                            pred_now,
                            old(self).alphas@,
                            fluids@,
                            bds_pre,
                            fx_div_s(SCALE as int, timestep.dt_spec()),
                            a,
                            i,
                        ));
                    }
                }
                let s_post = *self;
                let b_post = boundaries@;
                assert(pressure_iter_rel(s_pre, b_pre, s_post, b_post, ffv, fbv, fluids@, dt0, k as int)) by {
                    assert(s_post.predicted_densities@ == pred_now);
                    assert(b_pre == bds_pre);
                    assert(s_pre.densities@ == self.densities@);
                    assert(err as int == perr_max(
                        ffv,
                        fbv,
                        fluids@,
                        b_pre,
                        s_pre.velocity_changes@,
                        s_pre.densities@,
                        dt0,
                        fluids@.len() as int,
                    ));
                    assert(!(err <= s_pre.max_density_error && k >= s_pre.min_pressure_iter));
                }
                let ts_prev = ts;
                let tb_prev = tb;
                ts = ts.push(s_post);
                tb = tb.push(b_post);
                assert forall|i: int|
                    0 <= i < ts.len() - 1 implies #[trigger] pressure_iter_rel(
                    ts[i],
                    tb[i],
                    ts[i + 1],
                    tb[i + 1],
                    ffv,
                    fbv,
                    fluids@,
                    dt0,
                    i,
                ) by {
                    if i < k as int {
                        assert(pressure_iter_rel(
                            ts_prev[i],
                            tb_prev[i],
                            ts_prev[i + 1],
                            tb_prev[i + 1],
                            ffv,
                            fbv,
                            fluids@,
                            dt0,
                            i,
                        ));
                        assert(ts[i] == ts_prev[i] && ts[i + 1] == ts_prev[i + 1]);
                        assert(tb[i] == tb_prev[i] && tb[i + 1] == tb_prev[i + 1]);
                    } else {
                        assert(ts[i] == s_pre && tb[i] == b_pre);
                        assert(ts[i + 1] == s_post && tb[i + 1] == b_post);
                    }
                }
            }
            k += 1;
        }
        Ok(max_iter)
    }

    /// The divergence-free solve: evaluate divergences, stop when the
    /// reported error is within the per-time tolerance derived from
    /// `max_divergence_error` and the minimum iteration count is
    /// reached, else run one divergence sweep; never more than
    /// `max_divergence_iter` sweeps.  Returns the number of sweeps run.
    pub fn divergence_solve(
        &mut self,
        counters: &mut Counters,
        timestep: &TimestepManager,
        contact_manager: &ContactManager,
        fluids: &Vec<Fluid>,
        boundaries: &mut Vec<Boundary>,
    ) -> (sweeps: usize)
        requires
            timestep.wf(),
            models_wf(fluids@, old(boundaries)@),
            crate::model::contacts_wf(*contact_manager, fluids@, old(boundaries)@),
            old(self).buffers_match(fluids@),
        ensures
            final(self).same_config(old(self)),
            final(self).alphas == old(self).alphas,
            final(self).densities == old(self).densities,
            final(self).predicted_densities == old(self).predicted_densities,
            final(self).buffers_match(fluids@),
            boundaries_except_forces(old(boundaries)@, final(boundaries)@),
            sweeps <= old(self).max_divergence_iter,
            sweeps == old(self).max_divergence_iter
                ==> exists|ts: Seq<DFSPHSolver>, tb: Seq<Seq<Boundary>>|
                {
                    &&& #[trigger] divergence_trace_ok(
                        ts,
                        tb,
                        contact_manager.fluid_fluid_contacts@,
                        contact_manager.fluid_boundary_contacts@,
                        fluids@,
                        timestep.dt_spec(),
                    )
                    &&& ts.len() == sweeps + 1
                    &&& ts[0] == *old(self)
                    &&& tb[0] == old(boundaries)@
                    &&& ts[sweeps as int] == *final(self)
                    &&& tb[sweeps as int] == final(boundaries)@
                },
            sweeps < old(self).max_divergence_iter
                ==> exists|ts: Seq<DFSPHSolver>, tb: Seq<Seq<Boundary>>|
                {
                    &&& #[trigger] divergence_trace_ok(
                        ts,
                        tb,
                        contact_manager.fluid_fluid_contacts@,
                        contact_manager.fluid_boundary_contacts@,
                        fluids@,
                        timestep.dt_spec(),
                    )
                    &&& ts.len() == sweeps + 1
                    &&& ts[0] == *old(self)
                    &&& tb[0] == old(boundaries)@
                    &&& ts[sweeps as int].velocity_changes == final(self).velocity_changes
                    &&& tb[sweeps as int] == final(boundaries)@
                },
            sweeps < old(self).max_divergence_iter ==> {
                &&& sweeps >= old(self).min_divergence_iter
                &&& derr_max(
                    contact_manager.fluid_fluid_contacts@,
                    contact_manager.fluid_boundary_contacts@,
                    fluids@,
                    final(boundaries)@,
                    final(self).velocity_changes@,
                    old(self).min_neighbors_for_divergence_solve as int,
                    fluids@.len() as int,
                ) <= fx_mul_s(
                    fx_mul_s(
                        old(self).max_divergence_error as int,
                        fx_div_s(SCALE as int, timestep.dt_spec()),
                    ),
                    PERCENT as int,
                )
                &&& forall|a: int, i: int|
                    0 <= a < fluids@.len() && 0 <= i < fluid_n(fluids@[a]) ==> #[trigger] div_done(
                        final(self).divergences@,
                        contact_manager.fluid_fluid_contacts@,
                        contact_manager.fluid_boundary_contacts@,
                        fluids@,
                        final(boundaries)@,
                        final(self).velocity_changes@,
                        old(self).min_neighbors_for_divergence_solve as int,
                        a,
                        i,
                    )
            },
            ({
                let at_rest = {
                    &&& rest_fluids(fluids@, old(self).velocity_changes@)
                    &&& dens_at_rest(old(self).densities@, fluids@)
                    &&& rest_boundaries(old(boundaries)@)
                    &&& old(self).max_divergence_error >= 0
                };
                at_rest ==> forall|a: int, i: int|
                    0 <= a < fluids@.len() && 0 <= i < fluid_n(fluids@[a]) ==> vbuf(
                        #[trigger] final(self).velocity_changes@,
                        a,
                        i,
                    ) == v2_zero()
            }),
    {
        let ghost at_rest = {
            &&& rest_fluids(fluids@, old(self).velocity_changes@)
            &&& dens_at_rest(old(self).densities@, fluids@)
            &&& rest_boundaries(old(boundaries)@)
            &&& old(self).max_divergence_error >= 0
        };
        let ghost ffv = contact_manager.fluid_fluid_contacts@;
        let ghost fbv = contact_manager.fluid_boundary_contacts@;
        let ghost dt0 = timestep.dt_spec();
        let max_iter = self.max_divergence_iter;
        let min_iter = self.min_divergence_iter;
        let mut k: usize = 0;
        let ghost mut ts: Seq<DFSPHSolver> = seq![*self];
        let ghost mut tb: Seq<Seq<Boundary>> = seq![boundaries@];
        while k < max_iter
            invariant
                max_iter == old(self).max_divergence_iter,
                min_iter == old(self).min_divergence_iter,
                0 <= k <= max_iter,
                dt0 == timestep.dt_spec(),
                ts.len() == k + 1,
                tb.len() == k + 1,
                ts[0] == *old(self),
                tb[0] == old(boundaries)@,
                ts[k as int] == *self,
                tb[k as int] == boundaries@,
                divergence_trace_ok(ts, tb, ffv, fbv, fluids@, dt0),
                timestep.wf(),
                models_wf(fluids@, old(boundaries)@),
                ffv == contact_manager.fluid_fluid_contacts@,
                fbv == contact_manager.fluid_boundary_contacts@,
                ff_wf(ffv, fluids@),
                fb_wf(fbv, fluids@, boundaries@),
                forall|b: int|
                    0 <= b < boundaries@.len() ==> boundary_wf(#[trigger] boundaries@[b]),
                self.buffers_match(fluids@),
                self.same_config(old(self)),
                self.alphas == old(self).alphas,
                self.densities == old(self).densities,
                self.predicted_densities == old(self).predicted_densities,
                boundaries_except_forces(old(boundaries)@, boundaries@),
                at_rest == ({
                    &&& rest_fluids(fluids@, old(self).velocity_changes@)
                    &&& dens_at_rest(old(self).densities@, fluids@)
                    &&& rest_boundaries(old(boundaries)@)
                    &&& old(self).max_divergence_error >= 0
                }),
                at_rest ==> forall|a: int, i: int|
                    0 <= a < fluids@.len() && 0 <= i < fluid_n(fluids@[a]) ==> vbuf(
                        #[trigger] self.velocity_changes@,
                        a,
                        i,
                    ) == v2_zero(),
            decreases max_iter - k,
        {
            let ghost dv_pre = self.velocity_changes@;
            let ghost s_pre = *self;
            let ghost b_pre = boundaries@;
            let err = self.compute_divergences(
                &contact_manager.fluid_fluid_contacts,
                &contact_manager.fluid_boundary_contacts,
                fluids,
                boundaries,
            );
            let inv_dt = timestep.inv_dt();
            let tol = fx_mul(fx_mul(self.max_divergence_error, inv_dt), PERCENT);
            proof {
                if at_rest {
                    lemma_rest_state(
                        ffv,
                        fbv,
                        fluids@,
                        boundaries@,
                        dv_pre,
                        old(self).densities@,
                        timestep.dt_spec(),
                        old(self).min_neighbors_for_divergence_solve as int,
                    );
                    assert(err as int == 0);
                    crate::fixed::lemma_fx_mul_nonneg(
                        old(self).max_divergence_error as int,
                        inv_dt as int,
                    );
                    crate::fixed::lemma_fx_mul_nonneg(
                        fx_mul_s(old(self).max_divergence_error as int, inv_dt as int),
                        PERCENT as int,
                    );
                    assert(tol >= 0);
                }
            }
            if err <= tol && k >= min_iter {
                proof {
                    assert(divergence_trace_ok(ts, tb, ffv, fbv, fluids@, dt0));
                    assert(ts[k as int] == s_pre);
                    assert(ts[k as int].velocity_changes == self.velocity_changes);
                    assert(tb[k as int] == boundaries@);
                }
                return k;
            }
            counters.custom.resume();
            let ghost div_now = self.divergences@;
            let ghost bds_pre = boundaries@;
            self.compute_velocity_changes_for_divergence(
                timestep,
                &contact_manager.fluid_fluid_contacts,
                &contact_manager.fluid_boundary_contacts,
                fluids,
                boundaries,
            );
            counters.custom.pause();
            proof {
                lemma_wf_after_forces(fbv, fluids@, bds_pre, boundaries@);
                if at_rest {
                    lemma_rest_state(
                        ffv,
                        fbv,
                        fluids@,
                        bds_pre,
                        dv_pre,
                        old(self).densities@,
                        timestep.dt_spec(),
                        old(self).min_neighbors_for_divergence_solve as int,
                    );
                    assert forall|a: int, i: int|
                        0 <= a < fluids@.len() && 0 <= i < fluid_n(fluids@[a]) implies vbuf(
                        #[trigger] self.velocity_changes@,
                        a,
                        i,
                    ) == v2_zero() by {
                        assert(div_done(
                            div_now,
                            ffv,
                            fbv,
                            fluids@,
                            bds_pre,
                            dv_pre,
                            old(self).min_neighbors_for_divergence_solve as int,
                            a,
                            i,
                        ));
                        assert forall|x: int, y: int|
                            0 <= x < fluids@.len() && 0 <= y < fluid_n(fluids@[x])
                            implies #[trigger] sbuf(div_now, x, y) == 0 by {
                            assert(div_done(
                                div_now,
                                ffv,
                                fbv,
                                fluids@,
                                bds_pre,
                                dv_pre,
                                old(self).min_neighbors_for_divergence_solve as int,
                                x,
                                y,
                            ));
                        }
                        lemma_divergence_noop(
                            dv_pre,
                            ffv,
                            fbv,
                            div_now,
                            old(self).alphas@,
                            fluids@,
                            bds_pre,
                            a,
                            i,
                        );
                        assert(dvd_done(
                            self.velocity_changes@,
                            dv_pre,
                            ffv,
                            fbv,
                            div_now,
                            old(self).alphas@,
                            fluids@,
                            bds_pre,
                            a,
                            i,
                        ));
                    }
                }
                let s_post = *self;
                let b_post = boundaries@;
                assert(divergence_iter_rel(
                    s_pre,
                    b_pre,
                    s_post,
                    b_post,
                    ffv,
                    fbv,
                    fluids@,
                    dt0,
                    k as int,
                )) by {
                    assert(s_post.divergences@ == div_now);
                    assert(b_pre == bds_pre);
                    assert(s_pre.alphas@ == self.alphas@);
                    assert(err as int == derr_max(
                        ffv,
                        fbv,
                        fluids@,
                        b_pre,
                        s_pre.velocity_changes@,
                        s_pre.min_neighbors_for_divergence_solve as int,
                        fluids@.len() as int,
                    ));
                    assert(inv_dt as int == fx_div_s(SCALE as int, dt0));
                    assert(tol as int == fx_mul_s(
                        fx_mul_s(s_pre.max_divergence_error as int, fx_div_s(SCALE as int, dt0)),
                        PERCENT as int,
                    ));
                    assert(!(err <= tol && k >= s_pre.min_divergence_iter));
                }
                let ts_prev = ts;
                let tb_prev = tb;
                ts = ts.push(s_post);
                tb = tb.push(b_post);
                assert forall|i: int|
                    0 <= i < ts.len() - 1 implies #[trigger] divergence_iter_rel(
                    ts[i],
                    tb[i],
                    ts[i + 1],
                    tb[i + 1],
                    ffv,
                    fbv,
                    fluids@,
                    dt0,
                    i,
                ) by {
                    if i < k as int {
                        assert(divergence_iter_rel(
                            ts_prev[i],
                            tb_prev[i],
                            ts_prev[i + 1],
                            tb_prev[i + 1],
                            ffv,
                            fbv,
                            fluids@,
                            dt0,
                            i,
                        ));
                        assert(ts[i] == ts_prev[i] && ts[i + 1] == ts_prev[i + 1]);
                        assert(tb[i] == tb_prev[i] && tb[i + 1] == tb_prev[i + 1]);
                    } else {
                        assert(ts[i] == s_pre && tb[i] == b_pre);
                        assert(ts[i + 1] == s_post && tb[i + 1] == b_post);
                    }
                }
            }
            k += 1;
        }
        max_iter
    }
}

} // verus!

verus! {

/// A non-pressure force contributor (viscosity, surface tension, ...):
/// one hook the step invokes between the divergence and pressure
/// solves.  A contributor may mutate only the accelerations, and must
/// keep their number.
pub trait NonPressureForce {
    /// Accumulate this contributor's accelerations into the fluid.
    fn apply(
        &mut self,
        timestep: &TimestepManager,
        kernel_radius: i64,
        fluid_fluid_contacts: &ParticlesContacts,
        fluid_boundary_contacts: &ParticlesContacts,
        fluid: &mut Fluid,
        boundaries: &Vec<Boundary>,
        densities: &Vec<i64>,
    )
        requires
            fluid_wf(*old(fluid)),
        ensures
            fluid_wf(*final(fluid)),
            final(fluid).positions == old(fluid).positions,
            final(fluid).velocities == old(fluid).velocities,
            final(fluid).masses == old(fluid).masses,
            final(fluid).density0 == old(fluid).density0,
            final(fluid).deleted == old(fluid).deleted,
            final(fluid).accelerations@.len() == old(fluid).accelerations@.len(),
    ;
}

/// The simplest contributor: a uniform body acceleration.
pub struct UniformAcceleration {
    /// Acceleration added to every particle.
    pub acc: Vect,
}

impl NonPressureForce for UniformAcceleration {
    fn apply(
        &mut self,
        timestep: &TimestepManager,
        kernel_radius: i64,
        fluid_fluid_contacts: &ParticlesContacts,
        fluid_boundary_contacts: &ParticlesContacts,
        fluid: &mut Fluid,
        boundaries: &Vec<Boundary>,
        densities: &Vec<i64>,
    ) {
        let n = fluid.accelerations.len();
        let mut i: usize = 0;
        while i < n
            invariant
                n == fluid.accelerations@.len(),
                0 <= i <= n,
                fluid_wf(*old(fluid)),
                fluid_wf(*fluid),
                fluid.positions == old(fluid).positions,
                fluid.velocities == old(fluid).velocities,
                fluid.masses == old(fluid).masses,
                fluid.density0 == old(fluid).density0,
                fluid.deleted == old(fluid).deleted,
                fluid.accelerations@.len() == old(fluid).accelerations@.len(),
            decreases n - i,
        {
            let v = fluid.accelerations[i].add(self.acc);
            fluid.accelerations.set(i, v);
            i += 1;
        }
    }
}

impl DFSPHSolver {
    /// Accumulate gravity into every particle's acceleration, then let
    /// each fluid's non-pressure force contributors run, in order.
    pub fn predict_advection<F: NonPressureForce>(
        &self,
        timestep: &TimestepManager,
        kernel_radius: i64,
        contact_manager: &ContactManager,
        gravity: &Vect,
        fluids: &mut Vec<Fluid>,
        boundaries: &Vec<Boundary>,
        contributors: &mut Vec<Vec<F>>,
    )
        requires
            forall|a: int| 0 <= a < old(fluids)@.len() ==> fluid_wf(#[trigger] old(fluids)@[a]),
            old(contributors)@.len() == old(fluids)@.len(),
            contact_manager.fluid_fluid_contacts@.len() == old(fluids)@.len(),
            contact_manager.fluid_boundary_contacts@.len() == old(fluids)@.len(),
            self.buffers_match(old(fluids)@),
        ensures
            final(fluids)@.len() == old(fluids)@.len(),
            forall|a: int| 0 <= a < final(fluids)@.len() ==> fluid_wf(#[trigger] final(fluids)@[a]),
            forall|a: int|
                0 <= a < final(fluids)@.len() ==> {
                    &&& fluid_same_shape(old(fluids)@[a], #[trigger] final(fluids)@[a])
                    &&& final(fluids)@[a].positions == old(fluids)@[a].positions
                    &&& final(fluids)@[a].velocities == old(fluids)@[a].velocities
                },
            self.buffers_match(final(fluids)@),
            (forall|a: int| 0 <= a < old(contributors)@.len() ==> (#[trigger] old(
                contributors,
            )@[a])@.len() == 0) ==> forall|a: int, i: int|
                0 <= a < final(fluids)@.len() && 0 <= i < fluid_n(final(fluids)@[a])
                    ==> (#[trigger] final(fluids)@[a].accelerations@[i])@ == v2_add(
                    old(fluids)@[a].accelerations@[i]@,
                    gravity@,
                ),
    {
        let g = *gravity;
        let nf = fluids.len();
        let mut a: usize = 0;
        while a < nf
            invariant
                nf == old(fluids)@.len(),
                fluids@.len() == nf,
                0 <= a <= nf,
                forall|x: int| 0 <= x < nf ==> fluid_wf(#[trigger] old(fluids)@[x]),
                forall|x: int| 0 <= x < nf ==> fluid_wf(#[trigger] fluids@[x]),
                g == *gravity,
                self.buffers_match(old(fluids)@),
                forall|x: int|
                    0 <= x < nf ==> {
                        &&& fluid_same_shape(old(fluids)@[x], #[trigger] fluids@[x])
                        &&& fluids@[x].positions == old(fluids)@[x].positions
                        &&& fluids@[x].velocities == old(fluids)@[x].velocities
                    },
                forall|x: int, y: int|
                    0 <= x < a as int && 0 <= y < fluid_n(fluids@[x])
                        ==> (#[trigger] fluids@[x].accelerations@[y])@ == v2_add(
                        old(fluids)@[x].accelerations@[y]@,
                        g@,
                    ),
                forall|x: int, y: int|
                    a as int <= x < nf && 0 <= y < fluid_n(fluids@[x])
                        ==> #[trigger] fluids@[x].accelerations@[y] == old(
                        fluids,
                    )@[x].accelerations@[y],
            decreases nf - a,
        {
            let n = fluids[a].accelerations.len();
            let mut i: usize = 0;
            while i < n
                invariant
                    nf == old(fluids)@.len(),
                    fluids@.len() == nf,
                    0 <= a < nf,
                    0 <= i <= n,
                    n as int == fluid_n(fluids@[a as int]),
                    n as int == fluid_n(old(fluids)@[a as int]),
                    forall|x: int| 0 <= x < nf ==> fluid_wf(#[trigger] old(fluids)@[x]),
                    forall|x: int| 0 <= x < nf ==> fluid_wf(#[trigger] fluids@[x]),
                    g == *gravity,
                    self.buffers_match(old(fluids)@),
                    forall|x: int|
                        0 <= x < nf ==> {
                            &&& fluid_same_shape(old(fluids)@[x], #[trigger] fluids@[x])
                            &&& fluids@[x].positions == old(fluids)@[x].positions
                            &&& fluids@[x].velocities == old(fluids)@[x].velocities
                        },
                    forall|x: int, y: int|
                        (0 <= x < a as int && 0 <= y < fluid_n(fluids@[x])) || (x == a as int && 0
                            <= y < i as int) ==> (#[trigger] fluids@[x].accelerations@[y])@
                            == v2_add(old(fluids)@[x].accelerations@[y]@, g@),
                    forall|x: int, y: int|
                        ((x == a as int && i as int <= y < fluid_n(fluids@[x])) || ((a as int) < x
                            && x < nf && 0 <= y < fluid_n(fluids@[x])))
                            ==> #[trigger] fluids@[x].accelerations@[y] == old(
                            fluids,
                        )@[x].accelerations@[y],
                decreases n - i,
            {
                let v = fluids[a].accelerations[i].add(g);
                let ghost prevf = fluids@;
                fluids[a].accelerations.set(i, v);
                proof {
                    assert forall|x: int, y: int|
                        ((x == a as int && i as int + 1 <= y < fluid_n(fluids@[x])) || ((a as int)
                            < x && x < nf && 0 <= y < fluid_n(fluids@[x])))
                        implies #[trigger] fluids@[x].accelerations@[y] == old(
                        fluids,
                    )@[x].accelerations@[y] by {
                        assert(fluids@[x].accelerations@[y] == prevf[x].accelerations@[y]);
                    }
                }
                i += 1;
            }
            a += 1;
        }
        let ghost mid = fluids@;
        proof {
            assert(forall|x: int, y: int|
                0 <= x < nf && 0 <= y < fluid_n(mid[x]) ==> (#[trigger] mid[x].accelerations@[y])@
                    == v2_add(old(fluids)@[x].accelerations@[y]@, g@));
        }
        let mut a2: usize = 0;
        while a2 < nf
            invariant
                nf == old(fluids)@.len(),
                fluids@.len() == nf,
                contributors@.len() == nf,
                0 <= a2 <= nf,
                forall|x: int| 0 <= x < nf ==> fluid_wf(#[trigger] old(fluids)@[x]),
                forall|x: int| 0 <= x < nf ==> fluid_wf(#[trigger] fluids@[x]),
                mid.len() == nf,
                contact_manager.fluid_fluid_contacts@.len() == nf,
                contact_manager.fluid_boundary_contacts@.len() == nf,
                self.buffers_match(old(fluids)@),
                forall|x: int|
                    0 <= x < nf ==> {
                        &&& fluid_same_shape(old(fluids)@[x], #[trigger] fluids@[x])
                        &&& fluids@[x].positions == old(fluids)@[x].positions
                        &&& fluids@[x].velocities == old(fluids)@[x].velocities
                    },
                forall|x: int|
                    0 <= x < nf && (#[trigger] old(contributors)@[x])@.len() == 0 && x >= a2 as int
                        ==> fluids@[x] == mid[x],
                forall|x: int|
                    0 <= x < nf && (#[trigger] old(contributors)@[x])@.len() == 0 && x < a2 as int
                        ==> fluids@[x] == mid[x],
                contributors@.len() == old(contributors)@.len(),
                forall|x: int|
                    0 <= x < nf ==> (#[trigger] contributors@[x])@.len() == old(
                        contributors,
                    )@[x]@.len(),
                forall|x: int, y: int|
                    0 <= x < nf && 0 <= y < fluid_n(mid[x]) && x >= a2 as int
                        ==> #[trigger] fluids@[x].accelerations@[y] == mid[x].accelerations@[y],
            decreases nf - a2,
        {
            let m = contributors[a2].len();
            let mut c: usize = 0;
            while c < m
                invariant
                    nf == old(fluids)@.len(),
                    fluids@.len() == nf,
                    contributors@.len() == nf,
                    0 <= a2 < nf,
                    0 <= c <= m,
                    m == contributors@[a2 as int]@.len(),
                    forall|x: int| 0 <= x < nf ==> fluid_wf(#[trigger] old(fluids)@[x]),
                    forall|x: int| 0 <= x < nf ==> fluid_wf(#[trigger] fluids@[x]),
                    mid.len() == nf,
                    contact_manager.fluid_fluid_contacts@.len() == nf,
                    contact_manager.fluid_boundary_contacts@.len() == nf,
                    self.buffers_match(old(fluids)@),
                    forall|x: int|
                        0 <= x < nf ==> {
                            &&& fluid_same_shape(old(fluids)@[x], #[trigger] fluids@[x])
                            &&& fluids@[x].positions == old(fluids)@[x].positions
                            &&& fluids@[x].velocities == old(fluids)@[x].velocities
                        },
                    forall|x: int|
                        0 <= x < nf && (#[trigger] old(contributors)@[x])@.len() == 0 && x != a2
                            as int ==> fluids@[x] == mid[x],
                    old(contributors)@[a2 as int]@.len() == 0 ==> fluids@[a2 as int] == mid[a2
                        as int],
                    contributors@.len() == old(contributors)@.len(),
                    forall|x: int|
                        0 <= x < nf ==> (#[trigger] contributors@[x])@.len() == old(
                            contributors,
                        )@[x]@.len(),
                    forall|x: int, y: int|
                        0 <= x < nf && 0 <= y < fluid_n(mid[x]) && x > a2 as int
                            ==> #[trigger] fluids@[x].accelerations@[y] == mid[x].accelerations@[y],
                decreases m - c,
            {
                contributors[a2][c].apply(
                    timestep,
                    kernel_radius,
                    &contact_manager.fluid_fluid_contacts[a2],
                    &contact_manager.fluid_boundary_contacts[a2],
                    &mut fluids[a2],
                    boundaries,
                    densities_row(&self.densities, a2),
                );
                c += 1;
            }
            a2 += 1;
        }
        proof {
            if forall|x: int|
                0 <= x < old(contributors)@.len() ==> (#[trigger] old(contributors)@[x])@.len()
                    == 0 {
                assert forall|x: int, y: int|
                    0 <= x < fluids@.len() && 0 <= y < fluid_n(fluids@[x])
                    implies (#[trigger] fluids@[x].accelerations@[y])@ == v2_add(
                    old(fluids)@[x].accelerations@[y]@,
                    gravity@,
                ) by {
                    assert(old(contributors)@[x]@.len() == 0);
                    assert(fluids@[x] == mid[x]);
                    assert((mid[x].accelerations@[y])@ == v2_add(
                        old(fluids)@[x].accelerations@[y]@,
                        g@,
                    ));
                }
            }
        }
    }
}

/// Row `a` of a buffer table; a plain borrow for handing one fluid's
/// densities to a contributor.
fn densities_row(s: &Vec<Vec<i64>>, a: usize) -> (r: &Vec<i64>)
    requires
        (a as int) < s@.len(),
    ensures
        r@ == s@[a as int]@,
{
    &s[a]
}

} // verus!

verus! {

/// Every acceleration accumulator is zero.
pub open spec fn accel_zero(fluids: Seq<Fluid>) -> bool {
    forall|a: int, i: int|
        0 <= a < fluids.len() && 0 <= i < fluid_n(fluids[a])
            ==> (#[trigger] fluids[a].accelerations@[i])@ == v2_zero()
}

/// Every position component lies in the symmetric representable range.
pub open spec fn positions_ok(fluids: Seq<Fluid>) -> bool {
    forall|a: int, i: int|
        0 <= a < fluids.len() && 0 <= i < fluid_n(fluids[a]) ==> v2_ok(
            (#[trigger] fluids[a].positions@[i])@,
        )
}

/// The whole contact set stays consistent across force deposits.
pub proof fn lemma_contacts_wf_after_forces(
    cm: ContactManager,
    fluids: Seq<Fluid>,
    b_old: Seq<Boundary>,
    b_new: Seq<Boundary>,
)
    requires
        crate::model::contacts_wf(cm, fluids, b_old),
        forall|b: int| 0 <= b < b_old.len() ==> boundary_wf(#[trigger] b_old[b]),
        boundaries_except_forces(b_old, b_new),
    ensures
        crate::model::contacts_wf(cm, fluids, b_new),
        forall|b: int| 0 <= b < b_new.len() ==> boundary_wf(#[trigger] b_new[b]),
{
    lemma_wf_after_forces(cm.fluid_boundary_contacts@, fluids, b_old, b_new);
    assert forall|b: int, i: int, k: int|
        0 <= b < b_new.len() && 0 <= i < boundary_n(b_new[b]) && 0 <= k
            < cm.boundary_boundary_contacts@[b].per_particle@[i]@.len() implies bb_contact_ok(
        #[trigger] cm.boundary_boundary_contacts@[b].per_particle@[i]@[k],
        b,
        i,
        b_new,
    ) by {
        assert(boundary_n(b_new[b]) == boundary_n(b_old[b]));
        assert(bb_contact_ok(cm.boundary_boundary_contacts@[b].per_particle@[i]@[k], b, i, b_old));
    }
    assert forall|b: int|
        0 <= b < b_new.len() implies (#[trigger] cm.boundary_boundary_contacts@[b]).per_particle@.len()
        == boundary_n(b_new[b]) by {
        assert(boundary_n(b_new[b]) == boundary_n(b_old[b]));
    }
}

impl DFSPHSolver {
    /// One full simulation step: precompute alphas, run the divergence
    /// solve, commit and reset the corrections, accumulate gravity and
    /// the non-pressure forces, advance the time step, integrate the
    /// accelerations, run the pressure solve, and advance positions.
    /// The pressure correction is deliberately not folded into the
    /// committed velocities here: it feeds the position update and is
    /// rolled into the velocities at the next step's commit.
    ///
    /// At rest (rest-density densities, zero velocities and
    /// accelerations and corrections, zero gravity, no contributors,
    /// representable positions, non-negative tolerances) one step
    /// changes neither positions nor velocities.
    pub fn step<F: NonPressureForce>(
        &mut self,
        counters: &mut Counters,
        timestep: &mut TimestepManager,
        gravity: &Vect,
        contact_manager: &ContactManager,
        kernel_radius: i64,
        fluids: &mut Vec<Fluid>,
        boundaries: &mut Vec<Boundary>,
        contributors: &mut Vec<Vec<F>>,
    ) -> (res: Result<(), SolverError>)
        requires
            old(timestep).wf(),
            models_wf(old(fluids)@, old(boundaries)@),
            crate::model::contacts_wf(*contact_manager, old(fluids)@, old(boundaries)@),
            old(self).buffers_match(old(fluids)@),
            old(contributors)@.len() == old(fluids)@.len(),
        ensures
            final(self).same_config(old(self)),
            final(timestep).wf(),
            final(timestep).next_dt_spec() is None,
            final(timestep).dt_spec() == match old(timestep).next_dt_spec() {
                Some(d) => if d > 0 {
                    d
                } else {
                    old(timestep).dt_spec()
                },
                None => old(timestep).dt_spec(),
            },
            final(fluids)@.len() == old(fluids)@.len(),
            forall|a: int| 0 <= a < final(fluids)@.len() ==> fluid_wf(#[trigger] final(fluids)@[a]),
            forall|a: int|
                0 <= a < final(fluids)@.len() ==> fluid_same_shape(
                    old(fluids)@[a],
                    #[trigger] final(fluids)@[a],
                ),
            final(self).buffers_match(final(fluids)@),
            boundaries_except_forces(old(boundaries)@, final(boundaries)@),
            res is Ok ==> forall|a: int, i: int|
                0 <= a < final(fluids)@.len() && 0 <= i < fluid_n(final(fluids)@[a])
                    ==> (#[trigger] final(fluids)@[a].positions@[i])@ == v2_add(
                    old(fluids)@[a].positions@[i]@,
                    v2_scale(
                        v2_add(
                            final(fluids)@[a].velocities@[i]@,
                            vbuf(final(self).velocity_changes@, a, i),
                        ),
                        final(timestep).dt_spec(),
                    ),
                ),
            res is Err ==> forall|a: int|
                0 <= a < final(fluids)@.len() ==> (#[trigger] final(fluids)@[a]).positions == old(
                    fluids,
                )@[a].positions,
            res is Err ==> res == Err::<(), SolverError>(SolverError::NonPositivePredictedDensity),
            res is Err ==> exists|
                s_a: DFSPHSolver,
                tsd: Seq<DFSPHSolver>,
                tbd: Seq<Seq<Boundary>>,
                kd: usize,
                s_p: DFSPHSolver,
                fl_mid: Seq<Fluid>,
                tsp: Seq<DFSPHSolver>,
                tbp: Seq<Seq<Boundary>>,
            |
                {
                    &&& #[trigger] step_pipeline(
                        *old(self),
                        old(boundaries)@,
                        old(fluids)@,
                        *final(self),
                        final(boundaries)@,
                        final(fluids)@,
                        contact_manager.fluid_fluid_contacts@,
                        contact_manager.fluid_boundary_contacts@,
                        gravity@,
                        old(timestep).dt_spec(),
                        final(timestep).dt_spec(),
                        false,
                        s_a,
                        tsd,
                        tbd,
                        kd,
                        s_p,
                        fl_mid,
                        tsp,
                        tbp,
                        0,
                    )
                    &&& s_p.densities == old(self).densities
                    &&& pressure_trace_ok(
                        tsp,
                        tbp,
                        contact_manager.fluid_fluid_contacts@,
                        contact_manager.fluid_boundary_contacts@,
                        fl_mid,
                        final(timestep).dt_spec(),
                    )
                    &&& 1 <= tsp.len() <= s_p.max_pressure_iter + 1
                    &&& tsp[0] == s_p
                    &&& tbp[0] == tbd[kd as int]
                    &&& tbp[tsp.len() - 1] == final(boundaries)@
                    &&& fl_mid.len() == old(fluids)@.len()
                    &&& forall|a: int|
                        0 <= a < fl_mid.len() ==> {
                            &&& (#[trigger] fl_mid[a]).velocities == final(fluids)@[a].velocities
                            &&& fl_mid[a].masses == old(fluids)@[a].masses
                            &&& fl_mid[a].density0 == old(fluids)@[a].density0
                            &&& fluid_n(fl_mid[a]) == fluid_n(old(fluids)@[a])
                        }
                    &&& exists|a: int, i: int|
                        0 <= a < fl_mid.len() && 0 <= i < fluid_n(fl_mid[a]) && #[trigger] pred_spec(
                            contact_manager.fluid_fluid_contacts@,
                            contact_manager.fluid_boundary_contacts@,
                            fl_mid,
                            tbp[tsp.len() - 1],
                            tsp[tsp.len() - 1].velocity_changes@,
                            old(self).densities@,
                            final(timestep).dt_spec(),
                            a,
                            i,
                        ) <= 0
                },
            forall|a: int, i: int|
                0 <= a < final(fluids)@.len() && 0 <= i < fluid_n(final(fluids)@[a])
                    ==> (#[trigger] final(fluids)@[a].accelerations@[i])@ == v2_zero(),
            res is Ok ==> exists|
                s_a: DFSPHSolver,
                tsd: Seq<DFSPHSolver>,
                tbd: Seq<Seq<Boundary>>,
                kd: usize,
                s_p: DFSPHSolver,
                fl_mid: Seq<Fluid>,
                tsp: Seq<DFSPHSolver>,
                tbp: Seq<Seq<Boundary>>,
                kp: usize,
            |
                #[trigger] step_pipeline(
                    *old(self),
                    old(boundaries)@,
                    old(fluids)@,
                    *final(self),
                    final(boundaries)@,
                    final(fluids)@,
                    contact_manager.fluid_fluid_contacts@,
                    contact_manager.fluid_boundary_contacts@,
                    gravity@,
                    old(timestep).dt_spec(),
                    final(timestep).dt_spec(),
                    false,
                    s_a,
                    tsd,
                    tbd,
                    kd,
                    s_p,
                    fl_mid,
                    tsp,
                    tbp,
                    kp,
                ),
            res is Ok ==> (forall|a: int|
                0 <= a < old(contributors)@.len() ==> (#[trigger] old(contributors)@[a])@.len()
                    == 0) ==> exists|
                s_a: DFSPHSolver,
                tsd: Seq<DFSPHSolver>,
                tbd: Seq<Seq<Boundary>>,
                kd: usize,
                s_p: DFSPHSolver,
                fl_mid: Seq<Fluid>,
                tsp: Seq<DFSPHSolver>,
                tbp: Seq<Seq<Boundary>>,
                kp: usize,
            |
                #[trigger] step_pipeline(
                    *old(self),
                    old(boundaries)@,
                    old(fluids)@,
                    *final(self),
                    final(boundaries)@,
                    final(fluids)@,
                    contact_manager.fluid_fluid_contacts@,
                    contact_manager.fluid_boundary_contacts@,
                    gravity@,
                    old(timestep).dt_spec(),
                    final(timestep).dt_spec(),
                    true,
                    s_a,
                    tsd,
                    tbd,
                    kd,
                    s_p,
                    fl_mid,
                    tsp,
                    tbp,
                    kp,
                ),
            ({
                let at_rest = {
                    &&& gravity@ == v2_zero()
                    &&& rest_fluids(old(fluids)@, old(self).velocity_changes@)
                    &&& accel_zero(old(fluids)@)
                    &&& dens_at_rest(old(self).densities@, old(fluids)@)
                    &&& rest_boundaries(old(boundaries)@)
                    &&& positions_ok(old(fluids)@)
                    &&& old(self).max_density_error >= 0
                    &&& old(self).max_divergence_error >= 0
                    &&& forall|a: int|
                        0 <= a < old(contributors)@.len() ==> (#[trigger] old(
                            contributors,
                        )@[a])@.len() == 0
                };
                at_rest ==> res is Ok && forall|a: int, i: int|
                    0 <= a < final(fluids)@.len() && 0 <= i < fluid_n(final(fluids)@[a]) ==> {
                        &&& (#[trigger] final(fluids)@[a].positions@[i])@ == old(
                            fluids,
                        )@[a].positions@[i]@
                        &&& final(fluids)@[a].velocities@[i]@ == old(fluids)@[a].velocities@[i]@
                    }
            }),
    {
        let ghost at_rest = {
            &&& gravity@ == v2_zero()
            &&& rest_fluids(old(fluids)@, old(self).velocity_changes@)
            &&& accel_zero(old(fluids)@)
            &&& dens_at_rest(old(self).densities@, old(fluids)@)
            &&& rest_boundaries(old(boundaries)@)
            &&& positions_ok(old(fluids)@)
            &&& old(self).max_density_error >= 0
            &&& old(self).max_divergence_error >= 0
            &&& forall|a: int|
                0 <= a < old(contributors)@.len() ==> (#[trigger] old(contributors)@[a])@.len()
                    == 0
        };
        counters.pressure_resolution_time.resume();
        self.compute_alphas(
            &contact_manager.fluid_fluid_contacts,
            &contact_manager.fluid_boundary_contacts,
            fluids,
            boundaries,
        );
        proof {
            assert forall|a: int, i: int|
                0 <= a < fluids@.len() && 0 <= i < fluid_n(fluids@[a]) implies #[trigger] sbuf(
                self.alphas@,
                a,
                i,
            ) >= 0 by {
                assert(alpha_done(
                    self.alphas@,
                    contact_manager.fluid_fluid_contacts@,
                    contact_manager.fluid_boundary_contacts@,
                    fluids@,
                    boundaries@,
                    a,
                    i,
                ));
            }
        }
        let ghost s_a = *self;
        let ghost bds_a = boundaries@;
        let ghost dt_pre = timestep.dt_spec();
        let kd = self.divergence_solve(counters, timestep, contact_manager, fluids, boundaries);
        let ghost s_d = *self;
        let ghost b_d = boundaries@;
        let ghost ffv = contact_manager.fluid_fluid_contacts@;
        let ghost fbv = contact_manager.fluid_boundary_contacts@;
        let ghost fl0 = fluids@;
        let ghost div_trace = choose|ts: Seq<DFSPHSolver>, tb: Seq<Seq<Boundary>>|
            {
                &&& #[trigger] divergence_trace_ok(ts, tb, ffv, fbv, fl0, dt_pre)
                &&& ts.len() == kd + 1
                &&& ts[0] == s_a
                &&& tb[0] == bds_a
                &&& ts[kd as int].velocity_changes == s_d.velocity_changes
                &&& tb[kd as int] == b_d
            };
        proof {
            if kd == s_a.max_divergence_iter {
                let (ts0, tb0) = choose|ts: Seq<DFSPHSolver>, tb: Seq<Seq<Boundary>>|
                    {
                        &&& #[trigger] divergence_trace_ok(ts, tb, ffv, fbv, fl0, dt_pre)
                        &&& ts.len() == kd + 1
                        &&& ts[0] == s_a
                        &&& tb[0] == bds_a
                        &&& ts[kd as int] == s_d
                        &&& tb[kd as int] == b_d
                    };
                assert(ts0[kd as int].velocity_changes == s_d.velocity_changes);
            }
            lemma_contacts_wf_after_forces(*contact_manager, fluids@, bds_a, boundaries@);
        }
        self.update_velocities(fluids);
        self.clear_velocity_changes(fluids);
        self.predict_advection(
            timestep,
            kernel_radius,
            contact_manager,
            gravity,
            fluids,
            boundaries,
            contributors,
        );
        timestep.advance();
        self.integrate_and_clear_accelerations(timestep, fluids);
        let ghost s_p = *self;
        let ghost fl_mid = fluids@;
        proof {
            if at_rest {
                assert forall|a: int, i: int|
                    0 <= a < fluids@.len() && 0 <= i < fluid_n(fluids@[a]) implies vbuf(
                    #[trigger] self.velocity_changes@,
                    a,
                    i,
                ) == v2_zero() && fluids@[a].velocities@[i]@ == v2_zero() by {
                    lemma_fx_mul_zero(timestep.dt_spec());
                }
            }
        }
        let ghost bds_b = boundaries@;
        let ghost dt_post = timestep.dt_spec();
        let pressure_result = self.pressure_solve(timestep, contact_manager, fluids, boundaries);
        proof {
            lemma_contacts_wf_after_forces(*contact_manager, fluids@, bds_b, boundaries@);
        }
        let kp = match pressure_result {
            Err(e) => {
                counters.pressure_resolution_time.pause();
                proof {
                    let (tse, tbe) = choose|ts: Seq<DFSPHSolver>, tb: Seq<Seq<Boundary>>|
                        {
                            &&& #[trigger] pressure_trace_ok(ts, tb, ffv, fbv, fl_mid, dt_post)
                            &&& 1 <= ts.len() <= s_p.max_pressure_iter + 1
                            &&& ts[0] == s_p
                            &&& tb[0] == b_d
                            &&& tb[ts.len() - 1] == boundaries@
                            &&& exists|a: int, i: int|
                                0 <= a < fluids@.len() && 0 <= i < fluid_n(fluids@[a])
                                    && #[trigger] pred_spec(
                                    ffv,
                                    fbv,
                                    fl_mid,
                                    tb[ts.len() - 1],
                                    ts[ts.len() - 1].velocity_changes@,
                                    old(self).densities@,
                                    dt_post,
                                    a,
                                    i,
                                ) <= 0
                        };
                    assert(step_pipeline(
                        *old(self),
                        old(boundaries)@,
                        old(fluids)@,
                        *self,
                        boundaries@,
                        fluids@,
                        ffv,
                        fbv,
                        gravity@,
                        dt_pre,
                        dt_post,
                        false,
                        s_a,
                        div_trace.0,
                        div_trace.1,
                        kd,
                        s_p,
                        fl_mid,
                        tse,
                        tbe,
                        0,
                    ));
                }
                return Err(e);
            },
            Ok(n) => n,
        };
        let ghost s_fin = *self;
        let ghost b_fin = boundaries@;
        let ghost no_contrib = (forall|a: int|
            0 <= a < old(contributors)@.len() ==> (#[trigger] old(contributors)@[a])@.len() == 0);
        let ghost press_trace = choose|ts: Seq<DFSPHSolver>, tb: Seq<Seq<Boundary>>|
            {
                &&& #[trigger] pressure_trace_ok(ts, tb, ffv, fbv, fl_mid, dt_post)
                &&& ts.len() == kp + 1
                &&& ts[0] == s_p
                &&& tb[0] == b_d
                &&& ts[kp as int].velocity_changes == s_fin.velocity_changes
                &&& tb[kp as int] == b_fin
            };
        proof {
            if kp == s_p.max_pressure_iter {
                let (ts0, tb0) = choose|ts: Seq<DFSPHSolver>, tb: Seq<Seq<Boundary>>|
                    {
                        &&& #[trigger] pressure_trace_ok(ts, tb, ffv, fbv, fl_mid, dt_post)
                        &&& ts.len() == kp + 1
                        &&& ts[0] == s_p
                        &&& tb[0] == b_d
                        &&& ts[kp as int] == s_fin
                        &&& tb[kp as int] == b_fin
                    };
                assert(ts0[kp as int].velocity_changes == s_fin.velocity_changes);
            }
        }
        self.update_positions(timestep, fluids);
        counters.pressure_resolution_time.pause();
        proof {
            if at_rest {
                assert forall|a: int, i: int|
                    0 <= a < fluids@.len() && 0 <= i < fluid_n(fluids@[a]) implies {
                    &&& (#[trigger] fluids@[a].positions@[i])@ == old(fluids)@[a].positions@[i]@
                    &&& fluids@[a].velocities@[i]@ == old(fluids)@[a].velocities@[i]@
                } by {
                    lemma_fx_mul_zero(timestep.dt_spec());
                }
            }
            assert(step_pipeline(
                *old(self),
                old(boundaries)@,
                old(fluids)@,
                *self,
                boundaries@,
                fluids@,
                ffv,
                fbv,
                gravity@,
                dt_pre,
                dt_post,
                false,
                s_a,
                div_trace.0,
                div_trace.1,
                kd,
                s_p,
                fl_mid,
                press_trace.0,
                press_trace.1,
                kp,
            ));
            if no_contrib {
                assert(step_pipeline(
                    *old(self),
                    old(boundaries)@,
                    old(fluids)@,
                    *self,
                    boundaries@,
                    fluids@,
                    ffv,
                    fbv,
                    gravity@,
                    dt_pre,
                    dt_post,
                    true,
                    s_a,
                    div_trace.0,
                    div_trace.1,
                    kd,
                    s_p,
                    fl_mid,
                    press_trace.0,
                    press_trace.1,
                    kp,
                ));
            }
        }
        Ok(())
    }
}

} // verus!

verus! {

/// The neighborhood and kernel collaborator: recomputes every contact
/// list, with kernel weights and gradients, for the current positions.
/// Building neighbor lists and evaluating the smoothing kernel are
/// outside the solver's scope; an implementor must hand back a contact
/// set that is structurally consistent with the fluids and boundaries.
pub trait KernelEvaluator {
    /// Refresh all contact lists for the current positions.
    fn evaluate(
        &mut self,
        kernel_radius: i64,
        contact_manager: &mut ContactManager,
        fluids: &Vec<Fluid>,
        boundaries: &Vec<Boundary>,
    )
        requires
            models_wf(fluids@, boundaries@),
        ensures
            crate::model::contacts_wf(*final(contact_manager), fluids@, boundaries@),
    ;
}

impl DFSPHSolver {
    /// Delegate the refresh of contact weights and gradients to the
    /// kernel collaborator.
    pub fn evaluate_kernels<E: KernelEvaluator>(
        &mut self,
        kernel_radius: i64,
        contact_manager: &mut ContactManager,
        fluids: &Vec<Fluid>,
        boundaries: &Vec<Boundary>,
        evaluator: &mut E,
    )
        requires
            models_wf(fluids@, boundaries@),
        ensures
            *final(self) == *old(self),
            crate::model::contacts_wf(*final(contact_manager), fluids@, boundaries@),
    {
        evaluator.evaluate(kernel_radius, contact_manager, fluids, boundaries);
    }
}

} // verus!

verus! {

/// One full iteration of the constant-density loop, at iteration index
/// `i`, relating the state before to the state after: the evaluation
/// wrote every predicted density from the incoming corrections, the
/// resulting error was not yet acceptable (or the minimum iteration
/// count not yet reached, so no break happened), and the pressure sweep
/// then rewrote the corrections and deposited the boundary forces.
pub open spec fn pressure_iter_rel(
    s_pre: DFSPHSolver,
    b_pre: Seq<Boundary>,
    s_post: DFSPHSolver,
    b_post: Seq<Boundary>,
    ff: Seq<ParticlesContacts>,
    fb: Seq<ParticlesContacts>,
    fluids: Seq<Fluid>,
    dt: int,
    i: int,
) -> bool {
    let inv_dt = fx_div_s(SCALE as int, dt);
    &&& s_post.same_config(&s_pre)
    &&& s_post.alphas == s_pre.alphas
    &&& s_post.densities == s_pre.densities
    &&& s_post.divergences == s_pre.divergences
    &&& boundaries_except_forces(b_pre, b_post)
    &&& forall|a: int, y: int|
        0 <= a < fluids.len() && 0 <= y < fluid_n(fluids[a]) ==> #[trigger] pred_done(
            s_post.predicted_densities@,
            ff,
            fb,
            fluids,
            b_pre,
            s_pre.velocity_changes@,
            s_pre.densities@,
            dt,
            a,
            y,
        )
    &&& !(perr_max(ff, fb, fluids, b_pre, s_pre.velocity_changes@, s_pre.densities@, dt, fluids.len() as int)
        <= s_pre.max_density_error as int && i >= s_pre.min_pressure_iter)
    &&& forall|a: int, y: int|
        0 <= a < fluids.len() && 0 <= y < fluid_n(fluids[a]) ==> #[trigger] dvp_done(
            s_post.velocity_changes@,
            s_pre.velocity_changes@,
            ff,
            fb,
            s_post.predicted_densities@,
            s_pre.alphas@,
            fluids,
            b_pre,
            inv_dt,
            a,
            y,
        )
    &&& forces_view(b_post) == depp_all(
        forces_view(b_pre),
        fb,
        s_post.predicted_densities@,
        s_pre.alphas@,
        fluids,
        b_pre,
        inv_dt,
        fluids.len() as int,
    )
}

/// A trace of the constant-density loop: state `i+1` arises from state
/// `i` by one full iteration (evaluation, failed tolerance check at
/// index `i`, sweep).
pub open spec fn pressure_trace_ok(
    ts: Seq<DFSPHSolver>,
    tb: Seq<Seq<Boundary>>,
    ff: Seq<ParticlesContacts>,
    fb: Seq<ParticlesContacts>,
    fluids: Seq<Fluid>,
    dt: int,
) -> bool {
    &&& ts.len() == tb.len()
    &&& ts.len() >= 1
    &&& forall|i: int|
        0 <= i < ts.len() - 1 ==> #[trigger] pressure_iter_rel(
            ts[i],
            tb[i],
            ts[i + 1],
            tb[i + 1],
            ff,
            fb,
            fluids,
            dt,
            i,
        )
}

/// One full iteration of the divergence loop, at iteration index `i`:
/// the evaluation wrote every clamped divergence from the incoming
/// corrections, the error was not yet within the per-time tolerance (or
/// the minimum count not reached), and the divergence sweep rewrote the
/// corrections and deposited the boundary forces.
pub open spec fn divergence_iter_rel(
    s_pre: DFSPHSolver,
    b_pre: Seq<Boundary>,
    s_post: DFSPHSolver,
    b_post: Seq<Boundary>,
    ff: Seq<ParticlesContacts>,
    fb: Seq<ParticlesContacts>,
    fluids: Seq<Fluid>,
    dt: int,
    i: int,
) -> bool {
    let inv_dt = fx_div_s(SCALE as int, dt);
    let min_nb = s_pre.min_neighbors_for_divergence_solve as int;
    let tol = fx_mul_s(fx_mul_s(s_pre.max_divergence_error as int, inv_dt), PERCENT as int);
    &&& s_post.same_config(&s_pre)
    &&& s_post.alphas == s_pre.alphas
    &&& s_post.densities == s_pre.densities
    &&& s_post.predicted_densities == s_pre.predicted_densities
    &&& boundaries_except_forces(b_pre, b_post)
    &&& forall|a: int, y: int|
        0 <= a < fluids.len() && 0 <= y < fluid_n(fluids[a]) ==> #[trigger] div_done(
            s_post.divergences@,
            ff,
            fb,
            fluids,
            b_pre,
            s_pre.velocity_changes@,
            min_nb,
            a,
            y,
        )
    &&& !(derr_max(ff, fb, fluids, b_pre, s_pre.velocity_changes@, min_nb, fluids.len() as int)
        <= tol && i >= s_pre.min_divergence_iter)
    &&& forall|a: int, y: int|
        0 <= a < fluids.len() && 0 <= y < fluid_n(fluids[a]) ==> #[trigger] dvd_done(
            s_post.velocity_changes@,
            s_pre.velocity_changes@,
            ff,
            fb,
            s_post.divergences@,
            s_pre.alphas@,
            fluids,
            b_pre,
            a,
            y,
        )
    &&& forces_view(b_post) == depd_all(
        forces_view(b_pre),
        fb,
        s_post.divergences@,
        s_pre.alphas@,
        fluids,
        b_pre,
        inv_dt,
        fluids.len() as int,
    )
}

/// A trace of the divergence loop: state `i+1` arises from state `i`
/// by one full iteration.
pub open spec fn divergence_trace_ok(
    ts: Seq<DFSPHSolver>,
    tb: Seq<Seq<Boundary>>,
    ff: Seq<ParticlesContacts>,
    fb: Seq<ParticlesContacts>,
    fluids: Seq<Fluid>,
    dt: int,
) -> bool {
    &&& ts.len() == tb.len()
    &&& ts.len() >= 1
    &&& forall|i: int|
        0 <= i < ts.len() - 1 ==> #[trigger] divergence_iter_rel(
            ts[i],
            tb[i],
            ts[i + 1],
            tb[i + 1],
            ff,
            fb,
            fluids,
            dt,
            i,
        )
}

} // verus!

verus! {

/// The whole step pipeline, witnessed by its intermediate states: the
/// solver after the alpha phase (`s_a`), the divergence-loop trace
/// (`tsd`/`tbd`, `kd` sweeps), and — when no non-pressure contributors
/// ran and the step succeeded — the pre-pressure state (`s_p`, whose
/// corrections are exactly gravity and the old accelerations times the
/// advanced step size), the fluids as the pressure loop saw them
/// (`fl_mid`), and the pressure-loop trace (`tsp`/`tbp`, `kp` sweeps).
/// The committed velocities are the old ones plus the divergence-loop
/// result, whatever the contributors did.
pub open spec fn step_pipeline(
    s0: DFSPHSolver,
    b0: Seq<Boundary>,
    fl0: Seq<Fluid>,
    s_final: DFSPHSolver,
    b_final: Seq<Boundary>,
    fl_final: Seq<Fluid>,
    ff: Seq<ParticlesContacts>,
    fb: Seq<ParticlesContacts>,
    gravity: V2,
    dt_pre: int,
    dt_post: int,
    no_contrib: bool,
    s_a: DFSPHSolver,
    tsd: Seq<DFSPHSolver>,
    tbd: Seq<Seq<Boundary>>,
    kd: usize,
    s_p: DFSPHSolver,
    fl_mid: Seq<Fluid>,
    tsp: Seq<DFSPHSolver>,
    tbp: Seq<Seq<Boundary>>,
    kp: usize,
) -> bool {
    &&& s_a.same_config(&s0)
    &&& s_a.densities == s0.densities
    &&& s_a.predicted_densities == s0.predicted_densities
    &&& s_a.divergences == s0.divergences
    &&& s_a.velocity_changes == s0.velocity_changes
    &&& forall|a: int, i: int|
        0 <= a < fl0.len() && 0 <= i < fluid_n(fl0[a]) ==> #[trigger] alpha_done(
            s_a.alphas@,
            ff,
            fb,
            fl0,
            b0,
            a,
            i,
        )
    &&& divergence_trace_ok(tsd, tbd, ff, fb, fl0, dt_pre)
    &&& tsd.len() == kd + 1
    &&& tsd[0] == s_a
    &&& tbd[0] == b0
    &&& kd <= s_a.max_divergence_iter
    &&& (kd < s_a.max_divergence_iter ==> kd >= s_a.min_divergence_iter && derr_max(
        ff,
        fb,
        fl0,
        tbd[kd as int],
        tsd[kd as int].velocity_changes@,
        s_a.min_neighbors_for_divergence_solve as int,
        fl0.len() as int,
    ) <= fx_mul_s(
        fx_mul_s(s_a.max_divergence_error as int, fx_div_s(SCALE as int, dt_pre)),
        PERCENT as int,
    ))
    &&& forall|a: int, i: int|
        0 <= a < fl_final.len() && 0 <= i < fluid_n(fl_final[a])
            ==> (#[trigger] fl_final[a].velocities@[i])@ == v2_add(
            fl0[a].velocities@[i]@,
            vbuf(tsd[kd as int].velocity_changes@, a, i),
        )
    &&& no_contrib ==> {
        &&& s_p.same_config(&s0)
        &&& s_p.alphas == s_a.alphas
        &&& s_p.densities == s0.densities
        &&& forall|a: int, i: int|
            0 <= a < fl0.len() && 0 <= i < fluid_n(fl0[a]) ==> #[trigger] vbuf(
                s_p.velocity_changes@,
                a,
                i,
            ) == v2_add(v2_zero(), v2_scale(v2_add(fl0[a].accelerations@[i]@, gravity), dt_post))
        &&& fl_mid.len() == fl0.len()
        &&& forall|a: int|
            0 <= a < fl0.len() ==> {
                &&& (#[trigger] fl_mid[a]).velocities == fl_final[a].velocities
                &&& fl_mid[a].masses == fl0[a].masses
                &&& fl_mid[a].density0 == fl0[a].density0
                &&& fluid_n(fl_mid[a]) == fluid_n(fl0[a])
            }
        &&& pressure_trace_ok(tsp, tbp, ff, fb, fl_mid, dt_post)
        &&& tsp.len() == kp + 1
        &&& tsp[0] == s_p
        &&& tbp[0] == tbd[kd as int]
        &&& kp <= s_p.max_pressure_iter
        &&& tsp[kp as int].velocity_changes == s_final.velocity_changes
        &&& tbp[kp as int] == b_final
        &&& (kp < s_p.max_pressure_iter ==> kp >= s_p.min_pressure_iter && perr_max(
            ff,
            fb,
            fl_mid,
            b_final,
            s_final.velocity_changes@,
            s0.densities@,
            dt_post,
            fl_mid.len() as int,
        ) <= s_p.max_density_error as int)
    }
}

} // verus!
