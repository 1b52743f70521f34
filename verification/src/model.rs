//! Data model shared by the solver phases: fluids, boundaries, contact
//! lists, the time-step holder, timing counters and the error type.
//!
//! Fluids and boundaries are owned by the surrounding simulation; the
//! solver borrows them each step.  Contacts are recomputed each step by an
//! external neighborhood/kernel collaborator and handed in as plain data.

use vstd::prelude::*;

use crate::fixed::{fx_add_s, fx_div, fx_div_s, SCALE};
use crate::vect::{v2_add, v2_zero, V2, Vect};

verus! {

/// Invariant-violation failures; they abort the step.
#[derive(Clone, Copy, PartialEq, Eq, Structural, Debug)]
pub enum SolverError {
    /// A boundary particle's boundary-boundary kernel sum is zero.
    ZeroBoundaryKernelSum,
    /// A fluid particle's kernel-sum density is not strictly positive.
    NonPositiveDensity,
    /// A predicted density is not strictly positive.
    NonPositivePredictedDensity,
}

/// One neighbor relation, with the kernel weight and gradient evaluated
/// at the current positions.  `gradient` points from particle `i` toward
/// particle `j` in the convention that `sum m_j (v_i - v_j) . gradient`
/// is the SPH divergence at `i`.
#[derive(Clone, Copy, PartialEq, Eq, Structural, Debug)]
pub struct Contact {
    pub i_model: usize,
    pub i: usize,
    pub j_model: usize,
    pub j: usize,
    pub weight: i64,
    pub gradient: Vect,
}

/// Per-particle contact lists of one model (one fluid or one boundary).
pub struct ParticlesContacts {
    pub per_particle: Vec<Vec<Contact>>,
}

/// All contact lists for one step.
pub struct ContactManager {
    pub fluid_fluid_contacts: Vec<ParticlesContacts>,
    pub fluid_boundary_contacts: Vec<ParticlesContacts>,
    pub boundary_boundary_contacts: Vec<ParticlesContacts>,
}

/// One fluid phase: per-particle state plus shared rest density.
/// The deletion mask marks particles logically removed since the last
/// buffer initialization.
pub struct Fluid {
    pub positions: Vec<Vect>,
    pub velocities: Vec<Vect>,
    pub accelerations: Vec<Vect>,
    pub masses: Vec<i64>,
    pub density0: i64,
    pub deleted: Vec<bool>,
}

/// One boundary object: particles sampling a static or externally driven
/// surface, with a kernel-sum volume written by the solver and a force
/// accumulator the solver deposits reaction forces into.
pub struct Boundary {
    pub positions: Vec<Vect>,
    pub velocities: Vec<Vect>,
    pub volumes: Vec<i64>,
    pub forces: Vec<Vect>,
}

/// Number of particles of a fluid, as a spec value.
pub open spec fn fluid_n(f: Fluid) -> int {
    f.positions@.len() as int
}

/// Number of particles of a boundary, as a spec value.
pub open spec fn boundary_n(b: Boundary) -> int {
    b.positions@.len() as int
}

/// Internal consistency of one fluid: equal array lengths, positive rest
/// density, non-negative masses.
pub open spec fn fluid_wf(f: Fluid) -> bool {
    &&& f.velocities@.len() == fluid_n(f)
    &&& f.accelerations@.len() == fluid_n(f)
    &&& f.masses@.len() == fluid_n(f)
    &&& f.deleted@.len() == fluid_n(f)
    &&& f.density0 > 0
    &&& forall|i: int| 0 <= i < fluid_n(f) ==> f.masses@[i] >= 0
}

/// Internal consistency of one boundary: equal array lengths.
pub open spec fn boundary_wf(b: Boundary) -> bool {
    &&& b.velocities@.len() == boundary_n(b)
    &&& b.volumes@.len() == boundary_n(b)
    &&& b.forces@.len() == boundary_n(b)
}

/// Every fluid and boundary is internally consistent.
pub open spec fn models_wf(fluids: Seq<Fluid>, boundaries: Seq<Boundary>) -> bool {
    &&& forall|a: int| 0 <= a < fluids.len() ==> fluid_wf(#[trigger] fluids[a])
    &&& forall|b: int| 0 <= b < boundaries.len() ==> boundary_wf(#[trigger] boundaries[b])
}

/// A fluid-fluid contact of particle `(a, i)` is well formed: it names its
/// owner, targets an existing fluid particle, and carries a non-negative
/// kernel weight.
pub open spec fn ff_contact_ok(c: Contact, a: int, i: int, fluids: Seq<Fluid>) -> bool {
    &&& c.i_model == a
    &&& c.i == i
    &&& (c.j_model as int) < fluids.len()
    &&& (c.j as int) < fluid_n(fluids[c.j_model as int])
    &&& c.weight >= 0
}

/// A fluid-boundary contact of particle `(a, i)` is well formed.
pub open spec fn fb_contact_ok(c: Contact, a: int, i: int, boundaries: Seq<Boundary>) -> bool {
    &&& c.i_model == a
    &&& c.i == i
    &&& (c.j_model as int) < boundaries.len()
    &&& (c.j as int) < boundary_n(boundaries[c.j_model as int])
    &&& c.weight >= 0
}

/// A boundary-boundary contact of particle `(b, i)` is well formed.
pub open spec fn bb_contact_ok(c: Contact, b: int, i: int, boundaries: Seq<Boundary>) -> bool {
    &&& c.i_model == b
    &&& c.i == i
    &&& (c.j_model as int) < boundaries.len()
    &&& (c.j as int) < boundary_n(boundaries[c.j_model as int])
    &&& c.weight >= 0
}

/// Fluid-fluid contact lists are consistent with the fluids: one list per
/// particle, every entry well formed.
pub open spec fn ff_wf(pcs: Seq<ParticlesContacts>, fluids: Seq<Fluid>) -> bool {
    &&& pcs.len() == fluids.len()
    &&& forall|a: int|
        0 <= a < fluids.len() ==> (#[trigger] pcs[a]).per_particle@.len() == fluid_n(fluids[a])
    &&& forall|a: int, i: int, k: int|
        0 <= a < fluids.len() && 0 <= i < fluid_n(fluids[a]) && 0 <= k
            < pcs[a].per_particle@[i]@.len() ==> ff_contact_ok(
            #[trigger] pcs[a].per_particle@[i]@[k],
            a,
            i,
            fluids,
        )
}

/// Fluid-boundary contact lists are consistent with the fluids and
/// boundaries.
pub open spec fn fb_wf(
    pcs: Seq<ParticlesContacts>,
    fluids: Seq<Fluid>,
    boundaries: Seq<Boundary>,
) -> bool {
    &&& pcs.len() == fluids.len()
    &&& forall|a: int|
        0 <= a < fluids.len() ==> (#[trigger] pcs[a]).per_particle@.len() == fluid_n(fluids[a])
    &&& forall|a: int, i: int, k: int|
        0 <= a < fluids.len() && 0 <= i < fluid_n(fluids[a]) && 0 <= k
            < pcs[a].per_particle@[i]@.len() ==> fb_contact_ok(
            #[trigger] pcs[a].per_particle@[i]@[k],
            a,
            i,
            boundaries,
        )
}

/// Boundary-boundary contact lists are consistent with the boundaries.
pub open spec fn bb_wf(pcs: Seq<ParticlesContacts>, boundaries: Seq<Boundary>) -> bool {
    &&& pcs.len() == boundaries.len()
    &&& forall|b: int|
        0 <= b < boundaries.len() ==> (#[trigger] pcs[b]).per_particle@.len() == boundary_n(
            boundaries[b],
        )
    &&& forall|b: int, i: int, k: int|
        0 <= b < boundaries.len() && 0 <= i < boundary_n(boundaries[b]) && 0 <= k
            < pcs[b].per_particle@[i]@.len() ==> bb_contact_ok(
            #[trigger] pcs[b].per_particle@[i]@[k],
            b,
            i,
            boundaries,
        )
}

/// The whole contact set is consistent with the fluids and boundaries.
pub open spec fn contacts_wf(
    cm: ContactManager,
    fluids: Seq<Fluid>,
    boundaries: Seq<Boundary>,
) -> bool {
    &&& ff_wf(cm.fluid_fluid_contacts@, fluids)
    &&& fb_wf(cm.fluid_boundary_contacts@, fluids, boundaries)
    &&& bb_wf(cm.boundary_boundary_contacts@, boundaries)
}

/// Force accumulators of all boundaries, as integer pairs.
pub open spec fn forces_view(boundaries: Seq<Boundary>) -> Seq<Seq<V2>> {
    Seq::new(
        boundaries.len(),
        |b: int| Seq::new(boundaries[b].forces@.len(), |j: int| boundaries[b].forces@[j]@),
    )
}

/// Everything of every boundary except the force accumulators.
pub open spec fn boundaries_except_forces(a: Seq<Boundary>, b: Seq<Boundary>) -> bool {
    &&& a.len() == b.len()
    &&& forall|i: int|
        0 <= i < a.len() ==> {
            &&& #[trigger] b[i].positions == a[i].positions
            &&& b[i].velocities == a[i].velocities
            &&& b[i].volumes == a[i].volumes
            &&& b[i].forces@.len() == a[i].forces@.len()
        }
}

impl Boundary {
    /// Deposit a force on boundary particle `j`: the accumulator is a
    /// plain saturating sum, the serial form of the thread-safe sink the
    /// surrounding simulation may substitute.
    pub fn apply_force(&mut self, j: usize, f: Vect)
        requires
            (j as int) < old(self).forces@.len(),
        ensures
            final(self).positions == old(self).positions,
            final(self).velocities == old(self).velocities,
            final(self).volumes == old(self).volumes,
            final(self).forces@.len() == old(self).forces@.len(),
            final(self).forces@[j as int]@ == v2_add(old(self).forces@[j as int]@, f@),
            forall|k: int|
                0 <= k < final(self).forces@.len() && k != j ==> final(self).forces@[k] == old(
                    self,
                ).forces@[k],
    {
        let cur = self.forces[j];
        self.forces.set(j, cur.add(f));
    }
}

/// Holder of the current time-step size.  Selecting the next step size
/// (for example from a CFL condition) is the surrounding simulation's
/// business: it queues a value and `advance` applies it.
pub struct TimestepManager {
    dt: i64,
    next_dt: Option<i64>,
}

impl TimestepManager {
    /// The current step size, as a spec value.
    pub closed spec fn dt_spec(&self) -> int {
        self.dt as int
    }

    /// The queued step size, if one is pending.
    pub closed spec fn next_dt_spec(&self) -> Option<int> {
        match self.next_dt {
            Some(d) => Some(d as int),
            None => None,
        }
    }

    /// The step size is strictly positive.
    pub closed spec fn wf(&self) -> bool {
        self.dt > 0
    }

    /// A manager with a fixed initial step size.
    pub fn new(dt: i64) -> (r: TimestepManager)
        requires
            dt > 0,
        ensures
            r.wf(),
            r.dt_spec() == dt as int,
            r.next_dt_spec() is None,
    {
        TimestepManager { dt, next_dt: None }
    }

    /// The current step size.
    pub fn dt(&self) -> (r: i64)
        ensures
            r as int == self.dt_spec(),
    {
        self.dt
    }

    /// The reciprocal of the current step size.
    pub fn inv_dt(&self) -> (r: i64)
        requires
            self.wf(),
        ensures
            r as int == fx_div_s(SCALE as int, self.dt_spec()),
            r >= 0,
    {
        proof {
            crate::fixed::lemma_tdiv_bounds(SCALE as int * SCALE as int, self.dt_spec());
        }
        fx_div(SCALE, self.dt)
    }

    /// Queue the step size the next `advance` switches to.
    pub fn queue_dt(&mut self, dt: i64)
        requires
            dt > 0,
        ensures
            final(self).wf() == old(self).wf(),
            final(self).dt_spec() == old(self).dt_spec(),
            final(self).next_dt_spec() == Some(dt as int),
    {
        self.next_dt = Some(dt);
    }

    /// Switch to the queued step size, if any.
    pub fn advance(&mut self)
        requires
            old(self).wf(),
        ensures
            final(self).wf(),
            final(self).next_dt_spec() is None,
            final(self).dt_spec() == match old(self).next_dt_spec() {
                Some(d) => if d > 0 {
                    d
                } else {
                    old(self).dt_spec()
                },
                None => old(self).dt_spec(),
            },
    {
        match self.next_dt {
            Some(d) => {
                if d > 0 {
                    self.dt = d;
                }
                self.next_dt = None;
            },
            None => {},
        }
    }
}

/// One advisory timing region; a no-op stand-in for a wall-clock timer.
pub struct Timer {
    pub running: bool,
}

impl Timer {
    /// Mark the region as entered.
    pub fn resume(&mut self)
        ensures
            final(self).running,
    {
        self.running = true;
    }

    /// Mark the region as left.
    pub fn pause(&mut self)
        ensures
            !final(self).running,
    {
        self.running = false;
    }
}

/// The two advisory timing regions the solver drives.
pub struct Counters {
    pub pressure_resolution_time: Timer,
    pub custom: Timer,
}

impl Counters {
    /// Both regions stopped.
    pub fn new() -> (r: Counters)
        ensures
            !r.pressure_resolution_time.running,
            !r.custom.running,
    {
        Counters {
            pressure_resolution_time: Timer { running: false },
            custom: Timer { running: false },
        }
    }
}

/// Number of `true` entries among the first `k` of a mask.
pub open spec fn count_true_upto(mask: Seq<bool>, k: int) -> int
    decreases k,
{
    if k <= 0 {
        0
    } else {
        count_true_upto(mask, k - 1) + if mask[k - 1] {
            1int
        } else {
            0int
        }
    }
}

/// The entries among the first `k` whose mask bit is `false`, in order.
pub open spec fn filter_mask_upto<T>(s: Seq<T>, mask: Seq<bool>, k: int) -> Seq<T>
    decreases k,
{
    if k <= 0 {
        Seq::empty()
    } else {
        let pre = filter_mask_upto(s, mask, k - 1);
        if mask[k - 1] {
            pre
        } else {
            pre.push(s[k - 1])
        }
    }
}

/// The entries whose mask bit is `false`, in order: the survivors of a
/// deletion pass.
pub open spec fn filter_mask<T>(s: Seq<T>, mask: Seq<bool>) -> Seq<T> {
    filter_mask_upto(s, mask, s.len() as int)
}

/// Compaction keeps exactly the unmasked entries.
pub proof fn lemma_filter_mask_len<T>(s: Seq<T>, mask: Seq<bool>, k: int)
    requires
        0 <= k <= s.len(),
    ensures
        filter_mask_upto(s, mask, k).len() == k - count_true_upto(mask, k),
        count_true_upto(mask, k) >= 0,
    decreases k,
{
    if k > 0 {
        lemma_filter_mask_len(s, mask, k - 1);
    }
}

/// Remove from `v` every entry whose mask bit is set, keeping the rest in
/// order.  This is the compaction the solver applies to its buffers after
/// the fluid deleted particles.
pub fn filter_from_mask<T: Copy>(mask: &Vec<bool>, v: &mut Vec<T>)
    requires
        mask@.len() == old(v)@.len(),
    ensures
        final(v)@ == filter_mask(old(v)@, mask@),
{
    let n = v.len();
    let mut out: Vec<T> = Vec::new();
    let mut i: usize = 0;
    while i < n
        invariant
            n == v@.len(),
            mask@.len() == n,
            0 <= i <= n,
            out@ == filter_mask_upto(v@, mask@, i as int),
        decreases n - i,
    {
        if !mask[i] {
            out.push(v[i]);
        }
        i += 1;
    }
    *v = out;
}

/// The number of `true` entries of a mask.
pub fn count_deleted(mask: &Vec<bool>) -> (r: usize)
    ensures
        r as int == count_true_upto(mask@, mask@.len() as int),
{
    let n = mask.len();
    let mut count: usize = 0;
    let mut i: usize = 0;
    while i < n
        invariant
            n == mask@.len(),
            0 <= i <= n,
            count as int == count_true_upto(mask@, i as int),
            count <= i,
        decreases n - i,
    {
        if mask[i] {
            count += 1;
        }
        i += 1;
    }
    count
}

/// Truncate or zero-pad a vector to length `n`.
pub open spec fn resize_seq<T>(s: Seq<T>, n: int, fill: T) -> Seq<T> {
    if n <= s.len() {
        s.subrange(0, n)
    } else {
        s + Seq::new((n - s.len()) as nat, |i: int| fill)
    }
}

/// Resize a vector to length `n`, padding with `fill`.
pub fn resize_vec<T: Copy>(v: &mut Vec<T>, n: usize, fill: T)
    ensures
        final(v)@ == resize_seq(old(v)@, n as int, fill),
{
    if n <= v.len() {
        v.truncate(n);
        proof {
            assert(v@ =~= resize_seq(old(v)@, n as int, fill));
        }
    } else {
        proof {
            assert(old(v)@.subrange(0, old(v)@.len() as int) =~= old(v)@);
        }
        while v.len() < n
            invariant
                v@.len() >= old(v)@.len(),
                v@.len() <= n || v@.len() == old(v)@.len(),
                v@.subrange(0, old(v)@.len() as int) == old(v)@,
                forall|i: int| old(v)@.len() <= i < v@.len() ==> v@[i] == fill,
            decreases n - v.len(),
        {
            let ghost prev = v@;
            v.push(fill);
            proof {
                assert(v@.subrange(0, old(v)@.len() as int) =~= prev.subrange(
                    0,
                    old(v)@.len() as int,
                ));
            }
        }
        proof {
            assert(v@ =~= resize_seq(old(v)@, n as int, fill));
        }
    }
}

impl Fluid {
    /// Number of particles, deleted ones still included.
    pub fn num_particles(&self) -> (r: usize)
        ensures
            r as int == fluid_n(*self),
    {
        self.positions.len()
    }

    /// Number of particles marked deleted.
    pub fn num_deleted_particles(&self) -> (r: usize)
        requires
            fluid_wf(*self),
        ensures
            r as int == count_true_upto(self.deleted@, self.deleted@.len() as int),
    {
        count_deleted(&self.deleted)
    }

    /// Mass of particle `i`.
    pub fn particle_mass(&self, i: usize) -> (r: i64)
        requires
            fluid_wf(*self),
            (i as int) < fluid_n(*self),
        ensures
            r == self.masses@[i as int],
    {
        self.masses[i]
    }

    /// Drop every particle marked deleted, in order, and clear the mask.
    pub fn apply_deletions(&mut self)
        requires
            fluid_wf(*old(self)),
        ensures
            fluid_wf(*final(self)),
            final(self).positions@ == filter_mask(old(self).positions@, old(self).deleted@),
            final(self).velocities@ == filter_mask(old(self).velocities@, old(self).deleted@),
            final(self).accelerations@ == filter_mask(
                old(self).accelerations@,
                old(self).deleted@,
            ),
            final(self).masses@ == filter_mask(old(self).masses@, old(self).deleted@),
            final(self).density0 == old(self).density0,
            forall|i: int| 0 <= i < final(self).deleted@.len() ==> !final(self).deleted@[i],
    {
        let ghost mask = self.deleted@;
        let ghost n = self.deleted@.len() as int;
        let mask_copy = clone_mask(&self.deleted);
        filter_from_mask(&mask_copy, &mut self.positions);
        filter_from_mask(&mask_copy, &mut self.velocities);
        filter_from_mask(&mask_copy, &mut self.accelerations);
        filter_from_mask(&mask_copy, &mut self.masses);
        proof {
            lemma_filter_mask_len(old(self).positions@, mask, n);
            lemma_filter_mask_len(old(self).velocities@, mask, n);
            lemma_filter_mask_len(old(self).accelerations@, mask, n);
            lemma_filter_mask_len(old(self).masses@, mask, n);
        }
        let live = self.positions.len();
        self.deleted = falses(live);
        proof {
            let f = *self;
            assert(forall|i: int| 0 <= i < fluid_n(f) ==> f.masses@[i] >= 0) by {
                lemma_filter_mask_entries(old(self).masses@, mask, n);
            }
        }
    }
}

/// A mask of `n` cleared bits.
pub fn falses(n: usize) -> (r: Vec<bool>)
    ensures
        r@.len() == n,
        forall|i: int| 0 <= i < n ==> !r@[i],
{
    let mut v: Vec<bool> = Vec::new();
    while v.len() < n
        invariant
            v@.len() <= n,
            forall|i: int| 0 <= i < v@.len() ==> !v@[i],
        decreases n - v.len(),
    {
        v.push(false);
    }
    v
}

fn clone_mask(mask: &Vec<bool>) -> (r: Vec<bool>)
    ensures
        r@ == mask@,
{
    let n = mask.len();
    let mut v: Vec<bool> = Vec::new();
    let mut i: usize = 0;
    while i < n
        invariant
            n == mask@.len(),
            0 <= i <= n,
            v@ == mask@.subrange(0, i as int),
        decreases n - i,
    {
        v.push(mask[i]);
        proof {
            assert(v@ =~= mask@.subrange(0, i as int + 1));
        }
        i += 1;
    }
    proof {
        assert(v@ =~= mask@);
    }
    v
}

/// Every surviving entry of a compaction was an entry of the input.
pub proof fn lemma_filter_mask_entries<T>(s: Seq<T>, mask: Seq<bool>, k: int)
    requires
        0 <= k <= s.len(),
    ensures
        forall|i: int|
            0 <= i < filter_mask_upto(s, mask, k).len() ==> exists|j: int|
                0 <= j < k && #[trigger] filter_mask_upto(s, mask, k)[i] == s[j],
    decreases k,
{
    if k > 0 {
        lemma_filter_mask_entries(s, mask, k - 1);
        let cur = filter_mask_upto(s, mask, k);
        let pre = filter_mask_upto(s, mask, k - 1);
        assert forall|i: int| 0 <= i < cur.len() implies exists|j: int|
            0 <= j < k && #[trigger] cur[i] == s[j] by {
            if i < pre.len() {
                assert(cur[i] == pre[i]);
                let j = choose|j: int| 0 <= j < k - 1 && #[trigger] pre[i] == s[j];
                assert(0 <= j < k && cur[i] == s[j]);
            } else {
                assert(!mask[k - 1] && cur[i] == s[k - 1]);
            }
        }
    }
}

} // verus!
