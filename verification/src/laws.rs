//! Laws that relate several solver phases, stated over the same spec
//! folds the phase contracts use and proved for every input they admit.

use vstd::prelude::*;

use crate::fixed::{fx_mul_s, fx_neg_s, fx_ok, lemma_sat_neg, max_s, sat};
use crate::model::{Boundary, Contact, Fluid, ParticlesContacts};
use crate::solver::{
    db_delta, db_force, dep, depd_cs, depp_cs, dvd_ff, dvd_spec, dvp_fb, dvp_ff, dvp_spec, ki_d,
    ki_p, pb_delta, pb_force, plist, sbuf, vbuf,
};
use crate::vect::{
    lemma_v2_neg_props, v2_add, v2_neg, v2_ok, v2_scale, v2_sub, v2_zero, V2, Vect,
};

verus! {

/// Force reciprocity.  Every boundary force the pressure sweep deposits
/// is the very velocity contribution taken from the fluid particle,
/// scaled by the particle's mass over the time step: contact `k`
/// subtracts `pb_delta` from the correction and deposits
/// `pb_delta` scaled by `inv_dt * m_i` on the boundary slot it names.
pub proof fn lemma_pressure_force_reciprocity(
    acc: V2,
    fv: Seq<Seq<V2>>,
    cs: Seq<Contact>,
    bds: Seq<Boundary>,
    rho0: int,
    inv_dt: int,
    ki: int,
    mi: int,
    k: int,
)
    requires
        0 < k <= cs.len(),
    ensures
        ({
            let c = cs[k - 1];
            let vol = bds[c.j_model as int].volumes@[c.j as int] as int;
            let delta = pb_delta(c, ki, vol, rho0, inv_dt);
            &&& dvp_fb(acc, cs, bds, rho0, inv_dt, ki, k) == v2_sub(
                dvp_fb(acc, cs, bds, rho0, inv_dt, ki, k - 1),
                delta,
            )
            &&& depp_cs(fv, cs, bds, rho0, inv_dt, ki, mi, k) == dep(
                depp_cs(fv, cs, bds, rho0, inv_dt, ki, mi, k - 1),
                c.j_model as int,
                c.j as int,
                v2_scale(delta, fx_mul_s(inv_dt, mi)),
            )
            &&& pb_force(c, ki, vol, rho0, inv_dt, mi) == v2_scale(delta, fx_mul_s(inv_dt, mi))
        }),
{
}

/// The divergence sweep deposits the same contribution it adds to the
/// correction, scaled by minus the particle's mass over the time step.
pub proof fn lemma_divergence_force_reciprocity(
    fv: Seq<Seq<V2>>,
    cs: Seq<Contact>,
    bds: Seq<Boundary>,
    rho0: int,
    inv_dt: int,
    ki: int,
    mi: int,
    k: int,
)
    requires
        0 < k <= cs.len(),
    ensures
        ({
            let c = cs[k - 1];
            let vol = bds[c.j_model as int].volumes@[c.j as int] as int;
            let delta = db_delta(c, ki, vol, rho0);
            &&& depd_cs(fv, cs, bds, rho0, inv_dt, ki, mi, k) == dep(
                depd_cs(fv, cs, bds, rho0, inv_dt, ki, mi, k - 1),
                c.j_model as int,
                c.j as int,
                v2_scale(delta, fx_mul_s(fx_neg_s(inv_dt), mi)),
            )
            &&& db_force(c, ki, vol, rho0, inv_dt, mi) == v2_scale(
                delta,
                fx_mul_s(fx_neg_s(inv_dt), mi),
            )
        }),
{
}

/// A clamped scalar is representable.
proof fn lemma_sat_ok(x: int)
    ensures
        fx_ok(sat(x)),
{
}

/// A scaled vector is representable, component by component.
proof fn lemma_scale_ok(g: V2, s: int)
    ensures
        v2_ok(v2_scale(g, s)),
{
}

/// Symmetry of the pressure sweep.  For a mirrored two-particle fluid
/// with no boundary neighbors, equal masses, equal predicted densities
/// and stiffness, opposite kernel gradients, and no prior correction,
/// the two velocity corrections are exact opposites.
pub proof fn lemma_pressure_symmetry(
    dv0: Seq<Vec<Vect>>,
    ff: Seq<ParticlesContacts>,
    fb: Seq<ParticlesContacts>,
    pred: Seq<Vec<i64>>,
    alph: Seq<Vec<i64>>,
    fluids: Seq<Fluid>,
    bds: Seq<Boundary>,
    inv_dt: int,
)
    requires
        fluids.len() == 1,
        crate::model::fluid_n(fluids[0]) == 2,
        fluids[0].masses@[0] == fluids[0].masses@[1],
        plist(ff, 0, 0).len() == 1,
        plist(ff, 0, 1).len() == 1,
        plist(ff, 0, 0)[0].j_model == 0usize && plist(ff, 0, 0)[0].j == 1usize,
        plist(ff, 0, 1)[0].j_model == 0usize && plist(ff, 0, 1)[0].j == 0usize,
        plist(ff, 0, 1)[0].gradient@ == v2_neg(plist(ff, 0, 0)[0].gradient@),
        v2_ok(plist(ff, 0, 0)[0].gradient@),
        plist(fb, 0, 0).len() == 0,
        plist(fb, 0, 1).len() == 0,
        sbuf(pred, 0, 0) == sbuf(pred, 0, 1),
        sbuf(alph, 0, 0) == sbuf(alph, 0, 1),
        vbuf(dv0, 0, 0) == v2_zero(),
        vbuf(dv0, 0, 1) == v2_zero(),
    ensures
        dvp_spec(dv0, ff, fb, pred, alph, fluids, bds, inv_dt, 0, 1) == v2_neg(
            dvp_spec(dv0, ff, fb, pred, alph, fluids, bds, inv_dt, 0, 0),
        ),
{
    let c0 = plist(ff, 0, 0)[0];
    let g = c0.gradient@;
    let ki = ki_p(pred, alph, fluids, 0, 0);
    assert(ki_p(pred, alph, fluids, 0, 1) == ki);
    let kij = crate::fixed::fx_add_s(max_s(ki, 0), max_s(ki, 0));
    let m = fluids[0].masses@[1] as int;
    let s = fx_mul_s(fx_mul_s(kij, m), inv_dt);
    reveal_with_fuel(dvp_ff, 2);
    let r0 = dvp_ff(v2_zero(), plist(ff, 0, 0), pred, alph, fluids, inv_dt, ki, 1);
    let r1 = dvp_ff(v2_zero(), plist(ff, 0, 1), pred, alph, fluids, inv_dt, ki, 1);
    assert(dvp_ff(v2_zero(), plist(ff, 0, 0), pred, alph, fluids, inv_dt, ki, 0) == v2_zero());
    assert(dvp_ff(v2_zero(), plist(ff, 0, 1), pred, alph, fluids, inv_dt, ki, 0) == v2_zero());
    lemma_scale_ok(g, s);
    lemma_v2_neg_props(g, g, s);
    lemma_v2_neg_props(v2_scale(g, s), v2_scale(g, s), s);
    if kij > 0 {
        assert(r0 == v2_sub(v2_zero(), v2_scale(g, s)));
        assert(r1 == v2_sub(v2_zero(), v2_scale(v2_neg(g), s)));
        assert(v2_sub(v2_zero(), v2_scale(g, s)) == v2_neg(v2_scale(g, s))) by {
            lemma_sat_neg(v2_scale(g, s).x);
            lemma_sat_neg(v2_scale(g, s).y);
        }
        assert(v2_scale(v2_neg(g), s) == v2_neg(v2_scale(g, s)));
        assert(v2_sub(v2_zero(), v2_neg(v2_scale(g, s))) == v2_scale(g, s)) by {
            lemma_sat_neg(v2_neg(v2_scale(g, s)).x);
            lemma_sat_neg(v2_neg(v2_scale(g, s)).y);
            lemma_sat_neg(-v2_scale(g, s).x);
            lemma_sat_neg(-v2_scale(g, s).y);
        }
        assert(v2_neg(v2_neg(v2_scale(g, s))) == v2_scale(g, s));
        assert(r1 == v2_neg(r0));
    } else {
        assert(r0 == v2_zero());
        assert(r1 == v2_zero());
        assert(v2_neg(v2_zero()) == v2_zero());
    }
}

/// Symmetry of the divergence sweep, under the same mirrored
/// two-particle configuration with equal divergences.
pub proof fn lemma_divergence_symmetry(
    dv0: Seq<Vec<Vect>>,
    ff: Seq<ParticlesContacts>,
    fb: Seq<ParticlesContacts>,
    divs: Seq<Vec<i64>>,
    alph: Seq<Vec<i64>>,
    fluids: Seq<Fluid>,
    bds: Seq<Boundary>,
)
    requires
        fluids.len() == 1,
        crate::model::fluid_n(fluids[0]) == 2,
        fluids[0].masses@[0] == fluids[0].masses@[1],
        plist(ff, 0, 0).len() == 1,
        plist(ff, 0, 1).len() == 1,
        plist(ff, 0, 0)[0].j_model == 0usize && plist(ff, 0, 0)[0].j == 1usize,
        plist(ff, 0, 1)[0].j_model == 0usize && plist(ff, 0, 1)[0].j == 0usize,
        plist(ff, 0, 1)[0].gradient@ == v2_neg(plist(ff, 0, 0)[0].gradient@),
        v2_ok(plist(ff, 0, 0)[0].gradient@),
        plist(fb, 0, 0).len() == 0,
        plist(fb, 0, 1).len() == 0,
        sbuf(divs, 0, 0) == sbuf(divs, 0, 1),
        sbuf(alph, 0, 0) == sbuf(alph, 0, 1),
        vbuf(dv0, 0, 0) == v2_zero(),
        vbuf(dv0, 0, 1) == v2_zero(),
    ensures
        dvd_spec(dv0, ff, fb, divs, alph, fluids, bds, 0, 1) == v2_neg(
            dvd_spec(dv0, ff, fb, divs, alph, fluids, bds, 0, 0),
        ),
{
    let c0 = plist(ff, 0, 0)[0];
    let g = c0.gradient@;
    let ki = ki_d(divs, alph, 0, 0);
    assert(ki_d(divs, alph, 0, 1) == ki);
    let m = fluids[0].masses@[1] as int;
    let coeff = fx_mul_s(fx_neg_s(crate::fixed::fx_add_s(ki, ki)), m);
    reveal_with_fuel(dvd_ff, 2);
    let r0 = dvd_ff(v2_zero(), plist(ff, 0, 0), divs, alph, fluids, ki, 1);
    let r1 = dvd_ff(v2_zero(), plist(ff, 0, 1), divs, alph, fluids, ki, 1);
    assert(dvd_ff(v2_zero(), plist(ff, 0, 0), divs, alph, fluids, ki, 0) == v2_zero());
    assert(dvd_ff(v2_zero(), plist(ff, 0, 1), divs, alph, fluids, ki, 0) == v2_zero());
    lemma_scale_ok(g, coeff);
    lemma_v2_neg_props(g, g, coeff);
    assert(r0 == v2_add(v2_zero(), v2_scale(g, coeff)));
    assert(r1 == v2_add(v2_zero(), v2_scale(v2_neg(g), coeff)));
    assert(v2_scale(v2_neg(g), coeff) == v2_neg(v2_scale(g, coeff)));
    let v = v2_scale(g, coeff);
    assert(v2_add(v2_zero(), v) == v);
    assert(v2_add(v2_zero(), v2_neg(v)) == v2_neg(v)) by {
        lemma_sat_neg(v.x);
        lemma_sat_neg(v.y);
    }
    assert(r1 == v2_neg(r0));
}

} // verus!
