use dfsph::fixed::{
    fx_add, fx_div, fx_div_count, fx_max, fx_mul, fx_neg, fx_recip_up, fx_sub, SCALE,
};
use dfsph::model::{filter_from_mask, resize_vec, Counters, Fluid, TimestepManager};
use dfsph::vect::Vect;

fn fx(units: i64) -> i64 {
    units * SCALE
}

#[test]
fn fixed_point_basics() {
    assert_eq!(fx_add(fx(2), fx(3)), fx(5));
    assert_eq!(fx_sub(fx(2), fx(3)), fx(-1));
    assert_eq!(fx_mul(fx(2), fx(3)), fx(6));
    assert_eq!(fx_div(fx(6), fx(3)), fx(2));
    assert_eq!(fx_neg(fx(7)), fx(-7));
    assert_eq!(fx_max(fx(-1), 0), 0);
    assert_eq!(fx_max(fx(1), 0), fx(1));
}

#[test]
fn fixed_point_truncates_toward_zero() {
    // 1/3 in fixed point: 333_333 with the remainder dropped.
    assert_eq!(fx_div(fx(1), fx(3)), 333_333);
    assert_eq!(fx_div(fx(-1), fx(3)), -333_333);
    assert_eq!(fx_mul(500_000, 500_000), 250_000);
    assert_eq!(fx_mul(-500_000, 500_000), -250_000);
}

#[test]
fn fixed_point_saturates_symmetrically() {
    let top = i64::MAX;
    assert_eq!(fx_add(top, top), top);
    assert_eq!(fx_add(-top, -top), -top);
    assert_eq!(fx_neg(i64::MIN), top);
    assert_eq!(fx_mul(top, fx(2)), top);
    assert_eq!(fx_mul(top, fx(-2)), -top);
}

#[test]
fn reciprocal_rounds_up_and_stays_positive() {
    // 1 / 4.0
    assert_eq!(fx_recip_up(fx(4)), 250_000);
    // 1 / 3.0 rounds away from zero.
    assert_eq!(fx_recip_up(fx(3)), 333_334);
    // A huge kernel sum still yields a strictly positive volume.
    assert!(fx_recip_up(i64::MAX) > 0);
}

#[test]
fn mean_division_by_count() {
    assert_eq!(fx_div_count(fx(10), 4), 2_500_000);
    assert_eq!(fx_div_count(0, 7), 0);
}

#[test]
fn vector_ops() {
    let a = Vect { x: fx(1), y: fx(2) };
    let b = Vect { x: fx(3), y: fx(-1) };
    assert_eq!(a.add(b), Vect { x: fx(4), y: fx(1) });
    assert_eq!(a.sub(b), Vect { x: fx(-2), y: fx(3) });
    assert_eq!(a.scale(fx(2)), Vect { x: fx(2), y: fx(4) });
    assert_eq!(a.dot(b), fx(1));
    assert_eq!(b.norm_squared(), fx(10));
    assert_eq!(a.neg(), Vect { x: fx(-1), y: fx(-2) });
    assert_eq!(Vect::zero(), Vect { x: 0, y: 0 });
}

#[test]
fn filter_from_mask_keeps_survivors_in_order() {
    let mask = vec![false, true, false, true, false];
    let mut v: Vec<i64> = vec![10, 20, 30, 40, 50];
    filter_from_mask(&mask, &mut v);
    assert_eq!(v, vec![10, 30, 50]);
}

#[test]
fn resize_vec_truncates_and_pads() {
    let mut v: Vec<i64> = vec![1, 2, 3];
    resize_vec(&mut v, 5, 9);
    assert_eq!(v, vec![1, 2, 3, 9, 9]);
    resize_vec(&mut v, 2, 0);
    assert_eq!(v, vec![1, 2]);
}

#[test]
fn fluid_apply_deletions_compacts_all_arrays() {
    let mut f = Fluid {
        positions: vec![
            Vect { x: 0, y: 0 },
            Vect { x: fx(1), y: 0 },
            Vect { x: fx(2), y: 0 },
        ],
        velocities: vec![
            Vect { x: 1, y: 1 },
            Vect { x: 2, y: 2 },
            Vect { x: 3, y: 3 },
        ],
        accelerations: vec![Vect { x: 0, y: 0 }; 3],
        masses: vec![fx(1), fx(2), fx(3)],
        density0: fx(1),
        deleted: vec![false, true, false],
    };
    f.apply_deletions();
    assert_eq!(f.num_particles(), 2);
    assert_eq!(f.masses, vec![fx(1), fx(3)]);
    assert_eq!(f.velocities[1], Vect { x: 3, y: 3 });
    assert_eq!(f.num_deleted_particles(), 0);
}

#[test]
fn timestep_manager_queues_and_advances() {
    let mut t = TimestepManager::new(fx(1) / 100);
    assert_eq!(t.dt(), 10_000);
    // 1 / 0.01 = 100.0
    assert_eq!(t.inv_dt(), fx(100));
    t.queue_dt(20_000);
    assert_eq!(t.dt(), 10_000);
    t.advance();
    assert_eq!(t.dt(), 20_000);
    t.advance();
    assert_eq!(t.dt(), 20_000);
}

#[test]
fn counters_toggle() {
    let mut c = Counters::new();
    assert!(!c.pressure_resolution_time.running);
    c.pressure_resolution_time.resume();
    assert!(c.pressure_resolution_time.running);
    c.custom.resume();
    c.custom.pause();
    assert!(!c.custom.running);
}
