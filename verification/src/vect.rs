//! Planar vectors over the fixed-point scalar.
//!
//! The solver works in two dimensions; a vector is a pair of fixed-point
//! components with addition, subtraction, scalar multiplication, dot
//! product and squared norm, all saturating.

use vstd::prelude::*;

use crate::fixed::{
    fx_add, fx_add_s, fx_mul, fx_mul_s, fx_neg, fx_neg_s, fx_ok, fx_sub, fx_sub_s,
    lemma_fx_mul_neg, lemma_fx_mul_nonneg, lemma_fx_mul_zero, lemma_sat_neg, sat,
};

verus! {

/// A two-dimensional vector of fixed-point scalars.
#[derive(Clone, Copy, PartialEq, Eq, Structural, Debug)]
pub struct Vect {
    pub x: i64,
    pub y: i64,
}

/// Mathematical view of a vector: a pair of integers.
pub ghost struct V2 {
    pub x: int,
    pub y: int,
}

impl View for Vect {
    type V = V2;

    open spec fn view(&self) -> V2 {
        V2 { x: self.x as int, y: self.y as int }
    }
}

/// Both components lie in the symmetric representable range.
pub open spec fn v2_ok(a: V2) -> bool {
    fx_ok(a.x) && fx_ok(a.y)
}

/// The zero vector, as a view.
pub open spec fn v2_zero() -> V2 {
    V2 { x: 0, y: 0 }
}

/// Component-wise saturating sum.
pub open spec fn v2_add(a: V2, b: V2) -> V2 {
    V2 { x: fx_add_s(a.x, b.x), y: fx_add_s(a.y, b.y) }
}

/// Component-wise saturating difference.
pub open spec fn v2_sub(a: V2, b: V2) -> V2 {
    V2 { x: fx_sub_s(a.x, b.x), y: fx_sub_s(a.y, b.y) }
}

/// Component-wise saturating negation.
pub open spec fn v2_neg(a: V2) -> V2 {
    V2 { x: fx_neg_s(a.x), y: fx_neg_s(a.y) }
}

/// Vector scaled by a fixed-point scalar.
pub open spec fn v2_scale(a: V2, k: int) -> V2 {
    V2 { x: fx_mul_s(a.x, k), y: fx_mul_s(a.y, k) }
}

/// Saturating dot product.
pub open spec fn v2_dot(a: V2, b: V2) -> int {
    sat(fx_mul_s(a.x, b.x) + fx_mul_s(a.y, b.y))
}

/// Saturating squared norm.
pub open spec fn v2_norm_squared(a: V2) -> int {
    v2_dot(a, a)
}

impl Vect {
    /// The zero vector.
    pub fn zero() -> (r: Vect)
        ensures
            r@ == v2_zero(),
    {
        Vect { x: 0, y: 0 }
    }

    /// Vector sum.
    pub fn add(self, other: Vect) -> (r: Vect)
        ensures
            r@ == v2_add(self@, other@),
    {
        Vect { x: fx_add(self.x, other.x), y: fx_add(self.y, other.y) }
    }

    /// Vector difference.
    pub fn sub(self, other: Vect) -> (r: Vect)
        ensures
            r@ == v2_sub(self@, other@),
    {
        Vect { x: fx_sub(self.x, other.x), y: fx_sub(self.y, other.y) }
    }

    /// Vector negation.
    pub fn neg(self) -> (r: Vect)
        ensures
            r@ == v2_neg(self@),
    {
        Vect { x: fx_neg(self.x), y: fx_neg(self.y) }
    }

    /// Vector scaled by a scalar.
    pub fn scale(self, k: i64) -> (r: Vect)
        ensures
            r@ == v2_scale(self@, k as int),
    {
        Vect { x: fx_mul(self.x, k), y: fx_mul(self.y, k) }
    }

    /// Dot product.
    pub fn dot(self, other: Vect) -> (r: i64)
        ensures
            r as int == v2_dot(self@, other@),
    {
        fx_add(fx_mul(self.x, other.x), fx_mul(self.y, other.y))
    }

    /// Squared norm; never negative.
    pub fn norm_squared(self) -> (r: i64)
        ensures
            r as int == v2_norm_squared(self@),
            r >= 0,
    {
        proof {
            lemma_v2_norm_squared_nonneg(self@);
        }
        self.dot(self)
    }
}

/// A squared norm is non-negative.
pub proof fn lemma_v2_norm_squared_nonneg(a: V2)
    ensures
        v2_norm_squared(a) >= 0,
{
    lemma_fx_mul_nonneg(a.x, a.x);
    lemma_fx_mul_nonneg(a.y, a.y);
}

/// Negating a vector negates every saturating combination built from it.
pub proof fn lemma_v2_neg_props(a: V2, b: V2, k: int)
    requires
        v2_ok(a),
        v2_ok(b),
    ensures
        v2_sub(b, a) == v2_neg(v2_sub(a, b)),
        v2_scale(v2_neg(a), k) == v2_neg(v2_scale(a, k)),
        v2_dot(v2_neg(a), v2_neg(b)) == v2_dot(a, b),
        v2_norm_squared(v2_neg(a)) == v2_norm_squared(a),
        v2_add(v2_neg(a), v2_neg(b)) == v2_neg(v2_add(a, b)),
{
    lemma_sat_neg(a.x - b.x);
    lemma_sat_neg(a.y - b.y);
    lemma_sat_neg(a.x + b.x);
    lemma_sat_neg(a.y + b.y);
    lemma_fx_mul_neg(a.x, k);
    lemma_fx_mul_neg(a.y, k);
    lemma_fx_mul_neg(a.x, b.x);
    lemma_fx_mul_neg(a.y, b.y);
    lemma_fx_mul_neg(-a.x, b.x);
    lemma_fx_mul_neg(-a.y, b.y);
    lemma_fx_mul_neg(a.x, a.x);
    lemma_fx_mul_neg(-a.x, a.x);
    lemma_fx_mul_neg(a.y, a.y);
    lemma_fx_mul_neg(-a.y, a.y);
    lemma_sat_neg(-a.x);
    lemma_sat_neg(-a.y);
}

} // verus!
