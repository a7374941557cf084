//! 2D world vectors over fixed-point components, with the component-wise
//! spec forms that the physics contracts are written in.

use vstd::prelude::*;
use vstd::arithmetic::div_mod::lemma_div_pos_is_pos;
use crate::fixed::{Fx, SCALE, fx_add_s, fx_sub_s, fx_neg_s, fx_mul_s, fx_div_s, fx_sqrt_s};

verus! {

/// A 2D vector of fixed-point scalars.
#[derive(Clone, Copy, PartialEq, Eq, Structural, Debug)]
pub struct Vec2 {
    pub x: Fx,
    pub y: Fx,
}

impl View for Vec2 {
    type V = (int, int);

    open spec fn view(&self) -> (int, int) {
        (self.x@, self.y@)
    }
}

/// Component-wise fixed-point vector addition.
pub open spec fn add2(a: (int, int), b: (int, int)) -> (int, int) {
    (fx_add_s(a.0, b.0), fx_add_s(a.1, b.1))
}

/// Component-wise fixed-point vector subtraction.
pub open spec fn sub2(a: (int, int), b: (int, int)) -> (int, int) {
    (fx_sub_s(a.0, b.0), fx_sub_s(a.1, b.1))
}

/// Component-wise fixed-point vector negation.
pub open spec fn neg2(a: (int, int)) -> (int, int) {
    (fx_neg_s(a.0), fx_neg_s(a.1))
}

/// A vector scaled by a fixed-point scalar.
pub open spec fn scale2(a: (int, int), k: int) -> (int, int) {
    (fx_mul_s(a.0, k), fx_mul_s(a.1, k))
}

/// A vector divided by a fixed-point scalar.
pub open spec fn div2(a: (int, int), k: int) -> (int, int) {
    (fx_div_s(a.0, k), fx_div_s(a.1, k))
}

/// The squared length of a vector, in fixed point.
pub open spec fn len_sq2(a: (int, int)) -> int {
    fx_add_s(fx_mul_s(a.0, a.0), fx_mul_s(a.1, a.1))
}

/// The length of a vector, in fixed point (rounded down).
pub open spec fn len2(a: (int, int)) -> int {
    fx_sqrt_s(len_sq2(a))
}

/// A fixed-point square is never negative.
pub proof fn lemma_square_nonneg(a: int)
    ensures
        fx_mul_s(a, a) >= 0,
{
    assert(a * a >= 0) by (nonlinear_arith) {}
    lemma_div_pos_is_pos(a * a, SCALE as int);
}

/// A squared length is never negative, so its square root is defined.
pub proof fn lemma_len_sq2_nonneg(a: (int, int))
    ensures
        len_sq2(a) >= 0,
{
    lemma_square_nonneg(a.0);
    lemma_square_nonneg(a.1);
}

impl Vec2 {
    /// Build a vector from its components.
    pub fn new(x: Fx, y: Fx) -> (r: Vec2)
        ensures
            r@ == (x@, y@),
    {
        Vec2 { x, y }
    }

    /// The zero vector.
    pub fn zero() -> (r: Vec2)
        ensures
            r@ == (0int, 0int),
    {
        Vec2 { x: Fx::zero(), y: Fx::zero() }
    }

    /// Component-wise saturating addition.
    pub fn add(self, other: Vec2) -> (r: Vec2)
        ensures
            r@ == add2(self@, other@),
    {
        Vec2 { x: self.x.add(other.x), y: self.y.add(other.y) }
    }

    /// Component-wise saturating subtraction.
    pub fn sub(self, other: Vec2) -> (r: Vec2)
        ensures
            r@ == sub2(self@, other@),
    {
        Vec2 { x: self.x.sub(other.x), y: self.y.sub(other.y) }
    }

    /// Component-wise saturating negation.
    pub fn neg(self) -> (r: Vec2)
        ensures
            r@ == neg2(self@),
    {
        Vec2 { x: self.x.neg(), y: self.y.neg() }
    }

    /// Scale by a fixed-point scalar.
    pub fn scale(self, k: Fx) -> (r: Vec2)
        ensures
            r@ == scale2(self@, k@),
    {
        Vec2 { x: self.x.mul(k), y: self.y.mul(k) }
    }

    /// Divide by a positive fixed-point scalar.
    pub fn div_scalar(self, k: Fx) -> (r: Vec2)
        requires
            k@ > 0,
        ensures
            r@ == div2(self@, k@),
    {
        Vec2 { x: self.x.div(k), y: self.y.div(k) }
    }

    /// The squared length of this vector.
    pub fn length_squared(self) -> (r: Fx)
        ensures
            r@ == len_sq2(self@),
            r@ >= 0,
    {
        proof {
            lemma_len_sq2_nonneg(self@);
        }
        self.x.mul(self.x).add(self.y.mul(self.y))
    }

    /// The length of this vector, rounded down.
    pub fn length(self) -> (r: Fx)
        ensures
            r@ == len2(self@),
    {
        self.length_squared().sqrt()
    }
}

} // verus!
