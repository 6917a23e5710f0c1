//! Three-component vectors of fixed-point scalars, with their mathematical
//! view `V3` over unbounded integers.

use vstd::prelude::*;
use crate::fx::{SCALE, sp_fmul, tdiv, fmul, lemma_fmul_le, lemma_tdiv_abs};

verus! {

/// A vector in world or body coordinates; each component is a fixed-point
/// scalar (nine decimal places).
#[derive(Clone, Copy, Debug, PartialEq, Eq)]
pub struct Vec3 {
    pub x: i128,
    pub y: i128,
    pub z: i128,
}

/// Mathematical view of a vector: three unbounded integers in fixed-point
/// units.
pub struct V3 {
    pub x: int,
    pub y: int,
    pub z: int,
}

impl View for Vec3 {
    type V = V3;

    open spec fn view(&self) -> V3 {
        V3 { x: self.x as int, y: self.y as int, z: self.z as int }
    }
}

/// Shorthand constructor for the view.
pub open spec fn v3(x: int, y: int, z: int) -> V3 {
    V3 { x, y, z }
}

/// The zero vector.
pub open spec fn v3_zero() -> V3 {
    V3 { x: 0, y: 0, z: 0 }
}

/// Every component within `m` of zero.
pub open spec fn vwithin(v: V3, m: int) -> bool {
    &&& -m <= v.x <= m
    &&& -m <= v.y <= m
    &&& -m <= v.z <= m
}

/// Componentwise sum.
pub open spec fn sp_add3(a: V3, b: V3) -> V3 {
    V3 { x: a.x + b.x, y: a.y + b.y, z: a.z + b.z }
}

/// Componentwise negation.
pub open spec fn sp_neg3(v: V3) -> V3 {
    V3 { x: -v.x, y: -v.y, z: -v.z }
}

/// Vector scaled by a fixed-point scalar.
pub open spec fn sp_scale3(v: V3, s: int) -> V3 {
    V3 { x: sp_fmul(v.x, s), y: sp_fmul(v.y, s), z: sp_fmul(v.z, s) }
}

/// Fixed-point dot product.
pub open spec fn sp_dot3(a: V3, b: V3) -> int {
    sp_fmul(a.x, b.x) + sp_fmul(a.y, b.y) + sp_fmul(a.z, b.z)
}

/// Squared length in squared fixed-point units (no rescaling).
pub open spec fn sp_len2(v: V3) -> int {
    v.x * v.x + v.y * v.y + v.z * v.z
}

/// The squared length vanishes exactly on the zero vector.
pub proof fn lemma_len2_zero(v: V3)
    ensures
        sp_len2(v) == 0 <==> v == v3_zero(),
        sp_len2(v) >= 0,
{
    assert(v.x * v.x >= 0) by (nonlinear_arith);
    assert(v.y * v.y >= 0) by (nonlinear_arith);
    assert(v.z * v.z >= 0) by (nonlinear_arith);
    if v.x != 0 {
        assert(v.x * v.x > 0) by (nonlinear_arith)
            requires
                v.x != 0,
        ;
    }
    if v.y != 0 {
        assert(v.y * v.y > 0) by (nonlinear_arith)
            requires
                v.y != 0,
        ;
    }
    if v.z != 0 {
        assert(v.z * v.z > 0) by (nonlinear_arith)
            requires
                v.z != 0,
        ;
    }
}

/// Bounds on two vectors bound their fixed-point dot product.
pub proof fn lemma_dot3_le(a: V3, b: V3, ma: int, mb: int)
    requires
        0 <= ma,
        0 <= mb,
        vwithin(a, ma),
        vwithin(b, mb),
    ensures
        -3 * ((ma * mb) / (SCALE as int)) <= sp_dot3(a, b) <= 3 * ((ma * mb) / (SCALE as int)),
{
    lemma_fmul_le(a.x, b.x, ma, mb);
    lemma_fmul_le(a.y, b.y, ma, mb);
    lemma_fmul_le(a.z, b.z, ma, mb);
}

impl Vec3 {
    /// Build a vector from its components.
    pub fn new(x: i128, y: i128, z: i128) -> (r: Vec3)
        ensures
            r@ == v3(x as int, y as int, z as int),
    {
        Vec3 { x, y, z }
    }

    /// The zero vector.
    pub fn zero() -> (r: Vec3)
        ensures
            r@ == v3_zero(),
    {
        Vec3 { x: 0, y: 0, z: 0 }
    }

    /// Componentwise sum.
    pub fn add3(self, o: Vec3) -> (r: Vec3)
        requires
            -(i128::MAX as int) <= self@.x + o@.x <= i128::MAX as int,
            -(i128::MAX as int) <= self@.y + o@.y <= i128::MAX as int,
            -(i128::MAX as int) <= self@.z + o@.z <= i128::MAX as int,
        ensures
            r@ == sp_add3(self@, o@),
    {
        Vec3 { x: self.x + o.x, y: self.y + o.y, z: self.z + o.z }
    }

    /// Componentwise negation.
    pub fn neg3(self) -> (r: Vec3)
        requires
            -(i128::MAX as int) <= self@.x <= i128::MAX as int,
            -(i128::MAX as int) <= self@.y <= i128::MAX as int,
            -(i128::MAX as int) <= self@.z <= i128::MAX as int,
        ensures
            r@ == sp_neg3(self@),
    {
        Vec3 { x: -self.x, y: -self.y, z: -self.z }
    }

    /// Scale by a fixed-point scalar.
    pub fn scale3(self, s: i128) -> (r: Vec3)
        requires
            -(i128::MAX as int) <= self@.x * s <= i128::MAX as int,
            -(i128::MAX as int) <= self@.y * s <= i128::MAX as int,
            -(i128::MAX as int) <= self@.z * s <= i128::MAX as int,
        ensures
            r@ == sp_scale3(self@, s as int),
    {
        Vec3 { x: fmul(self.x, s), y: fmul(self.y, s), z: fmul(self.z, s) }
    }

    /// Fixed-point dot product; the bounds keep every term and the sum in
    /// range.
    pub fn dot3(self, o: Vec3, m: Ghost<int>) -> (r: i128)
        requires
            0 <= m@,
            m@ * m@ <= i128::MAX as int,
            vwithin(self@, m@),
            vwithin(o@, m@),
        ensures
            r as int == sp_dot3(self@, o@),
    {
        proof {
            lemma_fmul_le(self@.x, o@.x, m@, m@);
            lemma_fmul_le(self@.y, o@.y, m@, m@);
            lemma_fmul_le(self@.z, o@.z, m@, m@);
            vstd::arithmetic::div_mod::lemma_div_is_ordered(
                m@ * m@,
                i128::MAX as int,
                SCALE as int,
            );
        }
        let a: i128 = fmul(self.x, o.x);
        let b: i128 = fmul(self.y, o.y);
        let c: i128 = fmul(self.z, o.z);
        a + b + c
    }
}

} // verus!
